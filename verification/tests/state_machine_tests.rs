use launcher::paths::LocalPath;
use launcher::state_machine::{load_state, render_state_file, LauncherState, StateMachine};

const ALL: [LauncherState; 8] = [
    LauncherState::Init,
    LauncherState::SelfUpdate,
    LauncherState::DependencyAudit,
    LauncherState::Sync,
    LauncherState::Build,
    LauncherState::Launch,
    LauncherState::Complete,
    LauncherState::Failed,
];

fn install_dir() -> LocalPath {
    LocalPath::new("/tmp/install")
}

#[test]
fn every_stage_has_its_successor() {
    assert_eq!(LauncherState::Init.next(), Some(LauncherState::SelfUpdate));
    assert_eq!(LauncherState::SelfUpdate.next(), Some(LauncherState::DependencyAudit));
    assert_eq!(LauncherState::DependencyAudit.next(), Some(LauncherState::Sync));
    assert_eq!(LauncherState::Sync.next(), Some(LauncherState::Build));
    assert_eq!(LauncherState::Build.next(), Some(LauncherState::Launch));
    assert_eq!(LauncherState::Launch.next(), Some(LauncherState::Complete));
    assert_eq!(LauncherState::Complete.next(), None);
    assert_eq!(LauncherState::Failed.next(), None);
}

#[test]
fn step_numbers_follow_the_order() {
    let numbers: Vec<u8> = ALL.iter().map(|s| s.step_number()).collect();
    assert_eq!(numbers, vec![0, 1, 2, 3, 4, 5, 6, 0]);
    assert_eq!(LauncherState::total_steps(), 6);
}

#[test]
fn labels_are_the_words_shown() {
    let labels: Vec<String> = ALL.iter().map(|s| s.to_string()).collect();
    assert_eq!(
        labels,
        vec![
            "Initializing",
            "Checking for Updates",
            "Verifying Dependencies",
            "Syncing Files",
            "Building Engine",
            "Launching Game",
            "Complete",
            "Failed",
        ]
    );
}

#[test]
fn names_identify_stages() {
    let names = [
        "Init",
        "SelfUpdate",
        "DependencyAudit",
        "Sync",
        "Build",
        "Launch",
        "Complete",
        "Failed",
    ];
    for (stage, name) in ALL.iter().zip(names.iter()) {
        assert_eq!(stage.name(), *name);
        assert_eq!(LauncherState::from_name(name), Some(*stage));
    }
    assert_eq!(LauncherState::from_name("init"), None);
    assert_eq!(LauncherState::from_name(""), None);
    assert_eq!(LauncherState::from_name("Syncing Files"), None);
}

#[test]
fn transition_walks_the_happy_path() {
    let mut machine = StateMachine::new(&install_dir(), None);
    assert_eq!(machine.current(), LauncherState::Init);
    assert_eq!(machine.saved_state(), None);
    let expected = [
        LauncherState::SelfUpdate,
        LauncherState::DependencyAudit,
        LauncherState::Sync,
        LauncherState::Build,
        LauncherState::Launch,
        LauncherState::Complete,
    ];
    for stage in expected {
        assert_eq!(machine.transition(), Some(stage));
        assert_eq!(machine.current(), stage);
        assert_eq!(machine.saved_state(), Some(stage));
    }
    assert_eq!(machine.transition(), None);
    assert_eq!(machine.current(), LauncherState::Complete);
    assert_eq!(machine.saved_state(), Some(LauncherState::Complete));
}

#[test]
fn transition_from_failed_yields_nothing() {
    let mut machine = StateMachine::new(&install_dir(), None);
    machine.fail();
    assert_eq!(machine.current(), LauncherState::Failed);
    assert_eq!(machine.saved_state(), Some(LauncherState::Failed));
    assert_eq!(machine.transition(), None);
    assert_eq!(machine.current(), LauncherState::Failed);
}

#[test]
fn reset_and_set_state_are_saved() {
    let mut machine = StateMachine::new(&install_dir(), None);
    machine.set_state(LauncherState::Launch);
    assert_eq!(machine.current(), LauncherState::Launch);
    assert_eq!(machine.saved_state(), Some(LauncherState::Launch));
    machine.reset();
    assert_eq!(machine.current(), LauncherState::Init);
    assert_eq!(machine.saved_state(), Some(LauncherState::Init));
    machine.clear_saved_state();
    assert_eq!(machine.current(), LauncherState::Init);
    assert_eq!(machine.saved_state(), None);
    assert_eq!(machine.save_state(), None);
}

#[test]
fn state_file_lies_in_the_install_dir() {
    let machine = StateMachine::new(&install_dir(), None);
    let file = machine.state_file();
    assert_eq!(file.root, "/tmp/install");
    assert_eq!(file.parts, vec!["launcher_state.json".to_string()]);
}

#[test]
fn state_file_round_trip_resumes_at_saved_stage() {
    for stage in ALL {
        let text = render_state_file(stage, "2024-01-01T00:00:00+00:00").unwrap();
        assert_eq!(load_state(&text), Some(stage));
    }
    let text = render_state_file(LauncherState::Build, "2024-01-01T00:00:00+00:00").unwrap();
    assert_eq!(
        text,
        "{\n  \"state\": \"Build\",\n  \"timestamp\": \"2024-01-01T00:00:00+00:00\"\n}"
    );
    let machine = StateMachine::new(&install_dir(), Some(&text));
    assert_eq!(machine.current(), LauncherState::Build);
    assert_eq!(machine.saved_state(), Some(LauncherState::Build));
}

#[test]
fn saved_text_carries_stage_and_a_timestamp() {
    let mut machine = StateMachine::new(&install_dir(), None);
    machine.set_state(LauncherState::Sync);
    let text = machine.save_state().unwrap();
    let value: serde_json::Value = serde_json::from_str(&text).unwrap();
    assert_eq!(value.get("state").and_then(|v| v.as_str()), Some("Sync"));
    let stamp = value.get("timestamp").and_then(|v| v.as_str()).unwrap();
    assert!(chrono::DateTime::parse_from_rfc3339(stamp).is_ok());
    assert_eq!(load_state(&text), Some(LauncherState::Sync));
}

#[test]
fn unusable_state_files_start_at_init() {
    let cases = [
        "",
        "not json",
        "{}",
        "{\"state\": 3}",
        "{\"state\": \"Nowhere\"}",
        "[\"Build\"]",
        "{\"State\": \"Build\"}",
    ];
    for text in cases {
        assert_eq!(load_state(text), None, "{}", text);
        let machine = StateMachine::new(&install_dir(), Some(text));
        assert_eq!(machine.current(), LauncherState::Init);
        assert_eq!(machine.saved_state(), None);
    }
}

#[test]
fn completed_run_starts_over() {
    let text = "{\"state\": \"Complete\", \"timestamp\": \"x\"}";
    assert_eq!(load_state(text), Some(LauncherState::Complete));
    let machine = StateMachine::new(&install_dir(), Some(text));
    assert_eq!(machine.current(), LauncherState::Init);
    assert_eq!(machine.saved_state(), Some(LauncherState::Init));
}

#[test]
fn failed_run_is_resumed_as_failed() {
    let text = "{\"state\": \"Failed\", \"timestamp\": \"x\"}";
    let machine = StateMachine::new(&install_dir(), Some(text));
    assert_eq!(machine.current(), LauncherState::Failed);
    let resumed = StateMachine::resume(&install_dir(), Some(LauncherState::Failed));
    assert_eq!(resumed.current(), LauncherState::Failed);
}
