use launcher::paths::LocalPath;
use launcher::pipeline::{Directive, Pipeline, StageOutcome};
use launcher::state_machine::{LauncherState, StateMachine};

fn machine_at(recorded: Option<LauncherState>) -> StateMachine {
    StateMachine::resume(&LocalPath::new("/srv/app"), recorded)
}

#[test]
fn full_run_executes_every_stage_once_in_order() {
    let mut machine = machine_at(None);
    let pipeline = Pipeline::new(false);
    let mut executed = Vec::new();
    let mut directive = pipeline.advance(&mut machine, StageOutcome::Begin);
    while let Directive::Run(stage) = directive {
        assert_eq!(machine.current(), stage);
        executed.push(stage);
        directive = pipeline.advance(&mut machine, StageOutcome::Succeeded);
    }
    assert_eq!(directive, Directive::Finished);
    assert_eq!(
        executed,
        vec![
            LauncherState::Init,
            LauncherState::SelfUpdate,
            LauncherState::DependencyAudit,
            LauncherState::Sync,
            LauncherState::Build,
            LauncherState::Launch,
        ]
    );
    assert_eq!(machine.current(), LauncherState::Complete);
    assert_eq!(machine.saved_state(), None);
}

#[test]
fn resume_after_crash_goes_on_at_build() {
    let mut first = machine_at(None);
    let pipeline = Pipeline::new(false);
    let mut directive = pipeline.advance(&mut first, StageOutcome::Begin);
    while directive != Directive::Run(LauncherState::Build) {
        directive = pipeline.advance(&mut first, StageOutcome::Succeeded);
    }
    let on_disk = first.saved_state();
    assert_eq!(on_disk, Some(LauncherState::Build));

    let mut second = machine_at(on_disk);
    let mut executed = Vec::new();
    let mut directive = pipeline.advance(&mut second, StageOutcome::Begin);
    while let Directive::Run(stage) = directive {
        executed.push(stage);
        directive = pipeline.advance(&mut second, StageOutcome::Succeeded);
    }
    assert_eq!(executed, vec![LauncherState::Build, LauncherState::Launch]);
}

#[test]
fn run_from_complete_starts_at_init() {
    let mut machine = machine_at(Some(LauncherState::Complete));
    let pipeline = Pipeline::new(false);
    assert_eq!(
        pipeline.advance(&mut machine, StageOutcome::Begin),
        Directive::Run(LauncherState::Init)
    );
    let mut forced = machine_at(None);
    forced.set_state(LauncherState::Complete);
    assert_eq!(
        pipeline.advance(&mut forced, StageOutcome::Begin),
        Directive::Run(LauncherState::Init)
    );
    assert_eq!(forced.saved_state(), Some(LauncherState::Init));
}

#[test]
fn failure_halts_and_is_recorded() {
    let mut machine = machine_at(Some(LauncherState::Sync));
    let pipeline = Pipeline::new(false);
    assert_eq!(
        pipeline.advance(&mut machine, StageOutcome::Begin),
        Directive::Run(LauncherState::Sync)
    );
    assert_eq!(pipeline.advance(&mut machine, StageOutcome::Failed), Directive::Halted);
    assert_eq!(machine.current(), LauncherState::Failed);
    assert_eq!(machine.saved_state(), Some(LauncherState::Failed));
}

#[test]
fn failed_run_is_reset_before_retrying() {
    let mut machine = machine_at(Some(LauncherState::Failed));
    let pipeline = Pipeline::new(false);
    assert_eq!(
        pipeline.advance(&mut machine, StageOutcome::Begin),
        Directive::Run(LauncherState::Init)
    );
    assert_eq!(machine.current(), LauncherState::Init);
    assert_eq!(machine.saved_state(), Some(LauncherState::Init));
}

#[test]
fn dry_run_stops_after_the_audit() {
    let mut machine = machine_at(None);
    let pipeline = Pipeline::new(true);
    let mut executed = Vec::new();
    let mut directive = pipeline.advance(&mut machine, StageOutcome::Begin);
    while let Directive::Run(stage) = directive {
        executed.push(stage);
        directive = pipeline.advance(&mut machine, StageOutcome::Succeeded);
    }
    assert_eq!(directive, Directive::Finished);
    assert_eq!(
        executed,
        vec![LauncherState::Init, LauncherState::SelfUpdate, LauncherState::DependencyAudit]
    );
    assert_eq!(machine.current(), LauncherState::Complete);
    assert_eq!(machine.saved_state(), None);
}

#[test]
fn dry_run_resumed_at_sync_finishes_at_once() {
    let mut machine = machine_at(Some(LauncherState::Sync));
    let pipeline = Pipeline::new(true);
    assert_eq!(pipeline.advance(&mut machine, StageOutcome::Begin), Directive::Finished);
    assert_eq!(machine.saved_state(), None);
}

#[test]
fn begin_leaves_the_saved_stage_alone() {
    let mut machine = machine_at(None);
    let pipeline = Pipeline::new(false);
    assert_eq!(
        pipeline.advance(&mut machine, StageOutcome::Begin),
        Directive::Run(LauncherState::Init)
    );
    assert_eq!(machine.saved_state(), None);
    assert_eq!(
        pipeline.advance(&mut machine, StageOutcome::Succeeded),
        Directive::Run(LauncherState::SelfUpdate)
    );
    assert_eq!(machine.saved_state(), Some(LauncherState::SelfUpdate));
}
