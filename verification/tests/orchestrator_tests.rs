use launcher::commands::{Arg, CommandSpec};
use launcher::config::Config;
use launcher::orchestrator::{BuildCache, BuildError, BuildOrchestrator};
use launcher::paths::LocalPath;

fn orchestrator(force: bool) -> BuildOrchestrator {
    let mut config = Config::with_defaults(Some("/data"));
    config.force_rebuild = force;
    BuildOrchestrator::new(config)
}

fn cache(marker: bool, cached: Option<&str>, source: Option<&str>) -> BuildCache {
    BuildCache {
        marker_present: marker,
        cached_version: cached.map(|s| s.to_string()),
        source_version: source.map(|s| s.to_string()),
    }
}

fn engine() -> LocalPath {
    LocalPath::new("/data").join("AAAEngine").join("engine")
}

fn show(arg: &Arg) -> String {
    match arg {
        Arg::Text(t) => t.clone(),
        Arg::Path(p) => {
            let mut s = format!("<{}>", p.root);
            for part in &p.parts {
                s.push('/');
                s.push_str(part);
            }
            s
        }
    }
}

fn shown(command: &CommandSpec) -> Vec<String> {
    let mut words = vec![show(&command.program)];
    words.extend(command.args.iter().map(show));
    words
}

fn environment(command: &CommandSpec) -> Vec<(String, String)> {
    command.env.iter().map(|v| (v.name.clone(), show(&v.value))).collect()
}

#[test]
fn rebuild_is_due_without_a_completed_build() {
    let o = orchestrator(false);
    assert!(o.needs_rebuild(&cache(false, Some("1.2"), Some("1.2"))));
    assert!(o.needs_rebuild(&cache(true, None, Some("1.2"))));
    assert!(o.needs_rebuild(&cache(false, None, None)));
    assert!(!o.check_build_cache(&cache(false, Some("1"), Some("1"))));
    assert!(o.check_build_cache(&cache(true, None, None)));
}

#[test]
fn rebuild_is_due_when_versions_differ() {
    let o = orchestrator(false);
    assert!(!o.needs_rebuild(&cache(true, Some("1.2"), Some("1.2"))));
    assert!(!o.needs_rebuild(&cache(true, Some("1.2\n"), Some("  1.2\r\n"))));
    assert!(o.needs_rebuild(&cache(true, Some("1.2"), Some("1.3"))));
    assert!(o.needs_rebuild(&cache(true, Some("1.2"), None)));
    assert!(!o.needs_rebuild(&cache(true, Some("unknown\n"), None)));
    assert!(o.needs_rebuild(&cache(true, Some("1 2"), Some("12"))));
}

#[test]
fn forced_rebuild_is_always_due() {
    let o = orchestrator(true);
    assert!(o.needs_rebuild(&cache(true, Some("1.2"), Some("1.2"))));
}

#[test]
fn saved_build_is_found_cached() {
    let o = orchestrator(false);
    let source = Some("2.0.1\n".to_string());
    let writes = o.save_build_version(&source);
    assert_eq!(writes.len(), 2);
    assert!(writes[0].path.same_as(&engine().join(".build_version")));
    assert_eq!(writes[0].content, "2.0.1\n");
    assert!(writes[1]
        .path
        .same_as(&engine().join("target").join("release").join(".build_complete")));
    assert_eq!(writes[1].content, "complete");
    let after = BuildCache {
        marker_present: true,
        cached_version: Some(writes[0].content.clone()),
        source_version: source,
    };
    assert!(!o.needs_rebuild(&after));
    let unversioned = o.save_build_version(&None);
    assert_eq!(unversioned[0].content, "unknown");
}

#[test]
fn marker_files_lie_in_the_engine_tree() {
    let o = orchestrator(false);
    assert!(o.build_version_file().same_as(&engine().join(".build_version")));
    assert!(o.source_version_file().same_as(&engine().join("VERSION")));
    assert!(o.build_script().same_as(&engine().join("build-orchestrator.ps1")));
    assert_eq!(BuildOrchestrator::get_source_version(&None), "unknown");
    assert_eq!(BuildOrchestrator::get_source_version(&Some(" 3 ".to_string())), " 3 ");
}

#[test]
fn build_command_runs_the_script_in_the_engine_tree() {
    let o = orchestrator(false);
    assert_eq!(o.run_build(false).err(), Some(BuildError::ScriptNotFound));
    let command = o.run_build(true).unwrap();
    assert_eq!(
        shown(&command),
        vec![
            "powershell.exe",
            "-NoProfile",
            "-ExecutionPolicy",
            "Bypass",
            "-File",
            "</data>/AAAEngine/engine/build-orchestrator.ps1",
            "-InstallDir",
            "</data>/AAAEngine/engine",
        ]
    );
    assert_eq!(
        environment(&command),
        vec![
            ("O3DE_HOME".to_string(), "</data>/AAAEngine/o3de".to_string()),
            ("VULKAN_SDK".to_string(), "</data>/AAAEngine/deps/VulkanSDK\\1.3.290.0".to_string()),
            ("TRACY_DIR".to_string(), "</data>/AAAEngine/deps/tracy-0.11.1".to_string()),
        ]
    );
    assert!(command.dir.unwrap().same_as(&engine()));
}

#[test]
fn build_result_reports_the_exit_code() {
    assert_eq!(BuildOrchestrator::build_result(true, Some(0)), Ok(()));
    assert_eq!(
        BuildOrchestrator::build_result(false, Some(3)),
        Err(BuildError::BuildFailed(Some(3)))
    );
    assert_eq!(
        BuildOrchestrator::build_result(false, None),
        Err(BuildError::BuildFailed(None))
    );
}

#[test]
fn launch_needs_the_executable() {
    let o = orchestrator(false);
    assert_eq!(o.launch_game(false).err(), Some(BuildError::GameNotFound));
    let command = o.launch_game(true).unwrap();
    assert_eq!(shown(&command), vec!["</data>/AAAEngine/engine/target/release/aaa-mmorpg.exe"]);
    assert_eq!(
        environment(&command),
        vec![
            ("O3DE_HOME".to_string(), "</data>/AAAEngine/o3de".to_string()),
            ("VULKAN_SDK".to_string(), "</data>/AAAEngine/deps/VulkanSDK\\1.3.290.0".to_string()),
        ]
    );
    assert!(command.dir.unwrap().same_as(&engine()));
}

#[test]
fn render_fabric_is_configured_then_built() {
    let o = orchestrator(false);
    let commands = o.build_render_fabric();
    assert_eq!(commands.len(), 2);
    assert_eq!(
        shown(&commands[0]),
        vec!["cmake", "..", "-DCMAKE_BUILD_TYPE=Release", "-DBUILD_VALIDATION_TESTS=ON"]
    );
    assert_eq!(environment(&commands[0]).len(), 1);
    assert_eq!(environment(&commands[0])[0].0, "VULKAN_SDK");
    assert_eq!(shown(&commands[1]), vec!["cmake", "--build", ".", "--config", "Release", "-j"]);
    assert!(environment(&commands[1]).is_empty());
    let build_dir = engine().join("atom-bridge").join("cpp").join("build");
    assert!(o.bridge_build_dir().same_as(&build_dir));
    for command in &commands {
        assert!(command.dir.as_ref().unwrap().same_as(&build_dir));
    }
}

#[test]
fn validation_tests_prefer_the_windows_name() {
    let o = orchestrator(false);
    let bin = "</data>/AAAEngine/engine/atom-bridge/cpp/build/bin";
    let both = o.run_validation_tests(true, true).unwrap();
    assert_eq!(shown(&both), vec![format!("{}/validation_test.exe", bin)]);
    let plain = o.run_validation_tests(false, true).unwrap();
    assert_eq!(shown(&plain), vec![format!("{}/validation_test", bin)]);
    assert_eq!(environment(&plain).len(), 1);
    assert!(plain.dir.is_none());
    assert_eq!(
        o.run_validation_tests(false, false).err(),
        Some(BuildError::ValidationTestNotFound)
    );
}
