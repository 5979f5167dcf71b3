use launcher::config::{Config, DEFAULT_SERVER_URL, LAUNCHER_VERSION};
use launcher::paths::LocalPath;

fn names(path: &LocalPath) -> Vec<&str> {
    path.parts.iter().map(|p| p.as_str()).collect()
}

fn stored() -> Config {
    Config {
        server_url: "https://stored.example".to_string(),
        install_dir: LocalPath::new("D:\\Games\\Engine"),
        o3de_version: "1".to_string(),
        vulkan_version: "1.3.1".to_string(),
        tracy_version: "0.9".to_string(),
        force_rebuild: true,
        skip_update: true,
        verbose: false,
    }
}

#[test]
fn defaults_of_a_fresh_installation() {
    let config = Config::with_defaults(Some("/home/u/.local/share"));
    assert_eq!(config.server_url, DEFAULT_SERVER_URL);
    assert_eq!(config.server_url, "https://aaa-mmorpg-engine-danielbodnar2.replit.app");
    assert_eq!(config.install_dir.root, "/home/u/.local/share");
    assert_eq!(names(&config.install_dir), vec!["AAAEngine"]);
    assert_eq!(config.o3de_version, "2510.1");
    assert_eq!(config.vulkan_version, "1.3.290.0");
    assert_eq!(config.tracy_version, "0.11.1");
    assert!(!config.force_rebuild && !config.skip_update && !config.verbose);
    assert_eq!(LAUNCHER_VERSION, "1.0.0");
}

#[test]
fn defaults_fall_back_to_the_system_drive() {
    let config = Config::with_defaults(None);
    assert_eq!(config.install_dir.root, "C:\\");
    assert_eq!(names(&config.install_dir), vec!["AAAEngine"]);
    let path = Config::config_path(None);
    assert_eq!(path.root, "C:\\");
    assert_eq!(names(&path), vec!["AAAEngine", "launcher_config.json"]);
    let path = Config::config_path(Some("/data"));
    assert_eq!(path.root, "/data");
}

#[test]
fn directories_lie_below_the_install_dir() {
    let config = stored();
    for (dir, name) in [
        (config.deps_dir(), "deps"),
        (config.o3de_dir(), "o3de"),
        (config.engine_dir(), "engine"),
        (config.logs_dir(), "logs"),
        (config.server_url_file(), "server_url.txt"),
    ] {
        assert_eq!(dir.root, "D:\\Games\\Engine");
        assert_eq!(names(&dir), vec![name]);
    }
    assert_eq!(names(&config.vulkan_sdk_dir()), vec!["deps", "VulkanSDK\\1.3.1"]);
    assert_eq!(names(&config.tracy_dir()), vec!["deps", "tracy-0.9"]);
}

#[test]
fn load_keeps_the_stored_configuration() {
    let config = Config::load(Some(stored()), Some("/ignored"), None, None);
    assert_eq!(config.server_url, "https://stored.example");
    assert_eq!(config.install_dir.root, "D:\\Games\\Engine");
    assert_eq!(config.o3de_version, "1");
    assert_eq!(config.vulkan_version, "1.3.1");
    assert_eq!(config.tracy_version, "0.9");
    assert!(config.force_rebuild && config.skip_update && !config.verbose);
}

#[test]
fn load_without_stored_configuration_uses_defaults() {
    let config = Config::load(None, Some("/data"), None, None);
    assert_eq!(config.server_url, DEFAULT_SERVER_URL);
    assert_eq!(config.install_dir.root, "/data");
    assert_eq!(names(&config.install_dir), vec!["AAAEngine"]);
}

#[test]
fn override_file_is_trimmed_and_replaces_the_server() {
    let config = Config::load(Some(stored()), None, Some("  https://file.example \r\n"), None);
    assert_eq!(config.server_url, "https://file.example");
    let config = Config::load(Some(stored()), None, Some(" \n\t"), None);
    assert_eq!(config.server_url, "https://stored.example");
    let config = Config::load(Some(stored()), None, Some(""), None);
    assert_eq!(config.server_url, "https://stored.example");
}

#[test]
fn override_variable_takes_precedence() {
    let config = Config::load(
        Some(stored()),
        None,
        Some("https://file.example"),
        Some("https://env.example"),
    );
    assert_eq!(config.server_url, "https://env.example");
    let config = Config::load(Some(stored()), None, Some("https://file.example"), Some(""));
    assert_eq!(config.server_url, "https://file.example");
    let config = Config::load(Some(stored()), None, None, Some(" https://env.example "));
    assert_eq!(config.server_url, " https://env.example ");
    let config = Config::load(None, None, None, Some("https://env.example"));
    assert_eq!(config.server_url, "https://env.example");
}

#[test]
fn duplicate_copies_every_value() {
    let copy = stored().duplicate();
    let source = stored();
    assert_eq!(copy.server_url, source.server_url);
    assert!(copy.install_dir.same_as(&source.install_dir));
    assert_eq!(copy.o3de_version, source.o3de_version);
    assert_eq!(copy.vulkan_version, source.vulkan_version);
    assert_eq!(copy.tracy_version, source.tracy_version);
    assert_eq!(copy.force_rebuild, source.force_rebuild);
    assert_eq!(copy.skip_update, source.skip_update);
    assert_eq!(copy.verbose, source.verbose);
}
