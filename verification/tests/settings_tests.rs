use minlaunch::settings::Settings;
use minlaunch::strutil::join_path;
use minlaunch::strutil::str_contains;
use minlaunch::strutil::str_eq;

#[test]
fn defaults_match_first_run_state() {
    let s = Settings::default();
    assert!(s.install_path.is_none());
    assert_eq!(s.current_profile, 0);
    assert_eq!(s.download_sources, vec!["Anuken/Mindustry", "Anuken/MindustryBuilds"]);
    assert_eq!(s.minimize_on_launch, Some(true));
    assert_eq!(s.minimize_on_close, Some(true));
}

#[test]
fn known_bool_settings_are_changed() {
    let mut s = Settings::default();
    assert!(s.change_bool_setting("minimize_on_launch", false));
    assert_eq!(s.minimize_on_launch, Some(false));
    assert_eq!(s.minimize_on_close, Some(true));
    assert!(s.change_bool_setting("minimize_on_close", false));
    assert_eq!(s.minimize_on_close, Some(false));
}

#[test]
fn unknown_bool_setting_changes_nothing() {
    let mut s = Settings::default();
    assert!(!s.change_bool_setting("minimize_on_quit", false));
    assert_eq!(s.minimize_on_launch, Some(true));
    assert_eq!(s.minimize_on_close, Some(true));
}

#[test]
fn install_path_and_active_profile_mutations() {
    let mut s = Settings::default();
    s.set_install_path("/games/mindustry".to_owned());
    assert_eq!(s.install_path.as_deref(), Some("/games/mindustry"));
    s.set_current_profile(5);
    assert_eq!(s.current_profile, 5);
    // The other settings were kept.
    assert_eq!(s.install_path.as_deref(), Some("/games/mindustry"));
    assert_eq!(s.download_sources.len(), 2);
}

#[test]
fn settings_files_live_under_the_launcher_dir() {
    // The data directory depends on the environment; whenever the
    // platform defines one, the paths end with the fixed components.
    if let Some(dir) = Settings::settings_dir() {
        assert!(dir.ends_with("/minlaunch"));
    }
    if let Some(path) = Settings::settings_path() {
        assert!(path.ends_with("/settings.toml"));
    }
}

#[test]
fn string_helpers() {
    assert!(str_eq("abc", "abc"));
    assert!(!str_eq("abc", "abd"));
    assert!(!str_eq("abc", "abcd"));
    assert!(str_contains("a Desktop build", "Desktop"));
    assert!(str_contains("Desktop", "Desktop"));
    assert!(!str_contains("desk", "Desktop"));
    assert!(!str_contains("DeskTop", "Desktop"));
    assert!(str_contains("anything", ""));
    assert_eq!(join_path("/a", "b"), "/a/b");
}
