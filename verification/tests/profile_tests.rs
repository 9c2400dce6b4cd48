use minlaunch::profile::artifact_path;
use minlaunch::profile::game_dir;
use minlaunch::profile::new_profile;
use minlaunch::profile::next_profile_id;
use minlaunch::profile::profile_folder;
use minlaunch::profile::profiles_dir;
use minlaunch::profile::Profile;
use minlaunch::profile::ProfileSettings;
use minlaunch::strutil::i16_to_string;

#[test]
fn id_allocation_skips_gaps() {
    // Existing ids {0, 2, 5}: the next id is max + 1 = 6, never a gap.
    let ids: Vec<i16> = vec![0, 2, 5];
    assert_eq!(next_profile_id(&ids), 6);
}

#[test]
fn id_allocation_starts_at_zero() {
    let ids: Vec<i16> = vec![];
    assert_eq!(next_profile_id(&ids), 0);
}

#[test]
fn id_allocation_order_does_not_matter() {
    let ids: Vec<i16> = vec![5, 0, 2];
    assert_eq!(next_profile_id(&ids), 6);
}

#[test]
fn new_profile_has_stock_fields() {
    let ids: Vec<i16> = vec![0, 1];
    let p = new_profile(&ids);
    assert_eq!(p.settings.id, 2);
    assert_eq!(p.settings.name, "New Profile");
    assert!(!p.has_jar);
}

#[test]
fn rename_changes_only_the_name() {
    let mut p = Profile {
        settings: ProfileSettings { id: 4, name: "Old".to_owned() },
        has_jar: true,
    };
    p.apply_update(Some("Fresh".to_owned()));
    assert_eq!(p.settings.id, 4);
    assert_eq!(p.settings.name, "Fresh");
    assert!(p.has_jar);
    p.apply_update(None);
    assert_eq!(p.settings.name, "Fresh");
}

#[test]
fn profile_paths_are_laid_out_under_the_data_dir() {
    assert_eq!(profiles_dir("/data/minlaunch"), "/data/minlaunch/profiles");
    assert_eq!(profile_folder("/data/minlaunch", 12), "/data/minlaunch/profiles/12");
    assert_eq!(
        artifact_path("/data/minlaunch", 0),
        "/data/minlaunch/profiles/0/desktop.jar"
    );
    assert_eq!(game_dir("/data/minlaunch", 3), "/data/minlaunch/profiles/3/game");
}

#[test]
fn decimal_rendering() {
    assert_eq!(i16_to_string(0), "0");
    assert_eq!(i16_to_string(7), "7");
    assert_eq!(i16_to_string(12345), "12345");
    assert_eq!(i16_to_string(32767), "32767");
}
