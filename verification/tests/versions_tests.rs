use minlaunch::versions::cache_lookup;
use minlaunch::versions::client_identifier;
use minlaunch::versions::entry_is_fresh;
use minlaunch::versions::is_installable_asset;
use minlaunch::versions::release_index_url;
use minlaunch::versions::replace_cache_entry;
use minlaunch::versions::resolve_releases;
use minlaunch::versions::select_asset;
use minlaunch::versions::AssetRecord;
use minlaunch::versions::ReleaseRecord;
use minlaunch::versions::Version;
use minlaunch::versions::VersionCache;

fn asset(name: &str, url: &str, size: i32) -> AssetRecord {
    AssetRecord {
        name: name.to_owned(),
        browser_download_url: url.to_owned(),
        size,
    }
}

#[test]
fn asset_name_rules() {
    assert!(is_installable_asset("Mindustry.jar"));
    assert!(is_installable_asset("MyDesktopBuild.zip"));
    assert!(is_installable_asset("Desktop"));
    assert!(!is_installable_asset("Mindustry.jar.old"));
    assert!(!is_installable_asset("server.jar"));
    assert!(!is_installable_asset("desktop.jar")); // the marker is case-sensitive
}

#[test]
fn tie_break_prefers_the_last_match() {
    // Two matching assets: the chosen one is the last in iteration
    // order, not the first.
    let assets = vec![
        asset("Mindustry.jar", "https://example.invalid/first", 10),
        asset("other.txt", "https://example.invalid/skip", 1),
        asset("DesktopBundle.jar", "https://example.invalid/second", 20),
    ];
    let chosen = select_asset(&assets).expect("an asset matches");
    assert_eq!(chosen, 2);
    assert_eq!(assets[chosen].browser_download_url, "https://example.invalid/second");
}

#[test]
fn no_matching_asset_selects_nothing() {
    let assets = vec![asset("server.jar", "u", 1), asset("notes.md", "v", 2)];
    assert!(select_asset(&assets).is_none());
}

#[test]
fn releases_without_matches_are_dropped() {
    // Four releases, two with a matching asset: the result holds
    // exactly two versions, in release order.
    let releases = vec![
        ReleaseRecord {
            name: "v1".to_owned(),
            assets: vec![asset("Mindustry.jar", "https://example.invalid/1", 11)],
        },
        ReleaseRecord { name: "v2".to_owned(), assets: vec![asset("server.jar", "s", 1)] },
        ReleaseRecord { name: "v3".to_owned(), assets: vec![] },
        ReleaseRecord {
            name: "v4".to_owned(),
            assets: vec![
                asset("readme.txt", "r", 1),
                asset("Desktop.jar", "https://example.invalid/4", 44),
            ],
        },
    ];
    let versions = resolve_releases(&releases);
    assert_eq!(versions.len(), 2);
    assert_eq!(versions[0].name, "v1");
    assert_eq!(versions[0].asset_name, "Mindustry.jar");
    assert_eq!(versions[0].asset_url, "https://example.invalid/1");
    assert_eq!(versions[0].asset_size, 11);
    assert_eq!(versions[1].name, "v4");
    assert_eq!(versions[1].asset_name, "Desktop.jar");
    assert_eq!(versions[1].asset_size, 44);
}

#[test]
fn resolver_takes_the_last_match_per_release() {
    let releases = vec![ReleaseRecord {
        name: "tie".to_owned(),
        assets: vec![
            asset("Mindustry.jar", "https://example.invalid/first", 1),
            asset("SomethingDesktop.zip", "https://example.invalid/last", 2),
        ],
    }];
    let versions = resolve_releases(&releases);
    assert_eq!(versions.len(), 1);
    assert_eq!(versions[0].asset_url, "https://example.invalid/last");
    assert_eq!(versions[0].asset_name, "SomethingDesktop.zip");
}

#[test]
fn staleness_boundary() {
    // 2 hours 59 minutes old: fresh. 3 hours 1 minute old: stale.
    // Exactly 3 hours: already stale.
    let now: i64 = 1_000_000;
    assert!(entry_is_fresh(now - (2 * 3600 + 59 * 60), now));
    assert!(!entry_is_fresh(now - (3 * 3600 + 60), now));
    assert!(!entry_is_fresh(now - 3 * 3600, now));
}

fn entry(source: &str, version_name: &str, timestamp: i64) -> VersionCache {
    VersionCache {
        source: source.to_owned(),
        versions: vec![Version {
            name: version_name.to_owned(),
            asset_name: "Mindustry.jar".to_owned(),
            asset_url: "https://example.invalid/a".to_owned(),
            asset_size: 5,
        }],
        timestamp,
    }
}

#[test]
fn fresh_entry_is_served_from_the_cache() {
    let now: i64 = 1_000_000;
    let table = vec![
        entry("Other/Repo", "o1", now - 10_000),
        entry("Anuken/Mindustry", "m1", now - (2 * 3600 + 59 * 60)),
    ];
    let hit = cache_lookup(&table, "Anuken/Mindustry", now).expect("fresh entry");
    assert_eq!(hit, 1);
    assert_eq!(table[hit].versions[0].name, "m1");
}

#[test]
fn stale_entry_forces_re_resolution() {
    let now: i64 = 1_000_000;
    let table = vec![entry("Anuken/Mindustry", "m1", now - (3 * 3600 + 60))];
    assert!(cache_lookup(&table, "Anuken/Mindustry", now).is_none());
}

#[test]
fn unknown_source_misses_the_cache() {
    let now: i64 = 1_000_000;
    let table = vec![entry("Anuken/Mindustry", "m1", now - 60)];
    assert!(cache_lookup(&table, "Anuken/MindustryBuilds", now).is_none());
}

#[test]
fn replacement_is_atomic_per_source() {
    let now: i64 = 2_000_000;
    let table = vec![
        entry("Anuken/Mindustry", "old", now - 20_000),
        entry("Other/Repo", "keep", now - 30),
    ];
    let new_versions = vec![Version {
        name: "new".to_owned(),
        asset_name: "Desktop.jar".to_owned(),
        asset_url: "https://example.invalid/new".to_owned(),
        asset_size: 9,
    }];
    let out = replace_cache_entry(table, "Anuken/Mindustry".to_owned(), new_versions, now);
    // The prior entry for the source is gone, the other source is kept
    // in order, and the new resolution is appended with its timestamp.
    assert_eq!(out.len(), 2);
    assert_eq!(out[0].source, "Other/Repo");
    assert_eq!(out[0].versions[0].name, "keep");
    assert_eq!(out[1].source, "Anuken/Mindustry");
    assert_eq!(out[1].versions[0].name, "new");
    assert_eq!(out[1].timestamp, now);
}

#[test]
fn replaced_entry_answers_the_next_lookup() {
    let now: i64 = 3_000_000;
    let table = vec![
        entry("Anuken/Mindustry", "stale", now - 100_000),
        entry("Other/Repo", "other", now - 10),
    ];
    let fresh = vec![Version {
        name: "fresh".to_owned(),
        asset_name: "Mindustry.jar".to_owned(),
        asset_url: "https://example.invalid/f".to_owned(),
        asset_size: 1,
    }];
    let out = replace_cache_entry(table, "Anuken/Mindustry".to_owned(), fresh, now);
    let hit = cache_lookup(&out, "Anuken/Mindustry", now).expect("the new entry is fresh");
    assert_eq!(out[hit].versions[0].name, "fresh");
    assert_eq!(out[hit].timestamp, now);
}

#[test]
fn index_url_and_client_identifier() {
    assert_eq!(
        release_index_url("Anuken/Mindustry"),
        "https://api.github.com/repos/Anuken/Mindustry/releases?per_page=100"
    );
    assert_eq!(client_identifier(), "minlaunch");
}
