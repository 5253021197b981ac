use godo::remote::{
    avail_columns, get_all_releases, get_releases, search_remote_version, select_asset, wants_prerelease, Asset,
    PlatformError, Release,
};

fn asset(name: &str) -> Asset {
    Asset { name: name.to_string(), browser_download_url: format!("https://example.org/{}", name) }
}

fn release(tag: &str, prerelease: bool, assets: &[&str]) -> Release {
    Release { tag_name: tag.to_string(), prerelease, assets: assets.iter().map(|a| asset(a)).collect() }
}

fn tags(rs: &[Release]) -> Vec<String> {
    rs.iter().map(|r| r.tag_name.clone()).collect()
}

#[test]
fn asset_selector_windows_variants() {
    let assets = vec![asset("Godot_4.2-stable_win64.zip"), asset("Godot_4.2-stable_win64_mono.zip")];
    assert_eq!(select_asset(&assets, "windows", "x86_64", false), Ok(Some(0)));
    assert_eq!(select_asset(&assets, "windows", "x86_64", true), Ok(Some(1)));
    let only_std = vec![asset("Godot_4.2-stable_win64.zip")];
    assert_eq!(select_asset(&only_std, "windows", "x86_64", true), Ok(None));
}

#[test]
fn asset_selector_architecture_table() {
    let assets = vec![
        asset("Godot_v4.2-stable_win32.exe.zip"),
        asset("Godot_v4.2-stable_linux.x86_32.zip"),
        asset("Godot_v4.2-stable_linux.x86_64.zip"),
        asset("Godot_v4.2-stable_linux.arm64.zip"),
        asset("Godot_v4.2-stable_linux.arm32.zip"),
        asset("Godot_v4.2-stable_macos.universal.zip"),
    ];
    assert_eq!(select_asset(&assets, "windows", "x86", false), Ok(Some(0)));
    assert_eq!(select_asset(&assets, "linux", "x86", false), Ok(Some(1)));
    assert_eq!(select_asset(&assets, "linux", "x86_64", false), Ok(Some(2)));
    assert_eq!(select_asset(&assets, "linux", "aarch64", false), Ok(Some(3)));
    assert_eq!(select_asset(&assets, "linux", "arm", false), Ok(Some(4)));
    assert_eq!(select_asset(&assets, "macos", "aarch64", false), Ok(Some(5)));
}

#[test]
fn asset_selector_unsupported_os() {
    let assets = vec![asset("Godot_4.2-stable_win64.zip")];
    assert_eq!(select_asset(&assets, "freebsd", "x86_64", false), Err(PlatformError::UnsupportedPlatform));
    assert_eq!(select_asset(&vec![], "freebsd", "x86_64", false), Err(PlatformError::UnsupportedPlatform));
}

#[test]
fn remote_first_prefix_match_in_feed_order() {
    let catalog = vec![
        release("4.2-stable", false, &["Godot_v4.2-stable_win64.exe.zip"]),
        release("4.1-stable", false, &["Godot_v4.1-stable_win64.exe.zip"]),
        release("3.5-stable", false, &["Godot_v3.5-stable_win64.exe.zip"]),
    ];
    let (v, url) = search_remote_version(&catalog, &Some("4".to_string()), false, "windows", "x86_64").unwrap().unwrap();
    assert_eq!(v.tag(), "4.2-stable");
    assert!(!v.mono());
    assert_eq!(url, "https://example.org/Godot_v4.2-stable_win64.exe.zip");
}

#[test]
fn remote_without_query_takes_first() {
    let catalog = vec![
        release("3.5-stable", false, &["Godot_v3.5-stable_mono_win64.zip"]),
        release("4.2-stable", false, &["Godot_v4.2-stable_mono_win64.zip"]),
    ];
    let (v, url) = search_remote_version(&catalog, &None, true, "windows", "x86_64").unwrap().unwrap();
    assert_eq!(v.tag(), "3.5-stable");
    assert!(v.mono());
    assert_eq!(url, "https://example.org/Godot_v3.5-stable_mono_win64.zip");
}

#[test]
fn remote_not_found_cases() {
    let catalog = vec![release("4.2-stable", false, &["Godot_v4.2-stable_win64.exe.zip"])];
    assert!(search_remote_version(&catalog, &Some("3".to_string()), false, "windows", "x86_64").unwrap().is_none());
    assert!(search_remote_version(&catalog, &Some("4".to_string()), true, "windows", "x86_64").unwrap().is_none());
    assert!(search_remote_version(&vec![], &None, false, "linux", "x86_64").unwrap().is_none());
    assert_eq!(
        search_remote_version(&catalog, &None, false, "haiku", "x86_64").err(),
        Some(PlatformError::UnsupportedPlatform)
    );
    // Not found takes precedence over the platform: no release is chosen.
    assert!(search_remote_version(&catalog, &Some("3".to_string()), false, "haiku", "x86_64").unwrap().is_none());
    assert!(search_remote_version(&vec![], &None, false, "haiku", "x86_64").unwrap().is_none());
}

#[test]
fn feed_keeps_its_track() {
    let feed = vec![release("4.3-rc1", true, &[]), release("4.2-stable", false, &[]), release("4.3-beta2", true, &[])];
    assert_eq!(tags(&get_releases(feed, true)), vec!["4.3-rc1", "4.3-beta2"]);
    let feed = vec![release("4.3-rc1", true, &[]), release("4.2-stable", false, &[])];
    assert_eq!(tags(&get_releases(feed, false)), vec!["4.2-stable"]);
}

#[test]
fn catalog_stable_first_then_preview() {
    let stable = vec![release("4.2-stable", false, &[]), release("4.3-dev1", true, &[]), release("4.1-stable", false, &[])];
    let preview = vec![release("4.3-rc1", true, &[]), release("4.2-stable", false, &[])];
    let both = get_all_releases(stable, preview, true);
    assert_eq!(tags(&both), vec!["4.2-stable", "4.3-dev1", "4.1-stable", "4.3-rc1"]);
    let stable = vec![release("4.2-stable", false, &[]), release("4.3-dev1", true, &[])];
    let only = get_all_releases(stable, vec![release("4.3-rc1", true, &[])], false);
    assert_eq!(tags(&only), vec!["4.2-stable"]);
}

#[test]
fn prerelease_queries() {
    assert!(wants_prerelease(&Some("4.3-rc1".to_string())));
    assert!(!wants_prerelease(&Some("4.2-stable".to_string())));
    assert!(!wants_prerelease(&Some("4.2".to_string())));
    assert!(!wants_prerelease(&None));
}

#[test]
fn catalog_columns() {
    let catalog = vec![
        release("4.2-stable", false, &[]),
        release("4.3-rc1", true, &[]),
        release("3.5-stable", false, &[]),
        release("3.6-beta1", true, &[]),
        release("4.1-stable", false, &[]),
    ];
    let four = avail_columns(&catalog, true);
    assert_eq!(four.len(), 4);
    assert_eq!(four[0], vec!["4.2-stable", "4.1-stable"]);
    assert_eq!(four[1], vec!["4.3-rc1"]);
    assert_eq!(four[2], vec!["3.5-stable"]);
    assert_eq!(four[3], vec!["3.6-beta1"]);
    let two = avail_columns(&catalog, false);
    assert_eq!(two.len(), 2);
    assert_eq!(two[0], vec!["4.2-stable", "4.3-rc1", "4.1-stable"]);
    assert_eq!(two[1], vec!["3.5-stable", "3.6-beta1"]);
}
