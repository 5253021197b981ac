use godo::lifecycle::{
    install_step, uninstall_step, InstallAction, InstallEvent, InstallOutcome, InstallStage, UninstallAction,
    UninstallEvent, UninstallOutcome, UninstallStage,
};
use godo::procedure;
use godo::version::{self, Version};

fn v(tag: &str, mono: bool) -> Version {
    version::new(tag.to_string(), mono)
}

fn resolved(found: Option<(Version, String)>, installed: Vec<Version>) -> InstallEvent {
    InstallEvent::Resolved { found, installed }
}

fn writes(a: &InstallAction) -> bool {
    matches!(
        a,
        InstallAction::Download { .. } | InstallAction::Extract | InstallAction::DeleteArchive | InstallAction::Remove { .. }
    )
}

#[test]
fn already_installed_writes_nothing() {
    let installed = vec![v("4.1-stable", false), v("4.2-stable", true)];
    let (stage, action) = install_step(
        InstallStage::Searching,
        resolved(Some((v("4.2-stable", true), "u".to_string())), installed),
    );
    assert!(matches!(action, InstallAction::Finish { outcome: InstallOutcome::AlreadyInstalled }));
    let mut stage = stage;
    for event in [
        InstallEvent::Confirmed { yes: true },
        InstallEvent::Downloaded,
        InstallEvent::Extracted,
        InstallEvent::Cleaned,
        InstallEvent::Removed,
    ] {
        let (next, action) = install_step(stage, event);
        assert!(!writes(&action));
        assert!(matches!(action, InstallAction::Ignore));
        stage = next;
    }
}

#[test]
fn not_found_finishes() {
    let (_, action) = install_step(InstallStage::Searching, resolved(None, vec![]));
    assert!(matches!(action, InstallAction::Finish { outcome: InstallOutcome::NotFound }));
}

#[test]
fn declined_install_aborts() {
    let (stage, action) =
        install_step(InstallStage::Searching, resolved(Some((v("4.2-stable", false), "u".to_string())), vec![]));
    match action {
        InstallAction::AskInstall { version } => assert_eq!(version, v("4.2-stable", false)),
        _ => panic!("expected a question"),
    }
    let (_, action) = install_step(stage, InstallEvent::Confirmed { yes: false });
    assert!(matches!(action, InstallAction::Finish { outcome: InstallOutcome::Aborted }));
}

#[test]
fn full_install_sequence() {
    let (stage, _) = install_step(
        InstallStage::Searching,
        resolved(Some((v("4.2-stable", false), "https://x/y.zip".to_string())), vec![v("4.1-stable", false)]),
    );
    let (stage, action) = install_step(stage, InstallEvent::Confirmed { yes: true });
    match action {
        InstallAction::Download { file_name, url } => {
            assert_eq!(file_name, "Godot_4.2-stable");
            assert_eq!(url, "https://x/y.zip");
        }
        _ => panic!("expected a download"),
    }
    let (stage, action) = install_step(stage, InstallEvent::Extracted);
    assert!(matches!(action, InstallAction::Ignore));
    let (stage, action) = install_step(stage, InstallEvent::Downloaded);
    assert!(matches!(action, InstallAction::Extract));
    let (stage, action) = install_step(stage, InstallEvent::Extracted);
    assert!(matches!(action, InstallAction::DeleteArchive));
    let (_, action) = install_step(stage, InstallEvent::Cleaned);
    assert!(matches!(action, InstallAction::Finish { outcome: InstallOutcome::Installed { removed_standard: false } }));
}

#[test]
fn mono_install_offers_standard_removal() {
    let installed = vec![v("4.2-stable", false)];
    let (stage, _) =
        install_step(InstallStage::Searching, resolved(Some((v("4.2-stable", true), "u".to_string())), installed));
    let (stage, action) = install_step(stage, InstallEvent::Confirmed { yes: true });
    match action {
        InstallAction::Download { file_name, .. } => assert_eq!(file_name, "Godot_4.2-stable_mono"),
        _ => panic!("expected a download"),
    }
    let (stage, _) = install_step(stage, InstallEvent::Downloaded);
    let (stage, _) = install_step(stage, InstallEvent::Extracted);
    let (stage, action) = install_step(stage, InstallEvent::Cleaned);
    match action {
        InstallAction::AskRemoval { standard } => assert_eq!(standard, v("4.2-stable", false)),
        _ => panic!("expected the removal offer"),
    }
    let (stage, action) = install_step(stage, InstallEvent::Confirmed { yes: true });
    match action {
        InstallAction::Remove { standard } => assert_eq!(standard.dir_name(), "Godot_4.2-stable"),
        _ => panic!("expected a removal"),
    }
    let (_, action) = install_step(stage, InstallEvent::Removed);
    assert!(matches!(action, InstallAction::Finish { outcome: InstallOutcome::Installed { removed_standard: true } }));
}

#[test]
fn declined_removal_keeps_both() {
    let installed = vec![v("4.2-stable", false)];
    let (stage, _) =
        install_step(InstallStage::Searching, resolved(Some((v("4.2-stable", true), "u".to_string())), installed));
    let (stage, _) = install_step(stage, InstallEvent::Confirmed { yes: true });
    let (stage, _) = install_step(stage, InstallEvent::Downloaded);
    let (stage, _) = install_step(stage, InstallEvent::Extracted);
    let (stage, _) = install_step(stage, InstallEvent::Cleaned);
    let (_, action) = install_step(stage, InstallEvent::Confirmed { yes: false });
    assert!(matches!(action, InstallAction::Finish { outcome: InstallOutcome::Installed { removed_standard: false } }));
}

#[test]
fn uninstall_sequence() {
    let (_, action) = uninstall_step(UninstallStage::Searching, UninstallEvent::Resolved { found: None });
    assert!(matches!(action, UninstallAction::Finish { outcome: UninstallOutcome::NotFound }));

    let (stage, action) =
        uninstall_step(UninstallStage::Searching, UninstallEvent::Resolved { found: Some(v("4.1-stable", true)) });
    assert!(matches!(action, UninstallAction::AskUninstall { .. }));
    let (stage, action) = uninstall_step(stage, UninstallEvent::Confirmed { yes: true });
    match action {
        UninstallAction::Remove { version } => assert_eq!(version.dir_name(), "Godot_4.1-stable_mono"),
        _ => panic!("expected a removal"),
    }
    let (_, action) = uninstall_step(stage, UninstallEvent::Removed);
    assert!(matches!(action, UninstallAction::Finish { outcome: UninstallOutcome::Uninstalled }));

    let (stage, _) =
        uninstall_step(UninstallStage::Searching, UninstallEvent::Resolved { found: Some(v("4.1-stable", true)) });
    let (_, action) = uninstall_step(stage, UninstallEvent::Confirmed { yes: false });
    assert!(matches!(action, UninstallAction::Finish { outcome: UninstallOutcome::Aborted }));
}

#[test]
fn procedure_lines() {
    let mut p = procedure::new(5);
    assert_eq!(p.get_step(), "[0/5]");
    assert_eq!(p.next("Searching...".to_string()), "[1/5] Searching...");
    assert_eq!(p.finish("Found!".to_string()), "[1/5] Found!");
    for _ in 0..11 {
        p.next(String::new());
    }
    assert_eq!(p.get_step(), "[12/5]");
    assert_eq!(p.steps_taken(), 12);
    let q = procedure::new(-30);
    assert_eq!(q.get_step(), "[0/-30]");
}
