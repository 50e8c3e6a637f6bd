use elysia::umu::{
    umu_archive_path, umu_archive_url, umu_dir, umu_next, umu_run_path, UmuAction, UmuFailure,
    UmuObs, UmuPhase,
};

#[test]
fn helper_paths_are_exact() {
    assert_eq!(umu_dir("/data/components"), "/data/components/umu-launcher");
    assert_eq!(umu_run_path("/data/components"), "/data/components/umu-launcher/umu-run");
    assert_eq!(
        umu_archive_url(),
        "https://github.com/Open-Wine-Components/umu-launcher/releases/download/1.2.9/umu-launcher-1.2.9-zipapp.tar"
    );
    assert_eq!(
        umu_archive_path("/data/temp"),
        "/data/temp/umu-launcher-1.2.9-zipapp.tar"
    );
}

#[test]
fn present_helper_finishes_without_network() {
    let (phase, action) = umu_next(UmuPhase::Probe, UmuObs::HelperExists(true));
    assert_eq!(phase, UmuPhase::Done);
    assert_eq!(action, UmuAction::ReportReady);
}

#[test]
fn absent_helper_walks_the_full_install_sequence() {
    let (phase, action) = umu_next(UmuPhase::Probe, UmuObs::HelperExists(false));
    assert_eq!((phase, action), (UmuPhase::EnsureDirs, UmuAction::MakeDirs));
    let (phase, action) = umu_next(phase, UmuObs::DirsEnsured(true));
    assert_eq!((phase, action), (UmuPhase::Download, UmuAction::DownloadArchive));
    let (phase, action) = umu_next(phase, UmuObs::Downloaded(true));
    assert_eq!((phase, action), (UmuPhase::Extract, UmuAction::ExtractArchive));
    let (phase, action) = umu_next(phase, UmuObs::Extracted(true));
    assert_eq!((phase, action), (UmuPhase::Recheck, UmuAction::CleanupAndRecheck));
    let (phase, action) = umu_next(phase, UmuObs::HelperExists(true));
    assert_eq!((phase, action), (UmuPhase::Done, UmuAction::ReportReady));
}

#[test]
fn missing_binary_after_extraction_is_an_integrity_failure() {
    let (phase, action) = umu_next(UmuPhase::Recheck, UmuObs::HelperExists(false));
    assert_eq!(phase, UmuPhase::Failed);
    assert_eq!(action, UmuAction::ReportFailure(UmuFailure::Integrity));
}

#[test]
fn failed_download_is_a_network_failure() {
    let (phase, action) = umu_next(UmuPhase::Download, UmuObs::Downloaded(false));
    assert_eq!(phase, UmuPhase::Failed);
    assert_eq!(action, UmuAction::ReportFailure(UmuFailure::Network));
}

#[test]
fn uncreatable_directories_fail_before_any_download() {
    let (phase, action) = umu_next(UmuPhase::EnsureDirs, UmuObs::DirsEnsured(false));
    assert_eq!(phase, UmuPhase::Failed);
    assert_eq!(action, UmuAction::ReportFailure(UmuFailure::Directories));
}

#[test]
fn failed_extraction_is_distinct_from_integrity() {
    let (phase, action) = umu_next(UmuPhase::Extract, UmuObs::Extracted(false));
    assert_eq!(phase, UmuPhase::Failed);
    assert_eq!(action, UmuAction::ReportFailure(UmuFailure::Extraction));
}
