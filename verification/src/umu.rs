//! Idempotent bootstrapping of the umu helper binary: the well-known paths,
//! the download location, and the decision steps of the install sequence.
//! The caller performs the filesystem and network work and feeds the
//! observations in; every decision is taken here.
use vstd::prelude::*;

use crate::paths::{join_path, spec_join};

verus! {

/// The helper directory under the components directory.
pub open spec fn spec_umu_dir(components_directory: Seq<char>) -> Seq<char> {
    spec_join(components_directory, "umu-launcher"@)
}

/// The helper binary inside the helper directory.
pub open spec fn spec_umu_run(components_directory: Seq<char>) -> Seq<char> {
    spec_join(spec_umu_dir(components_directory), "umu-run"@)
}

pub fn umu_dir(components_directory: &str) -> (r: String)
    ensures
        r@ == spec_umu_dir(components_directory@),
{
    join_path(components_directory, "umu-launcher")
}

pub fn umu_run_path(components_directory: &str) -> (r: String)
    ensures
        r@ == spec_umu_run(components_directory@),
{
    let dir = umu_dir(components_directory);
    join_path(dir.as_str(), "umu-run")
}

/// The release archive for the pinned helper version.
pub open spec fn spec_umu_archive_url() -> Seq<char> {
    "https://github.com/Open-Wine-Components/umu-launcher/releases/download/1.2.9/umu-launcher-1.2.9-zipapp.tar"@
}

/// Where the downloaded archive lands in the temp directory.
pub open spec fn spec_umu_archive_path(temp_directory: Seq<char>) -> Seq<char> {
    spec_join(temp_directory, "umu-launcher-1.2.9-zipapp.tar"@)
}

pub fn umu_archive_url() -> (r: String)
    ensures
        r@ == spec_umu_archive_url(),
{
    String::from_str(
        "https://github.com/Open-Wine-Components/umu-launcher/releases/download/1.2.9/umu-launcher-1.2.9-zipapp.tar",
    )
}

pub fn umu_archive_path(temp_directory: &str) -> (r: String)
    ensures
        r@ == spec_umu_archive_path(temp_directory@),
{
    join_path(temp_directory, "umu-launcher-1.2.9-zipapp.tar")
}

/// Where a bootstrap run stands. The run is driven by the caller, which
/// performs the filesystem and network work and reports what it observed;
/// every decision between observations is taken by [`umu_next`].
#[derive(Debug, Clone, Copy, PartialEq, Eq, Structural)]
pub enum UmuPhase {
    /// Checking whether the helper binary is already present.
    Probe,
    /// Creating the helper and temp directories.
    EnsureDirs,
    /// Downloading the release archive into the temp directory.
    Download,
    /// Unpacking the archive into the helper directory.
    Extract,
    /// Deleting the archive (best-effort) and re-checking the binary.
    Recheck,
    /// The helper binary is present; the run is over.
    Done,
    /// The run failed; nothing was marked available.
    Failed,
}

/// What the caller observed while carrying out the previous action.
#[derive(Debug, Clone, Copy, PartialEq, Eq, Structural)]
pub enum UmuObs {
    /// Whether the helper binary exists (the initial probe or the re-check
    /// after extraction).
    HelperExists(bool),
    /// Whether both directories could be created.
    DirsEnsured(bool),
    /// Whether the archive was downloaded and written in full.
    Downloaded(bool),
    /// Whether the archive was unpacked.
    Extracted(bool),
}

/// What the caller must do next.
#[derive(Debug, Clone, Copy, PartialEq, Eq, Structural)]
pub enum UmuAction {
    /// Create the helper directory and the temp directory.
    MakeDirs,
    /// Download the release archive to the archive path.
    DownloadArchive,
    /// Unpack the archive into the helper directory.
    ExtractArchive,
    /// Delete the archive file (a failure to delete is not an error) and
    /// check for the helper binary again.
    CleanupAndRecheck,
    /// Report the helper path to the caller; no further work.
    ReportReady,
    /// Report the failure; no further work.
    ReportFailure(UmuFailure),
}

/// Why a bootstrap run failed, each a distinct condition.
#[derive(Debug, Clone, Copy, PartialEq, Eq, Structural)]
pub enum UmuFailure {
    /// A needed directory could not be created.
    Directories,
    /// The download did not complete; retrying may help.
    Network,
    /// The archive could not be unpacked.
    Extraction,
    /// The archive was fetched and unpacked, yet the expected binary is
    /// missing: a distinct, non-retryable condition.
    Integrity,
}

/// Which observations can answer which phase.
pub open spec fn spec_obs_fits(phase: UmuPhase, obs: UmuObs) -> bool {
    match (phase, obs) {
        (UmuPhase::Probe, UmuObs::HelperExists(_)) => true,
        (UmuPhase::EnsureDirs, UmuObs::DirsEnsured(_)) => true,
        (UmuPhase::Download, UmuObs::Downloaded(_)) => true,
        (UmuPhase::Extract, UmuObs::Extracted(_)) => true,
        (UmuPhase::Recheck, UmuObs::HelperExists(_)) => true,
        _ => false,
    }
}

/// The transition table of a bootstrap run: the helper is reported ready
/// exactly when it was observed present; the network is touched only after
/// the probe found it absent and the directories exist; any failure after
/// the download leaves nothing marked available.
pub open spec fn spec_umu_next(phase: UmuPhase, obs: UmuObs) -> (UmuPhase, UmuAction) {
    match (phase, obs) {
        (UmuPhase::Probe, UmuObs::HelperExists(true)) => (UmuPhase::Done, UmuAction::ReportReady),
        (UmuPhase::Probe, UmuObs::HelperExists(false)) => (
            UmuPhase::EnsureDirs,
            UmuAction::MakeDirs,
        ),
        (UmuPhase::EnsureDirs, UmuObs::DirsEnsured(true)) => (
            UmuPhase::Download,
            UmuAction::DownloadArchive,
        ),
        (UmuPhase::EnsureDirs, UmuObs::DirsEnsured(false)) => (
            UmuPhase::Failed,
            UmuAction::ReportFailure(UmuFailure::Directories),
        ),
        (UmuPhase::Download, UmuObs::Downloaded(true)) => (
            UmuPhase::Extract,
            UmuAction::ExtractArchive,
        ),
        (UmuPhase::Download, UmuObs::Downloaded(false)) => (
            UmuPhase::Failed,
            UmuAction::ReportFailure(UmuFailure::Network),
        ),
        (UmuPhase::Extract, UmuObs::Extracted(true)) => (
            UmuPhase::Recheck,
            UmuAction::CleanupAndRecheck,
        ),
        (UmuPhase::Extract, UmuObs::Extracted(false)) => (
            UmuPhase::Failed,
            UmuAction::ReportFailure(UmuFailure::Extraction),
        ),
        (UmuPhase::Recheck, UmuObs::HelperExists(true)) => (
            UmuPhase::Done,
            UmuAction::ReportReady,
        ),
        (UmuPhase::Recheck, UmuObs::HelperExists(false)) => (
            UmuPhase::Failed,
            UmuAction::ReportFailure(UmuFailure::Integrity),
        ),
        _ => (UmuPhase::Failed, UmuAction::ReportFailure(UmuFailure::Integrity)),
    }
}

/// Take one bootstrap step.
pub fn umu_next(phase: UmuPhase, obs: UmuObs) -> (r: (UmuPhase, UmuAction))
    requires
        spec_obs_fits(phase, obs),
    ensures
        r == spec_umu_next(phase, obs),
{
    match (phase, obs) {
        (UmuPhase::Probe, UmuObs::HelperExists(true)) => (UmuPhase::Done, UmuAction::ReportReady),
        (UmuPhase::Probe, UmuObs::HelperExists(false)) => (
            UmuPhase::EnsureDirs,
            UmuAction::MakeDirs,
        ),
        (UmuPhase::EnsureDirs, UmuObs::DirsEnsured(true)) => (
            UmuPhase::Download,
            UmuAction::DownloadArchive,
        ),
        (UmuPhase::EnsureDirs, UmuObs::DirsEnsured(false)) => (
            UmuPhase::Failed,
            UmuAction::ReportFailure(UmuFailure::Directories),
        ),
        (UmuPhase::Download, UmuObs::Downloaded(true)) => (
            UmuPhase::Extract,
            UmuAction::ExtractArchive,
        ),
        (UmuPhase::Download, UmuObs::Downloaded(false)) => (
            UmuPhase::Failed,
            UmuAction::ReportFailure(UmuFailure::Network),
        ),
        (UmuPhase::Extract, UmuObs::Extracted(true)) => (
            UmuPhase::Recheck,
            UmuAction::CleanupAndRecheck,
        ),
        (UmuPhase::Extract, UmuObs::Extracted(false)) => (
            UmuPhase::Failed,
            UmuAction::ReportFailure(UmuFailure::Extraction),
        ),
        (UmuPhase::Recheck, UmuObs::HelperExists(true)) => (
            UmuPhase::Done,
            UmuAction::ReportReady,
        ),
        (UmuPhase::Recheck, UmuObs::HelperExists(false)) => (
            UmuPhase::Failed,
            UmuAction::ReportFailure(UmuFailure::Integrity),
        ),
        _ => (UmuPhase::Failed, UmuAction::ReportFailure(UmuFailure::Integrity)),
    }
}

/// Whether a run is still in progress.
pub open spec fn spec_umu_running(phase: UmuPhase) -> bool {
    phase != UmuPhase::Done && phase != UmuPhase::Failed
}

/// How many downloads a run performs from `phase` under the observations
/// `obss`, stopping when the run completes or fails.
pub open spec fn spec_umu_downloads(phase: UmuPhase, obss: Seq<UmuObs>) -> nat
    decreases obss.len(),
{
    if obss.len() == 0 || !spec_umu_running(phase) {
        0nat
    } else {
        let step = spec_umu_next(phase, obss[0]);
        (if step.1 == UmuAction::DownloadArchive {
            1nat
        } else {
            0nat
        }) + spec_umu_downloads(step.0, obss.skip(1))
    }
}

/// Where a run from `phase` under the observations `obss` ends.
pub open spec fn spec_umu_final(phase: UmuPhase, obss: Seq<UmuObs>) -> UmuPhase
    decreases obss.len(),
{
    if obss.len() == 0 || !spec_umu_running(phase) {
        phase
    } else {
        spec_umu_final(spec_umu_next(phase, obss[0]).0, obss.skip(1))
    }
}

/// Law: bootstrapping is idempotent in its network use. A run whose first
/// observation finds the helper already present completes at once and
/// downloads nothing — so of two consecutive runs, only the first (whose
/// probe found the helper absent) can touch the network.
pub proof fn lemma_bootstrap_idempotent(obss: Seq<UmuObs>)
    requires
        obss.len() > 0,
        obss[0] == UmuObs::HelperExists(true),
    ensures
        spec_umu_downloads(UmuPhase::Probe, obss) == 0,
        spec_umu_final(UmuPhase::Probe, obss) == UmuPhase::Done,
{
    assert(spec_umu_next(UmuPhase::Probe, obss[0]).0 == UmuPhase::Done);
    assert(spec_umu_downloads(UmuPhase::Done, obss.skip(1)) == 0);
    assert(spec_umu_final(UmuPhase::Done, obss.skip(1)) == UmuPhase::Done);
    assert(spec_umu_downloads(UmuPhase::Probe, obss) == 0);
    assert(spec_umu_final(UmuPhase::Probe, obss) == UmuPhase::Done);
}

/// Law: a run reports the helper ready only if some observation — the
/// initial probe or the re-check after extraction — found the binary
/// present. An archive that was fetched and unpacked without yielding the
/// binary ends the run in failure, never in success.
pub proof fn lemma_done_only_when_helper_seen(phase: UmuPhase, obss: Seq<UmuObs>)
    requires
        spec_umu_running(phase),
        spec_umu_final(phase, obss) == UmuPhase::Done,
    ensures
        exists|i: int| 0 <= i < obss.len() && obss[i] == UmuObs::HelperExists(true),
    decreases obss.len(),
{
    if obss.len() == 0 {
        assert(spec_umu_final(phase, obss) == phase);
        assert(false);
    } else {
        let step = spec_umu_next(phase, obss[0]);
        assert(spec_umu_final(phase, obss) == spec_umu_final(step.0, obss.skip(1)));
        if step.0 == UmuPhase::Done {
            assert(obss[0] == UmuObs::HelperExists(true));
            assert(0 <= 0 < obss.len() && obss[0] == UmuObs::HelperExists(true));
        } else if step.0 == UmuPhase::Failed {
            assert(spec_umu_final(step.0, obss.skip(1)) == UmuPhase::Failed);
            assert(false);
        } else {
            lemma_done_only_when_helper_seen(step.0, obss.skip(1));
            let i = choose|i: int|
                0 <= i < obss.skip(1).len() && obss.skip(1)[i] == UmuObs::HelperExists(true);
            assert(obss[i + 1] == UmuObs::HelperExists(true));
            assert(0 <= i + 1 < obss.len());
        }
    }
}

} // verus!
