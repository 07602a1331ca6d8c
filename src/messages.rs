use vstd::prelude::*;

verus! {

/// A request sent from the front end to the update worker.
#[derive(Debug, Clone, PartialEq, Eq)]
pub enum PatcherCommand {
    StartUpdate,
    CancelUpdate,
    /// Applies the patch file found at the given path.
    ApplyPatch(String),
    Quit,
}

impl PatcherCommand {
    /// Whether this command starts an update or a patch, which must never run
    /// twice at once.
    pub open spec fn starts_operation(&self) -> bool {
        self is StartUpdate || self is ApplyPatch
    }
}

/// Used to indicate the current status of the patching process.
#[derive(Debug, Clone, PartialEq, Eq)]
pub enum PatchingStatus {
    Ready,
    /// Error message.
    Error(String),
    /// Downloaded files, total number of files, bytes per second.
    DownloadInProgress(usize, usize, u64),
    /// Installed patches, total number of patches.
    InstallationInProgress(usize, usize),
    /// Name of the patch file that was applied.
    ManualPatchApplied(String),
}

/// An effect to run on the thread that owns the front end.
#[derive(Debug, Clone, PartialEq, Eq)]
pub enum UiEffect {
    /// Progress at 100%, error styling cleared, primary action enabled.
    ShowReady,
    StatusError(String),
    StatusDownloading(usize, usize, u64),
    StatusInstalling(usize, usize),
    StatusPatchApplied(String),
    /// Tells the user that an operation is already running.
    NotificationInProgress,
}

/// The one effect that reports a given status.
pub open spec fn effect_of_status(status: PatchingStatus) -> UiEffect {
    match status {
        PatchingStatus::Ready => UiEffect::ShowReady,
        PatchingStatus::Error(msg) => UiEffect::StatusError(msg),
        PatchingStatus::DownloadInProgress(d, t, bps) => UiEffect::StatusDownloading(d, t, bps),
        PatchingStatus::InstallationInProgress(i, t) => UiEffect::StatusInstalling(i, t),
        PatchingStatus::ManualPatchApplied(name) => UiEffect::StatusPatchApplied(name),
    }
}

/// Maps a worker status to the effect that shows it, with its
/// arguments carried over unchanged.
pub fn status_effect(status: PatchingStatus) -> (r: UiEffect)
    ensures
        r == effect_of_status(status),
{
    match status {
        PatchingStatus::Ready => UiEffect::ShowReady,
        PatchingStatus::Error(msg) => UiEffect::StatusError(msg),
        PatchingStatus::DownloadInProgress(d, t, bps) => UiEffect::StatusDownloading(d, t, bps),
        PatchingStatus::InstallationInProgress(i, t) => UiEffect::StatusInstalling(i, t),
        PatchingStatus::ManualPatchApplied(name) => UiEffect::StatusPatchApplied(name),
    }
}

/// Distinct statuses are shown by distinct effects, so no status is lost or
/// confused with another on its way to the front end.
pub proof fn lemma_status_effect_injective(a: PatchingStatus, b: PatchingStatus)
    ensures
        effect_of_status(a) == effect_of_status(b) ==> a == b,
        effect_of_status(a) != UiEffect::NotificationInProgress,
{
}

} // verus!
