use vstd::prelude::*;

verus! {

/// Progress of acquiring a firmware image.
#[derive(Clone, Copy, Debug, PartialEq, Eq, Structural)]
pub enum DownloadState {
    Stopped,
    Starting,
    Downloading,
    Complete,
    Error,
}

impl DownloadState {
    /// An acquisition run is under way.
    pub open spec fn spec_in_flight(self) -> bool {
        self == DownloadState::Starting || self == DownloadState::Downloading
    }

    pub fn in_flight(&self) -> (r: bool)
        ensures
            r == self.spec_in_flight(),
    {
        match self {
            DownloadState::Starting | DownloadState::Downloading => true,
            _ => false,
        }
    }
}

/// The edges a download status may take.
///
/// A run follows `Stopped -> Starting -> Downloading -> {Complete | Error}`,
/// with `Downloading -> Downloading` for each progress report. Besides those:
/// a run may fail before its first byte (`Starting -> Error`); a start
/// command with no source selected fails at once (`Stopped -> Error`); an
/// idle status may begin a new run (`Complete | Error -> Starting`) or be
/// cleared by a new source selection (`idle -> Stopped`).
pub open spec fn download_edge(a: DownloadState, b: DownloadState) -> bool {
    ||| a == DownloadState::Stopped && b == DownloadState::Starting
    ||| a == DownloadState::Starting && b == DownloadState::Downloading
    ||| a == DownloadState::Downloading && b == DownloadState::Downloading
    ||| a == DownloadState::Downloading && b == DownloadState::Complete
    ||| a == DownloadState::Downloading && b == DownloadState::Error
    ||| a == DownloadState::Starting && b == DownloadState::Error
    ||| !a.spec_in_flight() && b == DownloadState::Error
    ||| !a.spec_in_flight() && b == DownloadState::Starting
    ||| !a.spec_in_flight() && b == DownloadState::Stopped
}

/// No download step reaches `Downloading` but from `Starting` or itself, and
/// none reaches `Complete` but from `Downloading`.
pub proof fn lemma_download_no_shortcut(a: DownloadState, b: DownloadState)
    requires
        download_edge(a, b),
    ensures
        b == DownloadState::Downloading ==> a == DownloadState::Starting || a
            == DownloadState::Downloading,
        b == DownloadState::Complete ==> a == DownloadState::Downloading,
{
}

/// No update step reaches `Updating` but from `Starting` or itself, none
/// reaches `Finalizing` but from `Updating` or itself, and none returns to
/// `Stopped` but from `Finalizing`.
pub proof fn lemma_update_no_shortcut(a: UpdateState, b: UpdateState)
    requires
        update_edge(a, b),
    ensures
        b == UpdateState::Updating ==> a == UpdateState::Starting || a == UpdateState::Updating,
        b == UpdateState::Finalizing ==> a == UpdateState::Updating || a == UpdateState::Finalizing,
        b == UpdateState::Stopped ==> a == UpdateState::Finalizing,
{
}

/// Where the acquisition of a firmware image stands.
#[derive(Debug, PartialEq, Eq)]
pub struct DownloadStatus {
    pub bytes_downloaded: u64,
    pub log: Option<String>,
    pub size: u64,
    pub state: DownloadState,
}

impl DownloadStatus {
    /// `bytes_downloaded` never passes a known size.
    pub open spec fn wf(&self) -> bool {
        self.size != 0 ==> self.bytes_downloaded <= self.size
    }

    /// The status of a session before any acquisition.
    pub fn new() -> (r: DownloadStatus)
        ensures
            r == DownloadStatus::spec_initial(),
    {
        DownloadStatus { bytes_downloaded: 0, log: None, size: 0, state: DownloadState::Stopped }
    }

    pub open spec fn spec_initial() -> DownloadStatus {
        DownloadStatus { bytes_downloaded: 0, log: None, size: 0, state: DownloadState::Stopped }
    }
}

impl Clone for DownloadStatus {
    fn clone(&self) -> (r: Self)
        ensures
            r == *self,
    {
        DownloadStatus {
            bytes_downloaded: self.bytes_downloaded,
            log: clone_log(&self.log),
            size: self.size,
            state: self.state,
        }
    }
}

/// Progress of writing an image to a device.
#[derive(Clone, Copy, Debug, PartialEq, Eq, Structural)]
pub enum UpdateState {
    Stopped,
    Starting,
    Updating,
    Finalizing,
    Error,
}

impl UpdateState {
    /// A flash operation is under way.
    pub open spec fn spec_in_flight(self) -> bool {
        self == UpdateState::Starting || self == UpdateState::Updating || self
            == UpdateState::Finalizing
    }

    pub fn in_flight(&self) -> (r: bool)
        ensures
            r == self.spec_in_flight(),
    {
        match self {
            UpdateState::Starting | UpdateState::Updating | UpdateState::Finalizing => true,
            _ => false,
        }
    }
}

/// The edges an update status may take.
///
/// A flash follows `Stopped -> Starting -> Updating -> Finalizing -> {Stopped | Error}`,
/// with `Updating -> Updating` and `Finalizing -> Finalizing` for progress
/// reports. Besides those: the write may fail before it is done
/// (`Starting | Updating -> Error`), and a failed flash may be started again
/// (`Error -> Starting`).
pub open spec fn update_edge(a: UpdateState, b: UpdateState) -> bool {
    ||| update_run_edge(a, b)
    ||| a == UpdateState::Starting && b == UpdateState::Error
    ||| a == UpdateState::Updating && b == UpdateState::Error
    ||| a == UpdateState::Error && b == UpdateState::Starting
}

/// The edges of a single flash that reaches its finalizing phase.
pub open spec fn update_run_edge(a: UpdateState, b: UpdateState) -> bool {
    ||| a == UpdateState::Stopped && b == UpdateState::Starting
    ||| a == UpdateState::Starting && b == UpdateState::Updating
    ||| a == UpdateState::Updating && b == UpdateState::Updating
    ||| a == UpdateState::Updating && b == UpdateState::Finalizing
    ||| a == UpdateState::Finalizing && b == UpdateState::Finalizing
    ||| a == UpdateState::Finalizing && b == UpdateState::Stopped
    ||| a == UpdateState::Finalizing && b == UpdateState::Error
}

/// Where the writing of an image to a device stands.
#[derive(Debug, PartialEq, Eq)]
pub struct UpdateStatus {
    pub log: Option<String>,
    pub state: UpdateState,
}

impl UpdateStatus {
    pub fn new() -> (r: UpdateStatus)
        ensures
            r == UpdateStatus::spec_initial(),
    {
        UpdateStatus { log: None, state: UpdateState::Stopped }
    }

    pub open spec fn spec_initial() -> UpdateStatus {
        UpdateStatus { log: None, state: UpdateState::Stopped }
    }
}

impl Clone for UpdateStatus {
    fn clone(&self) -> (r: Self)
        ensures
            r == *self,
    {
        UpdateStatus { log: clone_log(&self.log), state: self.state }
    }
}

/// The single progress value published to observers.
#[derive(Debug)]
pub enum FlashingStatus {
    Downloading(DownloadStatus),
    Updating(UpdateStatus),
}

impl Clone for FlashingStatus {
    fn clone(&self) -> (r: Self)
        ensures
            r == *self,
    {
        match self {
            FlashingStatus::Downloading(s) => FlashingStatus::Downloading(s.clone()),
            FlashingStatus::Updating(s) => FlashingStatus::Updating(s.clone()),
        }
    }
}

/// A copy of a status message.
fn clone_log(log: &Option<String>) -> (r: Option<String>)
    ensures
        r == *log,
{
    match log {
        Some(s) => Some(s.clone()),
        None => None,
    }
}

} // verus!
