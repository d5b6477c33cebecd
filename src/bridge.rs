use vstd::prelude::*;

use crate::events::{CommandKind, VersionSelectedPayload};
use crate::session::{selected_version, AcquireError, Session};
use crate::source::{is_remote, ArchiveSource};
use crate::status::{DownloadState, DownloadStatus};

verus! {

/// An inbound payload after it was parsed against some command's shape.
#[derive(Debug)]
pub enum Payload {
    /// The empty payload of `start-firmware-download`, `show-logs` and `frontend-loaded`.
    Empty,
    VersionSelected(VersionSelectedPayload),
}

impl Payload {
    /// The payload has the shape that `kind` expects.
    pub open spec fn fits(&self, kind: CommandKind) -> bool {
        match self {
            Payload::Empty => !kind.spec_takes_version(),
            Payload::VersionSelected(_) => kind.spec_takes_version(),
        }
    }
}

/// What the shell around the library has to do after a command.
#[derive(Debug)]
pub enum Outcome {
    /// The payload did not parse or had the wrong shape: log it, nothing else.
    Dropped,
    /// Fetch the archive from this source.
    DownloadStarted(ArchiveSource),
    /// The download command was refused; the status says why where it changed.
    DownloadRefused(AcquireError),
    /// The source and version were recorded.
    SourceSelected,
    /// Reveal the log directory.
    ShowLogs,
    /// Start the device watcher.
    StartWatcher,
    /// The device watcher already runs.
    WatcherRunning,
}

/// Routes the shell's commands to the session.
#[derive(Debug)]
pub struct Bridge {
    pub session: Session,
    pub watcher_started: bool,
}

impl Bridge {
    pub open spec fn wf(&self) -> bool {
        self.session.wf()
    }

    pub fn new() -> (r: Bridge)
        ensures
            r.wf(),
            r.session.spec_fresh(),
            !r.watcher_started,
    {
        Bridge { session: Session::new(), watcher_started: false }
    }

    /// Handles one command. `payload` is `None` when the raw payload did not parse.
    ///
    /// A payload that is missing or does not fit the command changes nothing
    /// and is dropped. Otherwise exactly one handler runs.
    pub fn dispatch(&mut self, kind: CommandKind, payload: Option<Payload>) -> (r: Outcome)
        requires
            old(self).wf(),
        ensures
            final(self).wf(),
            !(payload is Some && payload->Some_0.fits(kind)) ==> r == Outcome::Dropped && *final(self)
                == *old(self),
            payload is Some && payload->Some_0.fits(kind) ==> match payload->Some_0 {
                Payload::VersionSelected(p) => {
                    &&& r == Outcome::SourceSelected
                    &&& final(self).watcher_started == old(self).watcher_started
                    &&& final(self).session.archive_source is Some
                    &&& final(self).session.archive_source->Some_0.spec_is_remote() == is_remote(
                        p.path@,
                    )
                    &&& final(self).session.archive_source->Some_0.spec_path() == p.path@
                    &&& final(self).session.version@ == selected_version(p.version)
                    &&& final(self).session.size == 0
                    &&& if old(self).session.download_status.state.spec_in_flight() {
                        final(self).session.download_status == old(self).session.download_status
                    } else {
                        final(self).session.download_status == DownloadStatus::spec_initial()
                    }
                    &&& final(self).session.update_status == old(self).session.update_status
                    &&& final(self).session.devices == old(self).session.devices
                },
                Payload::Empty => match kind {
                    CommandKind::StartFirmwareDownload => {
                        &&& final(self).watcher_started == old(self).watcher_started
                        &&& final(self).session.same_but_download(&old(self).session)
                        &&& if old(self).session.download_status.state.spec_in_flight() {
                            r == Outcome::DownloadRefused(AcquireError::AlreadyInFlight)
                                && *final(self) == *old(self)
                        } else if old(self).session.archive_source is None {
                            r == Outcome::DownloadRefused(AcquireError::NoSourceSelected)
                                && final(self).session.download_status.state
                                == DownloadState::Error
                        } else {
                            r == Outcome::DownloadStarted(old(self).session.archive_source->Some_0)
                                && final(self).session.download_status == (DownloadStatus {
                                bytes_downloaded: 0,
                                log: None,
                                size: 0,
                                state: DownloadState::Starting,
                            })
                        }
                    },
                    CommandKind::ShowLogs => r == Outcome::ShowLogs && *final(self) == *old(self),
                    _ => {
                        &&& final(self).session == old(self).session
                        &&& final(self).watcher_started
                        &&& r == (if old(self).watcher_started {
                            Outcome::WatcherRunning
                        } else {
                            Outcome::StartWatcher
                        })
                    },
                },
            },
    {
        let payload = match payload {
            Some(p) => p,
            None => {
                return Outcome::Dropped;
            },
        };
        match (kind, payload) {
            (CommandKind::VersionSelected, Payload::VersionSelected(p)) => {
                self.session.select_version(p);
                Outcome::SourceSelected
            },
            (CommandKind::StartFirmwareDownload, Payload::Empty) => {
                match self.session.start_download() {
                    Ok(src) => Outcome::DownloadStarted(src),
                    Err(e) => Outcome::DownloadRefused(e),
                }
            },
            (CommandKind::ShowLogs, Payload::Empty) => Outcome::ShowLogs,
            (CommandKind::FrontendLoaded, Payload::Empty) => {
                if self.watcher_started {
                    Outcome::WatcherRunning
                } else {
                    self.watcher_started = true;
                    Outcome::StartWatcher
                }
            },
            _ => Outcome::Dropped,
        }
    }
}

} // verus!
