use vstd::prelude::*;

use crate::devices::{
    copy_devices, dedup, dedup_devices, find_serial, has_serial, lemma_push_unique,
    lemma_without_props, remove_serial, unique_serials, without, DeviceChange, DeviceInfo,
};
use crate::events::VersionSelectedPayload;
use crate::source::{is_remote, ArchiveSource};
use crate::status::{
    download_edge, update_edge, DownloadState, DownloadStatus, FlashingStatus,
    UpdateState, UpdateStatus,
};

verus! {

/// Why an acquisition step was refused or failed.
#[derive(Clone, Copy, Debug, PartialEq, Eq, Structural)]
pub enum AcquireError {
    /// A download was asked for before any archive source was chosen.
    NoSourceSelected,
    /// A download was asked for while another one runs.
    AlreadyInFlight,
    /// A progress or completion report came when no run was at that stage.
    OutOfOrder,
    /// More bytes arrived than the announced size.
    Overrun,
    /// The run ended before the announced size was reached.
    Truncated,
}

/// Why a flashing step was refused.
#[derive(Clone, Copy, Debug, PartialEq, Eq, Structural)]
pub enum FlashError {
    /// No image has been acquired.
    ImageNotReady,
    /// A flash was asked for while another one runs.
    AlreadyInFlight,
    /// A step came when no flash was at that stage.
    OutOfOrder,
}

/// Progress reports from the flashing tool that are merged as they stand.
pub open spec fn progress_edge(a: UpdateState, b: UpdateState) -> bool {
    ||| a == UpdateState::Updating && b == UpdateState::Updating
    ||| a == UpdateState::Updating && b == UpdateState::Finalizing
    ||| a == UpdateState::Finalizing && b == UpdateState::Finalizing
}

/// The version string a payload selects: empty when none is given.
pub open spec fn selected_version(v: Option<String>) -> Seq<char> {
    match v {
        Some(s) => s@,
        None => Seq::empty(),
    }
}

/// The state shared by the pipelines, the device watcher and the command bridge.
#[derive(Debug)]
pub struct Session {
    pub archive_source: Option<ArchiveSource>,
    pub version: String,
    pub size: u64,
    pub download_status: DownloadStatus,
    pub update_status: UpdateStatus,
    pub devices: Vec<DeviceInfo>,
}

impl Session {
    pub open spec fn wf(&self) -> bool {
        &&& self.download_status.wf()
        &&& unique_serials(self.devices@)
    }

    /// Only `download_status` and `size` may differ.
    pub open spec fn same_but_download(&self, o: &Session) -> bool {
        &&& self.archive_source == o.archive_source
        &&& self.version == o.version
        &&& self.update_status == o.update_status
        &&& self.devices == o.devices
    }

    /// Only `update_status` may differ.
    pub open spec fn same_but_update(&self, o: &Session) -> bool {
        &&& self.archive_source == o.archive_source
        &&& self.version == o.version
        &&& self.size == o.size
        &&& self.download_status == o.download_status
        &&& self.devices == o.devices
    }

    /// The session at process start: no source, no version, nothing in progress.
    pub open spec fn spec_fresh(&self) -> bool {
        &&& self.archive_source is None
        &&& self.version@ == Seq::<char>::empty()
        &&& self.size == 0
        &&& self.download_status == DownloadStatus::spec_initial()
        &&& self.update_status == UpdateStatus::spec_initial()
        &&& self.devices@.len() == 0
    }

    pub fn new() -> (r: Session)
        ensures
            r.wf(),
            r.spec_fresh(),
    {
        Session {
            archive_source: None,
            version: String::new(),
            size: 0,
            download_status: DownloadStatus::new(),
            update_status: UpdateStatus::new(),
            devices: Vec::new(),
        }
    }

    /// Applies a `version-selected` command.
    ///
    /// The path is taken as remote when it starts with `http://` or `https://`,
    /// as local otherwise. `size` goes back to 0, and a download status that
    /// belongs to no running acquisition is cleared.
    pub fn select_version(&mut self, payload: VersionSelectedPayload)
        requires
            old(self).wf(),
        ensures
            final(self).wf(),
            final(self).archive_source is Some,
            final(self).archive_source->Some_0.spec_is_remote() == is_remote(payload.path@),
            final(self).archive_source->Some_0.spec_path() == payload.path@,
            final(self).version@ == selected_version(payload.version),
            final(self).size == 0,
            old(self).download_status.state.spec_in_flight() ==> final(self).download_status
                == old(self).download_status,
            !old(self).download_status.state.spec_in_flight() ==> final(self).download_status
                == DownloadStatus::spec_initial(),
            download_edge(old(self).download_status.state, final(self).download_status.state)
                || old(self).download_status.state == final(self).download_status.state,
            final(self).update_status == old(self).update_status,
            final(self).devices == old(self).devices,
    {
        let VersionSelectedPayload { path, version } = payload;
        self.archive_source = Some(ArchiveSource::classify(path));
        self.version = match version {
            Some(v) => v,
            None => String::new(),
        };
        self.size = 0;
        if !self.download_status.state.in_flight() {
            self.download_status = DownloadStatus::new();
        }
    }

    /// Begins an acquisition run from the selected source.
    ///
    /// A run already in flight is left alone and the command is refused. With
    /// no source selected the status goes to `Error` with a message. Otherwise
    /// the status restarts at `Starting` with nothing counted, and the source
    /// to fetch is returned.
    pub fn start_download(&mut self) -> (r: Result<ArchiveSource, AcquireError>)
        requires
            old(self).wf(),
        ensures
            final(self).wf(),
            final(self).same_but_download(old(self)),
            final(self).size == old(self).size,
            old(self).download_status.state.spec_in_flight() ==> r == Err::<ArchiveSource, AcquireError>(AcquireError::AlreadyInFlight)
                && *final(self) == *old(self),
            !old(self).download_status.state.spec_in_flight() && old(self).archive_source is None
                ==> r == Err::<ArchiveSource, AcquireError>(AcquireError::NoSourceSelected)
                && final(self).download_status.state == DownloadState::Error
                && final(self).download_status.log is Some
                && final(self).download_status.bytes_downloaded == old(self).download_status.bytes_downloaded
                && final(self).download_status.size == old(self).download_status.size,
            !old(self).download_status.state.spec_in_flight() && old(self).archive_source is Some
                ==> r == Ok::<ArchiveSource, AcquireError>(old(self).archive_source->Some_0)
                && final(self).download_status == (DownloadStatus {
                bytes_downloaded: 0,
                log: None,
                size: 0,
                state: DownloadState::Starting,
            }),
            download_edge(old(self).download_status.state, final(self).download_status.state)
                || *final(self) == *old(self),
    {
        if self.download_status.state.in_flight() {
            return Err(AcquireError::AlreadyInFlight);
        }
        match &self.archive_source {
            None => {
                self.download_status.state = DownloadState::Error;
                self.download_status.log = Some("no archive source selected".to_owned());
                Err(AcquireError::NoSourceSelected)
            },
            Some(src) => {
                let src = src.clone();
                self.download_status = DownloadStatus {
                    bytes_downloaded: 0,
                    log: None,
                    size: 0,
                    state: DownloadState::Starting,
                };
                Ok(src)
            },
        }
    }
    /// Records a chunk of `chunk_len` bytes of the running acquisition.
    ///
    /// The size is fixed by the first report that gives one (a local file
    /// reports its whole length as one chunk). Bytes past a known size, or
    /// past what a `u64` holds, end the run in `Error`; otherwise the count
    /// grows by the chunk and the status is `Downloading`.
    pub fn record_chunk(&mut self, chunk_len: u64, content_length: Option<u64>) -> (r: Result<
        (),
        AcquireError,
    >)
        requires
            old(self).wf(),
        ensures
            final(self).wf(),
            final(self).same_but_download(old(self)),
            final(self).download_status.bytes_downloaded >= old(self).download_status.bytes_downloaded,
            !old(self).download_status.state.spec_in_flight() ==> r == Err::<(), AcquireError>(
                AcquireError::OutOfOrder) && *final(self) == *old(self),
            old(self).download_status.state.spec_in_flight() ==> {
                let known = known_size(old(self).download_status.size, content_length);
                let total = old(self).download_status.bytes_downloaded + chunk_len;
                if total > u64::MAX || (known != 0 && total > known) {
                    &&& r == Err::<(), AcquireError>(AcquireError::Overrun)
                    &&& final(self).download_status.state == DownloadState::Error
                    &&& final(self).download_status.log is Some
                    &&& final(self).download_status.bytes_downloaded
                        == old(self).download_status.bytes_downloaded
                    &&& final(self).download_status.size == old(self).download_status.size
                    &&& final(self).size == old(self).size
                } else {
                    &&& r == Ok::<(), AcquireError>(())
                    &&& final(self).download_status == (DownloadStatus {
                        bytes_downloaded: total as u64,
                        log: old(self).download_status.log,
                        size: known,
                        state: DownloadState::Downloading,
                    })
                    &&& final(self).size == known
                }
            },
            download_edge(old(self).download_status.state, final(self).download_status.state)
                || *final(self) == *old(self),
    {
        if !self.download_status.state.in_flight() {
            return Err(AcquireError::OutOfOrder);
        }
        let known = if self.download_status.size != 0 {
            self.download_status.size
        } else {
            match content_length {
                Some(n) => n,
                None => 0,
            }
        };
        let bytes = self.download_status.bytes_downloaded;
        if bytes > u64::MAX - chunk_len || (known != 0 && bytes + chunk_len > known) {
            self.download_status.state = DownloadState::Error;
            self.download_status.log = Some("received more bytes than announced".to_owned());
            return Err(AcquireError::Overrun);
        }
        self.download_status.bytes_downloaded = bytes + chunk_len;
        self.download_status.size = known;
        self.download_status.state = DownloadState::Downloading;
        self.size = known;
        Ok(())
    }

    /// Ends a run whose bytes have all arrived.
    ///
    /// Only a run in `Downloading` can complete. One that stopped short of a
    /// known size ends in `Error`; otherwise it is `Complete`, and a size that
    /// was never announced becomes the count of bytes received.
    pub fn complete_download(&mut self) -> (r: Result<(), AcquireError>)
        requires
            old(self).wf(),
        ensures
            final(self).wf(),
            final(self).same_but_download(old(self)),
            final(self).download_status.bytes_downloaded == old(self).download_status.bytes_downloaded,
            old(self).download_status.state != DownloadState::Downloading ==> r == Err::<(), AcquireError>(
                AcquireError::OutOfOrder) && *final(self) == *old(self),
            old(self).download_status.state == DownloadState::Downloading
                && old(self).download_status.size != 0
                && old(self).download_status.bytes_downloaded < old(self).download_status.size
                ==> r == Err::<(), AcquireError>(AcquireError::Truncated)
                && final(self).download_status.state == DownloadState::Error
                && final(self).download_status.log is Some
                && final(self).download_status.size == old(self).download_status.size
                && final(self).size == old(self).size,
            old(self).download_status.state == DownloadState::Downloading && (
            old(self).download_status.size == 0 || old(self).download_status.bytes_downloaded
                == old(self).download_status.size) ==> r == Ok::<(), AcquireError>(())
                && final(self).download_status.state == DownloadState::Complete
                && final(self).download_status.log == old(self).download_status.log
                && final(self).download_status.size == old(self).download_status.bytes_downloaded
                && final(self).size == old(self).download_status.bytes_downloaded,
            download_edge(old(self).download_status.state, final(self).download_status.state)
                || *final(self) == *old(self),
    {
        if self.download_status.state != DownloadState::Downloading {
            return Err(AcquireError::OutOfOrder);
        }
        let bytes = self.download_status.bytes_downloaded;
        if self.download_status.size != 0 && bytes < self.download_status.size {
            self.download_status.state = DownloadState::Error;
            self.download_status.log = Some("download ended before the announced size".to_owned());
            return Err(AcquireError::Truncated);
        }
        self.download_status.size = bytes;
        self.download_status.state = DownloadState::Complete;
        self.size = bytes;
        Ok(())
    }

    /// Ends the running acquisition in `Error` with `message`.
    pub fn fail_download(&mut self, message: String) -> (r: Result<(), AcquireError>)
        requires
            old(self).wf(),
        ensures
            final(self).wf(),
            final(self).same_but_download(old(self)),
            final(self).size == old(self).size,
            !old(self).download_status.state.spec_in_flight() ==> r == Err::<(), AcquireError>(
                AcquireError::OutOfOrder) && *final(self) == *old(self),
            old(self).download_status.state.spec_in_flight() ==> r == Ok::<(), AcquireError>(())
                && final(self).download_status == (DownloadStatus {
                bytes_downloaded: old(self).download_status.bytes_downloaded,
                log: Some(message),
                size: old(self).download_status.size,
                state: DownloadState::Error,
            }),
            download_edge(old(self).download_status.state, final(self).download_status.state)
                || *final(self) == *old(self),
    {
        if !self.download_status.state.in_flight() {
            return Err(AcquireError::OutOfOrder);
        }
        self.download_status.state = DownloadState::Error;
        self.download_status.log = Some(message);
        Ok(())
    }

    /// Begins flashing the acquired image.
    ///
    /// Refused while a flash runs, or before an acquisition has completed.
    pub fn start_flash(&mut self) -> (r: Result<(), FlashError>)
        requires
            old(self).wf(),
        ensures
            final(self).wf(),
            final(self).same_but_update(old(self)),
            old(self).update_status.state.spec_in_flight() ==> r == Err::<(), FlashError>(
                FlashError::AlreadyInFlight) && *final(self) == *old(self),
            !old(self).update_status.state.spec_in_flight() && old(self).download_status.state
                != DownloadState::Complete ==> r == Err::<(), FlashError>(FlashError::ImageNotReady)
                && *final(self) == *old(self),
            !old(self).update_status.state.spec_in_flight() && old(self).download_status.state
                == DownloadState::Complete ==> r == Ok::<(), FlashError>(())
                && final(self).update_status == (UpdateStatus { log: None, state: UpdateState::Starting }),
            update_edge(old(self).update_status.state, final(self).update_status.state)
                || *final(self) == *old(self),
    {
        if self.update_status.state.in_flight() {
            return Err(FlashError::AlreadyInFlight);
        }
        if self.download_status.state != DownloadState::Complete {
            return Err(FlashError::ImageNotReady);
        }
        self.update_status = UpdateStatus { log: None, state: UpdateState::Starting };
        Ok(())
    }

    /// Hands the image to the flashing tool: `Starting -> Updating`.
    pub fn begin_write(&mut self) -> (r: Result<(), FlashError>)
        requires
            old(self).wf(),
        ensures
            final(self).wf(),
            final(self).same_but_update(old(self)),
            old(self).update_status.state != UpdateState::Starting ==> r == Err::<(), FlashError>(
                FlashError::OutOfOrder) && *final(self) == *old(self),
            old(self).update_status.state == UpdateState::Starting ==> r == Ok::<(), FlashError>(())
                && final(self).update_status == (UpdateStatus {
                log: old(self).update_status.log,
                state: UpdateState::Updating,
            }),
            update_edge(old(self).update_status.state, final(self).update_status.state)
                || *final(self) == *old(self),
    {
        if self.update_status.state != UpdateState::Starting {
            return Err(FlashError::OutOfOrder);
        }
        self.update_status.state = UpdateState::Updating;
        Ok(())
    }

    /// Merges a progress report of the flashing tool.
    ///
    /// A report that moves the flash along its write and finalizing phases
    /// replaces the status as it stands; any other is dropped.
    pub fn merge_progress(&mut self, report: UpdateStatus) -> (accepted: bool)
        requires
            old(self).wf(),
        ensures
            final(self).wf(),
            final(self).same_but_update(old(self)),
            accepted == progress_edge(old(self).update_status.state, report.state),
            accepted ==> final(self).update_status == report,
            !accepted ==> *final(self) == *old(self),
            update_edge(old(self).update_status.state, final(self).update_status.state)
                || *final(self) == *old(self),
    {
        let accepted = match (self.update_status.state, report.state) {
            (UpdateState::Updating, UpdateState::Updating)
            | (UpdateState::Updating, UpdateState::Finalizing)
            | (UpdateState::Finalizing, UpdateState::Finalizing) => true,
            _ => false,
        };
        if accepted {
            self.update_status = report;
        }
        accepted
    }

    /// Takes the flashing tool's outcome for the write phase.
    ///
    /// Success moves the flash to `Finalizing`; a failure ends it in `Error`
    /// with the tool's message.
    pub fn finish_write(&mut self, outcome: Result<(), String>) -> (r: Result<(), FlashError>)
        requires
            old(self).wf(),
        ensures
            final(self).wf(),
            final(self).same_but_update(old(self)),
            !(old(self).update_status.state == UpdateState::Updating || old(self).update_status.state
                == UpdateState::Finalizing) ==> r == Err::<(), FlashError>(FlashError::OutOfOrder)
                && *final(self) == *old(self),
            (old(self).update_status.state == UpdateState::Updating || old(self).update_status.state
                == UpdateState::Finalizing) ==> r == Ok::<(), FlashError>(()) && match outcome {
                Ok(_) => final(self).update_status == (UpdateStatus {
                    log: old(self).update_status.log,
                    state: UpdateState::Finalizing,
                }),
                Err(m) => final(self).update_status == (UpdateStatus {
                    log: Some(m),
                    state: UpdateState::Error,
                }),
            },
            update_edge(old(self).update_status.state, final(self).update_status.state)
                || *final(self) == *old(self),
    {
        match self.update_status.state {
            UpdateState::Updating | UpdateState::Finalizing => {},
            _ => {
                return Err(FlashError::OutOfOrder);
            },
        }
        match outcome {
            Ok(()) => {
                self.update_status.state = UpdateState::Finalizing;
            },
            Err(m) => {
                self.update_status = UpdateStatus { log: Some(m), state: UpdateState::Error };
            },
        }
        Ok(())
    }

    /// Ends a finalized flash: `Finalizing -> Stopped`.
    pub fn finalize(&mut self) -> (r: Result<(), FlashError>)
        requires
            old(self).wf(),
        ensures
            final(self).wf(),
            final(self).same_but_update(old(self)),
            old(self).update_status.state != UpdateState::Finalizing ==> r == Err::<(), FlashError>(
                FlashError::OutOfOrder) && *final(self) == *old(self),
            old(self).update_status.state == UpdateState::Finalizing ==> r == Ok::<(), FlashError>(())
                && final(self).update_status == (UpdateStatus {
                log: old(self).update_status.log,
                state: UpdateState::Stopped,
            }),
            update_edge(old(self).update_status.state, final(self).update_status.state)
                || *final(self) == *old(self),
    {
        if self.update_status.state != UpdateState::Finalizing {
            return Err(FlashError::OutOfOrder);
        }
        self.update_status.state = UpdateState::Stopped;
        Ok(())
    }

    /// The download status as it is published.
    pub fn download_snapshot(&self) -> (r: FlashingStatus)
        ensures
            r == FlashingStatus::Downloading(self.download_status),
    {
        FlashingStatus::Downloading(self.download_status.clone())
    }

    /// The update status as it is published.
    pub fn update_snapshot(&self) -> (r: FlashingStatus)
        ensures
            r == FlashingStatus::Updating(self.update_status),
    {
        FlashingStatus::Updating(self.update_status.clone())
    }

    /// A copy of the device list, to publish without holding the session.
    pub fn snapshot_devices(&self) -> (r: Vec<DeviceInfo>)
        ensures
            r@ == self.devices@,
    {
        copy_devices(&self.devices)
    }

    /// Takes the result of enumerating the bus: one entry per identity, the
    /// first listed. Returns the snapshot to publish.
    pub fn replace_devices(&mut self, listed: &Vec<DeviceInfo>) -> (r: Vec<DeviceInfo>)
        requires
            old(self).wf(),
        ensures
            final(self).wf(),
            final(self).devices@ == dedup(listed@),
            r@ == final(self).devices@,
            final(self).archive_source == old(self).archive_source,
            final(self).version == old(self).version,
            final(self).size == old(self).size,
            final(self).download_status == old(self).download_status,
            final(self).update_status == old(self).update_status,
    {
        self.devices = dedup_devices(listed);
        copy_devices(&self.devices)
    }

    /// Applies a change reported by the bus watcher.
    ///
    /// Returns the snapshot to publish when the set of devices changed, and
    /// `None` when it did not (a device already known was added again, or one
    /// not known was removed).
    pub fn apply_device_change(&mut self, change: DeviceChange) -> (r: Option<Vec<DeviceInfo>>)
        requires
            old(self).wf(),
        ensures
            final(self).wf(),
            final(self).archive_source == old(self).archive_source,
            final(self).version == old(self).version,
            final(self).size == old(self).size,
            final(self).download_status == old(self).download_status,
            final(self).update_status == old(self).update_status,
            r is Some ==> r->Some_0@ == final(self).devices@,
            r is None ==> final(self).devices == old(self).devices,
            match change {
                DeviceChange::Added(d) => if has_serial(old(self).devices@, d.serial) {
                    r is None
                } else {
                    r is Some && final(self).devices@ == old(self).devices@.push(d)
                },
                DeviceChange::Removed(serial) => if has_serial(old(self).devices@, serial) {
                    r is Some && final(self).devices@ == without(old(self).devices@, serial)
                } else {
                    r is None
                },
            },
    {
        match change {
            DeviceChange::Added(d) => {
                if find_serial(&self.devices, d.serial).is_some() {
                    return None;
                }
                proof {
                    lemma_push_unique(self.devices@, d);
                }
                self.devices.push(d);
                Some(copy_devices(&self.devices))
            },
            DeviceChange::Removed(serial) => {
                if find_serial(&self.devices, serial).is_none() {
                    return None;
                }
                proof {
                    lemma_without_props(self.devices@, serial);
                }
                self.devices = remove_serial(&self.devices, serial);
                Some(copy_devices(&self.devices))
            },
        }
    }
}

/// The size a run knows once a report with `content_length` has come.
pub open spec fn known_size(size: u64, content_length: Option<u64>) -> u64 {
    if size != 0 {
        size
    } else {
        match content_length {
            Some(n) => n,
            None => 0,
        }
    }
}

} // verus!
