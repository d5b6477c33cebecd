use firmware_session::bridge::{Bridge, Outcome, Payload};
use firmware_session::devices::{DeviceChange, DeviceInfo};
use firmware_session::events::{
    CommandKind, FrontendLoaded, ShowLogs, StartFirmwareDownload, VersionSelected,
    VersionSelectedPayload,
};
use firmware_session::session::{AcquireError, FlashError, Session};
use firmware_session::source::{starts_with, ArchiveSource};
use firmware_session::status::{DownloadState, FlashingStatus, UpdateState, UpdateStatus};

fn select(s: &mut Session, path: &str, version: Option<&str>) {
    s.select_version(VersionSelectedPayload {
        path: path.to_string(),
        version: version.map(|v| v.to_string()),
    });
}

fn device(serial: u64) -> DeviceInfo {
    DeviceInfo {
        serial,
        tag: format!("{}-Teensy", serial),
        location: format!("usb-1-{}", serial),
        online: true,
    }
}

fn serials(d: &[DeviceInfo]) -> Vec<u64> {
    d.iter().map(|x| x.serial).collect()
}

#[test]
fn prefix_check() {
    assert!(starts_with("https://x/fw.bin", "https://"));
    assert!(!starts_with("http:/x", "http://"));
    assert!(starts_with("abc", ""));
    assert!(!starts_with("", "a"));
}

#[test]
fn classify_by_scheme() {
    assert!(matches!(ArchiveSource::classify("http://a/b".to_string()), ArchiveSource::RemoteUrl(u) if u == "http://a/b"));
    assert!(matches!(ArchiveSource::classify("https://a/b".to_string()), ArchiveSource::RemoteUrl(_)));
    assert!(matches!(ArchiveSource::classify("/tmp/fw.hex".to_string()), ArchiveSource::LocalPath(p) if p == "/tmp/fw.hex"));
    assert!(matches!(ArchiveSource::classify("ftp://a".to_string()), ArchiveSource::LocalPath(_)));
    assert!(matches!(ArchiveSource::classify("HTTP://a".to_string()), ArchiveSource::LocalPath(_)));
    assert!(matches!(ArchiveSource::classify(String::new()), ArchiveSource::LocalPath(_)));
}

#[test]
fn new_session_is_idle() {
    let s = Session::new();
    assert!(s.archive_source.is_none());
    assert_eq!(s.version, "");
    assert_eq!(s.size, 0);
    assert_eq!(s.download_status.state, DownloadState::Stopped);
    assert_eq!(s.update_status.state, UpdateState::Stopped);
    assert!(s.devices.is_empty());
}

#[test]
fn selecting_local_resets_size_and_status() {
    let mut s = Session::new();
    select(&mut s, "/fw/a.hex", Some("2.0"));
    s.start_download().unwrap();
    s.record_chunk(10, Some(10)).unwrap();
    s.complete_download().unwrap();
    assert_eq!(s.size, 10);
    select(&mut s, "/fw/b.hex", None);
    assert_eq!(s.size, 0);
    assert_eq!(s.version, "");
    assert_eq!(s.download_status.state, DownloadState::Stopped);
    assert_eq!(s.download_status.bytes_downloaded, 0);
    assert!(matches!(&s.archive_source, Some(ArchiveSource::LocalPath(p)) if p == "/fw/b.hex"));
}

#[test]
fn selecting_during_a_run_keeps_the_run() {
    let mut s = Session::new();
    select(&mut s, "https://x/fw.bin", Some("1"));
    s.start_download().unwrap();
    s.record_chunk(4, Some(8)).unwrap();
    select(&mut s, "https://y/fw.bin", Some("2"));
    assert_eq!(s.download_status.state, DownloadState::Downloading);
    assert_eq!(s.download_status.bytes_downloaded, 4);
    assert_eq!(s.version, "2");
}

#[test]
fn start_without_source_errors() {
    let mut s = Session::new();
    assert_eq!(s.start_download().unwrap_err(), AcquireError::NoSourceSelected);
    assert_eq!(s.download_status.state, DownloadState::Error);
    assert!(s.download_status.log.is_some());
}

#[test]
fn second_start_is_refused_and_status_kept() {
    let mut s = Session::new();
    select(&mut s, "https://x/fw.bin", None);
    s.start_download().unwrap();
    s.record_chunk(100, Some(1000)).unwrap();
    let before = s.download_status.clone();
    assert_eq!(s.start_download().unwrap_err(), AcquireError::AlreadyInFlight);
    assert_eq!(s.download_status, before);
}

#[test]
fn chunks_accumulate_and_fix_size() {
    let mut s = Session::new();
    select(&mut s, "https://x/fw.bin", None);
    s.start_download().unwrap();
    s.record_chunk(0, None).unwrap();
    assert_eq!(s.download_status.size, 0);
    s.record_chunk(300, Some(1000)).unwrap();
    s.record_chunk(200, Some(5)).unwrap();
    assert_eq!(s.download_status.bytes_downloaded, 500);
    assert_eq!(s.download_status.size, 1000);
    assert_eq!(s.size, 1000);
    assert_eq!(s.download_status.state, DownloadState::Downloading);
}

#[test]
fn overrun_ends_in_error() {
    let mut s = Session::new();
    select(&mut s, "https://x/fw.bin", None);
    s.start_download().unwrap();
    s.record_chunk(600, Some(1000)).unwrap();
    assert_eq!(s.record_chunk(500, None).unwrap_err(), AcquireError::Overrun);
    assert_eq!(s.download_status.state, DownloadState::Error);
    assert_eq!(s.download_status.bytes_downloaded, 600);
    assert!(s.download_status.log.is_some());
}

#[test]
fn overflow_ends_in_error() {
    let mut s = Session::new();
    select(&mut s, "https://x/fw.bin", None);
    s.start_download().unwrap();
    s.record_chunk(u64::MAX, None).unwrap();
    assert_eq!(s.record_chunk(1, None).unwrap_err(), AcquireError::Overrun);
    assert_eq!(s.download_status.bytes_downloaded, u64::MAX);
}

#[test]
fn chunk_without_run_is_refused() {
    let mut s = Session::new();
    assert_eq!(s.record_chunk(1, None).unwrap_err(), AcquireError::OutOfOrder);
    assert_eq!(s.download_status.state, DownloadState::Stopped);
    assert_eq!(s.complete_download().unwrap_err(), AcquireError::OutOfOrder);
    assert_eq!(s.fail_download("x".to_string()).unwrap_err(), AcquireError::OutOfOrder);
}

#[test]
fn truncated_download_errors() {
    let mut s = Session::new();
    select(&mut s, "https://x/fw.bin", None);
    s.start_download().unwrap();
    s.record_chunk(10, Some(20)).unwrap();
    assert_eq!(s.complete_download().unwrap_err(), AcquireError::Truncated);
    assert_eq!(s.download_status.state, DownloadState::Error);
}

#[test]
fn unknown_size_becomes_count() {
    let mut s = Session::new();
    select(&mut s, "https://x/fw.bin", None);
    s.start_download().unwrap();
    s.record_chunk(7, None).unwrap();
    s.complete_download().unwrap();
    assert_eq!(s.download_status.size, 7);
    assert_eq!(s.size, 7);
    assert_eq!(s.download_status.state, DownloadState::Complete);
}

#[test]
fn failure_keeps_message() {
    let mut s = Session::new();
    select(&mut s, "https://x/fw.bin", None);
    s.start_download().unwrap();
    s.fail_download("network unreachable".to_string()).unwrap();
    assert_eq!(s.download_status.state, DownloadState::Error);
    assert_eq!(s.download_status.log.as_deref(), Some("network unreachable"));
    s.start_download().unwrap();
    assert_eq!(s.download_status.state, DownloadState::Starting);
    assert!(s.download_status.log.is_none());
}

#[test]
fn flash_needs_image() {
    let mut s = Session::new();
    assert_eq!(s.start_flash().unwrap_err(), FlashError::ImageNotReady);
    assert_eq!(s.update_status.state, UpdateState::Stopped);
    assert_eq!(s.begin_write().unwrap_err(), FlashError::OutOfOrder);
    assert_eq!(s.finalize().unwrap_err(), FlashError::OutOfOrder);
}

fn acquired() -> Session {
    let mut s = Session::new();
    select(&mut s, "/fw/a.hex", None);
    s.start_download().unwrap();
    s.record_chunk(64, Some(64)).unwrap();
    s.complete_download().unwrap();
    s
}

#[test]
fn flash_failure_is_recorded() {
    let mut s = acquired();
    s.start_flash().unwrap();
    assert_eq!(s.start_flash().unwrap_err(), FlashError::AlreadyInFlight);
    s.begin_write().unwrap();
    s.finish_write(Err("device disconnected".to_string())).unwrap();
    assert_eq!(s.update_status.state, UpdateState::Error);
    assert_eq!(s.update_status.log.as_deref(), Some("device disconnected"));
    s.start_flash().unwrap();
    assert_eq!(s.update_status.state, UpdateState::Starting);
}

#[test]
fn unexpected_progress_is_dropped() {
    let mut s = acquired();
    s.start_flash().unwrap();
    let early = UpdateStatus { log: Some("early".to_string()), state: UpdateState::Updating };
    assert!(!s.merge_progress(early));
    assert_eq!(s.update_status.state, UpdateState::Starting);
    s.begin_write().unwrap();
    let stop = UpdateStatus { log: None, state: UpdateState::Stopped };
    assert!(!s.merge_progress(stop));
    let err = UpdateStatus { log: None, state: UpdateState::Error };
    assert!(!s.merge_progress(err));
    assert_eq!(s.update_status.state, UpdateState::Updating);
}

#[test]
fn snapshots_copy_status() {
    let mut s = acquired();
    match s.download_snapshot() {
        FlashingStatus::Downloading(d) => assert_eq!(d, s.download_status),
        _ => panic!("expected a download status"),
    }
    s.start_flash().unwrap();
    match s.update_snapshot() {
        FlashingStatus::Updating(u) => assert_eq!(u.state, UpdateState::Starting),
        _ => panic!("expected an update status"),
    }
}

#[test]
fn listing_dedups_by_serial() {
    let mut s = Session::new();
    let mut dup = device(1);
    dup.location = "elsewhere".to_string();
    let snap = s.replace_devices(&vec![device(1), device(2), dup, device(3)]);
    assert_eq!(serials(&snap), vec![1, 2, 3]);
    assert_eq!(s.devices[0].location, "usb-1-1");
    assert_eq!(serials(&s.snapshot_devices()), vec![1, 2, 3]);
}

#[test]
fn removal_publishes_once() {
    let mut s = Session::new();
    s.replace_devices(&vec![device(10), device(20)]);
    let snap = s.apply_device_change(DeviceChange::Removed(10)).unwrap();
    assert_eq!(serials(&snap), vec![20]);
    assert!(s.apply_device_change(DeviceChange::Removed(10)).is_none());
    assert_eq!(serials(&s.devices), vec![20]);
}

#[test]
fn adding_known_device_changes_nothing() {
    let mut s = Session::new();
    s.replace_devices(&vec![device(1)]);
    assert!(s.apply_device_change(DeviceChange::Added(device(1))).is_none());
    let snap = s.apply_device_change(DeviceChange::Added(device(2))).unwrap();
    assert_eq!(serials(&snap), vec![1, 2]);
}

#[test]
fn command_names_round_trip() {
    for k in [
        StartFirmwareDownload::kind(),
        VersionSelected::kind(),
        ShowLogs::kind(),
        FrontendLoaded::kind(),
    ] {
        assert_eq!(CommandKind::from_name(k.name()), Some(k));
    }
    assert_eq!(VersionSelected::kind().name(), "version-selected");
    assert_eq!(StartFirmwareDownload::kind().name(), "start-firmware-download");
    assert_eq!(CommandKind::from_name("version-selecte"), None);
    assert_eq!(CommandKind::from_name(""), None);
}

#[test]
fn malformed_payload_is_dropped() {
    let mut b = Bridge::new();
    assert!(matches!(b.dispatch(CommandKind::VersionSelected, None), Outcome::Dropped));
    assert!(matches!(b.dispatch(CommandKind::VersionSelected, Some(Payload::Empty)), Outcome::Dropped));
    let p = VersionSelectedPayload { path: "https://x".to_string(), version: None };
    assert!(matches!(
        b.dispatch(CommandKind::StartFirmwareDownload, Some(Payload::VersionSelected(p))),
        Outcome::Dropped
    ));
    assert!(b.session.archive_source.is_none());
    assert_eq!(b.session.download_status.state, DownloadState::Stopped);
    assert!(!b.watcher_started);
}

#[test]
fn watcher_starts_once() {
    let mut b = Bridge::new();
    assert!(matches!(b.dispatch(CommandKind::FrontendLoaded, Some(Payload::Empty)), Outcome::StartWatcher));
    assert!(matches!(b.dispatch(CommandKind::FrontendLoaded, Some(Payload::Empty)), Outcome::WatcherRunning));
    assert!(matches!(b.dispatch(CommandKind::ShowLogs, Some(Payload::Empty)), Outcome::ShowLogs));
}

#[test]
fn download_then_flash_end_to_end() {
    let mut b = Bridge::new();
    let p = VersionSelectedPayload {
        path: "https://x/fw.bin".to_string(),
        version: Some("1.2.3".to_string()),
    };
    assert!(matches!(
        b.dispatch(CommandKind::VersionSelected, Some(Payload::VersionSelected(p))),
        Outcome::SourceSelected
    ));
    assert_eq!(b.session.version, "1.2.3");
    let src = match b.dispatch(CommandKind::StartFirmwareDownload, Some(Payload::Empty)) {
        Outcome::DownloadStarted(src) => src,
        _ => panic!("download did not start"),
    };
    assert!(matches!(src, ArchiveSource::RemoteUrl(u) if u == "https://x/fw.bin"));
    let s = &mut b.session;
    let mut seen = vec![s.download_status.state];
    let mut last = 0;
    for _ in 0..4 {
        s.record_chunk(256, Some(1024)).unwrap();
        assert!(s.download_status.bytes_downloaded > last);
        last = s.download_status.bytes_downloaded;
        seen.push(s.download_status.state);
    }
    s.complete_download().unwrap();
    seen.push(s.download_status.state);
    seen.dedup();
    assert_eq!(seen, vec![DownloadState::Starting, DownloadState::Downloading, DownloadState::Complete]);
    assert_eq!(last, 1024);

    s.start_flash().unwrap();
    let mut flashed = vec![s.update_status.state];
    s.begin_write().unwrap();
    flashed.push(s.update_status.state);
    assert!(s.merge_progress(UpdateStatus { log: Some("writing 50%".to_string()), state: UpdateState::Updating }));
    assert_eq!(s.update_status.log.as_deref(), Some("writing 50%"));
    flashed.push(s.update_status.state);
    s.finish_write(Ok(())).unwrap();
    flashed.push(s.update_status.state);
    s.finalize().unwrap();
    flashed.push(s.update_status.state);
    flashed.dedup();
    assert_eq!(
        flashed,
        vec![UpdateState::Starting, UpdateState::Updating, UpdateState::Finalizing, UpdateState::Stopped]
    );
}
