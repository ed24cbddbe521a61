use download_engine::error::DownloadError;
use download_engine::gdrive::GDriveDownloader;
use download_engine::http::{range_header, DownloadMetadata};
use download_engine::kind::DownloadType;
use download_engine::manager::{DownloadManager, FileDownloader};
use download_engine::paths::{resolve_final_path, staging_path};
use download_engine::progress::{ProgressEvent, Transfer, TransferEvent};
use download_engine::storage::{best_mount, AppSettings, DownloadHistory, StorageInfo};
use download_engine::text::{contains, ends_with, find_from, parse_u64};
use download_engine::transfer::{check_response, plan_fetch, total_size, FetchPlan, Verdict};

#[test]
fn text_search() {
    assert!(contains("abcabd", "abd"));
    assert!(!contains("abcab", "abd"));
    assert!(contains("abc", ""));
    assert_eq!(find_from("abcabc", "bc", 0), Some(1));
    assert_eq!(find_from("abcabc", "bc", 2), Some(4));
    assert_eq!(find_from("abcabc", "bc", 5), None);
    assert!(ends_with("/tmp/download", "download"));
    assert!(!ends_with("load", "download"));
}

#[test]
fn decimal_parse() {
    assert_eq!(parse_u64("1000"), Some(1000));
    assert_eq!(parse_u64("+5"), Some(5));
    assert_eq!(parse_u64("007"), Some(7));
    assert_eq!(parse_u64("18446744073709551615"), Some(u64::MAX));
    assert_eq!(parse_u64("18446744073709551616"), None);
    assert_eq!(parse_u64(""), None);
    assert_eq!(parse_u64("+"), None);
    assert_eq!(parse_u64("-1"), None);
    assert_eq!(parse_u64("12a"), None);
    assert_eq!(parse_u64(" 12"), None);
}

#[test]
fn probe_metadata_from_headers() {
    let m = DownloadMetadata::from_headers(Some("1000"), Some("\"v1\""), Some("bytes"));
    assert_eq!(m.size, Some(1000));
    assert_eq!(m.etag.as_deref(), Some("\"v1\""));
    assert!(m.accept_ranges);
    let n = DownloadMetadata::from_headers(Some("x"), None, Some("none"));
    assert_eq!(n.size, None);
    assert!(!n.accept_ranges);
    let u = DownloadMetadata::unknown();
    assert_eq!(u.size, None);
    assert!(u.etag.is_none());
    assert!(!u.accept_ranges);
}

#[test]
fn range_header_is_open_ended() {
    assert_eq!(range_header(400), "bytes=400-");
    assert_eq!(range_header(0), "bytes=0-");
}

#[test]
fn plans() {
    assert_eq!(plan_fetch(0, true), FetchPlan { range_start: None, truncate: false });
    assert_eq!(plan_fetch(400, true), FetchPlan { range_start: Some(400), truncate: false });
    assert_eq!(plan_fetch(400, false), FetchPlan { range_start: None, truncate: true });
    assert_eq!(GDriveDownloader::plan(0, true), FetchPlan { range_start: None, truncate: false });
    assert_eq!(GDriveDownloader::plan(400, true), FetchPlan { range_start: Some(400), truncate: false });
    assert_eq!(GDriveDownloader::plan(400, false), FetchPlan { range_start: None, truncate: true });
}

#[test]
fn resume_with_ranges_appends_and_counts_full_size() {
    let meta = DownloadMetadata::from_headers(Some("1000"), None, Some("bytes"));
    let plan = FileDownloader::plan(400, &meta);
    assert_eq!(plan.range_start, Some(400));
    assert!(!plan.truncate);
    let v = check_response(&plan, 206, Some("application/octet-stream"), false);
    assert_eq!(v, Verdict::Write { truncate: false, offset: 400 });
    assert_eq!(total_size(Some("600"), 400, meta.size), Some(1000));
    let mut staged: Vec<u8> = (0..1000u32).map(|i| (i % 251) as u8).collect();
    let resource = staged.clone();
    staged.truncate(400);
    staged.extend_from_slice(&resource[400..]);
    assert_eq!(staged, resource);
}

#[test]
fn resume_without_ranges_truncates_first() {
    let meta = DownloadMetadata::from_headers(Some("1000"), None, None);
    let plan = FileDownloader::plan(400, &meta);
    assert_eq!(plan, FetchPlan { range_start: None, truncate: true });
    let v = check_response(&plan, 200, None, false);
    assert_eq!(v, Verdict::Write { truncate: false, offset: 0 });
    assert_eq!(total_size(Some("1000"), 0, meta.size), Some(1000));
}

#[test]
fn ignored_range_restarts() {
    let plan = plan_fetch(400, true);
    assert_eq!(check_response(&plan, 200, None, false), Verdict::Write { truncate: true, offset: 0 });
}

#[test]
fn range_not_satisfiable_is_resume_impossible() {
    let plan = plan_fetch(400, true);
    match check_response(&plan, 416, None, false) {
        Verdict::Reject(DownloadError::ResumeNotPossible(m)) => {
            assert_eq!(m, "File has changed on server. Cannot resume download.")
        }
        other => panic!("unexpected {:?}", other),
    }
    assert!(!plan.truncate);
}

#[test]
fn forbidden_is_access_denied() {
    match check_response(&plan_fetch(0, false), 403, None, true) {
        Verdict::Reject(DownloadError::AccessDenied(m)) => {
            assert_eq!(m, "Access denied. This may be a private file.")
        }
        other => panic!("unexpected {:?}", other),
    }
}

#[test]
fn other_status_is_network_error_with_reason() {
    match check_response(&plan_fetch(0, false), 404, None, false) {
        Verdict::Reject(DownloadError::NetworkError(m)) => assert_eq!(m, "Server returned: 404 Not Found"),
        other => panic!("unexpected {:?}", other),
    }
    match check_response(&plan_fetch(0, false), 500, None, false) {
        Verdict::Reject(DownloadError::NetworkError(m)) => {
            assert_eq!(m, "Server returned: 500 Internal Server Error")
        }
        other => panic!("unexpected {:?}", other),
    }
}

#[test]
fn markup_response_is_inspected_by_drive_only() {
    let plan = GDriveDownloader::plan(0, true);
    let v = check_response(&plan, 200, Some("text/html; charset=utf-8"), true);
    assert_eq!(v, Verdict::InspectMarkup);
    let e = GDriveDownloader::markup_error(b"<form action=\"https://accounts.google.com/signin\">");
    assert!(matches!(e, DownloadError::AccessDenied(_)));
    let w = check_response(&plan, 200, Some("text/html"), false);
    assert_eq!(w, Verdict::Write { truncate: false, offset: 0 });
}

#[test]
fn total_size_cases() {
    assert_eq!(total_size(None, 10, None), None);
    assert_eq!(total_size(None, 10, Some(99)), Some(99));
    assert_eq!(total_size(Some("bad"), 10, Some(99)), Some(99));
    assert_eq!(total_size(Some("18446744073709551615"), 1, None), None);
}

#[test]
fn progress_is_throttled() {
    let mut t = Transfer::new("t1".to_string(), 0, Some(1000), 0);
    assert_eq!(t.on_chunk(&[0u8; 100], 10), None);
    assert_eq!(t.on_chunk(&[0u8; 100], 99), None);
    let e = t.on_chunk(&[0u8; 100], 150).unwrap();
    assert_eq!(
        e,
        ProgressEvent { id: "t1".to_string(), downloaded: 300, total: Some(1000), speed: 2000 }
    );
    assert_eq!(t.on_chunk(&[0u8; 50], 200), None);
    let f = t.on_chunk(&[0u8; 50], 250).unwrap();
    assert_eq!(f.downloaded, 400);
    assert_eq!(f.speed, 1000);
    assert_eq!(t.downloaded(), 400);
}

#[test]
fn progress_ignores_clock_going_back() {
    let mut t = Transfer::new("t".to_string(), 5, None, 1000);
    assert_eq!(t.on_chunk(&[0u8; 10], 500), None);
    assert_eq!(t.downloaded(), 15);
}

#[test]
fn progress_counts_never_decrease() {
    let mut t = Transfer::new("t".to_string(), 0, None, 0);
    let mut seen: Vec<u64> = Vec::new();
    for k in 1..=20u64 {
        if let Some(e) = t.on_chunk(&[0u8; 7], k * 60) {
            assert_eq!(e.downloaded, t.downloaded());
            seen.push(e.downloaded);
        }
    }
    seen.push(t.finish().downloaded);
    assert!(seen.len() > 2);
    assert!(seen.windows(2).all(|w| w[0] <= w[1]));
    assert_eq!(*seen.last().unwrap(), 140);
}

#[test]
fn exactly_one_terminal_event_last() {
    let mut t = Transfer::new("t".to_string(), 0, Some(10), 0);
    let mut events: Vec<TransferEvent> = Vec::new();
    if let Some(e) = t.on_chunk(&[0u8; 10], 200) {
        events.push(TransferEvent::Progress(e));
    }
    events.push(TransferEvent::Progress(t.finish()));
    assert!(!t.finished());
    events.push(t.complete("/tmp/x".to_string()));
    assert!(t.finished());
    let terminal: Vec<usize> = events
        .iter()
        .enumerate()
        .filter(|(_, e)| !matches!(e, TransferEvent::Progress(_)))
        .map(|(i, _)| i)
        .collect();
    assert_eq!(terminal, vec![events.len() - 1]);
}

#[test]
fn failure_event_carries_message() {
    let mut t = Transfer::new("t".to_string(), 0, None, 0);
    let e = t.fail(&DownloadError::IoError("disk full".to_string()));
    assert_eq!(
        e,
        TransferEvent::Failed { id: "t".to_string(), message: "IO error: disk full".to_string() }
    );
    assert!(t.finished());
}

#[test]
fn final_progress_has_no_rate() {
    let mut t = Transfer::new("t".to_string(), 3, Some(9), 0);
    let _ = t.on_chunk(&[0u8; 6], 50);
    let e = t.finish();
    assert_eq!(e, ProgressEvent { id: "t".to_string(), downloaded: 9, total: Some(9), speed: 0 });
}

#[test]
fn staging_and_final_paths() {
    assert_eq!(staging_path("/tmp/out.bin"), "/tmp/out.bin.fdm");
    assert_eq!(resolve_final_path("/tmp/out.bin", false, None), "/tmp/out.bin");
    assert_eq!(resolve_final_path("/tmp/out.bin", false, Some("a.zip")), "/tmp/out.bin");
    assert_eq!(resolve_final_path("/home/u/download", false, Some("a.zip")), "/home/u/a.zip");
    assert_eq!(resolve_final_path("/home/u/view", false, Some("b.txt")), "/home/u/b.txt");
    assert_eq!(resolve_final_path("/tmp", true, Some("a.zip")), "/tmp/a.zip");
}

#[test]
fn start_scenario_completes_with_full_size() {
    let mut mgr: DownloadManager<u8> = DownloadManager::new();
    let start = mgr.download("https://host/file.bin").unwrap();
    assert_eq!(start.meta.download_type, DownloadType::Http);
    mgr.register(start.id.clone(), 0);
    let meta = DownloadMetadata::from_headers(Some("1000"), None, Some("bytes"));
    let plan = FileDownloader::plan(0, &meta);
    assert_eq!(plan.range_start, None);
    let v = check_response(&plan, 200, Some("application/octet-stream"), false);
    let offset = match v {
        Verdict::Write { truncate: false, offset } => offset,
        other => panic!("unexpected {:?}", other),
    };
    let total = total_size(Some("1000"), offset, meta.size);
    assert_eq!(total, Some(1000));
    let final_path = FileDownloader::target_path("/tmp/out.bin");
    assert_eq!(staging_path(&final_path), "/tmp/out.bin.fdm");
    let mut t = Transfer::new(start.id.clone(), offset, total, 0);
    let mut events: Vec<TransferEvent> = Vec::new();
    for k in 1..=4u64 {
        if let Some(e) = t.on_chunk(&[0u8; 250], k * 120) {
            events.push(TransferEvent::Progress(e));
        }
    }
    events.push(TransferEvent::Progress(t.finish()));
    events.push(t.complete(final_path));
    assert!(mgr.finish(&start.id));
    assert_eq!(t.downloaded(), 1000);
    let completes: Vec<&TransferEvent> =
        events.iter().filter(|e| matches!(e, TransferEvent::Complete { .. })).collect();
    assert_eq!(completes.len(), 1);
    assert_eq!(
        completes[0],
        &TransferEvent::Complete { id: start.id.clone(), path: "/tmp/out.bin".to_string() }
    );
}

#[test]
fn default_settings() {
    let s = AppSettings::default();
    assert_eq!(s.theme.as_deref(), Some("dark"));
    assert_eq!(s.author, "@rohanpls");
    assert_eq!(s.toggle_keybind.as_deref(), Some("Ctrl+Shift+D"));
    assert!(s.use_new_ui && s.auto_update_enabled);
    assert!(!s.launch_on_startup && !s.silent_updates);
    assert!(s.wallpaper_url.is_none() && s.default_download_path.is_none());
    assert!(DownloadHistory::new().items.is_empty());
}

#[test]
fn disk_holding_path_is_longest_mount() {
    let mounts = vec!["/".to_string(), "/home".to_string(), "/ho".to_string(), "/home/u/data".to_string()];
    assert_eq!(best_mount("/home/u/file", &mounts), Some(1));
    assert_eq!(best_mount("/home/u/data/x", &mounts), Some(3));
    assert_eq!(best_mount("/var/x", &mounts), Some(0));
    assert_eq!(best_mount("relative", &mounts), None);
    let info = StorageInfo::from_space(100, 30, "/".to_string());
    assert_eq!((info.total, info.used, info.free), (100, 70, 30));
    assert_eq!(StorageInfo::from_space(10, 30, "/".to_string()).used, 0);
}

#[test]
fn drive_resume_appends_at_destination() {
    let plan = GDriveDownloader::plan(400, true);
    let v = check_response(&plan, 206, Some("application/zip"), true);
    assert_eq!(v, Verdict::Write { truncate: false, offset: 400 });
    assert_eq!(
        GDriveDownloader::target_path("/home/u/download", false, Some("a.zip"), 400),
        "/home/u/download"
    );
    assert_eq!(GDriveDownloader::target_path("/home/u/download", false, Some("a.zip"), 0), "/home/u/a.zip");
    assert_eq!(total_size(Some("600"), 400, None), Some(1000));
}

#[test]
fn rejected_probe_knows_nothing() {
    let m = DownloadMetadata::from_probe(405, Some("512"), Some("x"), Some("bytes"));
    assert_eq!(m.size, None);
    assert!(m.etag.is_none());
    assert!(!m.accept_ranges);
    let ok = DownloadMetadata::from_probe(200, Some("512"), None, Some("bytes"));
    assert_eq!(ok.size, Some(512));
    assert!(ok.accept_ranges);
}

#[test]
fn plain_http_lands_at_destination() {
    assert_eq!(FileDownloader::target_path("/tmp/out.bin"), "/tmp/out.bin");
    assert!(FileDownloader::refresh_url("https://host/a").is_none());
}

#[test]
fn range_header_large_offset() {
    assert_eq!(range_header(u64::MAX), "bytes=18446744073709551615-");
    assert_eq!(range_header(1234567890), "bytes=1234567890-");
}
