use sys_file_manager_path::discovery::{Discovery, DiscoveryAction, DiscoveryEvent};
use sys_file_manager_path::error::{ExploreError, Stage};
use sys_file_manager_path::matcher::{assemble_app_info, ForegroundInfo, Platform, ViewRecord};
use sys_file_manager_path::path::{decode_wide, wide_len, PathAction, PathEvent, PathExtraction, PathPhase};
use sys_file_manager_path::registry::{ScanAction, ScanEvent, SubExploreScan, S_FALSE, VT_DISPATCH};
use sys_file_manager_path::session::ComSession;

fn wide(s: &str) -> Vec<u16> {
    s.encode_utf16().collect()
}

fn foreground(pid: u32) -> ForegroundInfo {
    ForegroundInfo {
        hwnd: 0x1234,
        title: "Documents".to_string(),
        process_id: pid,
        exec_path: "C:\\Windows\\explorer.exe".to_string(),
    }
}

fn view(dir: &str, pid: u32) -> ViewRecord {
    ViewRecord { dir: dir.to_string(), process_id: pid }
}

/// Drives an extraction through the platform calls, answering each with the
/// given display name, and counts the frees of each buffer.
fn run_extraction(name: &[u16], fail_at: Option<PathAction>) -> (Result<String, ExploreError>, u32, u32) {
    let mut m = PathExtraction::new();
    let mut name_frees = 0u32;
    let mut id_list_frees = 0u32;
    loop {
        let action = m.next_action();
        if Some(action) == fail_at {
            m.on_event(PathEvent::Failed(-5));
            continue;
        }
        match action {
            PathAction::ReadUnit(i) => m.on_event(PathEvent::Unit(name[i])),
            PathAction::ReleaseDisplayName => {
                name_frees += 1;
                m.on_event(PathEvent::Released);
            }
            PathAction::ReleaseIdList => {
                id_list_frees += 1;
                m.on_event(PathEvent::Released);
            }
            PathAction::Finish => return (m.finish(), name_frees, id_list_frees),
            _ => m.on_event(PathEvent::Succeeded),
        }
    }
}

#[test]
fn wide_len_finds_first_terminator() {
    assert_eq!(wide_len(&[0x43, 0x3a, 0, 0x41, 0]), Some(2));
    assert_eq!(wide_len(&[0]), Some(0));
    assert_eq!(wide_len(&[0x41, 0x42]), None);
    assert_eq!(wide_len(&[]), None);
}

#[test]
fn decode_wide_stops_at_terminator() {
    let mut buf = wide("C:\\Users\\me");
    buf.push(0);
    buf.extend(wide("junk"));
    assert_eq!(decode_wide(&buf), Some("C:\\Users\\me".to_string()));
    assert_eq!(decode_wide(&[0x41, 0x42]), None);
    assert_eq!(decode_wide(&[0]), Some(String::new()));
}

#[test]
fn decode_wide_replaces_lone_surrogate() {
    let buf = [0x44, 0xd800, 0x45, 0];
    assert_eq!(decode_wide(&buf), Some("D\u{fffd}E".to_string()));
}

#[test]
fn extraction_round_trip_releases_once() {
    let mut name = wide("C:\\Users\\me\\Desktop");
    name.push(0);
    let (r, name_frees, id_list_frees) = run_extraction(&name, None);
    assert_eq!(r, Ok("C:\\Users\\me\\Desktop".to_string()));
    assert_eq!((name_frees, id_list_frees), (1, 1));
}

#[test]
fn extraction_with_invalid_units_releases_once() {
    let name = [0x5a, 0xdc00, 0xd800, 0];
    let (r, name_frees, id_list_frees) = run_extraction(&name, None);
    assert_eq!(r, Ok("Z\u{fffd}\u{fffd}".to_string()));
    assert_eq!((name_frees, id_list_frees), (1, 1));
}

#[test]
fn extraction_failures_release_what_was_acquired() {
    let name = [0x41, 0];
    let cases = [
        (PathAction::QueryActiveView, Stage::ActiveView, 0),
        (PathAction::CastPersistIdList, Stage::PersistIdList, 0),
        (PathAction::GetIdList, Stage::IdList, 0),
        (PathAction::CreateShellItem, Stage::ShellItem, 1),
        (PathAction::GetDisplayName, Stage::DisplayName, 1),
    ];
    for (action, stage, id_list_expected) in cases {
        let (r, name_frees, id_list_frees) = run_extraction(&name, Some(action));
        assert_eq!(r, Err(ExploreError::Path(stage, -5)));
        assert_eq!(name_frees, 0);
        assert_eq!(id_list_frees, id_list_expected);
    }
}

#[test]
fn extraction_ignores_unexpected_event() {
    let mut m = PathExtraction::new();
    m.on_event(PathEvent::Released);
    assert_eq!(m.phase, PathPhase::ActiveView);
    assert_eq!(m.next_action(), PathAction::QueryActiveView);
}

fn fetched(status: i32, count: u32, tag: u16) -> ScanEvent<u32> {
    ScanEvent::Fetched { status, count, tag }
}

#[test]
fn scan_skips_non_dispatchable_elements() {
    let mut s: SubExploreScan<u32> = SubExploreScan::new();
    assert_eq!(s.next_action(), ScanAction::FetchNext);
    s.on_event(fetched(0, 1, 8));
    assert_eq!(s.next_action(), ScanAction::FetchNext);
    s.on_event(fetched(0, 1, VT_DISPATCH));
    assert_eq!(s.next_action(), ScanAction::ToDispatch);
    s.on_event(ScanEvent::Dispatch(false));
    assert_eq!(s.next_action(), ScanAction::FetchNext);
    s.on_event(fetched(0, 1, VT_DISPATCH));
    s.on_event(ScanEvent::Dispatch(true));
    assert_eq!(s.next_action(), ScanAction::QueryBrowser);
    s.on_event(ScanEvent::Browser(Ok(())));
    assert_eq!(s.next_action(), ScanAction::GetWindow);
    s.on_event(ScanEvent::Window(Ok((11, 0x100))));
    s.on_event(fetched(0, 1, 0));
    s.on_event(fetched(0, 1, VT_DISPATCH));
    s.on_event(ScanEvent::Dispatch(true));
    s.on_event(ScanEvent::Browser(Ok(())));
    s.on_event(ScanEvent::Window(Ok((22, 0x200))));
    s.on_event(fetched(S_FALSE, 0, 0));
    assert_eq!(s.next_action(), ScanAction::Finish);
    let found = s.finish().unwrap();
    let got: Vec<(u32, isize)> = found.iter().map(|w| (w.shell_browser, w.hwnd)).collect();
    assert_eq!(got, vec![(11, 0x100), (22, 0x200)]);
}

#[test]
fn scan_stops_on_zero_fetched_or_end_status() {
    let mut s: SubExploreScan<u32> = SubExploreScan::new();
    s.on_event(fetched(0, 0, VT_DISPATCH));
    assert_eq!(s.next_action(), ScanAction::Finish);
    assert_eq!(s.finish().unwrap().len(), 0);

    let mut s: SubExploreScan<u32> = SubExploreScan::new();
    s.on_event(fetched(S_FALSE, 1, VT_DISPATCH));
    assert_eq!(s.next_action(), ScanAction::Finish);
    assert_eq!(s.finish().unwrap().len(), 0);
}

#[test]
fn scan_browser_failure_is_fatal() {
    let mut s: SubExploreScan<u32> = SubExploreScan::new();
    s.on_event(fetched(0, 1, VT_DISPATCH));
    s.on_event(ScanEvent::Dispatch(true));
    s.on_event(ScanEvent::Browser(Ok(())));
    s.on_event(ScanEvent::Window(Ok((1, 5))));
    s.on_event(fetched(0, 1, VT_DISPATCH));
    s.on_event(ScanEvent::Dispatch(true));
    s.on_event(ScanEvent::Browser(Err(-2147467262)));
    assert_eq!(s.next_action(), ScanAction::Finish);
    s.on_event(fetched(0, 1, VT_DISPATCH));
    assert_eq!(s.next_action(), ScanAction::Finish);
    assert!(matches!(s.finish(), Err(ExploreError::BrowserQuery(-2147467262))));
}

#[test]
fn scan_window_handle_failure_is_fatal() {
    let mut s: SubExploreScan<u32> = SubExploreScan::new();
    s.on_event(fetched(0, 1, VT_DISPATCH));
    s.on_event(ScanEvent::Dispatch(true));
    s.on_event(ScanEvent::Browser(Ok(())));
    s.on_event(ScanEvent::Window(Err(-1)));
    assert!(matches!(s.finish(), Err(ExploreError::WindowHandle(-1))));
}

#[test]
fn session_repeated_initialize_never_fails() {
    let mut s = ComSession::new();
    assert!(s.needs_initialize());
    assert_eq!(s.record_initialize(0), Ok(()));
    assert!(!s.needs_initialize());
    assert_eq!(s.record_initialize(1), Ok(()));
    assert_eq!(s.record_initialize(-2147024882), Ok(()));
    assert!(s.initialized);
}

#[test]
fn session_accepts_already_initialized() {
    let mut s = ComSession::new();
    assert_eq!(s.record_initialize(1), Ok(()));
}

#[test]
fn session_rejects_apartment_of_other_model() {
    let changed_mode = 0x80010106u32 as i32;
    let mut s = ComSession::new();
    assert_eq!(s.record_initialize(changed_mode), Err(ExploreError::Initialize(changed_mode)));
    assert!(s.needs_initialize());
}

#[test]
fn session_rejects_failure() {
    let mut s = ComSession::new();
    assert_eq!(s.record_initialize(-2147024882), Err(ExploreError::Initialize(-2147024882)));
    assert!(s.needs_initialize());
    assert_eq!(s.record_initialize(0), Ok(()));
}

#[test]
fn no_windows_gives_empty_dir() {
    let info = assemble_app_info(foreground(40), &vec![]);
    assert_eq!(info.dir, "");
    assert!(info.is_active);
    assert_eq!(info.platform, Platform::Windows);
    assert_eq!(info.hwnd_id, 0x1234);
    assert_eq!(info.title, "Documents");
    assert_eq!(info.bundle_id, "");
    assert_eq!(info.exec_path, "C:\\Windows\\explorer.exe");
}

#[test]
fn single_match_gives_its_dir() {
    let views = vec![view("C:\\a", 1), view("C:\\b", 40), view("C:\\c", 2)];
    assert_eq!(assemble_app_info(foreground(40), &views).dir, "C:\\b");
}

#[test]
fn last_match_wins() {
    let views = vec![view("C:\\first", 40), view("C:\\other", 3), view("C:\\last", 40), view("D:\\x", 5)];
    assert_eq!(assemble_app_info(foreground(40), &views).dir, "C:\\last");
}

#[test]
fn no_match_gives_empty_dir() {
    let views = vec![view("C:\\a", 1), view("C:\\b", 2)];
    assert_eq!(assemble_app_info(foreground(40), &views).dir, "");
}

#[test]
fn platform_defaults_to_unknown() {
    assert_eq!(Platform::default(), Platform::Unknown);
}

fn run_discovery(
    windows: Result<Vec<ViewRecord>, ExploreError>,
    fg: Result<ForegroundInfo, ExploreError>,
    fail_extract_at: Option<usize>,
) -> (Result<sys_file_manager_path::matcher::AppInfo, ExploreError>, Vec<DiscoveryAction>) {
    let mut d = Discovery::new();
    let mut seen = Vec::new();
    let records = windows.clone().unwrap_or_default();
    loop {
        let action = d.next_action();
        seen.push(action);
        let event = match action {
            DiscoveryAction::EnumerateWindows => DiscoveryEvent::Enumerated(windows.clone().map(|w| w.len())),
            DiscoveryAction::ResolveForeground => DiscoveryEvent::Foreground(fg.clone()),
            DiscoveryAction::ExtractWindow(i) => {
                if Some(i) == fail_extract_at {
                    DiscoveryEvent::Extracted(Err(ExploreError::Path(Stage::ShellItem, -7)))
                } else {
                    DiscoveryEvent::Extracted(Ok(records[i].clone()))
                }
            }
            DiscoveryAction::Finish => return (d.finish(), seen),
        };
        d.on_event(event);
    }
}

#[test]
fn discovery_with_no_windows_is_active_with_empty_dir() {
    let (r, seen) = run_discovery(Ok(vec![]), Ok(foreground(40)), None);
    let info = r.unwrap();
    assert_eq!(info.dir, "");
    assert!(info.is_active);
    assert_eq!(info.platform, Platform::Windows);
    assert_eq!(
        seen,
        vec![DiscoveryAction::EnumerateWindows, DiscoveryAction::ResolveForeground, DiscoveryAction::Finish]
    );
}

#[test]
fn discovery_extracts_every_window_and_last_match_wins() {
    let windows = vec![view("C:\\one", 40), view("C:\\two", 9), view("C:\\three", 40)];
    let (r, seen) = run_discovery(Ok(windows), Ok(foreground(40)), None);
    assert_eq!(r.unwrap().dir, "C:\\three");
    assert_eq!(
        seen,
        vec![
            DiscoveryAction::EnumerateWindows,
            DiscoveryAction::ResolveForeground,
            DiscoveryAction::ExtractWindow(0),
            DiscoveryAction::ExtractWindow(1),
            DiscoveryAction::ExtractWindow(2),
            DiscoveryAction::Finish,
        ]
    );
}

#[test]
fn discovery_browser_failure_aborts() {
    let (r, seen) = run_discovery(Err(ExploreError::BrowserQuery(-3)), Ok(foreground(40)), None);
    assert!(matches!(r, Err(ExploreError::BrowserQuery(-3))));
    assert_eq!(seen, vec![DiscoveryAction::EnumerateWindows, DiscoveryAction::Finish]);
}

#[test]
fn discovery_executable_failure_aborts() {
    let (r, _) = run_discovery(Ok(vec![view("C:\\a", 40)]), Err(ExploreError::ExecutablePath(-5)), None);
    assert!(matches!(r, Err(ExploreError::ExecutablePath(-5))));
}

#[test]
fn discovery_extraction_failure_aborts() {
    let windows = vec![view("C:\\a", 40), view("C:\\b", 40), view("C:\\c", 40)];
    let (r, seen) = run_discovery(Ok(windows), Ok(foreground(40)), Some(1));
    assert!(matches!(r, Err(ExploreError::Path(Stage::ShellItem, -7))));
    assert_eq!(seen.last(), Some(&DiscoveryAction::Finish));
    assert!(!seen.contains(&DiscoveryAction::ExtractWindow(2)));
}
