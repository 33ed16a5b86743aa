use teralaunch::auth::{handle_logout, set_auth_info, AuthInfo, GlobalAuthInfo, LoginResponse};
use teralaunch::config::{get_game_path, get_language_from_config, load_config, ConfigError};
use teralaunch::download::{is_success, DownloadBatch, DownloadError};
use teralaunch::game::{get_game_status, handle_launch_game, reset_launch_state, GameState, LaunchError};
use teralaunch::manifest::FileInfo;

fn info(path: &str, hash: &str, size: u64) -> FileInfo {
    FileInfo { path: path.to_string(), hash: hash.to_string(), size, url: format!("http://h/{}", path) }
}

#[test]
fn status_codes() {
    assert!(is_success(200));
    assert!(is_success(204));
    assert!(!is_success(199));
    assert!(!is_success(300));
    assert!(!is_success(404));
}

#[test]
fn batch_downloads_in_order() {
    let mut b = DownloadBatch::new(vec![info("a", "HA", 10), info("b", "HB", 20)]);
    assert_eq!(b.total_bytes(), 30);
    assert_eq!(b.file_count(), 2);
    let (f, k) = b.next_file().unwrap();
    assert_eq!((f.path.as_str(), k), ("a", 1));
    assert!(b.start_file(200, Some(10)).is_ok());
    assert!(b.on_chunk(4, 0).is_none());
    let p = b.on_chunk(6, 10).unwrap();
    assert_eq!(p.downloaded_bytes, 10);
    assert_eq!(p.file_bytes, 10);
    assert_eq!(p.total_bytes, 30);
    assert_eq!(p.current_file_index, 1);
    assert_eq!(p.total_files, 2);
    assert_eq!(b.finish_file(Some("HA".to_string())).unwrap(), 10);
    let (f, k) = b.next_file().unwrap();
    assert_eq!((f.path.as_str(), k), ("b", 2));
    assert!(b.start_file(200, None).is_ok());
    let p = b.on_chunk(20, 0).unwrap();
    assert_eq!(p.downloaded_bytes, 30);
    assert_eq!(b.finish_file(Some("HB".to_string())).unwrap(), 20);
    assert!(b.next_file().is_none());
    assert!(b.is_complete());
    assert_eq!(b.sizes(), &vec![10, 20]);
}

#[test]
fn batch_progress_is_throttled_and_bounded() {
    let mut b = DownloadBatch::new(vec![info("a", "HA", 300), info("b", "HB", 100)]);
    b.start_file(200, Some(300)).unwrap();
    let mut seen = Vec::new();
    let mut now = 0u64;
    for _ in 0..30 {
        now += 40;
        if let Some(p) = b.on_chunk(10, now) {
            seen.push(p.downloaded_bytes);
        }
    }
    b.finish_file(Some("HA".to_string())).unwrap();
    b.start_file(200, Some(100)).unwrap();
    for i in 0..10 {
        if let Some(p) = b.on_chunk(10, 150 * i) {
            seen.push(p.downloaded_bytes);
        }
    }
    assert!(seen.len() < 40);
    assert!(seen.windows(2).all(|w| w[0] <= w[1]));
    assert!(seen.iter().all(|&d| d <= 400));
    assert_eq!(*seen.last().unwrap(), 400);
}

#[test]
fn batch_aborts_on_integrity_failure() {
    let mut b = DownloadBatch::new(vec![info("a", "HA", 3), info("b", "HB", 3)]);
    b.start_file(200, Some(3)).unwrap();
    b.on_chunk(3, 0);
    match b.finish_file(Some("CORRUPT".to_string())) {
        Err(DownloadError::Integrity { path, expected, actual }) => {
            assert_eq!(path, "a");
            assert_eq!(expected, "HA");
            assert_eq!(actual, "CORRUPT");
        }
        _ => panic!("expected an integrity error"),
    }
    assert!(b.next_file().is_none());
    assert!(!b.is_complete());
    assert!(b.sizes().is_empty());
}

#[test]
fn batch_fails_on_http_status() {
    let mut b = DownloadBatch::new(vec![info("a", "HA", 3)]);
    match b.start_file(404, None) {
        Err(DownloadError::HttpStatus { path, status }) => {
            assert_eq!(path, "a");
            assert_eq!(status, 404);
        }
        _ => panic!("expected a status error"),
    }
    assert!(b.next_file().is_none());
}

#[test]
fn batch_fails_when_file_cannot_be_read_back() {
    let mut b = DownloadBatch::new(vec![info("a", "HA", 3)]);
    b.start_file(200, None).unwrap();
    match b.finish_file(None) {
        Err(DownloadError::Io { path, .. }) => assert_eq!(path, "a"),
        _ => panic!("expected an io error"),
    }
    assert!(b.next_file().is_none());
}

#[test]
fn batch_transport_failure_stops_batch() {
    let mut b = DownloadBatch::new(vec![info("a", "HA", 3), info("b", "HB", 3)]);
    b.start_file(200, None).unwrap();
    match b.abort_transport("connection reset".to_string()) {
        DownloadError::Transport { path, message } => {
            assert_eq!(path, "a");
            assert_eq!(message, "connection reset");
        }
        _ => panic!("expected a transport error"),
    }
    assert!(b.next_file().is_none());
    assert!(!b.is_complete());
}

#[test]
fn empty_batch_is_complete() {
    let b = DownloadBatch::new(Vec::new());
    assert!(b.is_complete());
    assert!(b.next_file().is_none());
    assert_eq!(b.total_bytes(), 0);
}

#[test]
fn config_reads_path_and_lang() {
    let text = "[game]\npath=C:\\Games\\Tera\nlang=EUR\n";
    let c = load_config(text).ok().unwrap();
    assert_eq!(c.lang, "EUR");
    assert_eq!(get_language_from_config(text), Ok("EUR".to_string()));
    assert!(get_game_path(text).is_ok());
    let simple = "[game]\npath=/opt/tera\nlang=en\n";
    assert_eq!(get_game_path(simple), Ok("/opt/tera".to_string()));
}

#[test]
fn config_errors() {
    assert_eq!(get_game_path("[game]\nlang=EUR\n"), Err(ConfigError::MissingPath));
    assert_eq!(get_game_path("[other]\npath=/x\nlang=EUR\n"), Err(ConfigError::MissingSection));
    assert_eq!(get_game_path(""), Err(ConfigError::MissingSection));
    assert_eq!(get_game_path("[game]\n"), Err(ConfigError::MissingPath));
    assert_eq!(get_game_path("[game]\npath=/x\n"), Err(ConfigError::MissingLang));
    assert_eq!(get_game_path("[game\npath=/x\n"), Err(ConfigError::Malformed));
    assert_eq!(ConfigError::NotFound.message(), "Config file (tera_config.ini) not found");
    assert_eq!(ConfigError::MissingSection.message(), "Section [game] not found in config");
    assert_eq!(ConfigError::MissingLang.message(), "Key 'lang' not found in [game] section");
}

#[test]
fn launch_state_transitions() {
    let mut s = GameState::new();
    assert!(!get_game_status(false, &s));
    assert_eq!(s.begin(true), Err(LaunchError::AlreadyRunning));
    assert!(!s.is_launching());
    assert_eq!(s.begin(false), Ok(()));
    assert!(get_game_status(false, &s));
    assert_eq!(s.begin(false), Err(LaunchError::AlreadyLaunching));
    s.reset();
    assert!(!s.is_launching());
    assert!(get_game_status(true, &s));
}

#[test]
fn auth_set_and_clear() {
    let mut g = GlobalAuthInfo::new();
    set_auth_info(&mut g, "key".into(), "user".into(), 42, "3".into());
    assert_eq!(g.auth_key, "key");
    assert_eq!(g.user_no, 42);
    let mut s = GameState::new();
    s.begin(false).unwrap();
    handle_logout(&mut s, &mut g);
    assert!(!s.is_launching());
    assert!(g.auth_key.is_empty() && g.user_name.is_empty() && g.user_no == 0);
    let r = LoginResponse {
        return_value: true,
        return_code: 0,
        msg: "ok".into(),
        character_count: "2".into(),
        permission: 1,
        privilege: 2,
        user_no: 7,
        user_name: "n".into(),
        auth_key: "k".into(),
    };
    let a = AuthInfo::from_login(&r);
    assert_eq!(a.user_no, 7);
    assert_eq!(a.auth_key, "k");
}

#[test]
fn launch_decisions() {
    let mut s = GameState::new();
    assert_eq!(
        handle_launch_game(&mut s, false, "/opt/tera/Binaries/Tera.exe", false),
        Err(LaunchError::ExecutableMissing { path: "/opt/tera/Binaries/Tera.exe".to_string() })
    );
    assert_eq!(
        LaunchError::ExecutableMissing { path: "C:\\Tera\\Tera.exe".to_string() }.message(),
        "Game executable not found at: \"C:\\\\Tera\\\\Tera.exe\""
    );
    assert!(!s.is_launching());
    assert_eq!(handle_launch_game(&mut s, true, "x", true), Err(LaunchError::AlreadyRunning));
    assert!(!s.is_launching());
    assert_eq!(handle_launch_game(&mut s, false, "x", true), Ok(()));
    assert!(s.is_launching());
    assert_eq!(handle_launch_game(&mut s, false, "x", true), Err(LaunchError::AlreadyLaunching));
    assert!(s.is_launching());
    reset_launch_state(&mut s);
    assert!(!s.is_launching());
    assert_eq!(LaunchError::AlreadyRunning.message(), "Game is already running");
}

#[test]
fn batch_progress_spacing() {
    let mut b = DownloadBatch::new(vec![info("a", "HA", 100)]);
    b.start_file(200, Some(100)).unwrap();
    assert!(b.on_chunk(10, 99).is_none());
    let p = b.on_chunk(10, 100).unwrap();
    assert_eq!(p.downloaded_bytes, 20);
    assert!(b.on_chunk(10, 150).is_none());
    assert!(b.on_chunk(10, 199).is_none());
    assert!(b.on_chunk(10, 200).is_some());
}

#[test]
fn batch_completion_event_on_short_stream() {
    let mut b = DownloadBatch::new(vec![info("a", "HA", 100), info("b", "HB", 5)]);
    b.start_file(200, None).unwrap();
    assert!(b.on_chunk(30, 10).is_none());
    let p = b.end_of_stream(20);
    assert_eq!(p.downloaded_bytes, 30);
    assert_eq!(p.file_bytes, 30);
    assert_eq!(p.total_bytes, 105);
    assert_eq!(p.file_name, "a");
    assert_eq!(b.finish_file(Some("HA".to_string())).unwrap(), 30);
    b.start_file(200, Some(5)).unwrap();
    let p = b.on_chunk(5, 0).unwrap();
    assert_eq!(p.downloaded_bytes, 35);
    assert_eq!(p.current_file_index, 2);
}

#[test]
fn batch_accepts_oversize_file_and_caps_progress() {
    let mut b = DownloadBatch::new(vec![info("a", "HA", 10), info("b", "HB", 10)]);
    b.start_file(200, None).unwrap();
    b.on_chunk(8, 0);
    let p = b.on_chunk(7, 200).unwrap();
    assert_eq!(p.file_bytes, 15);
    assert_eq!(p.downloaded_bytes, 15);
    assert_eq!(b.finish_file(Some("HA".to_string())).unwrap(), 15);
    b.start_file(200, None).unwrap();
    let p = b.on_chunk(10, 200).unwrap();
    assert_eq!(p.downloaded_bytes, 20);
    assert_eq!(b.received_bytes(), 25);
    assert_eq!(b.finish_file(Some("HB".to_string())).unwrap(), 10);
    assert_eq!(b.sizes(), &vec![15, 10]);
}

#[test]
fn batch_io_abort() {
    let mut b = DownloadBatch::new(vec![info("a", "HA", 10)]);
    match b.abort_io("disk full".to_string()) {
        DownloadError::Io { path, message } => {
            assert_eq!(path, "a");
            assert_eq!(message, "disk full");
        }
        _ => panic!("expected an io error"),
    }
    assert!(b.next_file().is_none());
}
