use teralaunch::cache::{CachedFileInfo, FileCache, ModTime};
use teralaunch::diff::{check_entry, check_progress_due, decide, diff_files, LocalFile, Verdict};
use teralaunch::digest::{hash_bytes, hash_chunks, to_hex, ContentHasher};
use teralaunch::ignore::{default_ignore_patterns, is_ignored, relative_path};
use teralaunch::manifest::{entries_from_fields, manifest_entry, total_size, FileInfo, RawEntry};

fn info(path: &str, hash: &str, size: u64, url: &str) -> FileInfo {
    FileInfo { path: path.to_string(), hash: hash.to_string(), size, url: url.to_string() }
}

fn t(secs: u64) -> ModTime {
    ModTime { secs, nanos: 0 }
}

fn patterns(p: &[&str]) -> Vec<String> {
    p.iter().map(|s| s.to_string()).collect()
}

#[test]
fn ignore_example_from_the_design() {
    let set = patterns(&["Logs", "Config/App.ini"]);
    assert!(is_ignored("/game/Logs/today.log", "/game", &set));
    assert!(is_ignored("/game/Config/App.ini", "/game", &set));
    assert!(!is_ignored("/game/Data/Logs/x", "/game", &set));
}

#[test]
fn ignore_outside_root_is_not_ignored() {
    let set = patterns(&["Logs"]);
    assert!(!is_ignored("/other/Logs/a", "/game", &set));
    assert!(!is_ignored("/gamer/Logs/a", "/game", &set));
}

#[test]
fn ignore_top_level_exact_name() {
    let set = patterns(&["version.ini"]);
    assert!(is_ignored("/game/version.ini", "/game", &set));
    assert!(!is_ignored("/game/Data/version.ini", "/game", &set));
}

#[test]
fn ignore_normalizes_backslashes() {
    let set = patterns(&["S1Game/Logs"]);
    assert!(is_ignored("C:\\Tera\\S1Game\\Logs\\a.log", "C:\\Tera", &set));
    assert!(!is_ignored("C:\\Tera\\S1Game\\Data\\a.upk", "C:\\Tera", &set));
}

#[test]
fn relative_path_cases() {
    assert_eq!(relative_path("/game/a/b.txt", "/game"), Some("a/b.txt".to_string()));
    assert_eq!(relative_path("/game/a/b.txt", "/game/"), Some("a/b.txt".to_string()));
    assert_eq!(relative_path("/game", "/game"), Some(String::new()));
    assert_eq!(relative_path("/gamex/a", "/game"), None);
    assert_eq!(relative_path("D:\\g\\x\\y", "D:\\g"), Some("x/y".to_string()));
}

#[test]
fn default_patterns_cover_logs_and_installer() {
    let set = default_ignore_patterns();
    assert_eq!(set.len(), 20);
    assert!(is_ignored("/t/S1Game/Logs/x.log", "/t", &set));
    assert!(is_ignored("/t/unins000.exe", "/t", &set));
    assert!(is_ignored("/t/$Patch/a", "/t", &set));
    assert!(!is_ignored("/t/S1Game/CookedPC/a.gpk", "/t", &set));
}

#[test]
fn digest_of_known_inputs() {
    assert_eq!(
        hash_bytes(b"abc"),
        "ba7816bf8f01cfea414140de5dae2223b00361a396177a9cb410ff61f20015ad"
    );
    assert_eq!(
        hash_bytes(b""),
        "e3b0c44298fc1c149afbf4c8996fb92427ae41e4649b934ca495991b7852b855"
    );
}

#[test]
fn digest_is_content_only() {
    let data: Vec<u8> = (0..20000u32).map(|i| (i % 251) as u8).collect();
    let whole = hash_bytes(&data);
    let chunks: Vec<Vec<u8>> = data.chunks(8192).map(|c| c.to_vec()).collect();
    assert_eq!(hash_chunks(&chunks), whole);
    let other: Vec<Vec<u8>> = data.chunks(7).map(|c| c.to_vec()).collect();
    assert_eq!(hash_chunks(&other), whole);
    let mut h = ContentHasher::new();
    h.update(&data[..3]);
    h.update(&data[3..]);
    assert_eq!(h.finalize(), whole);
}

#[test]
fn digest_changes_with_one_byte() {
    let mut data = vec![7u8; 100];
    let before = hash_bytes(&data);
    data[50] = 8;
    assert_ne!(hash_bytes(&data), before);
    assert_eq!(before.len(), 64);
}

#[test]
fn manifest_skips_incomplete_elements() {
    let raws = vec![
        RawEntry { path: Some("a".into()), hash: Some("h".into()), size: Some(3), url: Some("u".into()) },
        RawEntry { path: None, hash: Some("h".into()), size: Some(3), url: None },
        RawEntry { path: Some("b".into()), hash: None, size: Some(3), url: None },
        RawEntry { path: Some("c".into()), hash: Some("h".into()), size: None, url: None },
        RawEntry { path: Some("d".into()), hash: Some("h2".into()), size: Some(0), url: None },
    ];
    let out = entries_from_fields(&raws);
    assert_eq!(out.len(), 2);
    assert_eq!(out[0].path, "a");
    assert_eq!(out[0].url, "u");
    assert_eq!(out[1].path, "d");
    assert_eq!(out[1].hash, "h2");
    assert_eq!(out[1].url, "");
}

#[test]
fn manifest_entry_builds_url() {
    let e = manifest_entry("http://host:8080", "S1Game/a.gpk", "abc".to_string(), 12);
    assert_eq!(e.url, "http://host:8080/files/S1Game/a.gpk");
    assert_eq!(e.path, "S1Game/a.gpk");
    assert_eq!(e.size, 12);
}

#[test]
fn total_size_sums_and_detects_overflow() {
    let files = vec![info("a", "h", 10, "u"), info("b", "h", 20, "u")];
    assert_eq!(total_size(&files), Some(30));
    assert_eq!(total_size(&Vec::new()), Some(0));
    let big = vec![info("a", "h", u64::MAX, "u"), info("b", "h", 1, "u")];
    assert_eq!(total_size(&big), None);
}

#[test]
fn cache_insert_replaces() {
    let mut c = FileCache::new();
    assert!(c.get("a").is_none());
    c.insert("a".into(), CachedFileInfo { hash: "h1".into(), last_modified: t(1) });
    c.insert("b".into(), CachedFileInfo { hash: "h2".into(), last_modified: t(2) });
    c.insert("a".into(), CachedFileInfo { hash: "h3".into(), last_modified: t(3) });
    let a = c.get("a").unwrap();
    assert_eq!(a.hash, "h3");
    assert_eq!(a.last_modified, t(3));
    assert_eq!(c.get("b").unwrap().hash, "h2");
}

#[test]
fn diff_example_from_the_design() {
    let manifest = vec![info("a.txt", "H1", 10, "u1"), info("b.txt", "H2", 20, "u2")];
    let mut cache = FileCache::new();
    cache.insert("a.txt".into(), CachedFileInfo { hash: "H1".into(), last_modified: t(5) });
    let locals = vec![LocalFile::Present { size: 10, modified: Some(t(5)) }, LocalFile::Missing];
    assert_eq!(check_entry(&manifest[0], &locals[0], &cache), Verdict::UpToDate);
    assert_eq!(check_entry(&manifest[1], &locals[1], &cache), Verdict::Required);
    let (required, _) = diff_files(&manifest, &locals, &vec![None, None], cache);
    assert_eq!(required.len(), 1);
    assert_eq!(required[0].path, "b.txt");
    assert_eq!(required[0].hash, "H2");
    assert_eq!(required[0].size, 20);
    assert_eq!(required[0].url, "u2");
}

#[test]
fn diff_size_mismatch_needs_no_hash() {
    let e = info("a", "H", 10, "u");
    let mut cache = FileCache::new();
    cache.insert("a".into(), CachedFileInfo { hash: "H".into(), last_modified: t(1) });
    let local = LocalFile::Present { size: 11, modified: Some(t(1)) };
    assert_eq!(check_entry(&e, &local, &cache), Verdict::Required);
    // Even a matching digest handed in does not rescue it.
    let (required, cache) = diff_files(&vec![e], &vec![local], &vec![Some("H".to_string())], cache);
    assert_eq!(required.len(), 1);
    assert_eq!(required[0].size, 10);
    let rec = cache.get("a").unwrap();
    assert_eq!((rec.hash.as_str(), rec.last_modified), ("H", t(1)));
}

#[test]
fn diff_missing_files_are_all_required() {
    let manifest = vec![info("a", "H1", 1, "u"), info("b", "H2", 2, "u"), info("c", "H3", 3, "u")];
    let locals = vec![LocalFile::Missing, LocalFile::Present { size: 2, modified: None }, LocalFile::Missing];
    let hashes = vec![None, Some("H2".to_string()), None];
    let (required, _) = diff_files(&manifest, &locals, &hashes, FileCache::new());
    assert_eq!(required.len(), 2);
    assert_eq!(required[0].path, "a");
    assert_eq!(required[0].size, 1);
    assert_eq!(required[1].path, "c");
    assert_eq!(required[1].size, 3);
}

#[test]
fn diff_trusts_matching_cache_record() {
    let e = info("a", "H", 4, "u");
    let mut cache = FileCache::new();
    cache.insert("a".into(), CachedFileInfo { hash: "H".into(), last_modified: t(9) });
    let local = LocalFile::Present { size: 4, modified: Some(t(9)) };
    assert_eq!(check_entry(&e, &local, &cache), Verdict::UpToDate);
    let (required, cache) = diff_files(&vec![e], &vec![local], &vec![Some("other".to_string())], cache);
    assert!(required.is_empty());
    let rec = cache.get("a").unwrap();
    assert_eq!((rec.hash.as_str(), rec.last_modified), ("H", t(9)));
}

#[test]
fn diff_stale_cache_forces_hash() {
    let e = info("a", "H", 4, "u");
    let mut cache = FileCache::new();
    cache.insert("a".into(), CachedFileInfo { hash: "H".into(), last_modified: t(9) });
    let local = LocalFile::Present { size: 4, modified: Some(t(10)) };
    assert_eq!(check_entry(&e, &local, &cache), Verdict::HashNeeded);
    let (required, cache) = diff_files(&vec![e], &vec![local], &vec![Some("X".to_string())], cache);
    assert_eq!(required.len(), 1);
    let rec = cache.get("a").unwrap();
    assert_eq!(rec.hash, "X");
    assert_eq!(rec.last_modified, t(10));
}

#[test]
fn diff_unreadable_and_hash_failure_are_required() {
    let manifest = vec![info("a", "H", 1, "u"), info("b", "H", 1, "u")];
    let locals = vec![LocalFile::Unreadable, LocalFile::Present { size: 1, modified: Some(t(1)) }];
    let (required, cache) = diff_files(&manifest, &locals, &vec![None, None], FileCache::new());
    assert_eq!(required.len(), 2);
    assert!(cache.get("b").is_none());
}

#[test]
fn diff_second_pass_is_empty_and_hash_free() {
    let manifest = vec![info("a", "H1", 1, "u"), info("b", "H2", 2, "u")];
    let locals = vec![
        LocalFile::Present { size: 1, modified: Some(t(1)) },
        LocalFile::Present { size: 2, modified: Some(t(2)) },
    ];
    let hashes = vec![Some("H1".to_string()), Some("H2".to_string())];
    let (first, cache) = diff_files(&manifest, &locals, &hashes, FileCache::new());
    assert!(first.is_empty());
    for i in 0..2 {
        assert_eq!(check_entry(&manifest[i], &locals[i], &cache), Verdict::UpToDate);
    }
    let (second, _) = diff_files(&manifest, &locals, &vec![None, None], cache);
    assert!(second.is_empty());
}

#[test]
fn check_progress_cadence() {
    assert!(check_progress_due(50, 120));
    assert!(check_progress_due(100, 120));
    assert!(check_progress_due(120, 120));
    assert!(!check_progress_due(51, 120));
    assert!(!check_progress_due(1, 120));
}

#[test]
fn decide_after_hashing() {
    let e = info("a", "H", 1, "u");
    assert!(decide(&e, Verdict::Required, &Some("H".to_string())));
    assert!(!decide(&e, Verdict::UpToDate, &None));
    assert!(!decide(&e, Verdict::HashNeeded, &Some("H".to_string())));
    assert!(decide(&e, Verdict::HashNeeded, &Some("G".to_string())));
    assert!(decide(&e, Verdict::HashNeeded, &None));
}

#[test]
fn hex_encoding() {
    assert_eq!(to_hex(&[0x00, 0x0f, 0xa5, 0xff]), "000fa5ff");
    assert_eq!(to_hex(&[]), "");
    let mut h = ContentHasher::new();
    h.update(b"abc");
    let raw = h.finalize_bytes();
    assert_eq!(raw.len(), 32);
    assert_eq!(raw[0], 0xba);
    assert_eq!(raw[31], 0xad);
}
