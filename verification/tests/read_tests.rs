use rarchive::error::{
    CallReport, ARCHIVE_EOF, ARCHIVE_FAILED, ARCHIVE_FATAL, ARCHIVE_OK, ARCHIVE_WARN, ERRNO_MISC,
};
use rarchive::read::{HeaderRecord, ReadArchive, SourceReport};
use rarchive::{Archive, ErrorOrIo, Filter, Format, IoError};

fn ok_call() -> CallReport {
    CallReport { status: ARCHIVE_OK, errno: 0, message: None }
}

fn warn_call() -> CallReport {
    CallReport { status: ARCHIVE_WARN, errno: 0, message: Some("deprecated option".to_string()) }
}

fn failed_call(errno: i32, message: &str) -> CallReport {
    CallReport { status: ARCHIVE_FAILED, errno, message: Some(message.to_string()) }
}

fn ok_report(headers: Vec<HeaderRecord>) -> SourceReport {
    SourceReport { status: ARCHIVE_OK, errno: 0, message: None, headers: headers }
}

fn rejected_report() -> SourceReport {
    SourceReport {
        status: ARCHIVE_FATAL,
        errno: 84,
        message: Some("Unrecognized archive format".to_string()),
        headers: Vec::new(),
    }
}

fn header(name: &str) -> HeaderRecord {
    HeaderRecord { status: ARCHIVE_OK, pathname: Some(name.to_string()) }
}

/// The byte content of an archive holding zero entries: a zip end-of-central-
/// directory record and nothing else.
fn empty_zip_bytes() -> Vec<u8> {
    let mut bytes = vec![0x50, 0x4b, 0x05, 0x06];
    bytes.extend(std::iter::repeat(0u8).take(18));
    bytes
}

#[test]
fn archive_read_test_create() {
    let _a1 = ReadArchive::new();
}

#[test]
fn test_support() {
    let mut a = ReadArchive::new();
    a.support_format(Format::All, ok_call()).unwrap();
    a.support_filter(Filter::All, ok_call()).unwrap();
}

#[test]
fn new_archive() {
    let _a1 = ReadArchive::new();
}

#[test]
fn support_filter_format() {
    let mut a = ReadArchive::new();
    a.support_filter(Filter::All, ok_call()).unwrap();
    a.support_format(Format::All, ok_call()).unwrap();
}

#[test]
fn set_option() {
    let mut a = ReadArchive::new();
    let refusal = failed_call(ERRNO_MISC, "Unsupported option ``invalid''");
    assert!(a.set_options("invalid", refusal).is_err());
}

#[test]
fn open_buf() {
    let mut a = ReadArchive::new();
    a.support_format(Format::All, ok_call()).unwrap();
    assert!(a.open_buffer(vec![0u8], rejected_report()).is_err());
}

#[test]
fn open_path() {
    let _a = ReadArchive::from_path(Ok(empty_zip_bytes()), ok_report(Vec::new())).unwrap();
}

#[test]
fn support_all_never_errors() {
    let mut a = ReadArchive::new();
    // The all-selectors are documented never to fail, whatever the engine's
    // error slot happened to hold.
    a.support_format(Format::All, ok_call()).unwrap();
    a.support_filter(Filter::All, ok_call()).unwrap();
    a.support_format(Format::All, failed_call(7, "stale slot")).unwrap();
    a.support_filter(Filter::All, failed_call(7, "stale slot")).unwrap();
}

#[test]
fn support_single_selector_follows_the_engine() {
    let mut a = ReadArchive::new();
    a.support_format(Format::Tar, ok_call()).unwrap();
    a.support_filter(Filter::Gzip, warn_call()).unwrap();
    let e = a.support_format(Format::Rar, failed_call(78, "rar support not compiled in")).unwrap_err();
    assert_eq!(e.code(), 78);
    assert_eq!(e.message(), Some("rar support not compiled in"));
    let e = a.support_filter(Filter::Lz4, failed_call(62, "lz4 support not compiled in")).unwrap_err();
    assert_eq!(e.code(), 62);
    assert_eq!(e.message(), Some("lz4 support not compiled in"));
    // The session stays usable for further configuration after a refusal.
    a.support_format(Format::Zip, ok_call()).unwrap();
}

#[test]
fn missing_file_is_io_error() {
    let read_failed: Result<Vec<u8>, IoError> =
        Err(IoError::new("no such file or directory".to_string()));
    match ReadArchive::from_path(read_failed, ok_report(Vec::new())) {
        Err(ErrorOrIo::Io(e)) => assert_eq!(e.message(), "no such file or directory"),
        _ => panic!("a failed read must surface as an I/O error"),
    }
}

#[test]
fn open_reports_io_error_distinctly() {
    let mut a = ReadArchive::new();
    a.support_format(Format::All, ok_call()).unwrap();
    let read_failed: Result<Vec<u8>, IoError> = Err(IoError::new("permission denied".to_string()));
    match a.open(read_failed, ok_report(Vec::new())) {
        Err(ErrorOrIo::Io(e)) => assert_eq!(e.message(), "permission denied"),
        _ => panic!("a failed read must surface as an I/O error"),
    }
}

#[test]
fn unrecognized_buffer_is_archive_error() {
    match ReadArchive::from_path(Ok(vec![0u8]), rejected_report()) {
        Err(ErrorOrIo::Archive(e)) => {
            assert_eq!(e.code(), 84);
            assert_eq!(e.message(), Some("Unrecognized archive format"));
        }
        _ => panic!("a rejected source must surface as an archive error"),
    }
}

#[test]
fn open_buffer_keeps_reported_error() {
    let mut a = ReadArchive::new();
    a.support_format(Format::All, ok_call()).unwrap();
    let report = SourceReport {
        status: ARCHIVE_FATAL,
        errno: 22,
        message: None,
        headers: Vec::new(),
    };
    let e = a.open_buffer(vec![0u8], report).unwrap_err();
    assert_eq!(e.code(), 22);
    assert_eq!(e.message(), None);
}

#[test]
fn warning_status_still_opens() {
    let mut a = ReadArchive::new();
    a.support_format(Format::All, ok_call()).unwrap();
    let report = SourceReport {
        status: ARCHIVE_WARN,
        errno: 0,
        message: None,
        headers: Vec::new(),
    };
    a.open_buffer(empty_zip_bytes(), report).unwrap();
}

#[test]
fn second_open_is_rejected() {
    let mut a = ReadArchive::new();
    a.support_format(Format::All, ok_call()).unwrap();
    a.open_buffer(empty_zip_bytes(), ok_report(Vec::new())).unwrap();
    let e = a.open_buffer(empty_zip_bytes(), ok_report(Vec::new())).unwrap_err();
    assert_eq!(e.code(), ERRNO_MISC);
    assert_eq!(e.message(), Some("data source already attached"));
}

#[test]
fn refused_option_surfaces_the_engine_error() {
    // A freshly created, unconfigured session has no module that could
    // consume an option, so the engine refuses each kind of setting; the
    // session surfaces exactly what the engine reported.
    let mut a = ReadArchive::new();
    let e = a.set_options("invalid", failed_call(-1, "Unsupported option ``invalid''")).unwrap_err();
    assert_eq!(e.code(), -1);
    assert_eq!(e.message(), Some("Unsupported option ``invalid''"));
    let refusal = failed_call(-1, "Unsupported option ``ignorecrc32''");
    assert!(a.set_option("zip", "ignorecrc32", "1", refusal).is_err());
    let refusal = failed_call(-1, "Unsupported option ``level''");
    assert!(a.set_filter_option("gzip", "level", "9", refusal).is_err());
    let refusal = failed_call(-1, "Unsupported option ``ignorecrc32''");
    assert!(a.set_format_option("zip", "ignorecrc32", "1", refusal).is_err());
}

#[test]
fn consumed_options_succeed() {
    let mut a = ReadArchive::new();
    a.support_format(Format::Zip, ok_call()).unwrap();
    a.support_filter(Filter::Gzip, ok_call()).unwrap();
    a.set_format_option("zip", "ignorecrc32", "1", ok_call()).unwrap();
    a.set_filter_option("gzip", "level", "9", ok_call()).unwrap();
    a.set_option("zip", "hdrcharset", "UTF-8", ok_call()).unwrap();
    a.set_options("zip:ignorecrc32", ok_call()).unwrap();
    // A consumed-with-warning answer is still success at this layer.
    a.set_option("gzip", "level", "1", warn_call()).unwrap();
}

#[test]
fn empty_option_list_sets_nothing() {
    let mut a = ReadArchive::new();
    a.set_options("", ok_call()).unwrap();
}

#[test]
fn empty_archive_yields_nothing() {
    let mut a = ReadArchive::from_path(Ok(empty_zip_bytes()), ok_report(Vec::new())).unwrap();
    assert!(a.next_entry().is_none());
    assert!(a.next_entry().is_none());
}

#[test]
fn entries_come_in_archive_order() {
    let names = ["a.txt", "sub/b.txt", "c.bin"];
    let headers = names.iter().map(|n| header(n)).collect::<Vec<_>>();
    let mut a = ReadArchive::from_path(Ok(empty_zip_bytes()), ok_report(headers)).unwrap();
    let mut seen: Vec<String> = Vec::new();
    while let Some(entry) = a.next_entry() {
        let name = entry.pathname();
        assert!(!name.is_empty());
        seen.push(name);
    }
    assert_eq!(seen, names.iter().map(|n| n.to_string()).collect::<Vec<_>>());
    // Termination is idempotent: asking again keeps yielding nothing.
    assert!(a.next_entry().is_none());
    assert!(a.next_entry().is_none());
}

#[test]
fn iteration_stops_at_first_non_success() {
    let headers = vec![
        header("kept.txt"),
        HeaderRecord { status: ARCHIVE_EOF, pathname: None },
        header("never-seen.txt"),
    ];
    let mut a = ReadArchive::from_path(Ok(empty_zip_bytes()), ok_report(headers)).unwrap();
    assert_eq!(a.next_entry().unwrap().pathname(), "kept.txt");
    assert!(a.next_entry().is_none());
    assert!(a.next_entry().is_none());
}

#[test]
fn iteration_continues_from_the_session_cursor() {
    let headers = vec![header("a.txt"), header("b.txt")];
    let mut a = ReadArchive::from_path(Ok(empty_zip_bytes()), ok_report(headers)).unwrap();
    assert_eq!(a.next_entry().unwrap().pathname(), "a.txt");
    // The cursor belongs to the session: configuring in between changes
    // nothing about it, and a later request resumes where it stopped.
    a.support_format(Format::All, ok_call()).unwrap();
    assert_eq!(a.next_entry().unwrap().pathname(), "b.txt");
    assert!(a.next_entry().is_none());
}

#[test]
fn is_open_tracks_the_data_source() {
    let mut a = ReadArchive::new();
    assert!(!a.is_open());
    a.open_buffer(empty_zip_bytes(), ok_report(Vec::new())).unwrap();
    assert!(a.is_open());
}

#[test]
fn dropping_unopened_archive_is_safe() {
    let a = ReadArchive::new();
    drop(a);
    let b = ReadArchive::new();
    drop(b);
}
