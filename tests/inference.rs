use exif_dates::datetime::{infer_datetime, Failure};
use exif_dates::metadata::has_datetime;
use exif_dates::process::{
    exiftool_args, on_discovered, on_presence, on_written, should_skip, FileOutcome, Step,
};

fn timestamp_of(name: &str) -> String {
    infer_datetime(name).unwrap().to_string()
}

#[test]
fn full_date_with_space() {
    let d = infer_datetime("1999-08-24 Gaschurn.jpg").unwrap();
    assert_eq!(d.year, "1999");
    assert_eq!(d.month, "08");
    assert_eq!(d.day.as_deref(), Some("24"));
    assert_eq!(d.to_string(), "1999:08:24 00:00:00");
}

#[test]
fn month_only_defaults_day() {
    let d = infer_datetime("1996-05 Martin.jpg").unwrap();
    assert_eq!(d.year, "1996");
    assert_eq!(d.month, "05");
    assert_eq!(d.day, None);
    assert_eq!(d.to_string(), "1996:05:01 00:00:00");
}

#[test]
fn day_without_separator_before_text() {
    let d = infer_datetime("2002-08-16Maighelshütte Tomasee.jpg").unwrap();
    assert_eq!(d.day.as_deref(), Some("16"));
    assert_eq!(d.to_string(), "2002:08:16 00:00:00");
}

#[test]
fn no_date_in_name() {
    assert!(matches!(infer_datetime("vacation.jpg"), Err(Failure::NoDateFound)));
    match on_discovered(Some("vacation.jpg")) {
        Step::Done(o) => assert_eq!(o, FileOutcome::Failed(Failure::NoDateFound)),
        _ => panic!("expected a finished file"),
    }
}

#[test]
fn day_range_takes_first_day() {
    assert_eq!(timestamp_of("2003-07-12..13 Malbun Pfläzerhütte.jpg"), "2003:07:12 00:00:00");
}

#[test]
fn month_and_day_without_dash() {
    assert_eq!(timestamp_of("2004-1231 Silvester.jpg"), "2004:12:31 00:00:00");
}

#[test]
fn date_not_at_start() {
    assert_eq!(timestamp_of("Ferien 2005-06-07.jpg"), "2005:06:07 00:00:00");
    assert_eq!(timestamp_of("ü12-2006-02x"), "2006:02:01 00:00:00");
}

#[test]
fn leftmost_match_wins() {
    assert_eq!(timestamp_of("2001-02 and 2003-04-05"), "2001:02:01 00:00:00");
}

#[test]
fn dash_without_day() {
    assert_eq!(timestamp_of("2007-03-x.jpg"), "2007:03:01 00:00:00");
    assert_eq!(timestamp_of("2007-03-4"), "2007:03:01 00:00:00");
    assert_eq!(timestamp_of("2007-03"), "2007:03:01 00:00:00");
}

#[test]
fn month_out_of_range_is_kept() {
    assert_eq!(timestamp_of("2008-13-45"), "2008:13:45 00:00:00");
}

#[test]
fn too_short_or_malformed() {
    assert!(infer_datetime("").is_err());
    assert!(infer_datetime("199-08-24").is_err());
    assert!(infer_datetime("1999-8-24").is_err());
    assert!(infer_datetime("1999_08_24").is_err());
}

#[test]
fn invalid_encoding_fails() {
    match on_discovered(None) {
        Step::Done(o) => assert_eq!(o, FileOutcome::Failed(Failure::InvalidFilenameEncoding)),
        _ => panic!("expected a finished file"),
    }
}

#[test]
fn discovered_file_goes_to_presence_check() {
    match on_discovered(Some("1999-08-24 Gaschurn.jpg")) {
        Step::CheckPresence { timestamp } => assert_eq!(timestamp, "1999:08:24 00:00:00"),
        _ => panic!("expected a presence check"),
    }
}

#[test]
fn tagged_file_is_skipped_with_writes_enabled() {
    match on_presence("1999:08:24 00:00:00".to_string(), Ok(true), false) {
        Step::Done(o) => assert_eq!(o, FileOutcome::SkippedAlreadyTagged),
        _ => panic!("expected a skip"),
    }
}

#[test]
fn untagged_file_is_written() {
    match on_presence("1999:08:24 00:00:00".to_string(), Ok(false), false) {
        Step::Write { timestamp } => assert_eq!(timestamp, "1999:08:24 00:00:00"),
        _ => panic!("expected a write"),
    }
    assert_eq!(on_written(true), FileOutcome::Written);
    assert_eq!(on_written(false), FileOutcome::Failed(Failure::WriteFailed));
}

#[test]
fn dry_run_never_writes() {
    for present in [true, false] {
        match on_presence("1996:05:01 00:00:00".to_string(), Ok(present), true) {
            Step::Done(o) => assert!(
                o == FileOutcome::SkippedAlreadyTagged || o == FileOutcome::SkippedDryRun
            ),
            _ => panic!("a dry run must not write"),
        }
    }
}

#[test]
fn second_run_reports_tagged() {
    match on_presence("1996:05:01 00:00:00".to_string(), Ok(false), false) {
        Step::Write { .. } => {}
        _ => panic!("expected a write"),
    }
    match on_presence("1996:05:01 00:00:00".to_string(), Ok(true), false) {
        Step::Done(o) => assert_eq!(o, FileOutcome::SkippedAlreadyTagged),
        _ => panic!("expected a skip"),
    }
}

#[test]
fn unreadable_metadata_fails() {
    match on_presence("1996:05:01 00:00:00".to_string(), Err(Failure::UnreadableMetadata), false) {
        Step::Done(o) => assert_eq!(o, FileOutcome::Failed(Failure::UnreadableMetadata)),
        _ => panic!("expected a failure"),
    }
}

#[test]
fn hidden_and_junk_names_are_skipped() {
    assert!(should_skip(Some(".DS_Store")));
    assert!(should_skip(Some("Thumbs.db")));
    assert!(should_skip(Some(".hidden.jpg")));
    assert!(should_skip(None));
    assert!(!should_skip(Some("1999-08-24 Gaschurn.jpg")));
    assert!(!should_skip(Some("Thumbs.dbx")));
    assert!(!should_skip(Some("thumbs.db")));
    assert!(!should_skip(Some("")));
}

#[test]
fn exiftool_arguments() {
    let args = exiftool_args("1999:08:24 00:00:00", "/photos/a.jpg");
    assert_eq!(
        args,
        vec![
            "-overwrite_original".to_string(),
            "-datetimeoriginal=\"1999:08:24 00:00:00\"".to_string(),
            "/photos/a.jpg".to_string(),
        ]
    );
}

fn tiff(entries_ifd0: &[u8]) -> Vec<u8> {
    let mut b = vec![b'I', b'I', 42, 0, 8, 0, 0, 0];
    b.extend_from_slice(entries_ifd0);
    b
}

fn tiff_with_capture_date() -> Vec<u8> {
    // IFD0 at 8: one entry pointing to the Exif IFD at 26.
    let mut ifd0 = vec![1, 0, 0x69, 0x87, 4, 0, 1, 0, 0, 0, 26, 0, 0, 0];
    ifd0.extend_from_slice(&[0, 0, 0, 0]);
    // Exif IFD at 26: DateTimeOriginal, ASCII, 20 bytes at 44.
    ifd0.extend_from_slice(&[1, 0, 0x03, 0x90, 2, 0, 20, 0, 0, 0, 44, 0, 0, 0]);
    ifd0.extend_from_slice(&[0, 0, 0, 0]);
    ifd0.extend_from_slice(b"2001:02:03 04:05:06\0");
    tiff(&ifd0)
}

fn tiff_without_capture_date() -> Vec<u8> {
    // IFD0 at 8: Orientation only.
    let mut ifd0 = vec![1, 0, 0x12, 0x01, 3, 0, 1, 0, 0, 0, 1, 0, 0, 0];
    ifd0.extend_from_slice(&[0, 0, 0, 0]);
    tiff(&ifd0)
}

#[test]
fn capture_date_present() {
    assert_eq!(has_datetime(&tiff_with_capture_date()), Ok(true));
}

#[test]
fn capture_date_absent() {
    assert_eq!(has_datetime(&tiff_without_capture_date()), Ok(false));
}

#[test]
fn garbage_is_unreadable() {
    assert_eq!(has_datetime(b"not an image at all"), Err(Failure::UnreadableMetadata));
    assert_eq!(has_datetime(&[]), Err(Failure::UnreadableMetadata));
}
