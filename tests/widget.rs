use filersmanager::clock::{access_text, access_time_text, format_stamp, LocalDateTime};
use filersmanager::scan::{EntryType, Timestamp};
use filersmanager::widget::{Category, ColumnKind, FileTableRow};

fn at(year: i32, month: u32, day: u32, hour: u32, minute: u32) -> LocalDateTime {
    LocalDateTime { year, month, day, hour, minute }
}

#[test]
fn writes_local_time_zero_padded() {
    assert_eq!(format_stamp(&at(2024, 3, 5, 7, 9)), "2024/03/05 07:09");
    assert_eq!(format_stamp(&at(1999, 12, 31, 23, 59)), "1999/12/31 23:59");
}

#[test]
fn writes_early_year_with_four_digits() {
    assert_eq!(format_stamp(&at(7, 1, 1, 0, 0)), "0007/01/01 00:00");
}

#[test]
fn writes_years_outside_four_digits_with_sign() {
    assert_eq!(format_stamp(&at(-5, 2, 3, 4, 5)), "-0005/02/03 04:05");
    assert_eq!(format_stamp(&at(12345, 6, 7, 8, 9)), "+12345/06/07 08:09");
}

#[test]
fn no_local_time_shows_nothing() {
    assert_eq!(access_text(None), "");
    assert_eq!(access_text(Some(at(2020, 2, 29, 12, 30))), "2020/02/29 12:30");
}

#[test]
fn no_access_time_shows_nothing() {
    assert_eq!(access_time_text(None), "");
}

#[test]
fn access_time_beyond_year_9999_shows_nothing() {
    assert_eq!(access_time_text(Some(Timestamp { secs: 253_402_300_800, nanos: 0 })), "");
    assert_eq!(access_time_text(Some(Timestamp { secs: -62_135_596_801, nanos: 0 })), "");
}

#[test]
fn access_time_is_shown_as_local_date() {
    let text = access_time_text(Some(Timestamp { secs: 1_700_000_000, nanos: 0 }));
    assert_eq!(text.len(), 16);
    let chars: Vec<char> = text.chars().collect();
    assert_eq!(chars[4], '/');
    assert_eq!(chars[7], '/');
    assert_eq!(chars[10], ' ');
    assert_eq!(chars[13], ':');
    assert!(text.starts_with("2023/11/1"));
}

#[test]
fn row_from_local_time_is_exact() {
    let row = FileTableRow::from_local_time(
        "/home/u/a.txt".to_string(),
        "0.10kb".to_string(),
        Some(at(2023, 11, 14, 22, 13)),
        EntryType::File,
    );
    assert_eq!(row.filename, "/home/u/a.txt");
    assert_eq!(row.size, "0.10kb");
    assert_eq!(row.time, "2023/11/14 22:13");
    assert_eq!(row.entry_type, EntryType::File);
}

#[test]
fn generated_row_without_access_time_has_empty_time() {
    let mut row = FileTableRow::generate("/home/u/docs".to_string(), "1.91MB".to_string(), None, EntryType::Dir);
    assert_eq!(row.time, "");
    assert_eq!(row.size, "1.91MB");
    assert_eq!(row.entry_type, EntryType::Dir);
    assert_eq!(row.get_filepath(), "/home/u/docs");
    assert_eq!(row.filename, "/home/u/docs");
}

#[test]
fn row_line_shows_file_name() {
    let row = FileTableRow::from_local_time(
        "/home/u/a.txt".to_string(),
        "0.10kb".to_string(),
        Some(at(2023, 11, 14, 22, 13)),
        EntryType::File,
    );
    assert_eq!(row.to_string(), "a.txt\t0.10kb\t2023/11/14 22:13");
}

#[test]
fn row_line_without_file_name_shows_path() {
    let row = FileTableRow::from_local_time("/".to_string(), "0.00kb".to_string(), None, EntryType::Dir);
    assert_eq!(row.to_string(), "/\t0.00kb\t");
}

#[test]
fn category_labels() {
    assert_eq!(Category::FileName.label(), "Name");
    assert_eq!(Category::Size.label(), "Size");
    assert_eq!(Category::DateModified.label(), "Date Modified");
    assert_eq!(Category::Perm.label(), "Perm");
}

#[test]
fn column_titles() {
    assert_eq!(ColumnKind::Index.title(), "Index");
    assert_eq!(ColumnKind::FileName.title(), "Name");
    assert_eq!(ColumnKind::Size.title(), "Size");
    assert_eq!(ColumnKind::ModifiedTime.title(), "Access Time");
    assert_eq!(ColumnKind::Delete.title(), "Delete");
}
