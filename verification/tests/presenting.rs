use witchfile::errors::{error_label, exit_code, is_fatal, QueryError};
use witchfile::present::{
    bulk_row, category_label, collect_rows, detail_rows, elapsed_cell, encoding_label, kind_label,
    log_view_message, yes_no,
};
use witchfile::record::{attributes_from_bits, build_record, FileKind, FileRecord};

fn sample_record(component: &str, bytes: u64) -> FileRecord {
    let content = b"sample text".to_vec();
    build_record(
        component,
        FileKind::File,
        Some(&content),
        bytes,
        Some(5),
        None,
        Some(90),
        attributes_from_bits(Some(0x2), true),
    )
}

#[test]
fn the_single_path_view_has_fourteen_fixed_rows() {
    let rec = sample_record("report.pdf", 1536);
    let rows = detail_rows(&rec);
    let labels: Vec<&str> = rows.iter().map(|r| r.label.as_str()).collect();
    assert_eq!(
        labels,
        vec![
            "Name",
            "Type",
            "Extension",
            "Category",
            "Unicode",
            "ASCII",
            "Size",
            "Created",
            "Accessed",
            "Modified",
            "Hidden",
            "System",
            "Temporary",
            "Readonly"
        ]
    );
    let values: Vec<&str> = rows.iter().map(|r| r.value.as_str()).collect();
    assert_eq!(
        values,
        vec![
            "report",
            "file",
            "pdf",
            "office",
            "yes",
            "yes",
            "1.5 K",
            "5 sec(s) ago",
            "-",
            "2 min(s) ago",
            "yes",
            "no",
            "no",
            "yes"
        ]
    );
}

#[test]
fn absent_fields_show_a_placeholder() {
    let rec = build_record(
        "mystery",
        FileKind::Unknown,
        None,
        0,
        None,
        None,
        None,
        attributes_from_bits(None, false),
    );
    let rows = detail_rows(&rec);
    assert_eq!(rows[4].value, "-");
    assert_eq!(rows[5].value, "-");
    assert_eq!(rows[6].value, "0 B");
    assert_eq!(rows[7].value, "-");
    assert_eq!(rows[8].value, "-");
    assert_eq!(rows[9].value, "-");
}

#[test]
fn a_bulk_row_carries_five_cells() {
    let rec = sample_record("song.mp3", 1024);
    let row = bulk_row(&rec);
    assert_eq!(row.name, "song");
    assert_eq!(row.kind, "file");
    assert_eq!(row.extension, "mp3");
    assert_eq!(row.category, "media");
    assert_eq!(row.encoding, "ascii");
}

#[test]
fn bulk_mode_keeps_nine_rows_and_skips_the_unreadable_one() {
    let mut entries: Vec<Option<FileRecord>> = Vec::new();
    for i in 0..9u32 {
        let name = format!("file{i}.rs");
        entries.push(Some(sample_record(name.as_str(), 10 + i as u64)));
    }
    entries.insert(4, None);
    assert_eq!(entries.len(), 10);
    let (rows, skipped) = collect_rows(&entries);
    assert_eq!(rows.len(), 9);
    assert_eq!(skipped, 1);
    for (i, row) in rows.iter().enumerate() {
        assert_eq!(row.name, format!("file{i}"));
        assert_eq!(row.category, "programming");
    }
}

#[test]
fn a_missing_path_is_reported_but_not_fatal() {
    assert!(!is_fatal(&QueryError::NotFound));
    assert_eq!(exit_code(&QueryError::NotFound), 0);
    assert_eq!(error_label(&QueryError::NotFound), "not found");
}

#[test]
fn missing_metadata_degrades_without_failing() {
    assert!(!is_fatal(&QueryError::MetadataUnavailable));
    assert_eq!(exit_code(&QueryError::MetadataUnavailable), 0);
}

#[test]
fn whole_operation_failures_end_the_run() {
    assert!(is_fatal(&QueryError::DirectoryUnreadable));
    assert_eq!(exit_code(&QueryError::DirectoryUnreadable), 1);
    assert!(is_fatal(&QueryError::ConfigDirUnavailable));
    assert_eq!(exit_code(&QueryError::ConfigDirUnavailable), 1);
    assert_eq!(
        error_label(&QueryError::ConfigDirUnavailable),
        "unable to find or create a config directory"
    );
}

#[test]
fn the_log_view_shows_location_and_content() {
    let content = "line one\nline two\n".to_string();
    assert_eq!(
        log_view_message("/tmp/witchfile.log", Some(&content)),
        "Log location: /tmp/witchfile.log\nline one\nline two\n"
    );
    assert_eq!(
        log_view_message("/tmp/witchfile.log", None),
        "No log file found: /tmp/witchfile.log"
    );
}

#[test]
fn label_wordings() {
    assert_eq!(kind_label(FileKind::Symlink), "symlink");
    assert_eq!(kind_label(FileKind::Unknown), "");
    assert_eq!(category_label(witchfile::category::Category::Archive), "archives");
    assert_eq!(category_label(witchfile::category::Category::Unclassified), "");
    assert_eq!(encoding_label(witchfile::encoding::TextEncoding::Binary), "binary");
    assert_eq!(yes_no(true), "yes");
    assert_eq!(elapsed_cell(None), "-");
    assert_eq!(elapsed_cell(Some(45)), "45 sec(s) ago");
}
