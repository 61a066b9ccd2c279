//! Result-line formats and the relative-path computation.

use hashscan::content::ContentKind;
use hashscan::messages::FileRecord;
use hashscan::output::{format_console_line, format_file_line, relative_to, tag_label};

fn record(path: &str, hash: &str, ct: Option<ContentKind>) -> FileRecord {
    FileRecord { path: path.to_string(), hash: hash.to_string(), content_type: ct }
}

#[test]
fn file_line_is_comma_delimited() {
    let rec = record("dir/a.txt", "abc123", Some(ContentKind::Utf8));
    assert_eq!(format_file_line(&rec), "abc123,UTF_8,dir/a.txt");
}

#[test]
fn console_line_is_space_delimited_with_relative_path() {
    let rec = record("/w/dir/a.txt", "abc123", Some(ContentKind::Binary));
    let rel = relative_to(&rec.path, "/w").unwrap();
    assert_eq!(rel, "dir/a.txt");
    assert_eq!(format_console_line(&rec, &rel), "abc123 BINARY dir/a.txt");
}

#[test]
fn tag_labels_match_the_classifier_names() {
    assert_eq!(tag_label(&Some(ContentKind::Binary)), "BINARY");
    assert_eq!(tag_label(&Some(ContentKind::Utf8)), "UTF_8");
    assert_eq!(tag_label(&Some(ContentKind::Utf8Bom)), "UTF_8_BOM");
    assert_eq!(tag_label(&Some(ContentKind::Utf16Le)), "UTF_16LE");
    assert_eq!(tag_label(&Some(ContentKind::Utf16Be)), "UTF_16BE");
    assert_eq!(tag_label(&Some(ContentKind::Utf32Le)), "UTF_32LE");
    assert_eq!(tag_label(&Some(ContentKind::Utf32Be)), "UTF_32BE");
    assert_eq!(tag_label(&None), "EMPTY");
}

#[test]
fn relative_to_strips_the_directory_prefix() {
    assert_eq!(relative_to("/a/b/c.txt", "/a/b"), Some("c.txt".to_string()));
    assert_eq!(relative_to("/a/b/c/d", "/a/b"), Some("c/d".to_string()));
    assert_eq!(relative_to("/x", "/"), Some("x".to_string()));
}

#[test]
fn relative_to_rejects_paths_outside_the_directory() {
    // A path outside the working directory is an error for the console
    // sink, not retried.
    assert_eq!(relative_to("/elsewhere/f", "/a/b"), None);
    assert_eq!(relative_to("/a/b", "/a/b"), None);
    assert_eq!(relative_to("/a/bc/f", "/a/b"), None);
}
