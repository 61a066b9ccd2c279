//! The two command surfaces: the scanner's optional output flag and
//! the search command's required query.

use hashscan::cli;
use hashscan::search;

#[test]
fn output_flag_selects_file_sink() {
    let args = cli::handle_args(Some("out.csv".to_string())).unwrap();
    assert_eq!(args.output, Some("out.csv".to_string()));
}

#[test]
fn absent_output_flag_selects_console() {
    let args = cli::handle_args(None).unwrap();
    assert_eq!(args.output, None);
}

#[test]
fn search_requires_a_query() {
    assert_eq!(search::handle_args(Some("needle".to_string())), Some("needle".to_string()));
    assert_eq!(search::handle_args(None), None);
}
