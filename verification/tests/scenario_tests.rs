//! End-to-end scenarios, run through the library with the real hashing
//! and classification crates linked, with only the filesystem walk and
//! the channel plumbing simulated.

use hashscan::aggregator::drain;
use hashscan::messages::CompletionMessage;
use hashscan::output::{format_console_line, format_file_line, relative_to};
use hashscan::processor::process;
use hashscan::walker::{walk, ScanEntry};

fn entry(path: &str, regular: bool, is_destination: bool) -> ScanEntry {
    ScanEntry {
        path: path.to_string(),
        is_regular_file: regular,
        is_output_destination: is_destination,
    }
}

fn hashed(path: &str, index: u64, content: &[u8]) -> CompletionMessage {
    let parsed = process(&vec![content.to_vec()]);
    CompletionMessage::Hashed {
        path: path.to_string(),
        index,
        hash: parsed.hash().to_string(),
        content_type: parsed.content_type(),
    }
}

#[test]
fn console_scan_of_text_binary_and_empty_dir() {
    // Root holds `a.txt` ("hello", UTF-8), `b.bin` (three raw bytes)
    // and an empty subdirectory `c/`: console output shows exactly two
    // lines, and the directory produces none.
    let root = "/scan";
    let entries = vec![
        entry("/scan/a.txt", true, false),
        entry("/scan/b.bin", true, false),
        entry("/scan/c", false, false),
    ];
    let (tasks, complete) = walk(&entries);
    assert_eq!(tasks.len(), 2);

    let contents: Vec<&[u8]> = vec![b"hello", b"\x00\x01\x02"];
    let mut msgs: Vec<CompletionMessage> = tasks
        .iter()
        .map(|t| hashed(&t.path, t.index, contents[t.index as usize]))
        .collect();
    msgs.push(complete);

    let (agg, records) = drain(msgs);
    assert!(agg.is_complete());
    assert_eq!(records.len(), 2);

    let lines: Vec<String> = records
        .iter()
        .map(|rec| {
            let rel = relative_to(&rec.path, root).expect("path under the scan root");
            format_console_line(rec, &rel)
        })
        .collect();
    assert!(lines.contains(&"aaf4c61ddcc5e8a2dabede0f3b482cd9aea9434d UTF_8 a.txt".to_string()));
    let b_line = lines.iter().find(|l| l.ends_with("b.bin")).unwrap();
    assert!(b_line.contains(" BINARY "));
    assert_eq!(lines.len(), 2);
}

#[test]
fn file_sink_inside_scanned_root_never_lists_itself() {
    // `out.csv` was created inside the root before the scan: the final
    // file holds one line per other discovered file and none for
    // itself.
    let entries = vec![
        entry("/scan/a.txt", true, false),
        entry("/scan/out.csv", true, true),
        entry("/scan/b.txt", true, false),
    ];
    let (tasks, complete) = walk(&entries);
    assert_eq!(tasks.len(), 2);

    let mut msgs: Vec<CompletionMessage> = tasks
        .iter()
        .map(|t| hashed(&t.path, t.index, b"content"))
        .collect();
    msgs.push(complete);
    let (agg, records) = drain(msgs);
    assert!(agg.is_complete());
    assert_eq!(agg.total(), Some(2));

    let lines: Vec<String> = records.iter().map(format_file_line).collect();
    assert_eq!(lines.len(), 2);
    assert!(lines.iter().all(|l| !l.contains("out.csv")));
    assert!(lines.iter().any(|l| l.ends_with(",/scan/a.txt")));
    assert!(lines.iter().any(|l| l.ends_with(",/scan/b.txt")));
}

#[test]
fn empty_file_gets_empty_tag_in_file_line() {
    let parsed = process(&Vec::new());
    let msgs = vec![
        hashed("empty.txt", 0, b""),
        CompletionMessage::DiscoveryComplete { total: 1 },
    ];
    let (_, records) = drain(msgs);
    let line = format_file_line(&records[0]);
    assert_eq!(line, format!("{},EMPTY,empty.txt", parsed.hash()));
}
