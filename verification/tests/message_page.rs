use bexo_services::message_page::{
    finish_page, start_position, CodexHistoryMessagesPage, MessagePageScan, ScanPhase,
};
use bexo_services::session_parse::CodexHistoryMessage;

/// Reads a line as a message unless it starts with `#`.
fn read_line(bytes: &[u8]) -> Option<CodexHistoryMessage> {
    let text = String::from_utf8(bytes.to_vec()).unwrap();
    if text.starts_with('#') {
        return None;
    }
    Some(CodexHistoryMessage {
        role: "user".to_string(),
        content: text,
        timestamp: None,
        item_type: "message".to_string(),
        truncated: false,
    })
}

fn page_of(file: &[u8], cursor: Option<&str>, limit: usize) -> CodexHistoryMessagesPage {
    let position = start_position(cursor, file.len() as u64).expect("cursor");
    let mut scan = MessagePageScan::new(position, limit);
    while let Some((start, len)) = scan.next_read() {
        let chunk = file[start as usize..(start + len) as usize].to_vec();
        scan.take_chunk(chunk);
        while scan.phase == ScanPhase::CuttingLines {
            if let Some((_offset, line)) = scan.next_line() {
                scan.line_read(read_line(&line));
            }
        }
    }
    finish_page(scan)
}

fn contents(page: &CodexHistoryMessagesPage) -> Vec<String> {
    page.messages.iter().map(|m| m.content.clone()).collect()
}

#[test]
fn whole_file_fits_one_page_oldest_first() {
    let page = page_of(b"a\nb\nc\n", None, 10);
    assert_eq!(contents(&page), vec!["a", "b", "c"]);
    assert!(!page.has_more);
    assert_eq!(page.older_cursor, None);
}

#[test]
fn full_page_points_at_the_earliest_message() {
    let page = page_of(b"a\nbb\nc\n", None, 2);
    assert_eq!(contents(&page), vec!["bb", "c"]);
    assert!(page.has_more);
    assert_eq!(page.older_cursor, Some("2".to_string()));
}

#[test]
fn cursor_continues_with_older_messages() {
    let file = b"a\nbb\nc\n";
    let first = page_of(file, None, 2);
    let cursor = first.older_cursor.clone().unwrap();
    let second = page_of(file, Some(&cursor), 2);
    assert_eq!(contents(&second), vec!["a"]);
    assert!(!second.has_more);
    assert_eq!(second.older_cursor, None);
}

#[test]
fn empty_lines_and_unread_lines_are_passed_over() {
    let page = page_of(b"a\n\n\n# note\nb", None, 10);
    assert_eq!(contents(&page), vec!["a", "b"]);
    assert!(!page.has_more);
}

#[test]
fn cursor_beyond_the_file_is_clamped_and_blank_cursor_means_end() {
    assert_eq!(start_position(Some(" 99 "), 10).unwrap(), 10);
    assert_eq!(start_position(Some("+4"), 10).unwrap(), 4);
    assert_eq!(start_position(Some("   "), 10).unwrap(), 10);
    assert_eq!(start_position(None, 10).unwrap(), 10);
}

#[test]
fn cursor_that_is_not_an_offset_is_refused() {
    let error = start_position(Some("abc"), 10).unwrap_err();
    assert_eq!(error.code, "VALIDATION_ERROR");
    assert_eq!(error.message, "cursor must be a valid byte offset");
    assert_eq!(
        error.details.as_ref().and_then(|d| d.get("cursor")).map(String::as_str),
        Some("abc")
    );
    assert!(start_position(Some("18446744073709551616"), 10).is_err());
    assert!(start_position(Some("-1"), 10).is_err());
}

#[test]
fn lines_that_span_chunks_are_joined() {
    let mut file = Vec::new();
    let mut expected = Vec::new();
    for i in 0..1000 {
        let line = format!("{:0>99}", i);
        file.extend_from_slice(line.as_bytes());
        file.push(b'\n');
        expected.push(line);
    }
    assert!(file.len() > 65536);
    let page = page_of(&file, None, 2000);
    assert_eq!(contents(&page), expected);
    assert!(!page.has_more);
}

#[test]
fn page_in_the_middle_of_a_long_file_keeps_its_cursor() {
    let mut file = Vec::new();
    for i in 0..1000 {
        file.extend_from_slice(format!("{:0>99}\n", i).as_bytes());
    }
    let page = page_of(&file, None, 3);
    assert_eq!(
        contents(&page),
        vec![format!("{:0>99}", 997), format!("{:0>99}", 998), format!("{:0>99}", 999)]
    );
    assert_eq!(page.older_cursor, Some((997 * 100).to_string()));
    let next = page_of(&file, page.older_cursor.as_deref(), 2);
    assert_eq!(contents(&next), vec![format!("{:0>99}", 995), format!("{:0>99}", 996)]);
}

#[test]
fn a_page_never_holds_more_than_its_limit() {
    let file = b"a\nb\nc\nd\ne\nf\ng\n";
    for limit in 1..=8 {
        let page = page_of(file, None, limit);
        assert_eq!(page.messages.len(), limit.min(7));
    }
}

#[test]
fn each_older_cursor_lies_below_the_start_of_its_page() {
    let file = b"one\ntwo\nthree\nfour\nfive\n";
    let mut start = file.len() as u64;
    let mut cursor: Option<String> = None;
    let mut seen = Vec::new();
    loop {
        let page = page_of(file, cursor.as_deref(), 2);
        seen.extend(contents(&page));
        match page.older_cursor {
            Some(c) => {
                let offset: u64 = c.parse().unwrap();
                assert!(0 < offset && offset < start);
                start = offset;
                cursor = Some(c);
            }
            None => {
                assert!(!page.has_more);
                break;
            }
        }
    }
    assert_eq!(seen.len(), 5);
}
