use cat_show_downloader::log_lines::LineBuffer;

#[test]
fn bytes_become_a_line() {
    let mut buffer = LineBuffer::new();
    assert_eq!(buffer.pending_line(), None);
    assert_eq!(buffer.write(b"  INFO caf"), 10);
    assert_eq!(buffer.write("\u{e9} \n".as_bytes()), 4);
    assert_eq!(buffer.write(b""), 0);
    assert_eq!(buffer.pending_line().as_deref(), Some("  INFO caf\u{e9}"));
    assert_eq!(buffer.pending_line().as_deref(), Some("  INFO caf\u{e9}"));
    buffer.clear();
    assert_eq!(buffer.pending_line(), None);
}

#[test]
fn bytes_that_are_no_text_are_replaced() {
    let mut buffer = LineBuffer::new();
    buffer.write(b"a\xff\xfeb\n");
    assert_eq!(buffer.pending_line().as_deref(), Some("a\u{fffd}\u{fffd}b"));
}

#[test]
fn a_blank_line_is_a_line() {
    let mut buffer = LineBuffer::new();
    buffer.write(b"\n");
    assert_eq!(buffer.pending_line().as_deref(), Some(""));
}
