use multibar::digits::to_decimal;
use multibar::multi::MultiBar;
use multibar::render::clear_after_cursor;
use multibar::render::clear_until_newline;
use multibar::render::move_cursor_up;
use multibar::sink::MemSink;

#[test]
fn buffered_writes_forward_exactly_two_lines() {
    let (mb, mut listener) = MultiBar::on(MemSink::new());
    let mut lt = mb.create_log_target();
    assert!(matches!(lt.write(&b"hello ".to_vec()), Ok(6)));
    assert!(matches!(lt.write(&b"world\n".to_vec()), Ok(6)));
    assert!(matches!(lt.write(&b"partial".to_vec()), Ok(7)));
    assert!(matches!(lt.flush(), Ok(())));
    drop(lt);
    drop(mb);
    assert!(listener.process_next());
    assert!(listener.process_next());
    assert!(!listener.process_next());
    let bytes = listener.sink().bytes().clone();
    let expected = b"\r\x1b[Jhello world\n\r\x1b[Jpartial\n".to_vec();
    assert_eq!(bytes, expected);
}

#[test]
fn split_keeps_only_the_tail_after_the_last_newline() {
    let (mb, mut listener) = MultiBar::on(MemSink::new());
    let mut lt = mb.create_log_target();
    assert!(matches!(lt.write(&b"a\nb\nc".to_vec()), Ok(5)));
    drop(lt);
    drop(mb);
    assert!(listener.process_next());
    assert!(!listener.process_next());
    let bytes = listener.sink().bytes().clone();
    assert_eq!(bytes, b"\r\x1b[Ja\nb\n".to_vec());
}

#[test]
fn flush_forwards_an_empty_buffer_as_a_no_op_log() {
    let (mb, mut listener) = MultiBar::on(MemSink::new());
    let mut lt = mb.create_log_target();
    assert!(matches!(lt.flush(), Ok(())));
    drop(lt);
    drop(mb);
    assert!(listener.process_next());
    assert!(!listener.process_next());
    assert_eq!(listener.sink().bytes().len(), 0);
}

#[test]
fn write_after_listener_is_gone_reports_failure() {
    let (mb, listener) = MultiBar::on(MemSink::new());
    let mut lt = mb.create_log_target();
    drop(listener);
    drop(mb);
    assert!(matches!(lt.write(&b"lost line\n".to_vec()), Err(_)));
    assert!(matches!(lt.write(&b"no newline".to_vec()), Ok(10)));
    assert!(matches!(lt.flush(), Err(_)));
}

#[test]
fn taking_the_recorded_bytes_empties_the_recorder() {
    let (mb, mut listener) = MultiBar::on(MemSink::new());
    let mut l = mb.new_line();
    l.update_line("chunk");
    assert!(listener.process_next());
    let chunk = listener.sink_mut().take_bytes();
    assert_eq!(chunk, b"\rchunk\x1b[K\n".to_vec());
    assert_eq!(listener.sink().bytes().len(), 0);
    drop(mb);
}

#[test]
fn decimal_digits_render_exactly() {
    assert_eq!(to_decimal(0), b"0".to_vec());
    assert_eq!(to_decimal(7), b"7".to_vec());
    assert_eq!(to_decimal(10), b"10".to_vec());
    assert_eq!(to_decimal(120), b"120".to_vec());
    assert_eq!(to_decimal(65535), b"65535".to_vec());
}

#[test]
fn escape_sequences_match_the_terminal_protocol() {
    assert_eq!(move_cursor_up(1), b"\x1b[1A".to_vec());
    assert_eq!(move_cursor_up(12), b"\x1b[12A".to_vec());
    assert_eq!(clear_until_newline(), b"\x1b[K".to_vec());
    assert_eq!(clear_after_cursor(), b"\x1b[J".to_vec());
}
