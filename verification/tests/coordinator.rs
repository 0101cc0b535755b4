use multibar::listener::MultiBarListener;
use multibar::msg::ParsedMessage;
use multibar::msg::WriteMsg;
use multibar::multi::DiscardReceiver;
use multibar::multi::MultiBar;
use multibar::multi::ProgressReceiver;
use multibar::sink::MemSink;

fn row(text: &str) -> String {
    format!("\r{}\x1b[K\n", text)
}

fn up(n: usize) -> String {
    format!("\x1b[{}A", n)
}

fn log_line(text: &str) -> String {
    format!("\r\x1b[J{}\n", text)
}

fn written(listener: &MultiBarListener<MemSink>) -> String {
    String::from_utf8(listener.sink().bytes().clone()).unwrap()
}

#[test]
fn two_rows_then_removal() {
    let (mb, mut listener) = MultiBar::on(MemSink::new());
    let mut l0 = mb.new_line();
    let mut l1 = mb.new_line();
    l0.update_line("A: 10%");
    l1.update_line("B: 5%");
    assert!(listener.process_next());
    assert!(listener.process_next());
    let first_two = format!("{}{}{}{}", row("A: 10%"), up(1), row("A: 10%"), row("B: 5%"));
    assert_eq!(written(&listener), first_two);
    l0.update_line("A: 100%");
    l0.remove_line();
    assert!(listener.process_next());
    assert!(listener.process_next());
    let rest = format!("{}{}{}{}{}", up(2), row("A: 100%"), row("B: 5%"), up(2), row("B: 5%"));
    assert_eq!(written(&listener), format!("{}{}", first_two, rest));
}

#[test]
fn log_before_any_row_scrolls_once() {
    let (mb, mut listener) = MultiBar::on(MemSink::new());
    let mut l = mb.new_line();
    l.log("build started");
    assert!(listener.process_next());
    assert_eq!(written(&listener), log_line("build started"));
    l.update_line("x");
    assert!(listener.process_next());
    assert_eq!(written(&listener), format!("{}{}", log_line("build started"), row("x")));
}

#[test]
fn listen_returns_once_every_handle_finished() {
    let (mb, listener) = MultiBar::on(MemSink::new());
    let mut l = mb.println("hi");
    l.finish();
    drop(mb);
    let sink = listener.listen();
    assert_eq!(String::from_utf8(sink.bytes().clone()).unwrap(), row("hi"));
}

#[test]
fn row_table_follows_update_remove_update() {
    let (mb, mut listener) = MultiBar::on(MemSink::new());
    let p = listener.parse_message(WriteMsg::UpdateLine { level: 0, line: "a".to_string() });
    assert!(matches!(p, ParsedMessage::Refresh));
    assert_eq!(listener.row(0), Some("a".to_string()));
    let p = listener.parse_message(WriteMsg::RemoveLine { level: 0 });
    assert!(matches!(p, ParsedMessage::Refresh));
    assert_eq!(listener.row(0), None);
    let p = listener.parse_message(WriteMsg::UpdateLine { level: 0, line: "b".to_string() });
    assert!(matches!(p, ParsedMessage::Refresh));
    assert_eq!(listener.row(0), Some("b".to_string()));
    drop(mb);
}

#[test]
fn update_in_place_is_a_localized_change() {
    let (mb, mut listener) = MultiBar::on(MemSink::new());
    let p = listener.parse_message(WriteMsg::UpdateLine { level: 2, line: "a".to_string() });
    assert!(matches!(p, ParsedMessage::Refresh));
    assert_eq!(listener.row(0), None);
    assert_eq!(listener.row(1), None);
    let p = listener.parse_message(WriteMsg::UpdateLine { level: 2, line: "b".to_string() });
    assert!(matches!(p, ParsedMessage::Changed { level: 2 }));
    assert_eq!(listener.row(2), Some("b".to_string()));
    drop(mb);
}

#[test]
fn log_messages_leave_the_row_table_alone() {
    let (mb, mut listener) = MultiBar::on(MemSink::new());
    listener.parse_message(WriteMsg::UpdateLine { level: 0, line: "keep".to_string() });
    listener.parse_message(WriteMsg::RemoveLine { level: 1 });
    let p = listener.parse_message(WriteMsg::Log { data: b"note".to_vec() });
    assert!(matches!(p, ParsedMessage::Log { .. }));
    assert_eq!(listener.row(0), Some("keep".to_string()));
    assert_eq!(listener.row(1), None);
    let p = listener.parse_message(WriteMsg::Log { data: Vec::new() });
    assert!(matches!(p, ParsedMessage::NoChanges));
    assert_eq!(listener.row(0), Some("keep".to_string()));
    drop(mb);
}

#[test]
fn empty_log_repaints_nothing() {
    let (mb, mut listener) = MultiBar::on(MemSink::new());
    let mut l = mb.new_line();
    l.log("");
    l.update_line("x");
    assert!(listener.process_next());
    assert_eq!(written(&listener), "");
    assert!(listener.process_next());
    assert_eq!(written(&listener), row("x"));
    drop(mb);
}

#[test]
fn removed_handle_updates_are_inert() {
    let (mb, mut listener) = MultiBar::on(MemSink::new());
    let mut l = mb.new_line();
    l.update_line("a");
    l.remove_line();
    l.update_line("z");
    l.finish();
    drop(mb);
    assert!(listener.process_next());
    assert!(listener.process_next());
    assert!(!listener.process_next());
}

#[test]
fn finished_handle_is_silent() {
    let (mb, mut listener) = MultiBar::on(MemSink::new());
    let mut l = mb.new_line();
    l.finish();
    l.update_line("y");
    l.log("quiet");
    l.remove_line();
    drop(mb);
    assert!(!listener.process_next());
}

#[test]
fn repaint_writes_exactly_the_present_rows() {
    let (mb, mut listener) = MultiBar::on(MemSink::new());
    let mut l0 = mb.new_line();
    let mut l1 = l0.new_line();
    let mut l2 = l1.new_line();
    l0.update_line("one");
    l1.update_line("two");
    l2.update_line("three");
    for _ in 0..3 {
        assert!(listener.process_next());
    }
    l1.remove_line();
    assert!(listener.process_next());
    l0.update_line("uno");
    assert!(listener.process_next());
    let tail = format!("{}{}{}", up(2), row("uno"), row("three"));
    assert!(written(&listener).ends_with(&tail));
}

#[test]
fn empty_text_still_occupies_its_row() {
    let (mb, mut listener) = MultiBar::on(MemSink::new());
    let mut l = mb.new_line();
    l.update_line("");
    assert!(listener.process_next());
    assert_eq!(written(&listener), row(""));
    drop(mb);
}

#[test]
fn same_update_twice_renders_the_same_row() {
    let (mb, mut listener) = MultiBar::on(MemSink::new());
    let mut l = mb.new_line();
    l.update_line("steady");
    l.update_line("steady");
    assert!(listener.process_next());
    let once = written(&listener);
    assert_eq!(once, row("steady"));
    assert!(listener.process_next());
    assert_eq!(written(&listener), format!("{}{}{}", once, up(1), row("steady")));
    drop(mb);
}

#[test]
fn println_seeds_the_first_row() {
    let (mb, mut listener) = MultiBar::on(MemSink::new());
    let _header = mb.println("Header:");
    assert!(listener.process_next());
    assert_eq!(written(&listener), row("Header:"));
    drop(mb);
}

#[test]
fn progress_receiver_drives_a_row() {
    let (mb, mut listener) = MultiBar::on(MemSink::new());
    let mut l = mb.new_line();
    l.update_progress("p: 1");
    assert!(listener.process_next());
    assert_eq!(written(&listener), row("p: 1"));
    l.finish_with("p done");
    assert!(listener.process_next());
    let tail = format!("{}{}{}", up(1), log_line("p done"), row("p: 1"));
    assert!(written(&listener).ends_with(&tail));
    let mut quiet = DiscardReceiver;
    quiet.update_progress("x");
    quiet.clear_progress("x");
    quiet.finish_with("y");
    drop(mb);
}

#[test]
fn warm_up_defers_rows_and_flushes_logs() {
    let (mb, listener) = MultiBar::on(MemSink::new());
    let mut l0 = mb.println("a");
    let mut l1 = mb.println("b");
    l0.log("early note");
    l0.finish();
    l1.finish();
    drop(mb);
    let sink = listener.listen();
    let expected = format!("early note{}{}", row("a"), row("b"));
    assert_eq!(String::from_utf8(sink.bytes().clone()).unwrap(), expected);
}

#[test]
fn warm_up_paints_one_frame_then_steady_steps_repaint() {
    let (mb, mut listener) = MultiBar::on(MemSink::new());
    let mut l = mb.new_line();
    l.update_line("w");
    l.log("note");
    listener.warm_up();
    let after_warm_up = format!("note{}", row("w"));
    assert_eq!(written(&listener), after_warm_up);
    l.update_line("w2");
    assert!(listener.process_next());
    assert_eq!(written(&listener), format!("{}{}{}", after_warm_up, up(1), row("w2")));
    drop(mb);
}
