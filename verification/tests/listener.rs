use clialogs::listener::{
    handle_user_input, interpret_capture, parse_percent, retain_printable_ascii, Listener,
    ListenerAction, ProgressEvent, POLL_INTERVAL_MILLIS,
};

#[test]
fn progress_line_is_delivered() {
    assert_eq!(
        handle_user_input("progress-42\n"),
        ListenerAction::Deliver(ProgressEvent { percent: 42 })
    );
}

#[test]
fn progress_is_found_inside_a_line() {
    assert_eq!(
        handle_user_input("now at progress-7, then progress-9"),
        ListenerAction::Deliver(ProgressEvent { percent: 7 })
    );
}

#[test]
fn line_without_digits_is_skipped() {
    assert_eq!(handle_user_input("progress-garbage\n"), ListenerAction::Skip);
    assert_eq!(handle_user_input("hello\n"), ListenerAction::Skip);
    assert_eq!(handle_user_input(""), ListenerAction::Skip);
    assert_eq!(handle_user_input("progress-"), ListenerAction::Skip);
}

#[test]
fn characters_outside_printable_ascii_are_dropped_before_the_search() {
    assert_eq!(
        handle_user_input("progress-4\t2\n"),
        ListenerAction::Deliver(ProgressEvent { percent: 42 })
    );
    assert_eq!(
        handle_user_input("prögress-5 pro\u{7f}gress-6"),
        ListenerAction::Deliver(ProgressEvent { percent: 6 })
    );
}

#[test]
fn number_too_large_stops_the_listener() {
    assert_eq!(handle_user_input("progress-4294967296\n"), ListenerAction::Stop);
    assert_eq!(
        handle_user_input("progress-4294967295\n"),
        ListenerAction::Deliver(ProgressEvent { percent: 4294967295 })
    );
}

#[test]
fn retain_keeps_space_to_tilde() {
    assert_eq!(retain_printable_ascii("a b~\n\r\t\u{0}\u{7f}é€z"), "a b~z");
    assert_eq!(retain_printable_ascii(""), "");
    assert_eq!(retain_printable_ascii(" !}~"), " !}~");
}

#[test]
fn parse_percent_reads_decimal_digits() {
    assert_eq!(parse_percent("0"), Some(0));
    assert_eq!(parse_percent("42"), Some(42));
    assert_eq!(parse_percent("007"), Some(7));
    assert_eq!(parse_percent("100"), Some(100));
    assert_eq!(parse_percent("4294967295"), Some(4294967295));
    assert_eq!(parse_percent("00000000000000000001"), Some(1));
}

#[test]
fn parse_percent_refuses_what_is_no_number() {
    assert_eq!(parse_percent(""), None);
    assert_eq!(parse_percent("4294967296"), None);
    assert_eq!(parse_percent("99999999999999999999"), None);
    assert_eq!(parse_percent("+5"), None);
    assert_eq!(parse_percent("-5"), None);
    assert_eq!(parse_percent("4 2"), None);
    assert_eq!(parse_percent("4.2"), None);
    assert_eq!(parse_percent("12a"), None);
    assert_eq!(parse_percent("٤٢"), None);
}

#[test]
fn interpret_capture_decides_for_every_capture() {
    assert_eq!(interpret_capture(None), ListenerAction::Skip);
    assert_eq!(
        interpret_capture(Some("15".to_string())),
        ListenerAction::Deliver(ProgressEvent { percent: 15 })
    );
    assert_eq!(interpret_capture(Some("garbage".to_string())), ListenerAction::Stop);
    assert_eq!(interpret_capture(Some(String::new())), ListenerAction::Stop);
}

#[test]
fn listener_delivers_until_it_stops() {
    let mut listener = Listener::new();
    assert!(!listener.is_stopped());
    assert_eq!(listener.feed("progress-42\n"), Some(ProgressEvent { percent: 42 }));
    assert_eq!(listener.feed("progress-garbage\n"), None);
    assert!(!listener.is_stopped());
    assert_eq!(listener.feed("progress-43\n"), Some(ProgressEvent { percent: 43 }));
    assert_eq!(listener.feed("progress-99999999999\n"), None);
    assert!(listener.is_stopped());
    assert_eq!(listener.feed("progress-44\n"), None);
    assert!(listener.is_stopped());
}

#[test]
fn poll_interval_is_a_tenth_of_a_second() {
    assert_eq!(POLL_INTERVAL_MILLIS, 100);
}
