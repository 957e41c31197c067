use uefi_model::logger::{elapsed_ticks, header, DecoratedLog, Logger};

#[test]
fn logger_output() {
    let mut l = Logger::new();
    assert_eq!(l.output(), None);
    assert!(!l.enabled());
    l.set_output(Some(0x1000));
    assert_eq!(l.output(), Some(0x1000));
    assert!(l.enabled());
    l.disable();
    assert_eq!(l.output(), None);
}

#[test]
fn tsc_frequency_and_elapsed() {
    assert_eq!(Logger::init_freq(1_000, 3_001_000), 3_000_000);
    assert_eq!(elapsed_ticks(0, 500), (0, 500));
    assert_eq!(elapsed_ticks(500, 800), (300, 800));
}

#[test]
fn header_layout() {
    assert_eq!(header("   1.50", "INFO", "main.rs", 7), "[   1.50] [ INFO]:      main.rs@007: ");
    assert_eq!(header("0.00", "ERROR", "a_very_long_name.rs", 1234), "[0.00] [ERROR]: a_very_long_name.rs@1234: ");
}

#[test]
fn decorated_lines() {
    let mut d = DecoratedLog::write("WARN".to_string(), "x.rs".to_string(), 3);
    let out = d.write_str("one\ntwo\r\nthree\n", "0.01");
    assert_eq!(out, "[0.01] [ WARN]:         x.rs@003: one\nWARN: two\nWARN: three\n");
    assert!(d.at_line_start);
}

#[test]
fn decorated_pieces_continue_the_line() {
    let mut d = DecoratedLog::write("INFO".to_string(), "y.rs".to_string(), 10);
    let a = d.write_str("abc", "1.00");
    assert!(!d.at_line_start);
    let b = d.write_str("def\n", "2.00");
    assert!(d.at_line_start);
    assert_eq!(a + &b, "[1.00] [ INFO]:         y.rs@010: abcdef\n");
}

#[test]
fn empty_piece_writes_only_the_header() {
    let mut d = DecoratedLog::write("INFO".to_string(), "z.rs".to_string(), 1);
    assert_eq!(d.write_str("", "0"), "[0] [ INFO]:         z.rs@001: ");
    assert!(!d.at_line_start);
}
