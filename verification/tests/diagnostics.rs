use texdesk::backend::Backend;
use texdesk::diagnostics::{ends_line, last_non_empty_line};

#[test]
fn last_line_of_empty_output_is_empty() {
    assert_eq!(last_non_empty_line(b""), Vec::<u8>::new());
}

#[test]
fn last_line_without_any_break_is_the_whole_text() {
    assert_eq!(last_non_empty_line(b"fatal error"), b"fatal error".to_vec());
}

#[test]
fn last_line_skips_the_final_line_feed() {
    assert_eq!(last_non_empty_line(b"first\nsecond\n"), b"second".to_vec());
}

#[test]
fn last_line_skips_trailing_blank_lines() {
    assert_eq!(last_non_empty_line(b"first\nsecond\n\n\n"), b"second".to_vec());
}

#[test]
fn last_line_ends_before_carriage_return_and_line_feed() {
    assert_eq!(last_non_empty_line(b"one\r\ntwo\r\n\r\n"), b"two".to_vec());
}

#[test]
fn last_line_of_nothing_but_breaks_is_empty() {
    assert_eq!(last_non_empty_line(b"\n\r\n\n"), Vec::<u8>::new());
}

#[test]
fn last_line_keeps_blanks_inside_the_line() {
    assert_eq!(last_non_empty_line(b"a\n  b c \n"), b"  b c ".to_vec());
}

#[test]
fn last_line_is_found_after_an_empty_line_in_the_middle() {
    assert_eq!(last_non_empty_line(b"x\n\ny"), b"y".to_vec());
}

#[test]
fn last_line_of_a_single_byte() {
    assert_eq!(last_non_empty_line(b"z"), b"z".to_vec());
    assert_eq!(last_non_empty_line(b"\n"), Vec::<u8>::new());
}

#[test]
fn only_line_feed_and_carriage_return_end_a_line() {
    assert!(ends_line(b'\n'));
    assert!(ends_line(b'\r'));
    assert!(!ends_line(b' '));
    assert!(!ends_line(b'\t'));
    assert!(!ends_line(0));
    assert!(!ends_line(b'a'));
}

#[test]
fn system_compiler_reports_the_last_line_of_standard_output() {
    let stdout = b"This is pdfTeX\n! Undefined control sequence.\nl.3 \\foo\n\n! Emergency stop.\n";
    let text = Backend::SystemBinary.failure_text(stdout, b"ignored");
    assert_eq!(text, "! Emergency stop.");
}

#[test]
fn sidecar_reports_standard_error_whole() {
    let stderr = b"error: doc.tex:3: Undefined control sequence\nerror: halted\n";
    let text = Backend::SidecarProcess.failure_text(b"ignored", stderr);
    assert_eq!(text, "error: doc.tex:3: Undefined control sequence\nerror: halted\n");
}

#[test]
fn embedded_routine_asked_for_process_text_answers_with_standard_error() {
    let text = Backend::EmbeddedLibrary.failure_text(b"out", b"err");
    assert_eq!(text, "err");
}

#[test]
fn bytes_that_are_no_utf8_are_replaced_not_dropped() {
    let text = Backend::SidecarProcess.failure_text(b"", &[0x66, 0xFF, 0x6F]);
    assert_eq!(text, "f\u{FFFD}o");
    let line = Backend::SystemBinary.failure_text(&[0x61, 0x0A, 0xC3, 0x28, 0x0A], b"");
    assert_eq!(line, "\u{FFFD}(");
}

#[test]
fn text_beyond_ascii_is_decoded() {
    let text = Backend::SidecarProcess.failure_text(b"", "Fehler: ungültig".as_bytes());
    assert_eq!(text, "Fehler: ungültig");
}

#[test]
fn diagnostic_of_silent_output_is_empty() {
    assert_eq!(Backend::SystemBinary.failure_text(b"\n\n", b"noise"), "");
    assert_eq!(Backend::SidecarProcess.failure_text(b"noise", b""), "");
}
