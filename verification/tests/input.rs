use linecat::input::strip_line_feeds;
use linecat::{ErrorKind, Input, InputError, ReadResult};

#[test]
fn no_path_chooses_standard_input() {
    assert_eq!(Input::from(&None, None), Ok(Input::FromStdin));
    let refused = Some((ErrorKind::NotFound, String::from("ignored")));
    assert_eq!(Input::from(&None, refused), Ok(Input::FromStdin));
}

#[test]
fn a_path_that_opens_chooses_the_file() {
    let path = Some(String::from("notes.txt"));
    assert_eq!(Input::from(&path, None), Ok(Input::FromFile(String::from("notes.txt"))));
}

#[test]
fn a_missing_file_is_not_found() {
    let path = Some(String::from("/nonexistent"));
    let refused = Some((ErrorKind::NotFound, String::from("No such file or directory (os error 2)")));
    let error = Input::from(&path, refused).unwrap_err();
    assert_eq!(
        error,
        InputError {
            kind: ErrorKind::NotFound,
            source: String::from("/nonexistent"),
            reason: String::from("No such file or directory (os error 2)"),
        }
    );
    let message = error.message();
    assert_eq!(message, "/nonexistent: No such file or directory (os error 2)");
    assert!(message.contains("/nonexistent"));
    assert!(message.contains("No such file"));
}

#[test]
fn a_file_that_may_not_be_read_is_permission_denied() {
    let path = Some(String::from("/etc/shadow"));
    let refused = Some((ErrorKind::PermissionDenied, String::from("Permission denied (os error 13)")));
    let error = Input::from(&path, refused).unwrap_err();
    assert_eq!(error.kind, ErrorKind::PermissionDenied);
    assert_eq!(error.message(), "/etc/shadow: Permission denied (os error 13)");
}

#[test]
fn any_other_refusal_is_an_io_error() {
    let path = Some(String::from("dir"));
    let refused = Some((ErrorKind::IoError, String::from("Is a directory (os error 21)")));
    let error = Input::from(&path, refused).unwrap_err();
    assert_eq!(error.kind, ErrorKind::IoError);
    assert_eq!(error.source, "dir");
    assert_eq!(error.reason, "Is a directory (os error 21)");
}

#[test]
fn inputs_are_named_for_diagnostics() {
    assert_eq!(Input::FromFile(String::from("a/b.txt")).name(), "a/b.txt");
    assert_eq!(Input::FromStdin.name(), "standard input");
}

#[test]
fn message_joins_source_and_reason() {
    let error = InputError {
        kind: ErrorKind::IoError,
        source: String::from("src"),
        reason: String::from("why"),
    };
    assert_eq!(error.message(), "src: why");
    let bare = InputError { kind: ErrorKind::IoError, source: String::new(), reason: String::new() };
    assert_eq!(bare.message(), ": ");
}

#[test]
fn readline_strips_the_terminator() {
    let input = Input::FromStdin;
    assert_eq!(input.readline(Ok(b"hello\n".to_vec())), Ok(ReadResult::Line(String::from("hello"))));
    assert_eq!(input.readline(Ok(b"\n".to_vec())), Ok(ReadResult::Line(String::new())));
    assert_eq!(input.readline(Ok(b"a b\t\r\n".to_vec())), Ok(ReadResult::Line(String::from("a b\t\r"))));
}

#[test]
fn readline_yields_a_last_line_without_terminator() {
    let input = Input::FromFile(String::from("f"));
    assert_eq!(input.readline(Ok(b"tail".to_vec())), Ok(ReadResult::Line(String::from("tail"))));
}

#[test]
fn readline_of_no_bytes_is_end_of_input() {
    assert_eq!(Input::FromStdin.readline(Ok(Vec::new())), Ok(ReadResult::EOF));
    assert_eq!(Input::FromFile(String::from("f")).readline(Ok(Vec::new())), Ok(ReadResult::EOF));
}

#[test]
fn readline_decodes_utf8() {
    let input = Input::FromStdin;
    let bytes = "caf\u{e9} \u{4e16}\u{754c}\n".as_bytes().to_vec();
    assert_eq!(input.readline(Ok(bytes)), Ok(ReadResult::Line(String::from("caf\u{e9} \u{4e16}\u{754c}"))));
}

#[test]
fn readline_replaces_bytes_that_are_not_utf8() {
    let input = Input::FromStdin;
    let read = input.readline(Ok(vec![b'x', b'\t', b'y', 0x80, b'\n']));
    assert_eq!(read, Ok(ReadResult::Line(String::from("x\ty\u{fffd}"))));
    let read = input.readline(Ok(vec![0xff, b'a', 0xc3]));
    assert_eq!(read, Ok(ReadResult::Line(String::from("\u{fffd}a\u{fffd}"))));
}

#[test]
fn readline_turns_a_fault_into_an_io_error() {
    let fault = || Err(String::from("Input/output error (os error 5)"));
    let error = Input::FromFile(String::from("disk.img")).readline(fault()).unwrap_err();
    assert_eq!(error.kind, ErrorKind::IoError);
    assert_eq!(error.message(), "disk.img: Input/output error (os error 5)");
    let error = Input::FromStdin.readline(fault()).unwrap_err();
    assert_eq!(error.kind, ErrorKind::IoError);
    assert_eq!(error.message(), "standard input: Input/output error (os error 5)");
}

#[test]
fn strip_line_feeds_takes_every_line_feed_out() {
    assert_eq!(strip_line_feeds(""), "");
    assert_eq!(strip_line_feeds("\n"), "");
    assert_eq!(strip_line_feeds("abc"), "abc");
    assert_eq!(strip_line_feeds("abc\n"), "abc");
    assert_eq!(strip_line_feeds("a\nb\n"), "ab");
    assert_eq!(strip_line_feeds("a\r\n"), "a\r");
}
