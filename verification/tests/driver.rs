use linecat::{Action, ErrorKind, Input, InputError, Options, Output, Phase, Read, ReadResult};

fn line(text: &str) -> Read {
    Ok(ReadResult::Line(text.to_string()))
}

fn owned(lines: &[&str]) -> Vec<String> {
    lines.iter().map(|l| l.to_string()).collect()
}

/// Splits raw input after each line feed, as reading line by line does,
/// and ends with the empty read that marks the end of input.
fn reads_of(input: &Input, raw: &[u8]) -> Vec<Read> {
    let mut reads = Vec::new();
    let mut chunk = Vec::new();
    for &byte in raw {
        chunk.push(byte);
        if byte == b'\n' {
            reads.push(input.readline(Ok(std::mem::take(&mut chunk))));
        }
    }
    if !chunk.is_empty() {
        reads.push(input.readline(Ok(chunk)));
    }
    reads.push(input.readline(Ok(Vec::new())));
    reads
}

#[test]
fn a_new_formatter_is_reading_an_empty_document() {
    let opt = Options { numbered: true, ..Options::default() };
    let output = Output::new(opt);
    assert!(output.out.is_empty());
    assert_eq!(output.opt, opt);
    assert_eq!(output.phase, Phase::Reading);
}

#[test]
fn step_collects_lines_while_reading() {
    let mut output = Output::new(Options { show_ends: true, ..Options::default() });
    assert_eq!(output.step(&line("a")), Action::Read);
    assert_eq!(output.step(&line("")), Action::Read);
    assert_eq!(output.out, owned(&["a", ""]));
    assert_eq!(output.phase, Phase::Reading);
}

#[test]
fn step_formats_and_prints_at_end_of_input() {
    let mut output = Output::new(Options { show_ends: true, ..Options::default() });
    output.step(&line("a"));
    output.step(&line("b"));
    assert_eq!(output.step(&Ok(ReadResult::EOF)), Action::Print(owned(&["a$", "b$"])));
    assert_eq!(output.phase, Phase::Done);
    assert!(output.out.is_empty());
}

#[test]
fn step_on_empty_input_prints_nothing() {
    let mut output = Output::new(Options { numbered: true, show_all: true, ..Options::default() });
    assert_eq!(output.step(&Ok(ReadResult::EOF)), Action::Print(Vec::new()));
    assert_eq!(output.phase, Phase::Done);
}

#[test]
fn step_fails_on_a_fault_and_drops_the_lines() {
    let mut output = Output::new(Options::default());
    output.step(&line("already read"));
    let fault = Err(InputError {
        kind: ErrorKind::IoError,
        source: String::from("data.txt"),
        reason: String::from("Input/output error (os error 5)"),
    });
    assert_eq!(
        output.step(&fault),
        Action::Fail(String::from("data.txt: Input/output error (os error 5)"))
    );
    assert_eq!(output.phase, Phase::Failed);
    assert!(output.out.is_empty());
}

#[test]
fn step_does_nothing_once_the_run_is_over() {
    let mut done = Output::new(Options::default());
    done.step(&Ok(ReadResult::EOF));
    assert_eq!(done.step(&line("late")), Action::Stop);
    assert_eq!(done.step(&Ok(ReadResult::EOF)), Action::Stop);
    assert_eq!(done.phase, Phase::Done);
    assert!(done.out.is_empty());

    let fault: Read = Err(InputError {
        kind: ErrorKind::NotFound,
        source: String::from("f"),
        reason: String::from("r"),
    });
    let mut failed = Output::new(Options::default());
    failed.step(&fault);
    assert_eq!(failed.step(&line("late")), Action::Stop);
    assert_eq!(failed.step(&fault), Action::Stop);
    assert_eq!(failed.phase, Phase::Failed);
    assert!(failed.out.is_empty());
}

#[test]
fn from_with_no_flags_gives_the_input_back() {
    let input = ["first", "", "  ", "tab\there", "\u{e9}", "last"];
    let mut reads: Vec<Read> = input.iter().map(|l| line(l)).collect();
    reads.push(Ok(ReadResult::EOF));
    assert_eq!(Output::from(Options::default(), &reads), Ok(owned(&input)));
}

#[test]
fn from_takes_the_end_of_the_record_for_the_end_of_input() {
    let opt = Options { numbered: true, ..Options::default() };
    let reads = vec![line("a"), line("b")];
    assert_eq!(Output::from(opt, &reads), Ok(owned(&["     1  a", "     2  b"])));
    assert_eq!(Output::from(opt, &Vec::new()), Ok(Vec::new()));
}

#[test]
fn from_stops_at_the_end_of_input() {
    let opt = Options { show_ends: true, ..Options::default() };
    let reads = vec![line("a"), Ok(ReadResult::EOF), line("never read"), Ok(ReadResult::EOF)];
    assert_eq!(Output::from(opt, &reads), Ok(owned(&["a$"])));
}

#[test]
fn from_fails_without_output_on_a_fault() {
    let opt = Options { show_ends: true, ..Options::default() };
    let fault = Err(InputError {
        kind: ErrorKind::IoError,
        source: String::from("standard input"),
        reason: String::from("broken"),
    });
    let reads = vec![line("a"), line("b"), fault, line("c"), Ok(ReadResult::EOF)];
    assert_eq!(Output::from(opt, &reads), Err(String::from("standard input: broken")));
}

#[test]
fn squeeze_round_trip_keeps_a_single_blank_line() {
    let opt = Options { squeeze_blank: true, ..Options::default() };
    let reads = reads_of(&Input::FromStdin, b"a\n\nb\n");
    assert_eq!(reads, vec![line("a"), line(""), line("b"), Ok(ReadResult::EOF)]);
    assert_eq!(Output::from(opt, &reads), Ok(owned(&["a", "", "b"])));
}

#[test]
fn squeeze_and_number_end_to_end() {
    let opt = Options { squeeze_blank: true, numbered: true, ..Options::default() };
    let reads = vec![line("hello"), line(""), line(""), line("world"), Ok(ReadResult::EOF)];
    assert_eq!(
        Output::from(opt, &reads),
        Ok(owned(&["     1  hello", "     2  ", "     3  world"]))
    );
}

#[test]
fn missing_file_gives_a_diagnostic_and_no_output() {
    let path = Some(String::from("/nonexistent"));
    let refused = Some((ErrorKind::NotFound, String::from("No such file or directory (os error 2)")));
    let error = Input::from(&path, refused).unwrap_err();
    let mut output = Output::new(Options { numbered: true, ..Options::default() });
    match output.step(&Err(error)) {
        Action::Fail(message) => {
            assert!(message.contains("/nonexistent"));
            assert!(message.contains("No such file"));
            assert_eq!(message, "/nonexistent: No such file or directory (os error 2)");
        }
        other => panic!("expected a failure, got {:?}", other),
    }
    assert_eq!(output.phase, Phase::Failed);
    assert!(output.out.is_empty());
    assert!(output.print().is_empty());
}

#[test]
fn show_all_on_standard_input_with_a_byte_that_is_not_utf8() {
    let opt = Options { show_all: true, ..Options::default() };
    let reads = reads_of(&Input::FromStdin, b"x\ty\x80\n");
    assert_eq!(Output::from(opt, &reads), Ok(owned(&["x^Iy^?$"])));
}

#[test]
fn a_last_line_without_terminator_is_formatted_too() {
    let opt = Options { numbered: true, show_ends: true, ..Options::default() };
    let reads = reads_of(&Input::FromFile(String::from("f")), b"one\ntwo");
    assert_eq!(Output::from(opt, &reads), Ok(owned(&["     1  one$", "     2  two$"])));
}

#[test]
fn step_by_step_equals_the_whole_run() {
    let opt = Options { squeeze_blank: true, numbered_nonblank: true, show_all: true, ..Options::default() };
    let reads = reads_of(&Input::FromStdin, b"a\tb\n\n\n\n\xc3\xa9\n");
    let mut output = Output::new(opt);
    let mut last = Action::Stop;
    for read in &reads {
        last = output.step(read);
    }
    let expected = owned(&["     1  a^Ib$", "        $", "     2  ^?$"]);
    assert_eq!(last, Action::Print(expected.clone()));
    assert_eq!(Output::from(opt, &reads), Ok(expected));
}
