use substitute::{EditStep, Input, Route, Sub, SubError};
use substitute::error::exit_code;
use substitute::matcher::{effective_pattern_text, Matcher};
use substitute::plan::route;

fn job(pattern: &str, replacement: &str) -> Sub {
    Sub {
        pattern: pattern.to_string(),
        replacement: replacement.to_string(),
        in_place: false,
        whole_word: false,
        match_pattern: None,
        ignore_case: false,
        inputs: vec![Input::StdIn],
    }
}

fn run(sub: &Sub, input: &str) -> String {
    sub.replace(input.as_bytes()).unwrap()
}

fn io_error() -> std::io::Error {
    std::io::Error::new(std::io::ErrorKind::NotFound, "missing")
}

#[test]
fn basic_replacement() {
    let sub = job("foo", "bar");
    assert_eq!(run(&sub, "foo other foo\nfoo\n"), "bar other bar\nbar\n");
}

#[test]
fn regex_replacement() {
    let sub = job(r"\bfoo\b", "bar");
    assert_eq!(run(&sub, "foo, foo.\n"), "bar, bar.\n");
    assert_eq!(run(&sub, "foobar\n"), "foobar\n");
    assert_eq!(run(&sub, "myfoo\n"), "myfoo\n");
}

#[test]
fn capture_group_replacement() {
    let sub = job(r"foo([0-9]+)", "bar$1");
    assert_eq!(run(&sub, "foo123\n"), "bar123\n");
    assert_eq!(run(&sub, "foo\n"), "foo\n");
    assert_eq!(run(&sub, "fooABC\n"), "fooABC\n");
}

#[test]
fn case_insensitive_replacement() {
    let sub = job("foo", "bar");
    assert_eq!(run(&sub, "foo Foo"), "bar Foo");

    let mut sub = job("foo", "bar");
    sub.ignore_case = true;
    assert_eq!(run(&sub, "foo Foo"), "bar bar");
}

#[test]
fn fails_for_non_utf8_input() {
    let sub = job("dummy", "dummy");
    let r = sub.replace(b"\xC3\x28".as_ref());
    assert!(matches!(r, Err(SubError::InvalidUTF8)));
    assert_eq!(exit_code(&Err(SubError::InvalidUTF8)), 1);
}

#[test]
fn no_trailing_newline() {
    let sub = job("foo", "bar");
    assert_eq!(run(&sub, "foo other foo\nfoo"), "bar other bar\nbar");
}

#[test]
fn windows_newline() {
    let sub = job("foo", "bar");
    assert_eq!(run(&sub, "foo other foo\r\nfoo\r\n"), "bar other bar\r\nbar\r\n");
}

#[test]
fn reads_from_files() {
    let mut sub = job("foo", "bar");
    sub.inputs = vec![Input::File("first.txt".to_string()), Input::File("second.txt".to_string())];
    let mut out = String::new();
    for (input, text) in sub.inputs.iter().zip(["foo other foo\nfoo\n", "more dummy text foo\n"]) {
        assert_eq!(route(input, sub.in_place, false, false), Route::ToOutput { buffered: true });
        out.push_str(&run(&sub, text));
    }
    assert_eq!(out, "bar other bar\nbar\nmore dummy text bar\n");
}

#[test]
fn fails_if_file_not_found() {
    let r = EditStep::OpenOriginal.advance(Err(io_error()));
    assert!(matches!(r, Err(SubError::CouldNotOpenFile(_))));
    let e = EditStep::OpenOriginal.advance(Err(io_error())).unwrap_err();
    assert!(e.message().contains("Could not open"));
    assert_eq!(exit_code(&Err(r.unwrap_err())), 1);
}

#[test]
fn ignores_directory_arguments() {
    let input = Input::File("sub_test".to_string());
    assert_eq!(route(&input, false, true, false), Route::SkipDirectory);
    assert_eq!(route(&input, true, true, true), Route::SkipDirectory);
    assert_eq!(exit_code(&Ok(())), 0);
}

#[test]
fn unmatched_input_is_unchanged() {
    let sub = job("foo", "bar");
    for text in ["", "abc", "abc\n", "one\r\ntwo\r\n", "one\ntwo", "\n\n\r\n", "ünïcödé\n"] {
        assert_eq!(run(&sub, text), text);
    }
}

#[test]
fn second_pass_changes_nothing_without_rematch() {
    let sub = job("foo", "bar");
    let once = run(&sub, "foo foo\nxfoo\n");
    assert_eq!(run(&sub, &once), once);
}

#[test]
fn second_pass_may_change_when_replacement_rematches() {
    let sub = job("a", "aa");
    let once = run(&sub, "a\n");
    assert_eq!(once, "aa\n");
    assert_eq!(run(&sub, &once), "aaaa\n");
}

#[test]
fn whole_word_mode() {
    let mut sub = job("foo", "X");
    sub.whole_word = true;
    assert_eq!(run(&sub, "foo bar"), "X bar");
    assert_eq!(run(&sub, "a foo"), "a X");
    assert_eq!(run(&sub, "foobar"), "foobar");
    assert_eq!(run(&sub, "myfoo"), "myfoo");
}

#[test]
fn whole_word_wraps_pattern() {
    assert_eq!(effective_pattern_text("foo", true), r"\bfoo\b");
    assert_eq!(effective_pattern_text("foo", false), "foo");
}

#[test]
fn line_filter_gates_substitution() {
    let mut sub = job("foo", "bar");
    sub.match_pattern = Some("X".to_string());
    assert_eq!(run(&sub, "foo here\n"), "foo here\n");
    assert_eq!(run(&sub, "X foo here\n"), "X bar here\n");
    assert_eq!(run(&sub, "foo\nX foo\nfoo"), "foo\nX bar\nfoo");
}

#[test]
fn line_filter_follows_case_setting() {
    let mut sub = job("foo", "bar");
    sub.match_pattern = Some("x".to_string());
    assert_eq!(run(&sub, "X foo\n"), "X foo\n");
    sub.ignore_case = true;
    assert_eq!(run(&sub, "X foo\n"), "X bar\n");
}

#[test]
fn invalid_primary_pattern_is_rejected() {
    let sub = job("(", "bar");
    assert!(matches!(sub.replace(b"foo\n".as_ref()), Err(SubError::RegexError(_))));
    assert!(matches!(sub.compile(), Err(SubError::RegexError(_))));
}

#[test]
fn invalid_filter_pattern_is_rejected() {
    let mut sub = job("foo", "bar");
    sub.match_pattern = Some("[".to_string());
    assert!(matches!(sub.replace(b"foo\n".as_ref()), Err(SubError::RegexError(_))));
}

#[test]
fn invalid_line_stops_whole_input() {
    let sub = job("foo", "bar");
    let r = sub.replace(b"foo\n\xff\nfoo\n".as_ref());
    assert!(matches!(r, Err(SubError::InvalidUTF8)));
}

#[test]
fn transcode_line_keeps_terminator() {
    let sub = job("o", "0").compile().unwrap();
    assert_eq!(sub.transcode_line(b"foo\r\n").unwrap(), "f00\r\n");
    assert_eq!(sub.transcode_line(b"").unwrap(), "");
    assert!(matches!(sub.transcode_line(b"\xC3\x28\n"), Err(SubError::InvalidUTF8)));
}

#[test]
fn matcher_compiles_valid_patterns_only() {
    assert!(Matcher::compile("a+b", false).is_ok());
    assert!(matches!(Matcher::compile("a{", true), Err(SubError::RegexError(_))));
}

#[test]
fn empty_input_gives_empty_output() {
    let sub = job("foo", "bar");
    assert_eq!(run(&sub, ""), "");
}

#[test]
fn routes_follow_mode_and_terminal() {
    let file = Input::File("a.txt".to_string());
    assert_eq!(route(&Input::StdIn, false, false, true), Route::ToOutput { buffered: false });
    assert_eq!(route(&Input::StdIn, true, false, false), Route::ToOutput { buffered: true });
    assert_eq!(route(&file, true, false, true), Route::InPlace);
    assert_eq!(route(&file, false, false, true), Route::ToOutput { buffered: false });
    assert_eq!(route(&file, false, false, false), Route::ToOutput { buffered: true });
}

#[test]
fn edit_steps_run_in_order() {
    let mut step = EditStep::OpenOriginal;
    let mut seen = vec![step];
    while step != EditStep::Finished {
        step = step.advance(Ok(())).unwrap();
        seen.push(step);
    }
    assert_eq!(
        seen,
        vec![
            EditStep::OpenOriginal,
            EditStep::CreateTemp,
            EditStep::Transcode,
            EditStep::CloseTemp,
            EditStep::ReadPermissions,
            EditStep::ApplyPermissions,
            EditStep::CopyBack,
            EditStep::Finished,
        ]
    );
}

#[test]
fn edit_step_failures_name_their_step() {
    assert!(matches!(EditStep::CreateTemp.advance(Err(io_error())), Err(SubError::CouldNotCreateTempFile(_))));
    assert!(matches!(EditStep::Transcode.advance(Err(io_error())), Err(SubError::FailedToWrite(_))));
    assert!(matches!(EditStep::CloseTemp.advance(Err(io_error())), Err(SubError::FailedToWrite(_))));
    assert!(matches!(EditStep::ReadPermissions.advance(Err(io_error())), Err(SubError::CouldNotReadMetadata(_))));
    assert!(matches!(EditStep::ApplyPermissions.advance(Err(io_error())), Err(SubError::CouldNotSetPermissions(_))));
    assert!(matches!(EditStep::CopyBack.advance(Err(io_error())), Err(SubError::CouldNotModifyInplace(_))));
}

#[test]
fn closed_output_is_not_a_failure() {
    assert_eq!(exit_code(&Err(SubError::FailedToWrite(io_error()))), 0);
    assert_eq!(exit_code(&Err(SubError::CouldNotModifyInplace(io_error()))), 1);
}

#[test]
fn messages_name_the_failed_operation() {
    let e = SubError::CouldNotReadMetadata(io_error());
    assert_eq!(e.message(), "Could not read metadata from file: missing");
    assert_eq!(SubError::InvalidUTF8.message(), "Input contains invalid UTF-8");
    assert_eq!(
        SubError::CouldNotSetPermissions(io_error()).message(),
        "Could not set permissions of file: missing"
    );
    let bad = job("(", "x").compile();
    match bad {
        Err(e) => {
            let text = e.message();
            assert!(text.starts_with("Invalid pattern: "));
            assert!(text.len() > "Invalid pattern: ".len());
        }
        Ok(_) => panic!("an unbalanced group compiled"),
    }
}
