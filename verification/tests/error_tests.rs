use pest_error::error::{PestError, PestResult};
use std::io;

fn read_failure() -> PestResult<u32> {
    let outcome: Result<u32, io::Error> = Err(io::Error::from(io::ErrorKind::NotFound));
    let value = outcome?;
    Ok(value)
}

fn parse_failure(input: &str) -> PestResult<u32> {
    if input.is_empty() {
        Err("empty input")?;
    }
    Ok(7)
}

#[test]
fn end_of_file_failure_is_wrapped_and_displayed_verbatim() {
    let failure = io::Error::from(io::ErrorKind::UnexpectedEof);
    assert_eq!(failure.to_string(), "unexpected end of file");
    let err = PestError::from(io::Error::from(io::ErrorKind::UnexpectedEof));
    assert!(matches!(err, PestError::IOError(_)));
    assert_eq!(err.to_string(), "unexpected end of file");
    let cause = err.source().expect("an IOError has a cause");
    assert_eq!(cause.kind(), failure.kind());
    assert_eq!(cause.to_string(), failure.to_string());
}

#[test]
fn end_of_file_failure_with_custom_text() {
    let err = PestError::from(io::Error::new(
        io::ErrorKind::UnexpectedEof,
        "unexpected end of file",
    ));
    assert_eq!(err.to_string(), "unexpected end of file");
    let cause = err.source().expect("an IOError has a cause");
    assert_eq!(cause.kind(), io::ErrorKind::UnexpectedEof);
    assert_eq!(cause.to_string(), "unexpected end of file");
}

#[test]
fn parse_failure_from_text() {
    let err = PestError::from("expected identifier, found '123'");
    match &err {
        PestError::ParseFail(message) => assert_eq!(message, "expected identifier, found '123'"),
        other => panic!("expected ParseFail, got {:?}", other),
    }
    assert_eq!(err.to_string(), "expected identifier, found '123'");
    assert!(err.source().is_none());
    assert!(err.cause().is_none());
}

#[test]
fn io_error_display_equals_the_display_of_the_failure() {
    let kinds = [
        io::ErrorKind::NotFound,
        io::ErrorKind::PermissionDenied,
        io::ErrorKind::Interrupted,
        io::ErrorKind::UnexpectedEof,
        io::ErrorKind::Other,
    ];
    for kind in kinds {
        let expected = io::Error::from(kind).to_string();
        let err = PestError::from(io::Error::from(kind));
        assert!(matches!(err, PestError::IOError(_)));
        assert_eq!(err.to_string(), expected);
    }
}

#[test]
fn io_error_display_of_an_operating_system_code() {
    let expected = io::Error::from_raw_os_error(2).to_string();
    let err = PestError::from(io::Error::from_raw_os_error(2));
    assert_eq!(err.to_string(), expected);
    let cause = err.source().expect("an IOError has a cause");
    assert_eq!(cause.raw_os_error(), Some(2));
}

#[test]
fn io_error_display_adds_no_prefix() {
    let err = PestError::from(io::Error::new(io::ErrorKind::Other, "disk on fire"));
    assert_eq!(err.to_string(), "disk on fire");
}

#[test]
fn io_error_display_of_an_empty_text() {
    let err = PestError::from(io::Error::new(io::ErrorKind::Other, ""));
    assert_eq!(err.to_string(), "");
    assert!(err.source().is_some());
}

#[test]
fn text_becomes_parse_fail_for_any_text() {
    let texts = ["", "x", "two words", "tab\tinside", "größe ≠ 3", "  padded  "];
    for text in texts {
        let err = PestError::from(text);
        match &err {
            PestError::ParseFail(message) => assert_eq!(message, text),
            other => panic!("expected ParseFail, got {:?}", other),
        }
        assert_eq!(err.to_string(), text);
    }
}

#[test]
fn message_variants_display_their_message_verbatim() {
    let unreachable = PestError::Unreachable(String::from("Unreachable Rule: f at line 1"));
    assert_eq!(unreachable.to_string(), "Unreachable Rule: f at line 1");
    let parse = PestError::ParseFail(String::from("unexpected token"));
    assert_eq!(parse.to_string(), "unexpected token");
    let format = PestError::FormatFail(String::from("cannot render node"));
    assert_eq!(format.to_string(), "cannot render node");
}

#[test]
fn display_keeps_the_message_it_is_given() {
    let err = PestError::FormatFail(String::from("cannot render node"));
    let first = err.to_string();
    let second = err.to_string();
    assert_eq!(first, second);
    match err {
        PestError::FormatFail(message) => assert_eq!(message, "cannot render node"),
        other => panic!("expected FormatFail, got {:?}", other),
    }
}

#[test]
fn display_of_a_single_line_message_is_a_single_line() {
    let errors = [
        PestError::Unreachable(String::from("never here")),
        PestError::ParseFail(String::from("expected ')'")),
        PestError::FormatFail(String::from("no text for node")),
    ];
    for err in errors.iter() {
        assert!(!err.to_string().contains('\n'));
    }
}

#[test]
fn display_does_not_alter_a_message_with_a_line_break() {
    let err = PestError::from("first\nsecond");
    assert_eq!(err.to_string(), "first\nsecond");
}

#[test]
fn only_an_io_error_has_a_cause() {
    let io_err = PestError::from(io::Error::from(io::ErrorKind::NotFound));
    assert!(io_err.source().is_some());
    assert!(io_err.cause().is_some());
    let others = [
        PestError::Unreachable(String::from("a")),
        PestError::ParseFail(String::from("b")),
        PestError::FormatFail(String::from("c")),
    ];
    for err in others.iter() {
        assert!(err.source().is_none());
        assert!(err.cause().is_none());
    }
}

#[test]
fn cause_and_source_agree() {
    let err = PestError::from(io::Error::new(io::ErrorKind::InvalidData, "bad bytes"));
    let source = err.source().expect("an IOError has a cause");
    let cause = err.cause().expect("an IOError has a cause");
    assert!(std::ptr::eq(source, cause));
    assert_eq!(source.kind(), io::ErrorKind::InvalidData);
    assert_eq!(source.to_string(), "bad bytes");
}

#[test]
fn cause_is_the_wrapped_failure_itself() {
    let err = PestError::from(io::Error::new(io::ErrorKind::TimedOut, "too slow"));
    match &err {
        PestError::IOError(inner) => {
            let source = err.source().expect("an IOError has a cause");
            assert!(std::ptr::eq(source, inner));
        }
        other => panic!("expected IOError, got {:?}", other),
    }
}

#[test]
fn description_is_the_fixed_notice() {
    let errors = [
        PestError::from(io::Error::from(io::ErrorKind::NotFound)),
        PestError::Unreachable(String::from("a")),
        PestError::ParseFail(String::from("b")),
        PestError::FormatFail(String::from("c")),
    ];
    for err in errors.iter() {
        assert_eq!(err.description(), "description() is deprecated; use Display");
    }
}

#[test]
fn question_mark_wraps_an_io_failure() {
    match read_failure() {
        Err(PestError::IOError(inner)) => assert_eq!(inner.kind(), io::ErrorKind::NotFound),
        other => panic!("expected IOError, got {:?}", other),
    }
}

#[test]
fn question_mark_turns_a_text_into_a_parse_failure() {
    match parse_failure("") {
        Err(PestError::ParseFail(message)) => assert_eq!(message, "empty input"),
        other => panic!("expected ParseFail, got {:?}", other),
    }
    assert!(matches!(parse_failure("x"), Ok(7)));
}

#[test]
fn debug_text_names_the_variant() {
    let err = PestError::from("oops");
    assert_eq!(format!("{:?}", err), "ParseFail(\"oops\")");
}

#[test]
fn error_can_cross_threads() {
    fn is_send_and_sync<T: Send + Sync>() -> bool {
        true
    }
    assert!(is_send_and_sync::<PestError>());
}
