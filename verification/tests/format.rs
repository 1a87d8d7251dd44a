use logfmt::record::decode_line;
use logfmt::render::Span;
use logfmt::style::{TextColor, TextStyle};

fn plain() -> TextStyle {
    TextStyle { color: None, bold: false, italic: false, dimmed: false }
}

fn bold(color: TextColor) -> TextStyle {
    TextStyle { color: Some(color), bold: true, italic: false, dimmed: false }
}

fn colored(color: TextColor) -> TextStyle {
    TextStyle { color: Some(color), bold: false, italic: false, dimmed: false }
}

fn check_header(
    line: &[Span],
    timestamp: &str,
    level: &str,
    logger: &str,
    message: &str,
    level_style: TextStyle,
    message_style: TextStyle,
) {
    assert_eq!(line.len(), 8);
    assert_eq!(line[0].text, "[");
    assert_eq!(line[0].style, plain());
    assert_eq!(line[1].text, timestamp);
    assert_eq!(line[1].style, colored(TextColor::BrightWhite));
    assert_eq!(line[2].text, "] ");
    assert_eq!(line[2].style, plain());
    assert_eq!(line[3].text, level);
    assert_eq!(line[3].style, level_style);
    assert_eq!(line[4].text, " [");
    assert_eq!(line[4].style, plain());
    assert_eq!(line[5].text, logger);
    assert_eq!(
        line[5].style,
        TextStyle { color: None, bold: false, italic: true, dimmed: true }
    );
    assert_eq!(line[6].text, "] ");
    assert_eq!(line[6].style, plain());
    assert_eq!(line[7].text, message);
    assert_eq!(line[7].style, message_style);
}

#[test]
fn info_line_renders_single_header() {
    let out = logfmt::render::format(
        r#"{"timestamp":"2024-01-01T00:00:00Z","loggerName":"com.example.Foo","level":"INFO","message":"started"}"#,
    );
    assert_eq!(out.len(), 1);
    check_header(
        &out[0],
        "2024-01-01T00:00:00Z",
        "INFO",
        "com.example.Foo",
        "started",
        bold(TextColor::Blue),
        colored(TextColor::Blue),
    );
}

#[test]
fn non_json_passes_through_unstyled() {
    let out = logfmt::render::format("not json at all");
    assert_eq!(out.len(), 1);
    assert_eq!(out[0].len(), 1);
    assert_eq!(out[0][0].text, "not json at all");
    assert_eq!(out[0][0].style, plain());
}

#[test]
fn error_with_stack_trace_renders_two_lines() {
    let out = logfmt::render::format(
        r#"{"timestamp":"t","loggerName":"L","level":"ERROR","message":"boom","stackTrace":"at Foo.bar(Foo.java:1)"}"#,
    );
    assert_eq!(out.len(), 2);
    check_header(
        &out[0],
        "t",
        "ERROR",
        "L",
        "boom",
        bold(TextColor::Red),
        colored(TextColor::Red),
    );
    assert_eq!(out[1].len(), 1);
    assert_eq!(out[1][0].text, "at Foo.bar(Foo.java:1)");
    assert_eq!(out[1][0].style, bold(TextColor::Red));
}

#[test]
fn unrecognized_level_is_bold_uncolored_with_blue_message() {
    let out = logfmt::render::format(r#"{"timestamp":"t","loggerName":"L","level":"FATAL","message":"m"}"#);
    assert_eq!(out.len(), 1);
    check_header(
        &out[0],
        "t",
        "FATAL",
        "L",
        "m",
        TextStyle { color: None, bold: true, italic: false, dimmed: false },
        colored(TextColor::Blue),
    );
}

#[test]
fn warn_with_exception_renders_labeled_lines() {
    let out = logfmt::render::format(
        r#"{"timestamp":"t","loggerName":"L","level":"WARN","message":"m","exception":{"exceptionType":"java.lang.NullPointerException","message":"npe"}}"#,
    );
    assert_eq!(out.len(), 3);
    check_header(
        &out[0],
        "t",
        "WARN",
        "L",
        "m",
        bold(TextColor::BrightYellow),
        colored(TextColor::BrightYellow),
    );
    assert_eq!(out[1].len(), 2);
    assert_eq!(out[1][0].text, "Exception type: ");
    assert_eq!(out[1][0].style, bold(TextColor::BrightYellow));
    assert_eq!(out[1][1].text, "java.lang.NullPointerException");
    assert_eq!(out[1][1].style, bold(TextColor::Red));
    assert_eq!(out[2].len(), 2);
    assert_eq!(out[2][0].text, "Message: ");
    assert_eq!(out[2][0].style, bold(TextColor::BrightYellow));
    assert_eq!(out[2][1].text, "npe");
    assert_eq!(
        out[2][1].style,
        TextStyle { color: Some(TextColor::Red), bold: true, italic: true, dimmed: false }
    );
}

#[test]
fn exc_info_line_is_bold_yellow() {
    let out = logfmt::render::format(
        r#"{"timestamp":"t","loggerName":"L","level":"DEBUG","message":"m","exc_info":"trace here"}"#,
    );
    assert_eq!(out.len(), 2);
    check_header(
        &out[0],
        "t",
        "DEBUG",
        "L",
        "m",
        bold(TextColor::Green),
        colored(TextColor::Green),
    );
    assert_eq!(out[1].len(), 1);
    assert_eq!(out[1][0].text, "trace here");
    assert_eq!(out[1][0].style, bold(TextColor::Yellow));
}

#[test]
fn all_optional_lines_keep_fixed_order() {
    let out = logfmt::render::format(
        r#"{"timestamp":"t","loggerName":"L","level":"SEVERE","message":"m","stackTrace":"st","exc_info":"ei","exception":{"exceptionType":"T","message":"em"}}"#,
    );
    assert_eq!(out.len(), 5);
    check_header(
        &out[0],
        "t",
        "SEVERE",
        "L",
        "m",
        bold(TextColor::Red),
        colored(TextColor::Red),
    );
    assert_eq!(out[1][0].text, "st");
    assert_eq!(out[1][0].style, bold(TextColor::Red));
    assert_eq!(out[2][0].text, "ei");
    assert_eq!(out[2][0].style, bold(TextColor::Yellow));
    assert_eq!(out[3][0].text, "Exception type: ");
    assert_eq!(out[3][0].style, bold(TextColor::BrightYellow));
    assert_eq!(out[3][1].text, "T");
    assert_eq!(out[4][0].text, "Message: ");
    assert_eq!(out[4][0].style, bold(TextColor::BrightYellow));
    assert_eq!(out[4][1].text, "em");
}

#[test]
fn missing_required_field_passes_through() {
    let cases = [
        r#"{"loggerName":"L","level":"INFO","message":"m"}"#,
        r#"{"timestamp":"t","level":"INFO","message":"m"}"#,
        r#"{"timestamp":"t","loggerName":"L","message":"m"}"#,
        r#"{"timestamp":"t","loggerName":"L","level":"INFO"}"#,
    ];
    for line in cases {
        let out = logfmt::render::format(line);
        assert_eq!(out.len(), 1);
        assert_eq!(out[0].len(), 1);
        assert_eq!(out[0][0].text, line);
        assert_eq!(out[0][0].style, plain());
        assert!(decode_line(line).is_none());
    }
}

#[test]
fn required_field_of_wrong_type_passes_through() {
    let line = r#"{"timestamp":7,"loggerName":"L","level":"INFO","message":"m"}"#;
    let out = logfmt::render::format(line);
    assert_eq!(out.len(), 1);
    assert_eq!(out[0][0].text, line);
    assert_eq!(out[0][0].style, plain());
}

#[test]
fn optional_field_of_wrong_type_fails_whole_decode() {
    let line = r#"{"timestamp":"t","loggerName":"L","level":"INFO","message":"m","stackTrace":5}"#;
    assert!(decode_line(line).is_none());
    let out = logfmt::render::format(line);
    assert_eq!(out.len(), 1);
    assert_eq!(out[0][0].text, line);
}

#[test]
fn null_optional_fields_decode_as_absent() {
    let line = r#"{"timestamp":"t","loggerName":"L","level":"INFO","message":"m","stackTrace":null,"exc_info":null,"exception":null}"#;
    let rec = decode_line(line).unwrap();
    assert_eq!(rec.stack_trace, None);
    assert_eq!(rec.exc_info, None);
    assert_eq!(rec.exception, None);
    let out = logfmt::render::format(line);
    assert_eq!(out.len(), 1);
}

#[test]
fn exception_of_wrong_shape_fails_whole_decode() {
    let not_object = r#"{"timestamp":"t","loggerName":"L","level":"INFO","message":"m","exception":"x"}"#;
    assert!(decode_line(not_object).is_none());
    let bad_inner = r#"{"timestamp":"t","loggerName":"L","level":"INFO","message":"m","exception":{"exceptionType":3}}"#;
    assert!(decode_line(bad_inner).is_none());
}

#[test]
fn exception_with_partial_fields_decodes() {
    let line = r#"{"timestamp":"t","loggerName":"L","level":"INFO","message":"m","exception":{"exceptionType":null}}"#;
    let rec = decode_line(line).unwrap();
    let exc = rec.exception.unwrap();
    assert_eq!(exc.exception_type, None);
    assert_eq!(exc.message, None);
    let out = logfmt::render::format(line);
    assert_eq!(out.len(), 1);
}

#[test]
fn non_object_json_passes_through() {
    for line in ["42", "\"quoted\"", "[1,2]", "true", "null"] {
        assert!(decode_line(line).is_none());
        let out = logfmt::render::format(line);
        assert_eq!(out.len(), 1);
        assert_eq!(out[0][0].text, line);
        assert_eq!(out[0][0].style, plain());
    }
}

#[test]
fn empty_line_passes_through() {
    let out = logfmt::render::format("");
    assert_eq!(out.len(), 1);
    assert_eq!(out[0].len(), 1);
    assert_eq!(out[0][0].text, "");
    assert_eq!(out[0][0].style, plain());
}

#[test]
fn decoded_fields_carry_the_input_values() {
    let line = r#"{"timestamp":"2024-02-03","loggerName":"a.b.C","level":"WARNING","message":"watch out","stackTrace":"s1","exc_info":"s2","exception":{"exceptionType":"E","message":"inner"}}"#;
    let rec = decode_line(line).unwrap();
    assert_eq!(rec.timestamp, "2024-02-03");
    assert_eq!(rec.logger_name, "a.b.C");
    assert_eq!(rec.level, "WARNING");
    assert_eq!(rec.message, "watch out");
    assert_eq!(rec.stack_trace.as_deref(), Some("s1"));
    assert_eq!(rec.exc_info.as_deref(), Some("s2"));
    let exc = rec.exception.unwrap();
    assert_eq!(exc.exception_type.as_deref(), Some("E"));
    assert_eq!(exc.message.as_deref(), Some("inner"));
}

#[test]
fn json_string_escapes_are_decoded() {
    let line = r#"{"timestamp":"t","loggerName":"L","level":"INFO","message":"say \"hi\"\nnow"}"#;
    let rec = decode_line(line).unwrap();
    assert_eq!(rec.message, "say \"hi\"\nnow");
}

#[test]
fn unknown_extra_fields_are_ignored() {
    let line = r#"{"timestamp":"t","loggerName":"L","level":"INFO","message":"m","thread":"main","pid":7}"#;
    let rec = decode_line(line).unwrap();
    assert_eq!(rec.message, "m");
    assert_eq!(logfmt::render::format(line).len(), 1);
}

#[test]
fn truncated_json_passes_through() {
    let line = r#"{"timestamp":"t","loggerName":"L","level":"INFO","message":"m""#;
    assert!(decode_line(line).is_none());
    let out = logfmt::render::format(line);
    assert_eq!(out.len(), 1);
    assert_eq!(out[0][0].text, line);
}
