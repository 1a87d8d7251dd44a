//! Renders a decoded record — or a line that would not decode — as styled
//! output lines, and states the shape of that output.

use vstd::prelude::*;

use crate::json::{json_of, Json};
use crate::record::{decode_line, decode_spec, required_str, LogRecord, RecordModel};
use crate::style::{
    level_style, level_style_spec, message_style, message_style_spec, plain_style, TextColor,
    TextStyle,
};

verus! {

/// One styled piece of an output line.
#[derive(Debug, PartialEq, Eq)]
pub struct Span {
    pub text: String,
    pub style: TextStyle,
}

/// The mathematical content of a `Span`.
pub struct SpanModel {
    pub text: Seq<char>,
    pub style: TextStyle,
}

impl View for Span {
    type V = SpanModel;

    open spec fn view(&self) -> SpanModel {
        SpanModel { text: self.text@, style: self.style }
    }
}

impl DeepView for Span {
    type V = SpanModel;

    open spec fn deep_view(&self) -> SpanModel {
        self.view()
    }
}

/// A piece of text under a style.
pub open spec fn span_model(text: Seq<char>, style: TextStyle) -> SpanModel {
    SpanModel { text, style }
}

/// A piece of text with no styling.
pub open spec fn plain_span(text: Seq<char>) -> SpanModel {
    span_model(text, plain_style())
}

/// The timestamp's style: a neutral bright emphasis, independent of level.
pub open spec fn timestamp_style() -> TextStyle {
    TextStyle { color: Some(TextColor::BrightWhite), bold: false, italic: false, dimmed: false }
}

/// The logger name's style: italic and dimmed, independent of level.
pub open spec fn logger_style() -> TextStyle {
    TextStyle { color: None, bold: false, italic: true, dimmed: true }
}

/// The stack-trace line's style: bold red.
pub open spec fn stack_trace_style() -> TextStyle {
    TextStyle { color: Some(TextColor::Red), bold: true, italic: false, dimmed: false }
}

/// The exception-info line's style: bold yellow, distinct from the
/// stack trace's red.
pub open spec fn exc_info_style() -> TextStyle {
    TextStyle { color: Some(TextColor::Yellow), bold: true, italic: false, dimmed: false }
}

/// The style of the two literal labels: bold bright-yellow.
pub open spec fn label_style() -> TextStyle {
    TextStyle { color: Some(TextColor::BrightYellow), bold: true, italic: false, dimmed: false }
}

/// The exception type value's style: bold red.
pub open spec fn exception_type_style() -> TextStyle {
    TextStyle { color: Some(TextColor::Red), bold: true, italic: false, dimmed: false }
}

/// The exception message value's style: bold red italic.
pub open spec fn exception_message_style() -> TextStyle {
    TextStyle { color: Some(TextColor::Red), bold: true, italic: true, dimmed: false }
}

/// The header line: `[<timestamp>] <LEVEL> [<loggerName>] <message>`, the
/// brackets unstyled, each field under its own style.
pub open spec fn header_line_spec(r: RecordModel) -> Seq<SpanModel> {
    seq![
        plain_span("["@),
        span_model(r.timestamp, timestamp_style()),
        plain_span("] "@),
        span_model(r.level, level_style_spec(r.level)),
        plain_span(" ["@),
        span_model(r.logger_name, logger_style()),
        plain_span("] "@),
        span_model(r.message, message_style_spec(r.level)),
    ]
}

/// The stack-trace line, when the record has one.
pub open spec fn stack_trace_lines(r: RecordModel) -> Seq<Seq<SpanModel>> {
    match r.stack_trace {
        Some(st) => seq![seq![span_model(st, stack_trace_style())]],
        None => Seq::empty(),
    }
}

/// The exception-info line, when the record has one.
pub open spec fn exc_info_lines(r: RecordModel) -> Seq<Seq<SpanModel>> {
    match r.exc_info {
        Some(info) => seq![seq![span_model(info, exc_info_style())]],
        None => Seq::empty(),
    }
}

/// The `Exception type: ` line, when the record's exception names a type:
/// the whole label, colon and space included, under the label style.
pub open spec fn exception_type_lines(r: RecordModel) -> Seq<Seq<SpanModel>> {
    match r.exception {
        Some(e) => match e.exception_type {
            Some(t) => seq![
                seq![
                    span_model("Exception type: "@, label_style()),
                    span_model(t, exception_type_style()),
                ],
            ],
            None => Seq::empty(),
        },
        None => Seq::empty(),
    }
}

/// The `Message: ` line, when the record's exception carries a message: the
/// whole label, colon and space included, under the label style.
pub open spec fn exception_message_lines(r: RecordModel) -> Seq<Seq<SpanModel>> {
    match r.exception {
        Some(e) => match e.message {
            Some(m) => seq![
                seq![
                    span_model("Message: "@, label_style()),
                    span_model(m, exception_message_style()),
                ],
            ],
            None => Seq::empty(),
        },
        None => Seq::empty(),
    }
}

/// Everything a decoded record renders to: the header, then each optional
/// line exactly when its field is present, in this fixed order.
pub open spec fn render_spec(r: RecordModel) -> Seq<Seq<SpanModel>> {
    seq![header_line_spec(r)] + stack_trace_lines(r) + exc_info_lines(r) + exception_type_lines(r)
        + exception_message_lines(r)
}

/// What formatting one input line yields: the rendered record when the line
/// decodes, the line itself unstyled when it does not.
pub open spec fn format_spec(line: Seq<char>) -> Seq<Seq<SpanModel>> {
    match decode_spec(line) {
        Some(r) => render_spec(r),
        None => seq![seq![plain_span(line)]],
    }
}

/// Builds an unstyled span.
fn plain_span_exec(text: &str) -> (r: Span)
    ensures
        r@ == plain_span(text@),
{
    Span { text: text.to_owned(), style: TextStyle { color: None, bold: false, italic: false, dimmed: false } }
}

/// Renders a decoded record into its styled output lines.
pub fn render_record(rec: &LogRecord) -> (out: Vec<Vec<Span>>)
    ensures
        out.deep_view() == render_spec(rec@),
{
    let mut out: Vec<Vec<Span>> = Vec::new();

    let mut header: Vec<Span> = Vec::new();
    header.push(plain_span_exec("["));
    header.push(
        Span {
            text: rec.timestamp.clone(),
            style: TextStyle {
                color: Some(TextColor::BrightWhite),
                bold: false,
                italic: false,
                dimmed: false,
            },
        },
    );
    header.push(plain_span_exec("] "));
    header.push(Span { text: rec.level.clone(), style: level_style(rec.level.as_str()) });
    header.push(plain_span_exec(" ["));
    header.push(
        Span {
            text: rec.logger_name.clone(),
            style: TextStyle { color: None, bold: false, italic: true, dimmed: true },
        },
    );
    header.push(plain_span_exec("] "));
    header.push(Span { text: rec.message.clone(), style: message_style(rec.level.as_str()) });
    assert(header.deep_view() =~= header_line_spec(rec@));
    out.push(header);
    assert(out.deep_view() =~= seq![header_line_spec(rec@)]);

    match &rec.stack_trace {
        Some(st) => {
            let mut line: Vec<Span> = Vec::new();
            line.push(
                Span {
                    text: st.clone(),
                    style: TextStyle {
                        color: Some(TextColor::Red),
                        bold: true,
                        italic: false,
                        dimmed: false,
                    },
                },
            );
            assert(line.deep_view() =~= stack_trace_lines(rec@)[0]);
            out.push(line);
        },
        None => {},
    }
    assert(out.deep_view() =~= seq![header_line_spec(rec@)] + stack_trace_lines(rec@));

    match &rec.exc_info {
        Some(info) => {
            let mut line: Vec<Span> = Vec::new();
            line.push(
                Span {
                    text: info.clone(),
                    style: TextStyle {
                        color: Some(TextColor::Yellow),
                        bold: true,
                        italic: false,
                        dimmed: false,
                    },
                },
            );
            assert(line.deep_view() =~= exc_info_lines(rec@)[0]);
            out.push(line);
        },
        None => {},
    }
    assert(out.deep_view() =~= seq![header_line_spec(rec@)] + stack_trace_lines(rec@)
        + exc_info_lines(rec@));

    match &rec.exception {
        Some(e) => {
            match &e.exception_type {
                Some(t) => {
                    let mut line: Vec<Span> = Vec::new();
                    line.push(
                        Span {
                            text: "Exception type: ".to_owned(),
                            style: TextStyle {
                                color: Some(TextColor::BrightYellow),
                                bold: true,
                                italic: false,
                                dimmed: false,
                            },
                        },
                    );
                    line.push(
                        Span {
                            text: t.clone(),
                            style: TextStyle {
                                color: Some(TextColor::Red),
                                bold: true,
                                italic: false,
                                dimmed: false,
                            },
                        },
                    );
                    assert(line.deep_view() =~= exception_type_lines(rec@)[0]);
                    out.push(line);
                },
                None => {},
            }
            match &e.message {
                Some(m) => {
                    let mut line: Vec<Span> = Vec::new();
                    line.push(
                        Span {
                            text: "Message: ".to_owned(),
                            style: TextStyle {
                                color: Some(TextColor::BrightYellow),
                                bold: true,
                                italic: false,
                                dimmed: false,
                            },
                        },
                    );
                    line.push(
                        Span {
                            text: m.clone(),
                            style: TextStyle {
                                color: Some(TextColor::Red),
                                bold: true,
                                italic: true,
                                dimmed: false,
                            },
                        },
                    );
                    assert(line.deep_view() =~= exception_message_lines(rec@)[0]);
                    out.push(line);
                },
                None => {},
            }
        },
        None => {},
    }
    assert(out.deep_view() =~= render_spec(rec@));

    out
}

/// Formats one input line: the rendered record when the line decodes as a
/// log record, the line itself, unchanged and unstyled, when it does not.
pub fn format(line: &str) -> (out: Vec<Vec<Span>>)
    ensures
        out.deep_view() == format_spec(line@),
{
    match decode_line(line) {
        Some(rec) => render_record(&rec),
        None => {
            let mut spans: Vec<Span> = Vec::new();
            spans.push(plain_span_exec(line));
            assert(spans.deep_view() =~= seq![plain_span(line@)]);
            let mut out: Vec<Vec<Span>> = Vec::new();
            out.push(spans);
            assert(out.deep_view() =~= seq![seq![plain_span(line@)]]);
            out
        },
    }
}

/// A line that is not valid JSON is passed through: formatting yields one
/// line holding one unstyled span with exactly the input's characters.
pub proof fn lemma_passthrough_invalid_json(line: Seq<char>)
    requires
        json_of(line) is None,
    ensures
        format_spec(line) == seq![seq![plain_span(line)]],
{
}

/// A line of valid JSON that lacks any of the four required string fields —
/// `timestamp`, `loggerName`, `level`, `message` — is passed through the same
/// way: one line, one unstyled span, exactly the input.
pub proof fn lemma_passthrough_missing_field(line: Seq<char>, j: Json)
    requires
        json_of(line) == Some(j),
        !(j is Object && required_str(j->Object_0, "timestamp"@) && required_str(
            j->Object_0,
            "loggerName"@,
        ) && required_str(j->Object_0, "level"@) && required_str(j->Object_0, "message"@)),
    ensures
        format_spec(line) == seq![seq![plain_span(line)]],
{
}

/// Every rendered record opens with the header line, which holds, in order:
/// a bracket, the timestamp under the neutral bright style, the level token
/// under the level's style, the logger name italic and dimmed, and the
/// message under the message style — whatever optional fields are present.
pub proof fn lemma_header_shape(r: RecordModel)
    ensures
        render_spec(r).len() >= 1,
        render_spec(r)[0] == header_line_spec(r),
        header_line_spec(r).len() == 8,
        header_line_spec(r)[0] == plain_span("["@),
        header_line_spec(r)[1] == span_model(r.timestamp, timestamp_style()),
        header_line_spec(r)[2] == plain_span("] "@),
        header_line_spec(r)[3] == span_model(r.level, level_style_spec(r.level)),
        header_line_spec(r)[4] == plain_span(" ["@),
        header_line_spec(r)[5] == span_model(r.logger_name, logger_style()),
        header_line_spec(r)[6] == plain_span("] "@),
        header_line_spec(r)[7] == span_model(r.message, message_style_spec(r.level)),
{
}

/// Each optional output line appears exactly when its field is present in
/// the record, in the fixed order stack trace, exception info, exception
/// type, exception message, directly after the header.
pub proof fn lemma_optional_lines(r: RecordModel)
    ensures
        render_spec(r) == seq![header_line_spec(r)] + stack_trace_lines(r) + exc_info_lines(r)
            + exception_type_lines(r) + exception_message_lines(r),
        stack_trace_lines(r).len() == (if r.stack_trace is Some {
            1nat
        } else {
            0nat
        }),
        exc_info_lines(r).len() == (if r.exc_info is Some {
            1nat
        } else {
            0nat
        }),
        exception_type_lines(r).len() == (if r.exception is Some
            && r.exception->0.exception_type is Some {
            1nat
        } else {
            0nat
        }),
        exception_message_lines(r).len() == (if r.exception is Some
            && r.exception->0.message is Some {
            1nat
        } else {
            0nat
        }),
        render_spec(r).len() == 1 + stack_trace_lines(r).len() + exc_info_lines(r).len()
            + exception_type_lines(r).len() + exception_message_lines(r).len(),
        r.stack_trace is Some ==> render_spec(r)[1] == seq![
            span_model(r.stack_trace->0, stack_trace_style()),
        ],
        r.exc_info is Some ==> render_spec(r)[1 + stack_trace_lines(r).len() as int] == seq![
            span_model(r.exc_info->0, exc_info_style()),
        ],
        r.exception is Some && r.exception->0.exception_type is Some ==> render_spec(r)[1
            + stack_trace_lines(r).len() as int + exc_info_lines(r).len() as int] == seq![
            span_model("Exception type: "@, label_style()),
            span_model(r.exception->0.exception_type->0, exception_type_style()),
        ],
        r.exception is Some && r.exception->0.message is Some ==> render_spec(r)[1
            + stack_trace_lines(r).len() as int + exc_info_lines(r).len() as int
            + exception_type_lines(r).len() as int] == seq![
            span_model("Message: "@, label_style()),
            span_model(r.exception->0.message->0, exception_message_style()),
        ],
{
}

} // verus!

