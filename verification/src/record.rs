//! The log-record schema and the verified decoder from a text line to a
//! record.
//!
//! A record needs `timestamp`, `loggerName`, `level` and `message` as JSON
//! strings; `stackTrace` and `exc_info` may be absent, null or strings; and
//! `exception` may be absent, null or a nested object with two optional
//! string fields. Anything else makes the whole decode fail, and the caller
//! then passes the line through unchanged.

use vstd::prelude::*;

use crate::json::{
    json_as_str, json_get, json_is_null, json_is_object, json_model, json_of, parse_json, Json,
};

verus! {

/// The nested exception part of a decoded record.
#[derive(Debug, PartialEq, Eq)]
pub struct ExceptionInfo {
    pub exception_type: Option<String>,
    pub message: Option<String>,
}

/// One decoded log record.
#[derive(Debug, PartialEq, Eq)]
pub struct LogRecord {
    pub timestamp: String,
    pub logger_name: String,
    pub level: String,
    pub message: String,
    pub stack_trace: Option<String>,
    pub exc_info: Option<String>,
    pub exception: Option<ExceptionInfo>,
}

/// The mathematical content of an `ExceptionInfo`.
pub struct ExcModel {
    pub exception_type: Option<Seq<char>>,
    pub message: Option<Seq<char>>,
}

/// The mathematical content of a `LogRecord`.
pub struct RecordModel {
    pub timestamp: Seq<char>,
    pub logger_name: Seq<char>,
    pub level: Seq<char>,
    pub message: Seq<char>,
    pub stack_trace: Option<Seq<char>>,
    pub exc_info: Option<Seq<char>>,
    pub exception: Option<ExcModel>,
}

impl View for ExceptionInfo {
    type V = ExcModel;

    open spec fn view(&self) -> ExcModel {
        ExcModel {
            exception_type: self.exception_type.deep_view(),
            message: self.message.deep_view(),
        }
    }
}

impl DeepView for ExceptionInfo {
    type V = ExcModel;

    open spec fn deep_view(&self) -> ExcModel {
        self.view()
    }
}

impl View for LogRecord {
    type V = RecordModel;

    open spec fn view(&self) -> RecordModel {
        RecordModel {
            timestamp: self.timestamp@,
            logger_name: self.logger_name@,
            level: self.level@,
            message: self.message@,
            stack_trace: self.stack_trace.deep_view(),
            exc_info: self.exc_info.deep_view(),
            exception: self.exception.deep_view(),
        }
    }
}

impl DeepView for LogRecord {
    type V = RecordModel;

    open spec fn deep_view(&self) -> RecordModel {
        self.view()
    }
}

/// The object holds key `k`, bound to a string.
pub open spec fn required_str(m: Map<Seq<char>, Json>, k: Seq<char>) -> bool {
    m.contains_key(k) && m[k] is Text
}

/// Key `k` is absent, null or a string — the shapes an optional string field
/// accepts.
pub open spec fn optional_str_ok(m: Map<Seq<char>, Json>, k: Seq<char>) -> bool {
    m.contains_key(k) ==> (m[k] is Text || m[k] is Null)
}

/// The value of an optional string field: the characters when key `k` is
/// bound to a string, nothing when it is absent or null.
pub open spec fn optional_str(m: Map<Seq<char>, Json>, k: Seq<char>) -> Option<Seq<char>> {
    if m.contains_key(k) && m[k] is Text {
        Some(m[k]->Text_0)
    } else {
        None
    }
}

/// The `exception` field is absent, null, or an object whose
/// `exceptionType` and `message` are themselves acceptable optional strings.
pub open spec fn exception_ok(m: Map<Seq<char>, Json>) -> bool {
    m.contains_key("exception"@) ==> {
        ||| m["exception"@] is Null
        ||| {
            &&& m["exception"@] is Object
            &&& optional_str_ok(m["exception"@]->Object_0, "exceptionType"@)
            &&& optional_str_ok(m["exception"@]->Object_0, "message"@)
        }
    }
}

/// The decoded `exception` field: present exactly when the input holds an
/// exception object.
pub open spec fn exception_model(m: Map<Seq<char>, Json>) -> Option<ExcModel> {
    if m.contains_key("exception"@) && m["exception"@] is Object {
        Some(
            ExcModel {
                exception_type: optional_str(m["exception"@]->Object_0, "exceptionType"@),
                message: optional_str(m["exception"@]->Object_0, "message"@),
            },
        )
    } else {
        None
    }
}

/// The document decodes to a record: it is an object, the four required
/// fields are strings, and the optional fields have acceptable shapes.
pub open spec fn record_ok(j: Json) -> bool {
    &&& j is Object
    &&& required_str(j->Object_0, "timestamp"@)
    &&& required_str(j->Object_0, "loggerName"@)
    &&& required_str(j->Object_0, "level"@)
    &&& required_str(j->Object_0, "message"@)
    &&& optional_str_ok(j->Object_0, "stackTrace"@)
    &&& optional_str_ok(j->Object_0, "exc_info"@)
    &&& exception_ok(j->Object_0)
}

/// The record a decodable document yields.
pub open spec fn record_model(j: Json) -> RecordModel
    recommends
        record_ok(j),
{
    RecordModel {
        timestamp: j->Object_0["timestamp"@]->Text_0,
        logger_name: j->Object_0["loggerName"@]->Text_0,
        level: j->Object_0["level"@]->Text_0,
        message: j->Object_0["message"@]->Text_0,
        stack_trace: optional_str(j->Object_0, "stackTrace"@),
        exc_info: optional_str(j->Object_0, "exc_info"@),
        exception: exception_model(j->Object_0),
    }
}

/// What decoding a whole line yields: a record exactly when the line is valid
/// JSON whose document satisfies the schema.
pub open spec fn decode_spec(s: Seq<char>) -> Option<RecordModel> {
    match json_of(s) {
        Some(j) => if record_ok(j) {
            Some(record_model(j))
        } else {
            None
        },
        None => None,
    }
}

/// Reads a required string field.
fn get_required_str(v: &serde_json::Value, key: &str) -> (r: Option<String>)
    ensures
        match r {
            Some(s) => json_model(*v) is Object && required_str(
                json_model(*v)->Object_0,
                key@,
            ) && s@ == json_model(*v)->Object_0[key@]->Text_0,
            None => !(json_model(*v) is Object && required_str(json_model(*v)->Object_0, key@)),
        },
{
    match json_get(v, key) {
        Some(w) => json_as_str(w),
        None => None,
    }
}

/// Reads an optional string field. The outer `None` means the field is
/// present with a shape the schema refuses.
fn get_optional_str(v: &serde_json::Value, key: &str) -> (r: Option<Option<String>>)
    requires
        json_model(*v) is Object,
    ensures
        match r {
            Some(os) => optional_str_ok(json_model(*v)->Object_0, key@) && os.deep_view()
                == optional_str(json_model(*v)->Object_0, key@),
            None => !optional_str_ok(json_model(*v)->Object_0, key@),
        },
{
    match json_get(v, key) {
        None => Some(None),
        Some(w) => match json_as_str(w) {
            Some(s) => Some(Some(s)),
            None => if json_is_null(w) {
                Some(None)
            } else {
                None
            },
        },
    }
}

/// Reads the nested `exception` field. The outer `None` means the field or
/// one of its members has a shape the schema refuses.
fn get_exception(v: &serde_json::Value) -> (r: Option<Option<ExceptionInfo>>)
    requires
        json_model(*v) is Object,
    ensures
        match r {
            Some(oe) => exception_ok(json_model(*v)->Object_0) && oe.deep_view()
                == exception_model(json_model(*v)->Object_0),
            None => !exception_ok(json_model(*v)->Object_0),
        },
{
    match json_get(v, "exception") {
        None => Some(None),
        Some(w) => {
            if json_is_null(w) {
                Some(None)
            } else if json_is_object(w) {
                let exception_type = match get_optional_str(w, "exceptionType") {
                    Some(x) => x,
                    None => {
                        return None;
                    },
                };
                let message = match get_optional_str(w, "message") {
                    Some(x) => x,
                    None => {
                        return None;
                    },
                };
                Some(Some(ExceptionInfo { exception_type, message }))
            } else {
                None
            }
        },
    }
}

/// Decodes one input line: a record exactly when the line is valid JSON
/// conforming to the schema, nothing otherwise.
pub fn decode_line(line: &str) -> (r: Option<LogRecord>)
    ensures
        match r {
            Some(rec) => decode_spec(line@) == Some(rec@),
            None => decode_spec(line@) is None,
        },
{
    let v = match parse_json(line) {
        Some(v) => v,
        None => {
            return None;
        },
    };
    let timestamp = match get_required_str(&v, "timestamp") {
        Some(s) => s,
        None => {
            return None;
        },
    };
    let logger_name = match get_required_str(&v, "loggerName") {
        Some(s) => s,
        None => {
            return None;
        },
    };
    let level = match get_required_str(&v, "level") {
        Some(s) => s,
        None => {
            return None;
        },
    };
    let message = match get_required_str(&v, "message") {
        Some(s) => s,
        None => {
            return None;
        },
    };
    let stack_trace = match get_optional_str(&v, "stackTrace") {
        Some(x) => x,
        None => {
            return None;
        },
    };
    let exc_info = match get_optional_str(&v, "exc_info") {
        Some(x) => x,
        None => {
            return None;
        },
    };
    let exception = match get_exception(&v) {
        Some(x) => x,
        None => {
            return None;
        },
    };
    Some(LogRecord { timestamp, logger_name, level, message, stack_trace, exc_info, exception })
}

} // verus!
