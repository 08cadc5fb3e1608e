//! Parsers for the configuration file formats.
//!
//! Each format is read by a character-at-a-time state machine whose
//! transition function is defined twice: once as a spec function over
//! character sequences, once as executable code proved to follow it exactly.
//! The machines accept the flat configuration shape this library defines:
//! top-level keys with scalar values. Recognized keys (each accepted in
//! snake_case and camelCase) are validated and collected; unknown keys with
//! scalar values are ignored.

use vstd::prelude::*;

use crate::config::{
    spec_parse_log_level, spec_parse_output_format, FileFields, FileFieldsView, LogLevel,
    OutputFormat,
};
use crate::error::ConfigKey;
use crate::strutil::str_eq;

verus! {

/// How a parse attempt failed.
#[derive(Clone, Copy, Debug, PartialEq, Eq, Structural)]
pub enum ParseFail {
    /// The text is not well-formed for the format.
    Syntax,
    /// A recognized key holds a value outside its domain.
    BadValue(ConfigKey),
}

/// A scalar value attached to a key.
#[derive(Debug, PartialEq)]
pub enum TokenValue {
    Str(String),
    Bool(bool),
    Null,
    Num,
}

/// The mathematical shape of a `TokenValue`.
pub ghost enum TokenValueView {
    Str(Seq<char>),
    Bool(bool),
    Null,
    Num,
}

impl View for TokenValue {
    type V = TokenValueView;

    open spec fn view(&self) -> TokenValueView {
        match self {
            TokenValue::Str(s) => TokenValueView::Str(s@),
            TokenValue::Bool(b) => TokenValueView::Bool(*b),
            TokenValue::Null => TokenValueView::Null,
            TokenValue::Num => TokenValueView::Num,
        }
    }
}

/// Whitespace accepted between tokens.
pub open spec fn spec_is_ws(c: char) -> bool {
    c == ' ' || c == '\t' || c == '\n' || c == '\r'
}

pub fn is_ws(c: char) -> (r: bool)
    ensures
        r == spec_is_ws(c),
{
    c == ' ' || c == '\t' || c == '\n' || c == '\r'
}

/// Whitespace inside a line: spaces, tabs, and a carriage return before the
/// line feed.
pub open spec fn spec_is_line_ws(c: char) -> bool {
    c == ' ' || c == '\t' || c == '\r'
}

pub fn is_line_ws(c: char) -> (r: bool)
    ensures
        r == spec_is_line_ws(c),
{
    c == ' ' || c == '\t' || c == '\r'
}

/// Characters that may appear in a numeric token.
pub open spec fn spec_is_num_char(c: char) -> bool {
    ('0' <= c && c <= '9') || c == '-' || c == '+' || c == '.' || c == 'e' || c == 'E'
}

pub fn is_num_char(c: char) -> (r: bool)
    ensures
        r == spec_is_num_char(c),
{
    ('0' <= c && c <= '9') || c == '-' || c == '+' || c == '.' || c == 'e' || c == 'E'
}

/// ASCII lower-case letters, the characters of the bare words
/// `true`, `false` and `null`.
pub open spec fn spec_is_word_char(c: char) -> bool {
    'a' <= c && c <= 'z'
}

pub fn is_word_char(c: char) -> (r: bool)
    ensures
        r == spec_is_word_char(c),
{
    'a' <= c && c <= 'z'
}

/// The character named by an escape sequence, if the sequence is supported.
pub open spec fn spec_esc_char(c: char) -> Option<char> {
    if c == '"' {
        Some('"')
    } else if c == '\\' {
        Some('\\')
    } else if c == '/' {
        Some('/')
    } else if c == 'n' {
        Some('\n')
    } else if c == 't' {
        Some('\t')
    } else if c == 'r' {
        Some('\r')
    } else {
        None
    }
}

pub fn esc_char(c: char) -> (r: Option<char>)
    ensures
        r == spec_esc_char(c),
{
    if c == '"' {
        Some('"')
    } else if c == '\\' {
        Some('\\')
    } else if c == '/' {
        Some('/')
    } else if c == 'n' {
        Some('\n')
    } else if c == 't' {
        Some('\t')
    } else if c == 'r' {
        Some('\r')
    } else {
        None
    }
}

/// Applies one key's scalar value to the collected fields. Recognized keys
/// are accepted in snake_case and camelCase; a recognized key with a value
/// outside its domain is rejected; a `null` leaves the field untouched;
/// unknown keys are ignored.
pub open spec fn spec_assign_field(
    f: FileFieldsView,
    key: Seq<char>,
    tok: TokenValueView,
) -> Result<FileFieldsView, ParseFail> {
    if key == "log_level"@ || key == "logLevel"@ {
        match tok {
            TokenValueView::Str(s) => match spec_parse_log_level(s) {
                Some(l) => Ok(
                    FileFieldsView {
                        log_level: Some(l),
                        output_format: f.output_format,
                        color: f.color,
                        workspace_root: f.workspace_root,
                    },
                ),
                None => Err(ParseFail::BadValue(ConfigKey::LogLevel)),
            },
            TokenValueView::Null => Ok(f),
            _ => Err(ParseFail::BadValue(ConfigKey::LogLevel)),
        }
    } else if key == "output_format"@ || key == "outputFormat"@ {
        match tok {
            TokenValueView::Str(s) => match spec_parse_output_format(s) {
                Some(of) => Ok(
                    FileFieldsView {
                        log_level: f.log_level,
                        output_format: Some(of),
                        color: f.color,
                        workspace_root: f.workspace_root,
                    },
                ),
                None => Err(ParseFail::BadValue(ConfigKey::OutputFormat)),
            },
            TokenValueView::Null => Ok(f),
            _ => Err(ParseFail::BadValue(ConfigKey::OutputFormat)),
        }
    } else if key == "color"@ {
        match tok {
            TokenValueView::Bool(b) => Ok(
                FileFieldsView {
                    log_level: f.log_level,
                    output_format: f.output_format,
                    color: Some(b),
                    workspace_root: f.workspace_root,
                },
            ),
            TokenValueView::Null => Ok(f),
            _ => Err(ParseFail::BadValue(ConfigKey::Color)),
        }
    } else if key == "workspace_root"@ || key == "workspaceRoot"@ {
        match tok {
            TokenValueView::Str(s) => Ok(
                FileFieldsView {
                    log_level: f.log_level,
                    output_format: f.output_format,
                    color: f.color,
                    workspace_root: Some(s),
                },
            ),
            TokenValueView::Null => Ok(f),
            _ => Err(ParseFail::BadValue(ConfigKey::WorkspaceRoot)),
        }
    } else {
        Ok(f)
    }
}

/// Clones an optional string, keeping its view.
pub fn clone_opt_string(o: &Option<String>) -> (r: Option<String>)
    ensures
        r is Some <==> o is Some,
        r is Some ==> r->0@ == o->0@,
{
    match o {
        Some(s) => Some(s.clone()),
        None => None,
    }
}

impl FileFields {
    /// An owned copy whose fields equal this contribution's.
    pub fn duplicate(&self) -> (r: FileFields)
        ensures
            r@ == self@,
    {
        FileFields {
            log_level: self.log_level,
            output_format: self.output_format,
            color: self.color,
            workspace_root: clone_opt_string(&self.workspace_root),
        }
    }
}

/// Applies one key's scalar value to the collected fields.
pub fn assign_field(f: &FileFields, key: &str, tok: TokenValue) -> (r: Result<
    FileFields,
    ParseFail,
>)
    ensures
        ({
            let m = spec_assign_field(f@, key@, tok@);
            match r {
                Ok(g) => m is Ok && g@ == m->Ok_0,
                Err(e) => m is Err && e == m->Err_0,
            }
        }),
{
    if str_eq(key, "log_level") || str_eq(key, "logLevel") {
        match tok {
            TokenValue::Str(s) => match LogLevel::parse(s.as_str()) {
                Some(l) => Ok(
                    FileFields {
                        log_level: Some(l),
                        output_format: f.output_format,
                        color: f.color,
                        workspace_root: clone_opt_string(&f.workspace_root),
                    },
                ),
                None => Err(ParseFail::BadValue(ConfigKey::LogLevel)),
            },
            TokenValue::Null => Ok(f.duplicate()),
            _ => Err(ParseFail::BadValue(ConfigKey::LogLevel)),
        }
    } else if str_eq(key, "output_format") || str_eq(key, "outputFormat") {
        match tok {
            TokenValue::Str(s) => match OutputFormat::parse(s.as_str()) {
                Some(of) => Ok(
                    FileFields {
                        log_level: f.log_level,
                        output_format: Some(of),
                        color: f.color,
                        workspace_root: clone_opt_string(&f.workspace_root),
                    },
                ),
                None => Err(ParseFail::BadValue(ConfigKey::OutputFormat)),
            },
            TokenValue::Null => Ok(f.duplicate()),
            _ => Err(ParseFail::BadValue(ConfigKey::OutputFormat)),
        }
    } else if str_eq(key, "color") {
        match tok {
            TokenValue::Bool(b) => Ok(
                FileFields {
                    log_level: f.log_level,
                    output_format: f.output_format,
                    color: Some(b),
                    workspace_root: clone_opt_string(&f.workspace_root),
                },
            ),
            TokenValue::Null => Ok(f.duplicate()),
            _ => Err(ParseFail::BadValue(ConfigKey::Color)),
        }
    } else if str_eq(key, "workspace_root") || str_eq(key, "workspaceRoot") {
        match tok {
            TokenValue::Str(s) => Ok(
                FileFields {
                    log_level: f.log_level,
                    output_format: f.output_format,
                    color: f.color,
                    workspace_root: Some(s),
                },
            ),
            TokenValue::Null => Ok(f.duplicate()),
            _ => Err(ParseFail::BadValue(ConfigKey::WorkspaceRoot)),
        }
    } else {
        Ok(f.duplicate())
    }
}

/// A fresh, empty string.
pub fn new_string() -> (r: String)
    ensures
        r@ == Seq::<char>::empty(),
{
    let s = String::new();
    proof {
        assert(s@ =~= Seq::<char>::empty());
    }
    s
}

} // verus!
