//! The YAML configuration reader: a flat mapping, one `key: value` per line.
//!
//! Accepted shape: top-level `key: value` lines, blank lines, and `#`
//! comments (whole-line, or after a value separated by whitespace). A value
//! may be a bare scalar, `true`/`false`, `null`/`~`, empty (null), or quoted
//! in single or double quotes. Indented lines (nested mappings) are rejected.

use vstd::prelude::*;

use crate::config::{FileFields, FileFieldsView};
use crate::parse::{
    assign_field, is_line_ws, new_string, spec_assign_field, spec_is_line_ws, ParseFail,
    TokenValue, TokenValueView,
};
use crate::strutil::{str_eq, substring_copy};

verus! {

/// Where the machine stands in the line grammar.
#[derive(Clone, Copy, Debug, PartialEq, Eq, Structural)]
pub enum YamlMode {
    /// At the start of a line.
    LineStart,
    /// In a line that began with whitespace; only blank or comment content
    /// is accepted there.
    IndentedLine,
    /// Inside a whole-line comment.
    Comment,
    /// Inside a key, before the colon.
    InKey,
    /// After the colon, before the value.
    AfterColon,
    /// Inside a value.
    InValue,
    /// Inside a comment that followed a value.
    ValueComment,
}

/// The machine state: the mode, the key and value accumulators, a pending
/// run of whitespace (dropped if the line or value ends, folded into the
/// accumulator otherwise), the fields collected so far, and a sticky failure.
pub struct YamlState {
    pub mode: YamlMode,
    pub key: String,
    pub text: String,
    pub pend: String,
    pub fields: FileFields,
    pub failed: Option<ParseFail>,
}

/// The mathematical shape of a `YamlState`.
pub ghost struct YamlStateView {
    pub mode: YamlMode,
    pub key: Seq<char>,
    pub text: Seq<char>,
    pub pend: Seq<char>,
    pub fields: FileFieldsView,
    pub failed: Option<ParseFail>,
}

impl View for YamlState {
    type V = YamlStateView;

    open spec fn view(&self) -> YamlStateView {
        YamlStateView {
            mode: self.mode,
            key: self.key@,
            text: self.text@,
            pend: self.pend@,
            fields: self.fields@,
            failed: self.failed,
        }
    }
}

/// The scalar a trimmed YAML value stands for.
pub open spec fn spec_yaml_value(v: Seq<char>) -> TokenValueView {
    if v.len() == 0 {
        TokenValueView::Null
    } else if v == "true"@ {
        TokenValueView::Bool(true)
    } else if v == "false"@ {
        TokenValueView::Bool(false)
    } else if v == "null"@ || v == "~"@ {
        TokenValueView::Null
    } else if v.len() >= 2 && v[0] == '"' && v[v.len() - 1] == '"' {
        TokenValueView::Str(v.subrange(1, v.len() - 1))
    } else if v.len() >= 2 && v[0] == '\'' && v[v.len() - 1] == '\'' {
        TokenValueView::Str(v.subrange(1, v.len() - 1))
    } else {
        TokenValueView::Str(v)
    }
}

/// The scalar a trimmed YAML value stands for.
pub fn yaml_value(v: &str) -> (r: TokenValue)
    ensures
        r@ == spec_yaml_value(v@),
{
    let n = v.unicode_len();
    if n == 0 {
        TokenValue::Null
    } else if str_eq(v, "true") {
        TokenValue::Bool(true)
    } else if str_eq(v, "false") {
        TokenValue::Bool(false)
    } else if str_eq(v, "null") || str_eq(v, "~") {
        TokenValue::Null
    } else if n >= 2 && v.get_char(0) == '"' && v.get_char(n - 1) == '"' {
        TokenValue::Str(substring_copy(v, 1, n - 1))
    } else if n >= 2 && v.get_char(0) == '\'' && v.get_char(n - 1) == '\'' {
        TokenValue::Str(substring_copy(v, 1, n - 1))
    } else {
        TokenValue::Str(String::from_str(v))
    }
}

/// The state with the given failure recorded.
pub open spec fn spec_yaml_fail(st: YamlStateView, e: ParseFail) -> YamlStateView {
    YamlStateView { failed: Some(e), ..st }
}

/// The state after a completed `key: value` line is applied.
pub open spec fn spec_yaml_line_done(st: YamlStateView) -> YamlStateView {
    match spec_assign_field(st.fields, st.key, spec_yaml_value(st.text)) {
        Ok(f2) => YamlStateView {
            mode: YamlMode::LineStart,
            key: Seq::<char>::empty(),
            text: Seq::<char>::empty(),
            pend: Seq::<char>::empty(),
            fields: f2,
            failed: st.failed,
        },
        Err(e) => spec_yaml_fail(st, e),
    }
}

/// One step of the machine on character `c`.
pub open spec fn spec_yaml_step(st: YamlStateView, c: char) -> YamlStateView {
    if st.failed is Some {
        st
    } else {
        match st.mode {
            YamlMode::LineStart => {
                if c == '\n' {
                    st
                } else if spec_is_line_ws(c) {
                    YamlStateView { mode: YamlMode::IndentedLine, ..st }
                } else if c == '#' {
                    YamlStateView { mode: YamlMode::Comment, ..st }
                } else {
                    YamlStateView {
                        mode: YamlMode::InKey,
                        key: Seq::<char>::empty().push(c),
                        ..st
                    }
                }
            },
            YamlMode::IndentedLine => {
                if c == '\n' {
                    YamlStateView { mode: YamlMode::LineStart, ..st }
                } else if spec_is_line_ws(c) {
                    st
                } else if c == '#' {
                    YamlStateView { mode: YamlMode::Comment, ..st }
                } else {
                    spec_yaml_fail(st, ParseFail::Syntax)
                }
            },
            YamlMode::Comment => {
                if c == '\n' {
                    YamlStateView { mode: YamlMode::LineStart, ..st }
                } else {
                    st
                }
            },
            YamlMode::InKey => {
                if c == ':' {
                    YamlStateView {
                        mode: YamlMode::AfterColon,
                        pend: Seq::<char>::empty(),
                        ..st
                    }
                } else if c == '\n' {
                    spec_yaml_fail(st, ParseFail::Syntax)
                } else if spec_is_line_ws(c) {
                    YamlStateView { pend: st.pend.push(c), ..st }
                } else {
                    YamlStateView {
                        key: (st.key + st.pend).push(c),
                        pend: Seq::<char>::empty(),
                        ..st
                    }
                }
            },
            YamlMode::AfterColon => {
                if c == '\n' {
                    spec_yaml_line_done(st)
                } else if spec_is_line_ws(c) {
                    st
                } else if c == '#' {
                    YamlStateView { mode: YamlMode::ValueComment, ..st }
                } else {
                    YamlStateView {
                        mode: YamlMode::InValue,
                        text: Seq::<char>::empty().push(c),
                        ..st
                    }
                }
            },
            YamlMode::InValue => {
                if c == '\n' {
                    spec_yaml_line_done(st)
                } else if spec_is_line_ws(c) {
                    YamlStateView { pend: st.pend.push(c), ..st }
                } else if c == '#' && st.pend.len() > 0 {
                    YamlStateView {
                        mode: YamlMode::ValueComment,
                        pend: Seq::<char>::empty(),
                        ..st
                    }
                } else {
                    YamlStateView {
                        text: (st.text + st.pend).push(c),
                        pend: Seq::<char>::empty(),
                        ..st
                    }
                }
            },
            YamlMode::ValueComment => {
                if c == '\n' {
                    spec_yaml_line_done(st)
                } else {
                    st
                }
            },
        }
    }
}

/// Running the machine over `s` from position `i` in state `st`.
pub open spec fn spec_yaml_run(s: Seq<char>, i: int, st: YamlStateView) -> YamlStateView
    decreases s.len() - i,
{
    if i < s.len() {
        spec_yaml_run(s, i + 1, spec_yaml_step(st, s[i]))
    } else {
        st
    }
}

/// The verdict after the whole text has been read; a last line without a
/// trailing line feed is completed first.
pub open spec fn spec_yaml_finish(st: YamlStateView) -> Result<FileFieldsView, ParseFail> {
    match st.failed {
        Some(e) => Err(e),
        None => match st.mode {
            YamlMode::LineStart | YamlMode::IndentedLine | YamlMode::Comment => Ok(st.fields),
            YamlMode::InKey => Err(ParseFail::Syntax),
            YamlMode::AfterColon | YamlMode::InValue | YamlMode::ValueComment => {
                let st2 = spec_yaml_line_done(st);
                match st2.failed {
                    Some(e) => Err(e),
                    None => Ok(st2.fields),
                }
            },
        },
    }
}

/// What the YAML reader yields on `s`.
pub open spec fn spec_parse_yaml(s: Seq<char>) -> Result<FileFieldsView, ParseFail> {
    spec_yaml_finish(spec_yaml_run(s, 0, spec_yaml_init()))
}

/// The state before any character has been read.
pub open spec fn spec_yaml_init() -> YamlStateView {
    YamlStateView {
        mode: YamlMode::LineStart,
        key: Seq::<char>::empty(),
        text: Seq::<char>::empty(),
        pend: Seq::<char>::empty(),
        fields: crate::config::spec_empty_file_fields(),
        failed: None,
    }
}

/// Applies a completed `key: value` line.
fn yaml_line_done(st: YamlState) -> (r: YamlState)
    ensures
        r@ == spec_yaml_line_done(st@),
{
    let YamlState { mode, key, text, pend, fields, failed } = st;
    let tok = yaml_value(text.as_str());
    match assign_field(&fields, key.as_str(), tok) {
        Ok(f2) => YamlState {
            mode: YamlMode::LineStart,
            key: new_string(),
            text: new_string(),
            pend: new_string(),
            fields: f2,
            failed,
        },
        Err(e) => YamlState { mode, key, text, pend, fields, failed: Some(e) },
    }
}

/// One step of the machine on character `c`.
pub fn yaml_step(st: YamlState, c: char) -> (r: YamlState)
    ensures
        r@ == spec_yaml_step(st@, c),
{
    let YamlState { mode, mut key, mut text, mut pend, fields, failed } = st;
    if failed.is_some() {
        return YamlState { mode, key, text, pend, fields, failed };
    }
    match mode {
        YamlMode::LineStart => {
            if c == '\n' {
                YamlState { mode, key, text, pend, fields, failed }
            } else if is_line_ws(c) {
                YamlState { mode: YamlMode::IndentedLine, key, text, pend, fields, failed }
            } else if c == '#' {
                YamlState { mode: YamlMode::Comment, key, text, pend, fields, failed }
            } else {
                let mut k = new_string();
                k.push(c);
                YamlState { mode: YamlMode::InKey, key: k, text, pend, fields, failed }
            }
        },
        YamlMode::IndentedLine => {
            if c == '\n' {
                YamlState { mode: YamlMode::LineStart, key, text, pend, fields, failed }
            } else if is_line_ws(c) {
                YamlState { mode, key, text, pend, fields, failed }
            } else if c == '#' {
                YamlState { mode: YamlMode::Comment, key, text, pend, fields, failed }
            } else {
                YamlState { mode, key, text, pend, fields, failed: Some(ParseFail::Syntax) }
            }
        },
        YamlMode::Comment => {
            if c == '\n' {
                YamlState { mode: YamlMode::LineStart, key, text, pend, fields, failed }
            } else {
                YamlState { mode, key, text, pend, fields, failed }
            }
        },
        YamlMode::InKey => {
            if c == ':' {
                YamlState {
                    mode: YamlMode::AfterColon,
                    key,
                    text,
                    pend: new_string(),
                    fields,
                    failed,
                }
            } else if c == '\n' {
                YamlState { mode, key, text, pend, fields, failed: Some(ParseFail::Syntax) }
            } else if is_line_ws(c) {
                pend.push(c);
                YamlState { mode, key, text, pend, fields, failed }
            } else {
                key.append(pend.as_str());
                key.push(c);
                YamlState { mode, key, text, pend: new_string(), fields, failed }
            }
        },
        YamlMode::AfterColon => {
            if c == '\n' {
                yaml_line_done(YamlState { mode, key, text, pend, fields, failed })
            } else if is_line_ws(c) {
                YamlState { mode, key, text, pend, fields, failed }
            } else if c == '#' {
                YamlState { mode: YamlMode::ValueComment, key, text, pend, fields, failed }
            } else {
                let mut t = new_string();
                t.push(c);
                YamlState { mode: YamlMode::InValue, key, text: t, pend, fields, failed }
            }
        },
        YamlMode::InValue => {
            if c == '\n' {
                yaml_line_done(YamlState { mode, key, text, pend, fields, failed })
            } else if is_line_ws(c) {
                pend.push(c);
                YamlState { mode, key, text, pend, fields, failed }
            } else if c == '#' && pend.unicode_len() > 0 {
                YamlState {
                    mode: YamlMode::ValueComment,
                    key,
                    text,
                    pend: new_string(),
                    fields,
                    failed,
                }
            } else {
                text.append(pend.as_str());
                text.push(c);
                YamlState { mode, key, text, pend: new_string(), fields, failed }
            }
        },
        YamlMode::ValueComment => {
            if c == '\n' {
                yaml_line_done(YamlState { mode, key, text, pend, fields, failed })
            } else {
                YamlState { mode, key, text, pend, fields, failed }
            }
        },
    }
}

/// Reads the configuration fields from YAML text.
pub fn parse_yaml(s: &str) -> (r: Result<FileFields, ParseFail>)
    ensures
        ({
            let m = spec_parse_yaml(s@);
            match r {
                Ok(f) => m is Ok && f@ == m->Ok_0,
                Err(e) => m is Err && e == m->Err_0,
            }
        }),
{
    let n = s.unicode_len();
    let mut st = YamlState {
        mode: YamlMode::LineStart,
        key: new_string(),
        text: new_string(),
        pend: new_string(),
        fields: FileFields::empty(),
        failed: None,
    };
    proof {
        assert(st@ == spec_yaml_init());
    }
    let mut i: usize = 0;
    while i < n
        invariant
            i <= n,
            n == s@.len(),
            spec_yaml_run(s@, i as int, st@) == spec_yaml_run(s@, 0, spec_yaml_init()),
        decreases n - i,
    {
        let c = s.get_char(i);
        st = yaml_step(st, c);
        i = i + 1;
    }
    match st.failed {
        Some(e) => Err(e),
        None => match st.mode {
            YamlMode::LineStart | YamlMode::IndentedLine | YamlMode::Comment => Ok(st.fields),
            YamlMode::InKey => Err(ParseFail::Syntax),
            YamlMode::AfterColon | YamlMode::InValue | YamlMode::ValueComment => {
                let st2 = yaml_line_done(st);
                match st2.failed {
                    Some(e) => Err(e),
                    None => Ok(st2.fields),
                }
            },
        },
    }
}

} // verus!
