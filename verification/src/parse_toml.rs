//! The TOML configuration reader: flat `key = value` lines.
//!
//! Accepted shape: top-level `key = value` lines, blank lines, and `#`
//! comments. A value may be a basic string in double quotes (with the
//! escapes `\"` `\\` `\/` `\n` `\t` `\r`), a literal string in single
//! quotes, `true`/`false`, or a number. Tables (`[section]`) are rejected.

use vstd::prelude::*;

use crate::config::{FileFields, FileFieldsView};
use crate::parse::{
    assign_field, esc_char, is_line_ws, is_num_char, is_word_char, new_string, spec_assign_field,
    spec_esc_char, spec_is_line_ws, spec_is_num_char, spec_is_word_char, ParseFail, TokenValue,
    TokenValueView,
};
use crate::strutil::str_eq;

verus! {

/// Where the machine stands in the line grammar.
#[derive(Clone, Copy, Debug, PartialEq, Eq, Structural)]
pub enum TomlMode {
    /// At the start of a line, or in its leading whitespace.
    LineStart,
    /// Inside a comment.
    Comment,
    /// Inside a key, before the equals sign.
    InKey,
    /// In the whitespace between the key and the equals sign.
    AfterKeyWs,
    /// After the equals sign, before the value.
    BeforeValue,
    /// Inside a basic (double-quoted) string.
    InBasicStr,
    /// Inside a basic string, after a backslash.
    InBasicEsc,
    /// Inside a literal (single-quoted) string.
    InLitStr,
    /// Inside a bare word (`true`, `false`).
    InWord,
    /// Inside a numeric value.
    InNum,
    /// After a value; only whitespace or a comment may follow on the line.
    AfterVal,
}

/// The machine state: the mode, the key, string and word accumulators, the
/// fields collected so far, and a sticky failure.
pub struct TomlState {
    pub mode: TomlMode,
    pub key: String,
    pub text: String,
    pub word: String,
    pub fields: FileFields,
    pub failed: Option<ParseFail>,
}

/// The mathematical shape of a `TomlState`.
pub ghost struct TomlStateView {
    pub mode: TomlMode,
    pub key: Seq<char>,
    pub text: Seq<char>,
    pub word: Seq<char>,
    pub fields: FileFieldsView,
    pub failed: Option<ParseFail>,
}

impl View for TomlState {
    type V = TomlStateView;

    open spec fn view(&self) -> TomlStateView {
        TomlStateView {
            mode: self.mode,
            key: self.key@,
            text: self.text@,
            word: self.word@,
            fields: self.fields@,
            failed: self.failed,
        }
    }
}

/// The state with the given failure recorded.
pub open spec fn spec_toml_fail(st: TomlStateView, e: ParseFail) -> TomlStateView {
    TomlStateView { failed: Some(e), ..st }
}

/// The boolean a bare TOML word stands for, if any.
pub open spec fn spec_toml_word_token(w: Seq<char>) -> Option<TokenValueView> {
    if w == "true"@ {
        Some(TokenValueView::Bool(true))
    } else if w == "false"@ {
        Some(TokenValueView::Bool(false))
    } else {
        None
    }
}

/// The state after a completed value is applied; `c` is the delimiter that
/// ended the value and decides the next mode.
pub open spec fn spec_toml_value_done(
    st: TomlStateView,
    tok: TokenValueView,
    c: char,
) -> TomlStateView {
    match spec_assign_field(st.fields, st.key, tok) {
        Ok(f2) => TomlStateView {
            mode: if c == '\n' {
                TomlMode::LineStart
            } else if c == '#' {
                TomlMode::Comment
            } else {
                TomlMode::AfterVal
            },
            fields: f2,
            ..st
        },
        Err(e) => spec_toml_fail(st, e),
    }
}

/// One step of the machine on character `c`.
pub open spec fn spec_toml_step(st: TomlStateView, c: char) -> TomlStateView {
    if st.failed is Some {
        st
    } else {
        match st.mode {
            TomlMode::LineStart => {
                if c == '\n' || spec_is_line_ws(c) {
                    st
                } else if c == '#' {
                    TomlStateView { mode: TomlMode::Comment, ..st }
                } else if c == '[' || c == '=' {
                    spec_toml_fail(st, ParseFail::Syntax)
                } else {
                    TomlStateView { mode: TomlMode::InKey, key: Seq::<char>::empty().push(c), ..st }
                }
            },
            TomlMode::Comment => {
                if c == '\n' {
                    TomlStateView { mode: TomlMode::LineStart, ..st }
                } else {
                    st
                }
            },
            TomlMode::InKey => {
                if c == '=' {
                    TomlStateView { mode: TomlMode::BeforeValue, ..st }
                } else if spec_is_line_ws(c) {
                    TomlStateView { mode: TomlMode::AfterKeyWs, ..st }
                } else if c == '\n' {
                    spec_toml_fail(st, ParseFail::Syntax)
                } else {
                    TomlStateView { key: st.key.push(c), ..st }
                }
            },
            TomlMode::AfterKeyWs => {
                if spec_is_line_ws(c) {
                    st
                } else if c == '=' {
                    TomlStateView { mode: TomlMode::BeforeValue, ..st }
                } else {
                    spec_toml_fail(st, ParseFail::Syntax)
                }
            },
            TomlMode::BeforeValue => {
                if spec_is_line_ws(c) {
                    st
                } else if c == '"' {
                    TomlStateView { mode: TomlMode::InBasicStr, text: Seq::<char>::empty(), ..st }
                } else if c == '\'' {
                    TomlStateView { mode: TomlMode::InLitStr, text: Seq::<char>::empty(), ..st }
                } else if spec_is_word_char(c) {
                    TomlStateView {
                        mode: TomlMode::InWord,
                        word: Seq::<char>::empty().push(c),
                        ..st
                    }
                } else if c == '-' || c == '+' || ('0' <= c && c <= '9') {
                    TomlStateView { mode: TomlMode::InNum, ..st }
                } else {
                    spec_toml_fail(st, ParseFail::Syntax)
                }
            },
            TomlMode::InBasicStr => {
                if c == '"' {
                    spec_toml_value_done(st, TokenValueView::Str(st.text), ' ')
                } else if c == '\\' {
                    TomlStateView { mode: TomlMode::InBasicEsc, ..st }
                } else if c == '\n' {
                    spec_toml_fail(st, ParseFail::Syntax)
                } else {
                    TomlStateView { text: st.text.push(c), ..st }
                }
            },
            TomlMode::InBasicEsc => {
                match spec_esc_char(c) {
                    Some(e) => TomlStateView {
                        mode: TomlMode::InBasicStr,
                        text: st.text.push(e),
                        ..st
                    },
                    None => spec_toml_fail(st, ParseFail::Syntax),
                }
            },
            TomlMode::InLitStr => {
                if c == '\'' {
                    spec_toml_value_done(st, TokenValueView::Str(st.text), ' ')
                } else if c == '\n' {
                    spec_toml_fail(st, ParseFail::Syntax)
                } else {
                    TomlStateView { text: st.text.push(c), ..st }
                }
            },
            TomlMode::InWord => {
                if spec_is_word_char(c) {
                    TomlStateView { word: st.word.push(c), ..st }
                } else if c == '\n' || spec_is_line_ws(c) || c == '#' {
                    match spec_toml_word_token(st.word) {
                        Some(tok) => spec_toml_value_done(st, tok, c),
                        None => spec_toml_fail(st, ParseFail::Syntax),
                    }
                } else {
                    spec_toml_fail(st, ParseFail::Syntax)
                }
            },
            TomlMode::InNum => {
                if spec_is_num_char(c) {
                    st
                } else if c == '\n' || spec_is_line_ws(c) || c == '#' {
                    spec_toml_value_done(st, TokenValueView::Num, c)
                } else {
                    spec_toml_fail(st, ParseFail::Syntax)
                }
            },
            TomlMode::AfterVal => {
                if spec_is_line_ws(c) {
                    st
                } else if c == '\n' {
                    TomlStateView { mode: TomlMode::LineStart, ..st }
                } else if c == '#' {
                    TomlStateView { mode: TomlMode::Comment, ..st }
                } else {
                    spec_toml_fail(st, ParseFail::Syntax)
                }
            },
        }
    }
}

/// Running the machine over `s` from position `i` in state `st`.
pub open spec fn spec_toml_run(s: Seq<char>, i: int, st: TomlStateView) -> TomlStateView
    decreases s.len() - i,
{
    if i < s.len() {
        spec_toml_run(s, i + 1, spec_toml_step(st, s[i]))
    } else {
        st
    }
}

/// The state before any character has been read.
pub open spec fn spec_toml_init() -> TomlStateView {
    TomlStateView {
        mode: TomlMode::LineStart,
        key: Seq::<char>::empty(),
        text: Seq::<char>::empty(),
        word: Seq::<char>::empty(),
        fields: crate::config::spec_empty_file_fields(),
        failed: None,
    }
}

/// The verdict after the whole text has been read; a value at the very end
/// of the text is completed first.
pub open spec fn spec_toml_finish(st: TomlStateView) -> Result<FileFieldsView, ParseFail> {
    match st.failed {
        Some(e) => Err(e),
        None => match st.mode {
            TomlMode::LineStart | TomlMode::Comment | TomlMode::AfterVal => Ok(st.fields),
            TomlMode::InWord => {
                match spec_toml_word_token(st.word) {
                    Some(tok) => {
                        let st2 = spec_toml_value_done(st, tok, '\n');
                        match st2.failed {
                            Some(e) => Err(e),
                            None => Ok(st2.fields),
                        }
                    },
                    None => Err(ParseFail::Syntax),
                }
            },
            TomlMode::InNum => {
                let st2 = spec_toml_value_done(st, TokenValueView::Num, '\n');
                match st2.failed {
                    Some(e) => Err(e),
                    None => Ok(st2.fields),
                }
            },
            _ => Err(ParseFail::Syntax),
        },
    }
}

/// What the TOML reader yields on `s`.
pub open spec fn spec_parse_toml(s: Seq<char>) -> Result<FileFieldsView, ParseFail> {
    spec_toml_finish(spec_toml_run(s, 0, spec_toml_init()))
}

/// Applies a completed value and moves to the mode the delimiter `c` selects.
fn toml_value_done(st: TomlState, tok: TokenValue, c: char) -> (r: TomlState)
    ensures
        r@ == spec_toml_value_done(st@, tok@, c),
{
    let TomlState { mode, key, text, word, fields, failed } = st;
    match assign_field(&fields, key.as_str(), tok) {
        Ok(f2) => TomlState {
            mode: if c == '\n' {
                TomlMode::LineStart
            } else if c == '#' {
                TomlMode::Comment
            } else {
                TomlMode::AfterVal
            },
            key,
            text,
            word,
            fields: f2,
            failed,
        },
        Err(e) => TomlState { mode, key, text, word, fields, failed: Some(e) },
    }
}

/// The boolean a bare TOML word stands for, if any.
fn toml_word_token(w: &str) -> (r: Option<TokenValue>)
    ensures
        ({
            let m = spec_toml_word_token(w@);
            match r {
                Some(t) => m is Some && t@ == m->0,
                None => m is None,
            }
        }),
{
    if str_eq(w, "true") {
        Some(TokenValue::Bool(true))
    } else if str_eq(w, "false") {
        Some(TokenValue::Bool(false))
    } else {
        None
    }
}

/// One step of the machine on character `c`.
pub fn toml_step(st: TomlState, c: char) -> (r: TomlState)
    ensures
        r@ == spec_toml_step(st@, c),
{
    let TomlState { mode, mut key, mut text, mut word, fields, failed } = st;
    if failed.is_some() {
        return TomlState { mode, key, text, word, fields, failed };
    }
    match mode {
        TomlMode::LineStart => {
            if c == '\n' || is_line_ws(c) {
                TomlState { mode, key, text, word, fields, failed }
            } else if c == '#' {
                TomlState { mode: TomlMode::Comment, key, text, word, fields, failed }
            } else if c == '[' || c == '=' {
                TomlState { mode, key, text, word, fields, failed: Some(ParseFail::Syntax) }
            } else {
                let mut k = new_string();
                k.push(c);
                TomlState { mode: TomlMode::InKey, key: k, text, word, fields, failed }
            }
        },
        TomlMode::Comment => {
            if c == '\n' {
                TomlState { mode: TomlMode::LineStart, key, text, word, fields, failed }
            } else {
                TomlState { mode, key, text, word, fields, failed }
            }
        },
        TomlMode::InKey => {
            if c == '=' {
                TomlState { mode: TomlMode::BeforeValue, key, text, word, fields, failed }
            } else if is_line_ws(c) {
                TomlState { mode: TomlMode::AfterKeyWs, key, text, word, fields, failed }
            } else if c == '\n' {
                TomlState { mode, key, text, word, fields, failed: Some(ParseFail::Syntax) }
            } else {
                key.push(c);
                TomlState { mode, key, text, word, fields, failed }
            }
        },
        TomlMode::AfterKeyWs => {
            if is_line_ws(c) {
                TomlState { mode, key, text, word, fields, failed }
            } else if c == '=' {
                TomlState { mode: TomlMode::BeforeValue, key, text, word, fields, failed }
            } else {
                TomlState { mode, key, text, word, fields, failed: Some(ParseFail::Syntax) }
            }
        },
        TomlMode::BeforeValue => {
            if is_line_ws(c) {
                TomlState { mode, key, text, word, fields, failed }
            } else if c == '"' {
                TomlState {
                    mode: TomlMode::InBasicStr,
                    key,
                    text: new_string(),
                    word,
                    fields,
                    failed,
                }
            } else if c == '\'' {
                TomlState { mode: TomlMode::InLitStr, key, text: new_string(), word, fields, failed }
            } else if is_word_char(c) {
                let mut w = new_string();
                w.push(c);
                TomlState { mode: TomlMode::InWord, key, text, word: w, fields, failed }
            } else if c == '-' || c == '+' || ('0' <= c && c <= '9') {
                TomlState { mode: TomlMode::InNum, key, text, word, fields, failed }
            } else {
                TomlState { mode, key, text, word, fields, failed: Some(ParseFail::Syntax) }
            }
        },
        TomlMode::InBasicStr => {
            if c == '"' {
                let tok = TokenValue::Str(text.clone());
                let st2 = TomlState { mode, key, text, word, fields, failed };
                toml_value_done(st2, tok, ' ')
            } else if c == '\\' {
                TomlState { mode: TomlMode::InBasicEsc, key, text, word, fields, failed }
            } else if c == '\n' {
                TomlState { mode, key, text, word, fields, failed: Some(ParseFail::Syntax) }
            } else {
                text.push(c);
                TomlState { mode, key, text, word, fields, failed }
            }
        },
        TomlMode::InBasicEsc => {
            match esc_char(c) {
                Some(e) => {
                    text.push(e);
                    TomlState { mode: TomlMode::InBasicStr, key, text, word, fields, failed }
                },
                None => TomlState {
                    mode,
                    key,
                    text,
                    word,
                    fields,
                    failed: Some(ParseFail::Syntax),
                },
            }
        },
        TomlMode::InLitStr => {
            if c == '\'' {
                let tok = TokenValue::Str(text.clone());
                let st2 = TomlState { mode, key, text, word, fields, failed };
                toml_value_done(st2, tok, ' ')
            } else if c == '\n' {
                TomlState { mode, key, text, word, fields, failed: Some(ParseFail::Syntax) }
            } else {
                text.push(c);
                TomlState { mode, key, text, word, fields, failed }
            }
        },
        TomlMode::InWord => {
            if is_word_char(c) {
                word.push(c);
                TomlState { mode, key, text, word, fields, failed }
            } else if c == '\n' || is_line_ws(c) || c == '#' {
                match toml_word_token(word.as_str()) {
                    Some(t) => {
                        let st2 = TomlState { mode, key, text, word, fields, failed };
                        toml_value_done(st2, t, c)
                    },
                    None => TomlState {
                        mode,
                        key,
                        text,
                        word,
                        fields,
                        failed: Some(ParseFail::Syntax),
                    },
                }
            } else {
                TomlState { mode, key, text, word, fields, failed: Some(ParseFail::Syntax) }
            }
        },
        TomlMode::InNum => {
            if is_num_char(c) {
                TomlState { mode, key, text, word, fields, failed }
            } else if c == '\n' || is_line_ws(c) || c == '#' {
                let st2 = TomlState { mode, key, text, word, fields, failed };
                toml_value_done(st2, TokenValue::Num, c)
            } else {
                TomlState { mode, key, text, word, fields, failed: Some(ParseFail::Syntax) }
            }
        },
        TomlMode::AfterVal => {
            if is_line_ws(c) {
                TomlState { mode, key, text, word, fields, failed }
            } else if c == '\n' {
                TomlState { mode: TomlMode::LineStart, key, text, word, fields, failed }
            } else if c == '#' {
                TomlState { mode: TomlMode::Comment, key, text, word, fields, failed }
            } else {
                TomlState { mode, key, text, word, fields, failed: Some(ParseFail::Syntax) }
            }
        },
    }
}

/// Reads the configuration fields from TOML text.
pub fn parse_toml(s: &str) -> (r: Result<FileFields, ParseFail>)
    ensures
        ({
            let m = spec_parse_toml(s@);
            match r {
                Ok(f) => m is Ok && f@ == m->Ok_0,
                Err(e) => m is Err && e == m->Err_0,
            }
        }),
{
    let n = s.unicode_len();
    let mut st = TomlState {
        mode: TomlMode::LineStart,
        key: new_string(),
        text: new_string(),
        word: new_string(),
        fields: FileFields::empty(),
        failed: None,
    };
    proof {
        assert(st@ == spec_toml_init());
    }
    let mut i: usize = 0;
    while i < n
        invariant
            i <= n,
            n == s@.len(),
            spec_toml_run(s@, i as int, st@) == spec_toml_run(s@, 0, spec_toml_init()),
        decreases n - i,
    {
        let c = s.get_char(i);
        st = toml_step(st, c);
        i = i + 1;
    }
    match st.failed {
        Some(e) => Err(e),
        None => match st.mode {
            TomlMode::LineStart | TomlMode::Comment | TomlMode::AfterVal => Ok(st.fields),
            TomlMode::InWord => {
                match toml_word_token(st.word.as_str()) {
                    Some(t) => {
                        let st2 = toml_value_done(st, t, '\n');
                        match st2.failed {
                            Some(e) => Err(e),
                            None => Ok(st2.fields),
                        }
                    },
                    None => Err(ParseFail::Syntax),
                }
            },
            TomlMode::InNum => {
                let st2 = toml_value_done(st, TokenValue::Num, '\n');
                match st2.failed {
                    Some(e) => Err(e),
                    None => Ok(st2.fields),
                }
            },
            _ => Err(ParseFail::Syntax),
        },
    }
}

} // verus!
