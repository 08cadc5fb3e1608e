//! The JSON configuration reader: a single object of scalar members.
//!
//! Accepted shape: optional whitespace, `{`, string keys with scalar values
//! (string, `true`, `false`, `null`, or a number), `}`, optional whitespace.
//! String escapes `\"` `\\` `\/` `\n` `\t` `\r` are supported.

use vstd::prelude::*;

use crate::config::{FileFields, FileFieldsView};
use crate::parse::{
    assign_field, esc_char, is_num_char, is_word_char, is_ws, new_string, spec_assign_field,
    spec_esc_char, spec_is_num_char, spec_is_word_char, spec_is_ws, ParseFail, TokenValue,
    TokenValueView,
};
use crate::strutil::str_eq;

verus! {

/// Where the machine stands in the object grammar.
#[derive(Clone, Copy, Debug, PartialEq, Eq, Structural)]
pub enum JsonMode {
    /// Before the opening brace.
    Start,
    /// After the opening brace; a key or the closing brace may follow.
    BeforeFirstKey,
    /// After a comma; a key must follow.
    BeforeKey,
    /// Inside a key string.
    InKey,
    /// Inside a key string, after a backslash.
    InKeyEsc,
    /// After a key; a colon must follow.
    AfterKey,
    /// After the colon; a scalar value must follow.
    BeforeValue,
    /// Inside a string value.
    InStr,
    /// Inside a string value, after a backslash.
    InStrEsc,
    /// Inside a numeric value.
    InNum,
    /// Inside a bare word (`true`, `false`, `null`).
    InWord,
    /// After a value; a comma or the closing brace may follow.
    AfterValue,
    /// After the closing brace; only whitespace may follow.
    AfterClose,
}

/// The machine state: the mode, the accumulators for the current key and
/// value, the fields collected so far, and a sticky failure.
pub struct JsonState {
    pub mode: JsonMode,
    pub key: String,
    pub text: String,
    pub word: String,
    pub fields: FileFields,
    pub failed: Option<ParseFail>,
}

/// The mathematical shape of a `JsonState`.
pub ghost struct JsonStateView {
    pub mode: JsonMode,
    pub key: Seq<char>,
    pub text: Seq<char>,
    pub word: Seq<char>,
    pub fields: FileFieldsView,
    pub failed: Option<ParseFail>,
}

impl View for JsonState {
    type V = JsonStateView;

    open spec fn view(&self) -> JsonStateView {
        JsonStateView {
            mode: self.mode,
            key: self.key@,
            text: self.text@,
            word: self.word@,
            fields: self.fields@,
            failed: self.failed,
        }
    }
}

/// The state before any character has been read.
pub open spec fn spec_json_init() -> JsonStateView {
    JsonStateView {
        mode: JsonMode::Start,
        key: Seq::<char>::empty(),
        text: Seq::<char>::empty(),
        word: Seq::<char>::empty(),
        fields: crate::config::spec_empty_file_fields(),
        failed: None,
    }
}

/// The state with the given failure recorded.
pub open spec fn spec_json_fail(st: JsonStateView, e: ParseFail) -> JsonStateView {
    JsonStateView {
        mode: st.mode,
        key: st.key,
        text: st.text,
        word: st.word,
        fields: st.fields,
        failed: Some(e),
    }
}

/// The state after a completed value is applied; `c` is the delimiter that
/// ended the value and decides the next mode.
pub open spec fn spec_json_value_done(
    st: JsonStateView,
    tok: TokenValueView,
    c: char,
) -> JsonStateView {
    match spec_assign_field(st.fields, st.key, tok) {
        Ok(f2) => JsonStateView {
            mode: if c == ',' {
                JsonMode::BeforeKey
            } else if c == '}' {
                JsonMode::AfterClose
            } else {
                JsonMode::AfterValue
            },
            key: st.key,
            text: st.text,
            word: st.word,
            fields: f2,
            failed: st.failed,
        },
        Err(e) => spec_json_fail(st, e),
    }
}

/// One step of the machine on character `c`.
pub open spec fn spec_json_step(st: JsonStateView, c: char) -> JsonStateView {
    if st.failed is Some {
        st
    } else {
        match st.mode {
            JsonMode::Start => {
                if spec_is_ws(c) {
                    st
                } else if c == '{' {
                    JsonStateView { mode: JsonMode::BeforeFirstKey, ..st }
                } else {
                    spec_json_fail(st, ParseFail::Syntax)
                }
            },
            JsonMode::BeforeFirstKey => {
                if spec_is_ws(c) {
                    st
                } else if c == '"' {
                    JsonStateView { mode: JsonMode::InKey, key: Seq::<char>::empty(), ..st }
                } else if c == '}' {
                    JsonStateView { mode: JsonMode::AfterClose, ..st }
                } else {
                    spec_json_fail(st, ParseFail::Syntax)
                }
            },
            JsonMode::BeforeKey => {
                if spec_is_ws(c) {
                    st
                } else if c == '"' {
                    JsonStateView { mode: JsonMode::InKey, key: Seq::<char>::empty(), ..st }
                } else {
                    spec_json_fail(st, ParseFail::Syntax)
                }
            },
            JsonMode::InKey => {
                if c == '"' {
                    JsonStateView { mode: JsonMode::AfterKey, ..st }
                } else if c == '\\' {
                    JsonStateView { mode: JsonMode::InKeyEsc, ..st }
                } else {
                    JsonStateView { key: st.key.push(c), ..st }
                }
            },
            JsonMode::InKeyEsc => {
                match spec_esc_char(c) {
                    Some(e) => JsonStateView { mode: JsonMode::InKey, key: st.key.push(e), ..st },
                    None => spec_json_fail(st, ParseFail::Syntax),
                }
            },
            JsonMode::AfterKey => {
                if spec_is_ws(c) {
                    st
                } else if c == ':' {
                    JsonStateView { mode: JsonMode::BeforeValue, ..st }
                } else {
                    spec_json_fail(st, ParseFail::Syntax)
                }
            },
            JsonMode::BeforeValue => {
                if spec_is_ws(c) {
                    st
                } else if c == '"' {
                    JsonStateView { mode: JsonMode::InStr, text: Seq::<char>::empty(), ..st }
                } else if c == '-' || ('0' <= c && c <= '9') {
                    JsonStateView { mode: JsonMode::InNum, ..st }
                } else if spec_is_word_char(c) {
                    JsonStateView {
                        mode: JsonMode::InWord,
                        word: Seq::<char>::empty().push(c),
                        ..st
                    }
                } else {
                    spec_json_fail(st, ParseFail::Syntax)
                }
            },
            JsonMode::InStr => {
                if c == '"' {
                    spec_json_value_done(st, TokenValueView::Str(st.text), ' ')
                } else if c == '\\' {
                    JsonStateView { mode: JsonMode::InStrEsc, ..st }
                } else {
                    JsonStateView { text: st.text.push(c), ..st }
                }
            },
            JsonMode::InStrEsc => {
                match spec_esc_char(c) {
                    Some(e) => JsonStateView { mode: JsonMode::InStr, text: st.text.push(e), ..st },
                    None => spec_json_fail(st, ParseFail::Syntax),
                }
            },
            JsonMode::InNum => {
                if spec_is_num_char(c) {
                    st
                } else if spec_is_ws(c) || c == ',' || c == '}' {
                    spec_json_value_done(st, TokenValueView::Num, c)
                } else {
                    spec_json_fail(st, ParseFail::Syntax)
                }
            },
            JsonMode::InWord => {
                if spec_is_word_char(c) {
                    JsonStateView { word: st.word.push(c), ..st }
                } else if spec_is_ws(c) || c == ',' || c == '}' {
                    match spec_json_word_token(st.word) {
                        Some(tok) => spec_json_value_done(st, tok, c),
                        None => spec_json_fail(st, ParseFail::Syntax),
                    }
                } else {
                    spec_json_fail(st, ParseFail::Syntax)
                }
            },
            JsonMode::AfterValue => {
                if spec_is_ws(c) {
                    st
                } else if c == ',' {
                    JsonStateView { mode: JsonMode::BeforeKey, ..st }
                } else if c == '}' {
                    JsonStateView { mode: JsonMode::AfterClose, ..st }
                } else {
                    spec_json_fail(st, ParseFail::Syntax)
                }
            },
            JsonMode::AfterClose => {
                if spec_is_ws(c) {
                    st
                } else {
                    spec_json_fail(st, ParseFail::Syntax)
                }
            },
        }
    }
}

/// The scalar named by a bare word, if any.
pub open spec fn spec_json_word_token(w: Seq<char>) -> Option<TokenValueView> {
    if w == "true"@ {
        Some(TokenValueView::Bool(true))
    } else if w == "false"@ {
        Some(TokenValueView::Bool(false))
    } else if w == "null"@ {
        Some(TokenValueView::Null)
    } else {
        None
    }
}

/// Running the machine over `s` from position `i` in state `st`.
pub open spec fn spec_json_run(s: Seq<char>, i: int, st: JsonStateView) -> JsonStateView
    decreases s.len() - i,
{
    if i < s.len() {
        spec_json_run(s, i + 1, spec_json_step(st, s[i]))
    } else {
        st
    }
}

/// The verdict after the whole text has been read.
pub open spec fn spec_json_finish(st: JsonStateView) -> Result<FileFieldsView, ParseFail> {
    match st.failed {
        Some(e) => Err(e),
        None => if st.mode == JsonMode::AfterClose {
            Ok(st.fields)
        } else {
            Err(ParseFail::Syntax)
        },
    }
}

/// What the JSON reader yields on `s`.
pub open spec fn spec_parse_json(s: Seq<char>) -> Result<FileFieldsView, ParseFail> {
    spec_json_finish(spec_json_run(s, 0, spec_json_init()))
}

/// One step of the machine on character `c`.
pub fn json_step(st: JsonState, c: char) -> (r: JsonState)
    ensures
        r@ == spec_json_step(st@, c),
{
    let JsonState { mode, mut key, mut text, mut word, fields, failed } = st;
    if failed.is_some() {
        return JsonState { mode, key, text, word, fields, failed };
    }
    match mode {
        JsonMode::Start => {
            if is_ws(c) {
                JsonState { mode, key, text, word, fields, failed }
            } else if c == '{' {
                JsonState { mode: JsonMode::BeforeFirstKey, key, text, word, fields, failed }
            } else {
                JsonState { mode, key, text, word, fields, failed: Some(ParseFail::Syntax) }
            }
        },
        JsonMode::BeforeFirstKey => {
            if is_ws(c) {
                JsonState { mode, key, text, word, fields, failed }
            } else if c == '"' {
                JsonState { mode: JsonMode::InKey, key: new_string(), text, word, fields, failed }
            } else if c == '}' {
                JsonState { mode: JsonMode::AfterClose, key, text, word, fields, failed }
            } else {
                JsonState { mode, key, text, word, fields, failed: Some(ParseFail::Syntax) }
            }
        },
        JsonMode::BeforeKey => {
            if is_ws(c) {
                JsonState { mode, key, text, word, fields, failed }
            } else if c == '"' {
                JsonState { mode: JsonMode::InKey, key: new_string(), text, word, fields, failed }
            } else {
                JsonState { mode, key, text, word, fields, failed: Some(ParseFail::Syntax) }
            }
        },
        JsonMode::InKey => {
            if c == '"' {
                JsonState { mode: JsonMode::AfterKey, key, text, word, fields, failed }
            } else if c == '\\' {
                JsonState { mode: JsonMode::InKeyEsc, key, text, word, fields, failed }
            } else {
                key.push(c);
                JsonState { mode, key, text, word, fields, failed }
            }
        },
        JsonMode::InKeyEsc => {
            match esc_char(c) {
                Some(e) => {
                    key.push(e);
                    JsonState { mode: JsonMode::InKey, key, text, word, fields, failed }
                },
                None => JsonState {
                    mode,
                    key,
                    text,
                    word,
                    fields,
                    failed: Some(ParseFail::Syntax),
                },
            }
        },
        JsonMode::AfterKey => {
            if is_ws(c) {
                JsonState { mode, key, text, word, fields, failed }
            } else if c == ':' {
                JsonState { mode: JsonMode::BeforeValue, key, text, word, fields, failed }
            } else {
                JsonState { mode, key, text, word, fields, failed: Some(ParseFail::Syntax) }
            }
        },
        JsonMode::BeforeValue => {
            if is_ws(c) {
                JsonState { mode, key, text, word, fields, failed }
            } else if c == '"' {
                JsonState { mode: JsonMode::InStr, key, text: new_string(), word, fields, failed }
            } else if c == '-' || ('0' <= c && c <= '9') {
                JsonState { mode: JsonMode::InNum, key, text, word, fields, failed }
            } else if is_word_char(c) {
                let mut w = new_string();
                w.push(c);
                JsonState { mode: JsonMode::InWord, key, text, word: w, fields, failed }
            } else {
                JsonState { mode, key, text, word, fields, failed: Some(ParseFail::Syntax) }
            }
        },
        JsonMode::InStr => {
            if c == '"' {
                let tok = TokenValue::Str(text.clone());
                let st2 = JsonState { mode, key, text, word, fields, failed };
                json_value_done(st2, tok, ' ')
            } else if c == '\\' {
                JsonState { mode: JsonMode::InStrEsc, key, text, word, fields, failed }
            } else {
                text.push(c);
                JsonState { mode, key, text, word, fields, failed }
            }
        },
        JsonMode::InStrEsc => {
            match esc_char(c) {
                Some(e) => {
                    text.push(e);
                    JsonState { mode: JsonMode::InStr, key, text, word, fields, failed }
                },
                None => JsonState {
                    mode,
                    key,
                    text,
                    word,
                    fields,
                    failed: Some(ParseFail::Syntax),
                },
            }
        },
        JsonMode::InNum => {
            if is_num_char(c) {
                JsonState { mode, key, text, word, fields, failed }
            } else if is_ws(c) || c == ',' || c == '}' {
                let st2 = JsonState { mode, key, text, word, fields, failed };
                json_value_done(st2, TokenValue::Num, c)
            } else {
                JsonState { mode, key, text, word, fields, failed: Some(ParseFail::Syntax) }
            }
        },
        JsonMode::InWord => {
            if is_word_char(c) {
                word.push(c);
                JsonState { mode, key, text, word, fields, failed }
            } else if is_ws(c) || c == ',' || c == '}' {
                let tok: Option<TokenValue> = if str_eq(word.as_str(), "true") {
                    Some(TokenValue::Bool(true))
                } else if str_eq(word.as_str(), "false") {
                    Some(TokenValue::Bool(false))
                } else if str_eq(word.as_str(), "null") {
                    Some(TokenValue::Null)
                } else {
                    None
                };
                match tok {
                    Some(t) => {
                        let st2 = JsonState { mode, key, text, word, fields, failed };
                        json_value_done(st2, t, c)
                    },
                    None => JsonState {
                        mode,
                        key,
                        text,
                        word,
                        fields,
                        failed: Some(ParseFail::Syntax),
                    },
                }
            } else {
                JsonState { mode, key, text, word, fields, failed: Some(ParseFail::Syntax) }
            }
        },
        JsonMode::AfterValue => {
            if is_ws(c) {
                JsonState { mode, key, text, word, fields, failed }
            } else if c == ',' {
                JsonState { mode: JsonMode::BeforeKey, key, text, word, fields, failed }
            } else if c == '}' {
                JsonState { mode: JsonMode::AfterClose, key, text, word, fields, failed }
            } else {
                JsonState { mode, key, text, word, fields, failed: Some(ParseFail::Syntax) }
            }
        },
        JsonMode::AfterClose => {
            if is_ws(c) {
                JsonState { mode, key, text, word, fields, failed }
            } else {
                JsonState { mode, key, text, word, fields, failed: Some(ParseFail::Syntax) }
            }
        },
    }
}

/// Applies a completed value and moves to the mode the delimiter `c` selects.
fn json_value_done(st: JsonState, tok: TokenValue, c: char) -> (r: JsonState)
    ensures
        r@ == spec_json_value_done(st@, tok@, c),
{
    let JsonState { mode, key, text, word, fields, failed } = st;
    match assign_field(&fields, key.as_str(), tok) {
        Ok(f2) => JsonState {
            mode: if c == ',' {
                JsonMode::BeforeKey
            } else if c == '}' {
                JsonMode::AfterClose
            } else {
                JsonMode::AfterValue
            },
            key,
            text,
            word,
            fields: f2,
            failed,
        },
        Err(e) => JsonState { mode, key, text, word, fields, failed: Some(e) },
    }
}

/// Reads the configuration fields from JSON text.
pub fn parse_json(s: &str) -> (r: Result<FileFields, ParseFail>)
    ensures
        ({
            let m = spec_parse_json(s@);
            match r {
                Ok(f) => m is Ok && f@ == m->Ok_0,
                Err(e) => m is Err && e == m->Err_0,
            }
        }),
{
    let n = s.unicode_len();
    let mut st = JsonState {
        mode: JsonMode::Start,
        key: new_string(),
        text: new_string(),
        word: new_string(),
        fields: FileFields::empty(),
        failed: None,
    };
    proof {
        assert(st@ == spec_json_init());
    }
    let mut i: usize = 0;
    while i < n
        invariant
            i <= n,
            n == s@.len(),
            spec_json_run(s@, i as int, st@) == spec_json_run(s@, 0, spec_json_init()),
        decreases n - i,
    {
        let c = s.get_char(i);
        st = json_step(st, c);
        i = i + 1;
    }
    match st.failed {
        Some(e) => Err(e),
        None => {
            if st.mode == JsonMode::AfterClose {
                Ok(st.fields)
            } else {
                Err(ParseFail::Syntax)
            }
        },
    }
}

} // verus!
