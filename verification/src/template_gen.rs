//! Boilerplate generation for common CLI patterns.
//!
//! Each template is a fixed text with `{{name}}`, `{{name_pascal}}`,
//! `{{name_upper}}` and `{{description}}` placeholders; rendering is a
//! verified single-pass substitution. Deciding the content and the target
//! path is verified here; whether the target directory and file exist is
//! input handed in by the caller, which also writes the result to disk.

use vstd::prelude::*;

use crate::error::TramError;
use crate::parse::new_string;
use crate::strutil::{lower_char, str_eq, upper_char, upper_char_exec};
use crate::workspace::{join_path, spec_join};

verus! {

/// Supported template types.
#[derive(Clone, Copy, Debug, PartialEq, Eq, Structural)]
pub enum TemplateType {
    /// A new CLI command module.
    Command,
    /// A configuration section.
    ConfigSection,
    /// A custom error type.
    ErrorType,
    /// A session extension.
    SessionExtension,
}

/// What to generate: the item name, the template type, the target directory,
/// and extra parameters (the description, when given).
#[derive(Clone, Debug, PartialEq)]
pub struct TemplateConfig {
    pub name: String,
    pub template_type: TemplateType,
    pub target_dir: String,
    pub parameters: Vec<(String, String)>,
}

/// The mathematical shape of a `TemplateConfig`.
pub ghost struct TemplateConfigView {
    pub name: Seq<char>,
    pub template_type: TemplateType,
    pub target_dir: Seq<char>,
    pub parameters: Seq<(Seq<char>, Seq<char>)>,
}

impl View for TemplateConfig {
    type V = TemplateConfigView;

    open spec fn view(&self) -> TemplateConfigView {
        TemplateConfigView {
            name: self.name@,
            template_type: self.template_type,
            target_dir: self.target_dir@,
            parameters: self.parameters@.map_values(|p: (String, String)| (p.0@, p.1@)),
        }
    }
}

/// A rendered template: its content, where it should be written, and what
/// it was generated from.
#[derive(Debug, PartialEq)]
pub struct GeneratedTemplate {
    pub content: String,
    pub file_path: String,
    pub template_type: TemplateType,
    pub name: String,
}

/// The mathematical shape of a `GeneratedTemplate`.
pub ghost struct GeneratedTemplateView {
    pub content: Seq<char>,
    pub file_path: Seq<char>,
    pub template_type: TemplateType,
    pub name: Seq<char>,
}

impl View for GeneratedTemplate {
    type V = GeneratedTemplateView;

    open spec fn view(&self) -> GeneratedTemplateView {
        GeneratedTemplateView {
            content: self.content@,
            file_path: self.file_path@,
            template_type: self.template_type,
            name: self.name@,
        }
    }
}

/// The first value bound to `key`, if any.
pub open spec fn spec_lookup_param(ps: Seq<(Seq<char>, Seq<char>)>, key: Seq<char>) -> Option<
    Seq<char>,
>
    decreases ps.len(),
{
    if ps.len() == 0 {
        None
    } else if ps[0].0 == key {
        Some(ps[0].1)
    } else {
        spec_lookup_param(ps.drop_first(), key)
    }
}

/// The first value bound to `key` in the parameter list, if any.
pub fn lookup_param<'a>(ps: &'a Vec<(String, String)>, key: &str) -> (r: Option<&'a String>)
    ensures
        ({
            let m = spec_lookup_param(ps@.map_values(|p: (String, String)| (p.0@, p.1@)), key@);
            match r {
                Some(v) => m is Some && v@ == m->0,
                None => m is None,
            }
        }),
{
    let ghost full = ps@.map_values(|p: (String, String)| (p.0@, p.1@));
    proof {
        assert(full.skip(0) =~= full);
    }
    let n = ps.len();
    let mut i: usize = 0;
    while i < n
        invariant
            i <= n,
            n == ps@.len(),
            full == ps@.map_values(|p: (String, String)| (p.0@, p.1@)),
            spec_lookup_param(full, key@) == spec_lookup_param(full.skip(i as int), key@),
        decreases n - i,
    {
        proof {
            assert(full.skip(i as int)[0] == full[i as int]);
            assert(full.skip(i as int).drop_first() =~= full.skip(i + 1));
        }
        if str_eq(ps[i].0.as_str(), key) {
            return Some(&ps[i].1);
        }
        i = i + 1;
    }
    proof {
        assert(full.skip(n as int).len() == 0);
    }
    None
}

/// ASCII upper case, character by character.
pub open spec fn spec_upper_seq(s: Seq<char>) -> Seq<char> {
    s.map_values(|c: char| upper_char(c))
}

/// ASCII upper case, character by character.
pub fn to_upper(s: &str) -> (r: String)
    ensures
        r@ == spec_upper_seq(s@),
{
    let n = s.unicode_len();
    let mut out = new_string();
    let mut i: usize = 0;
    while i < n
        invariant
            i <= n,
            n == s@.len(),
            out@ == spec_upper_seq(s@).subrange(0, i as int),
        decreases n - i,
    {
        out.push(upper_char_exec(s.get_char(i)));
        proof {
            assert(out@ =~= spec_upper_seq(s@).subrange(0, i + 1 as int));
        }
        i = i + 1;
    }
    proof {
        assert(spec_upper_seq(s@).subrange(0, n as int) =~= spec_upper_seq(s@));
    }
    out
}

/// PascalCase from position `i` on: dashes and underscores separate words,
/// the first character of each word is upper-cased, the rest lower-cased.
pub open spec fn spec_pascal_rec(s: Seq<char>, i: int, word_start: bool) -> Seq<char>
    decreases s.len() - i,
{
    if i < 0 || i >= s.len() {
        Seq::<char>::empty()
    } else if s[i] == '-' || s[i] == '_' {
        spec_pascal_rec(s, i + 1, true)
    } else if word_start {
        seq![upper_char(s[i])] + spec_pascal_rec(s, i + 1, false)
    } else {
        seq![lower_char(s[i])] + spec_pascal_rec(s, i + 1, false)
    }
}

/// The PascalCase form of a dash- or underscore-separated name.
pub open spec fn spec_pascal(s: Seq<char>) -> Seq<char> {
    spec_pascal_rec(s, 0, true)
}

/// The PascalCase form of a dash- or underscore-separated name.
pub fn to_pascal_case(s: &str) -> (r: String)
    ensures
        r@ == spec_pascal(s@),
{
    let n = s.unicode_len();
    let mut out = new_string();
    let mut word_start = true;
    let mut i: usize = 0;
    while i < n
        invariant
            i <= n,
            n == s@.len(),
            out@ + spec_pascal_rec(s@, i as int, word_start) == spec_pascal(s@),
        decreases n - i,
    {
        let c = s.get_char(i);
        if c == '-' || c == '_' {
            word_start = true;
        } else {
            let ghost before = out@;
            if word_start {
                out.push(upper_char_exec(c));
                proof {
                    assert(before + (seq![upper_char(s@[i as int])] + spec_pascal_rec(
                        s@,
                        i + 1,
                        false,
                    )) =~= out@ + spec_pascal_rec(s@, i + 1, false));
                }
            } else {
                out.push(crate::strutil::lower_char_exec(c));
                proof {
                    assert(before + (seq![lower_char(s@[i as int])] + spec_pascal_rec(
                        s@,
                        i + 1,
                        false,
                    )) =~= out@ + spec_pascal_rec(s@, i + 1, false));
                }
            }
            word_start = false;
        }
        i = i + 1;
    }
    proof {
        assert(out@ + spec_pascal_rec(s@, n as int, word_start) =~= out@);
    }
    out
}

/// The values the placeholders stand for.
pub struct TemplateContext {
    pub name: String,
    pub name_pascal: String,
    pub name_upper: String,
    pub description: String,
}

/// The mathematical shape of a `TemplateContext`.
pub ghost struct TemplateContextView {
    pub name: Seq<char>,
    pub name_pascal: Seq<char>,
    pub name_upper: Seq<char>,
    pub description: Seq<char>,
}

impl View for TemplateContext {
    type V = TemplateContextView;

    open spec fn view(&self) -> TemplateContextView {
        TemplateContextView {
            name: self.name@,
            name_pascal: self.name_pascal@,
            name_upper: self.name_upper@,
            description: self.description@,
        }
    }
}

/// The context a configuration renders under: the name and its derived
/// forms, and the description parameter, defaulting to
/// "`name` functionality".
pub open spec fn spec_context_of(c: TemplateConfigView) -> TemplateContextView {
    TemplateContextView {
        name: c.name,
        name_pascal: spec_pascal(c.name),
        name_upper: spec_upper_seq(c.name),
        description: match spec_lookup_param(c.parameters, "description"@) {
            Some(d) => d,
            None => c.name + " functionality"@,
        },
    }
}

/// What a placeholder stands for; an unknown placeholder renders as nothing.
pub open spec fn spec_subst_var(ctx: TemplateContextView, var: Seq<char>) -> Seq<char> {
    if var == "name"@ {
        ctx.name
    } else if var == "name_pascal"@ {
        ctx.name_pascal
    } else if var == "name_upper"@ {
        ctx.name_upper
    } else if var == "description"@ {
        ctx.description
    } else {
        Seq::<char>::empty()
    }
}

/// What a placeholder stands for.
pub fn subst_var(ctx: &TemplateContext, var: &str) -> (r: String)
    ensures
        r@ == spec_subst_var(ctx@, var@),
{
    if str_eq(var, "name") {
        ctx.name.clone()
    } else if str_eq(var, "name_pascal") {
        ctx.name_pascal.clone()
    } else if str_eq(var, "name_upper") {
        ctx.name_upper.clone()
    } else if str_eq(var, "description") {
        ctx.description.clone()
    } else {
        new_string()
    }
}

/// Where the renderer stands in the placeholder grammar.
#[derive(Clone, Copy, Debug, PartialEq, Eq, Structural)]
pub enum RenderMode {
    /// In plain text.
    Text,
    /// After one opening brace.
    SawBrace,
    /// Inside a placeholder name.
    InVar,
    /// After one closing brace inside a placeholder.
    SawClose,
}

/// The renderer state: the mode, the output so far, and the placeholder
/// name accumulator.
pub struct RenderState {
    pub mode: RenderMode,
    pub out: String,
    pub var: String,
}

/// The mathematical shape of a `RenderState`.
pub ghost struct RenderStateView {
    pub mode: RenderMode,
    pub out: Seq<char>,
    pub var: Seq<char>,
}

impl View for RenderState {
    type V = RenderStateView;

    open spec fn view(&self) -> RenderStateView {
        RenderStateView { mode: self.mode, out: self.out@, var: self.var@ }
    }
}

/// The renderer before any character has been read.
pub open spec fn spec_render_init() -> RenderStateView {
    RenderStateView { mode: RenderMode::Text, out: Seq::<char>::empty(), var: Seq::<char>::empty() }
}

/// One step of the renderer on character `c`.
pub open spec fn spec_render_step(
    st: RenderStateView,
    ctx: TemplateContextView,
    c: char,
) -> RenderStateView {
    match st.mode {
        RenderMode::Text => {
            if c == '{' {
                RenderStateView { mode: RenderMode::SawBrace, ..st }
            } else {
                RenderStateView { out: st.out.push(c), ..st }
            }
        },
        RenderMode::SawBrace => {
            if c == '{' {
                RenderStateView { mode: RenderMode::InVar, var: Seq::<char>::empty(), ..st }
            } else {
                RenderStateView { mode: RenderMode::Text, out: st.out.push('{').push(c), ..st }
            }
        },
        RenderMode::InVar => {
            if c == '}' {
                RenderStateView { mode: RenderMode::SawClose, ..st }
            } else {
                RenderStateView { var: st.var.push(c), ..st }
            }
        },
        RenderMode::SawClose => {
            if c == '}' {
                RenderStateView {
                    mode: RenderMode::Text,
                    out: st.out + spec_subst_var(ctx, st.var),
                    ..st
                }
            } else {
                RenderStateView { mode: RenderMode::InVar, var: st.var.push('}').push(c), ..st }
            }
        },
    }
}

/// Running the renderer over `tpl` from position `i` in state `st`.
pub open spec fn spec_render_run(
    tpl: Seq<char>,
    ctx: TemplateContextView,
    i: int,
    st: RenderStateView,
) -> RenderStateView
    decreases tpl.len() - i,
{
    if i < tpl.len() {
        spec_render_run(tpl, ctx, i + 1, spec_render_step(st, ctx, tpl[i]))
    } else {
        st
    }
}

/// The output after the whole template has been read; an unterminated
/// placeholder is kept literally.
pub open spec fn spec_render_finish(st: RenderStateView) -> Seq<char> {
    match st.mode {
        RenderMode::Text => st.out,
        RenderMode::SawBrace => st.out.push('{'),
        RenderMode::InVar => st.out.push('{').push('{') + st.var,
        RenderMode::SawClose => st.out.push('{').push('{') + st.var.push('}'),
    }
}

/// The rendering of `tpl` under `ctx`.
pub open spec fn spec_render(tpl: Seq<char>, ctx: TemplateContextView) -> Seq<char> {
    spec_render_finish(spec_render_run(tpl, ctx, 0, spec_render_init()))
}

/// One step of the renderer on character `c`.
pub fn render_step(st: RenderState, ctx: &TemplateContext, c: char) -> (r: RenderState)
    ensures
        r@ == spec_render_step(st@, ctx@, c),
{
    let RenderState { mode, mut out, mut var } = st;
    match mode {
        RenderMode::Text => {
            if c == '{' {
                RenderState { mode: RenderMode::SawBrace, out, var }
            } else {
                out.push(c);
                RenderState { mode, out, var }
            }
        },
        RenderMode::SawBrace => {
            if c == '{' {
                RenderState { mode: RenderMode::InVar, out, var: new_string() }
            } else {
                out.push('{');
                out.push(c);
                RenderState { mode: RenderMode::Text, out, var }
            }
        },
        RenderMode::InVar => {
            if c == '}' {
                RenderState { mode: RenderMode::SawClose, out, var }
            } else {
                var.push(c);
                RenderState { mode, out, var }
            }
        },
        RenderMode::SawClose => {
            if c == '}' {
                let piece = subst_var(ctx, var.as_str());
                out.append(piece.as_str());
                RenderState { mode: RenderMode::Text, out, var }
            } else {
                var.push('}');
                var.push(c);
                RenderState { mode: RenderMode::InVar, out, var }
            }
        },
    }
}

/// Renders `tpl` under `ctx`, substituting every complete placeholder.
pub fn render_text(tpl: &str, ctx: &TemplateContext) -> (r: String)
    ensures
        r@ == spec_render(tpl@, ctx@),
{
    let n = tpl.unicode_len();
    let mut st = RenderState { mode: RenderMode::Text, out: new_string(), var: new_string() };
    proof {
        assert(st@ == spec_render_init());
    }
    let mut i: usize = 0;
    while i < n
        invariant
            i <= n,
            n == tpl@.len(),
            spec_render_run(tpl@, ctx@, i as int, st@) == spec_render_run(
                tpl@,
                ctx@,
                0,
                spec_render_init(),
            ),
        decreases n - i,
    {
        let c = tpl.get_char(i);
        st = render_step(st, ctx, c);
        i = i + 1;
    }
    match st.mode {
        RenderMode::Text => st.out,
        RenderMode::SawBrace => {
            let mut out = st.out;
            out.push('{');
            out
        },
        RenderMode::InVar => {
            let mut out = st.out;
            out.push('{');
            out.push('{');
            out.append(st.var.as_str());
            out
        },
        RenderMode::SawClose => {
            let mut out = st.out;
            out.push('{');
            out.push('{');
            let mut v = st.var;
            v.push('}');
            out.append(v.as_str());
            out
        },
    }
}

/// The built-in template for a new CLI command module.
pub open spec fn spec_command_template() -> Seq<char> {
    r#"//! {{description}}

use clap::Args;

/// Arguments for the {{name}} command.
#[derive(Args, Debug)]
pub struct {{name_pascal}}Args {
    /// Print more detail while running.
    #[arg(long)]
    pub verbose: bool,
}

/// {{description}}
pub async fn execute(args: {{name_pascal}}Args) -> AppResult<()> {
    info!("Running the {{name}} command");
    if args.verbose {
        info!("Verbose output enabled for {{name}}");
    }
    Ok(())
}

#[tokio::test]
async fn test_{{name}}_execute() {
    let args = {{name_pascal}}Args { verbose: false };
    assert!(execute(args).await.is_ok());
}
"#@
}

/// The built-in template for a configuration section.
pub open spec fn spec_config_section_template() -> Seq<char> {
    r#"//! Configuration section for {{name}}.

/// Settings for {{name}}.
#[derive(Clone, Debug, Default)]
pub struct {{name_pascal}}Config {
    /// Whether the {{name}} section is enabled.
    pub enabled: bool,
    /// Optional endpoint for {{name}}.
    pub endpoint: Option<String>,
}

impl {{name_pascal}}Config {
    /// Check the section for contradictory settings.
    pub fn validate(&self) -> Result<(), String> {
        if self.enabled && self.endpoint.is_none() {
            return Err("{{name}}: an endpoint is required when enabled".to_string());
        }
        Ok(())
    }

    /// Read overrides from the TRAM_{{name_upper}}_ variables, looked up
    /// through the given accessor.
    pub fn load_from_env(mut self, get: impl Fn(&str) -> Option<String>) -> Self {
        if let Some(v) = get("TRAM_{{name_upper}}_ENABLED") {
            self.enabled = v == "true";
        }
        if let Some(v) = get("TRAM_{{name_upper}}_ENDPOINT") {
            self.endpoint = Some(v);
        }
        self
    }
}
"#@
}

/// The built-in template for a custom error type.
pub open spec fn spec_error_type_template() -> Seq<char> {
    r#"//! Error type for {{name}}.

/// Errors the {{name}} component reports.
#[derive(Debug)]
pub enum {{name_pascal}}Error {
    /// The input was rejected; the message says why.
    Invalid(String),
    /// The operation could not finish.
    Failed(String),
}

impl {{name_pascal}}Error {
    /// A user-facing description of this error.
    pub fn message(&self) -> String {
        match self {
            {{name_pascal}}Error::Invalid(m) => format!("{{name}} rejected input: {}", m),
            {{name_pascal}}Error::Failed(m) => format!("{{name}} failed: {}", m),
        }
    }
}
"#@
}

/// The built-in template for a session extension.
pub open spec fn spec_session_extension_template() -> Seq<char> {
    r#"//! Session extension for {{name}}.

/// State the {{name}} extension adds to a session.
#[derive(Clone, Debug, Default)]
pub struct {{name_pascal}}State {
    /// How many times the {{name}} extension ran.
    pub runs: u64,
}

/// Extends a session with {{name}} behavior.
pub trait {{name_pascal}}Session {
    /// Access the {{name}} state.
    fn {{name}}_state(&mut self) -> &mut {{name_pascal}}State;

    /// Record one run of {{name}}.
    fn record_{{name}}_run(&mut self) {
        self.{{name}}_state().runs += 1;
    }
}
"#@
}

/// The template text for a template type.
pub open spec fn spec_template_source(t: TemplateType) -> Seq<char> {
    match t {
        TemplateType::Command => spec_command_template(),
        TemplateType::ConfigSection => spec_config_section_template(),
        TemplateType::ErrorType => spec_error_type_template(),
        TemplateType::SessionExtension => spec_session_extension_template(),
    }
}

/// The short name of a template type.
pub open spec fn spec_template_name(t: TemplateType) -> Seq<char> {
    match t {
        TemplateType::Command => "command"@,
        TemplateType::ConfigSection => "config_section"@,
        TemplateType::ErrorType => "error_type"@,
        TemplateType::SessionExtension => "session_extension"@,
    }
}

/// The directory a template type's output belongs in, under `src`.
pub open spec fn spec_template_subdir(t: TemplateType) -> Seq<char> {
    match t {
        TemplateType::Command => "commands"@,
        TemplateType::ConfigSection => "config"@,
        TemplateType::ErrorType => "errors"@,
        TemplateType::SessionExtension => "session"@,
    }
}

/// The path a generated file belongs at:
/// `target_dir/src/<subdir>/<name>.rs`.
pub open spec fn spec_template_file_path(c: TemplateConfigView) -> Seq<char> {
    spec_join(
        spec_join(spec_join(c.target_dir, "src"@), spec_template_subdir(c.template_type)),
        c.name + ".rs"@,
    )
}

/// What generating resolves to: an empty name and a missing target
/// directory are rejected, an already existing output file is never
/// overwritten, and otherwise the rendered template and its path are
/// returned.
pub open spec fn spec_generate_template(
    c: TemplateConfigView,
    target_dir_exists: bool,
    file_exists: bool,
) -> Result<GeneratedTemplateView, crate::error::TramErrorView> {
    if c.name.len() == 0 {
        Err(
            crate::error::TramErrorView::InvalidConfig {
                message: "Template name cannot be empty"@,
            },
        )
    } else if !target_dir_exists {
        Err(
            crate::error::TramErrorView::InvalidConfig {
                message: "Target directory "@ + c.target_dir + " does not exist"@,
            },
        )
    } else if file_exists {
        Err(
            crate::error::TramErrorView::InvalidConfig {
                message: "File "@ + spec_template_file_path(c) + " already exists"@,
            },
        )
    } else {
        Ok(
            GeneratedTemplateView {
                content: spec_render(
                    spec_template_source(c.template_type),
                    spec_context_of(c),
                ),
                file_path: spec_template_file_path(c),
                template_type: c.template_type,
                name: c.name,
            },
        )
    }
}

/// Renders the built-in templates.
#[derive(Clone, Copy, Debug, PartialEq, Eq, Structural)]
pub struct TemplateGenerator;

impl TemplateGenerator {
    /// A generator with the built-in templates; never fails.
    pub fn new() -> (r: Result<TemplateGenerator, TramError>)
        ensures
            r is Ok,
    {
        Ok(TemplateGenerator)
    }

    /// The template text for a template type.
    pub fn template_source(&self, t: TemplateType) -> (r: &'static str)
        ensures
            r@ == spec_template_source(t),
    {
        match t {
            TemplateType::Command => r#"//! {{description}}

use clap::Args;

/// Arguments for the {{name}} command.
#[derive(Args, Debug)]
pub struct {{name_pascal}}Args {
    /// Print more detail while running.
    #[arg(long)]
    pub verbose: bool,
}

/// {{description}}
pub async fn execute(args: {{name_pascal}}Args) -> AppResult<()> {
    info!("Running the {{name}} command");
    if args.verbose {
        info!("Verbose output enabled for {{name}}");
    }
    Ok(())
}

#[tokio::test]
async fn test_{{name}}_execute() {
    let args = {{name_pascal}}Args { verbose: false };
    assert!(execute(args).await.is_ok());
}
"#,
            TemplateType::ConfigSection => r#"//! Configuration section for {{name}}.

/// Settings for {{name}}.
#[derive(Clone, Debug, Default)]
pub struct {{name_pascal}}Config {
    /// Whether the {{name}} section is enabled.
    pub enabled: bool,
    /// Optional endpoint for {{name}}.
    pub endpoint: Option<String>,
}

impl {{name_pascal}}Config {
    /// Check the section for contradictory settings.
    pub fn validate(&self) -> Result<(), String> {
        if self.enabled && self.endpoint.is_none() {
            return Err("{{name}}: an endpoint is required when enabled".to_string());
        }
        Ok(())
    }

    /// Read overrides from the TRAM_{{name_upper}}_ variables, looked up
    /// through the given accessor.
    pub fn load_from_env(mut self, get: impl Fn(&str) -> Option<String>) -> Self {
        if let Some(v) = get("TRAM_{{name_upper}}_ENABLED") {
            self.enabled = v == "true";
        }
        if let Some(v) = get("TRAM_{{name_upper}}_ENDPOINT") {
            self.endpoint = Some(v);
        }
        self
    }
}
"#,
            TemplateType::ErrorType => r#"//! Error type for {{name}}.

/// Errors the {{name}} component reports.
#[derive(Debug)]
pub enum {{name_pascal}}Error {
    /// The input was rejected; the message says why.
    Invalid(String),
    /// The operation could not finish.
    Failed(String),
}

impl {{name_pascal}}Error {
    /// A user-facing description of this error.
    pub fn message(&self) -> String {
        match self {
            {{name_pascal}}Error::Invalid(m) => format!("{{name}} rejected input: {}", m),
            {{name_pascal}}Error::Failed(m) => format!("{{name}} failed: {}", m),
        }
    }
}
"#,
            TemplateType::SessionExtension => r#"//! Session extension for {{name}}.

/// State the {{name}} extension adds to a session.
#[derive(Clone, Debug, Default)]
pub struct {{name_pascal}}State {
    /// How many times the {{name}} extension ran.
    pub runs: u64,
}

/// Extends a session with {{name}} behavior.
pub trait {{name_pascal}}Session {
    /// Access the {{name}} state.
    fn {{name}}_state(&mut self) -> &mut {{name_pascal}}State;

    /// Record one run of {{name}}.
    fn record_{{name}}_run(&mut self) {
        self.{{name}}_state().runs += 1;
    }
}
"#,
        }
    }

    /// The short name of a template type.
    pub fn get_template_name(&self, t: &TemplateType) -> (r: &'static str)
        ensures
            r@ == spec_template_name(*t),
    {
        match t {
            TemplateType::Command => "command",
            TemplateType::ConfigSection => "config_section",
            TemplateType::ErrorType => "error_type",
            TemplateType::SessionExtension => "session_extension",
        }
    }

    /// The context a configuration renders under.
    pub fn build_template_context(&self, config: &TemplateConfig) -> (r: TemplateContext)
        ensures
            r@ == spec_context_of(config@),
    {
        let description = match lookup_param(&config.parameters, "description") {
            Some(d) => d.clone(),
            None => {
                let mut d = config.name.clone();
                d.append(" functionality");
                d
            },
        };
        TemplateContext {
            name: config.name.clone(),
            name_pascal: to_pascal_case(config.name.as_str()),
            name_upper: to_upper(config.name.as_str()),
            description,
        }
    }

    /// Renders the template the configuration names, under its context.
    pub fn render_template(&self, config: &TemplateConfig) -> (r: String)
        ensures
            r@ == spec_render(spec_template_source(config@.template_type), spec_context_of(config@)),
    {
        let ctx = self.build_template_context(config);
        render_text(self.template_source(config.template_type), &ctx)
    }

    /// The path the generated file belongs at.
    pub fn determine_file_path(&self, config: &TemplateConfig) -> (r: String)
        ensures
            r@ == spec_template_file_path(config@),
    {
        let subdir = match config.template_type {
            TemplateType::Command => "commands",
            TemplateType::ConfigSection => "config",
            TemplateType::ErrorType => "errors",
            TemplateType::SessionExtension => "session",
        };
        let mut file_name = config.name.clone();
        file_name.append(".rs");
        join_path(
            join_path(join_path(config.target_dir.as_str(), "src").as_str(), subdir).as_str(),
            file_name.as_str(),
        )
    }

    /// Generates a template: validates the name and the target directory,
    /// renders the content, and refuses to name a file that already exists.
    /// The caller reports whether the target directory and the output file
    /// exist, and writes the result.
    pub fn generate_template(
        &self,
        config: &TemplateConfig,
        target_dir_exists: bool,
        file_exists: bool,
    ) -> (r: Result<GeneratedTemplate, TramError>)
        ensures
            ({
                let m = spec_generate_template(config@, target_dir_exists, file_exists);
                match r {
                    Ok(t) => m is Ok && t@ == m->Ok_0,
                    Err(e) => m is Err && e@ == m->Err_0,
                }
            }),
    {
        if config.name.unicode_len() == 0 {
            return Err(
                TramError::InvalidConfig {
                    message: String::from_str("Template name cannot be empty"),
                },
            );
        }
        if !target_dir_exists {
            let mut m = String::from_str("Target directory ");
            m.append(config.target_dir.as_str());
            m.append(" does not exist");
            return Err(TramError::InvalidConfig { message: m });
        }
        let file_path = self.determine_file_path(config);
        if file_exists {
            let mut m = String::from_str("File ");
            m.append(file_path.as_str());
            m.append(" already exists");
            return Err(TramError::InvalidConfig { message: m });
        }
        let content = self.render_template(config);
        Ok(
            GeneratedTemplate {
                content,
                file_path,
                template_type: config.template_type,
                name: config.name.clone(),
            },
        )
    }
}

impl Default for TemplateGenerator {
    /// The default generator.
    fn default() -> (r: Self)
        ensures
            r == TemplateGenerator,
    {
        TemplateGenerator
    }
}

} // verus!
