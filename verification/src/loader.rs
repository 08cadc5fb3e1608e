//! Loading a configuration snapshot from a file, the environment, or both.
//!
//! The format is inferred from the file extension before any content is
//! looked at; an unrecognized extension is rejected outright. Reading files
//! and the process environment is input handled by the caller: these
//! functions take the file content and the raw environment values and are
//! verified to resolve them exactly as the precedence rules say.

use vstd::prelude::*;

use crate::config::{
    apply_env_overrides, apply_file_fields, spec_apply_env, spec_apply_file, spec_default_config,
    ConfigView, EnvOverrides, EnvView, FileFields, FileFieldsView, TramConfig,
};
use crate::error::{ConfigError, ConfigErrorView};
use crate::parse::ParseFail;
use crate::parse_json::{parse_json, spec_parse_json};
use crate::parse_toml::{parse_toml, spec_parse_toml};
use crate::parse_yaml::{parse_yaml, spec_parse_yaml};
use crate::strutil::{str_eq, substring_copy};

verus! {

/// A recognized configuration file format.
#[derive(Clone, Copy, Debug, PartialEq, Eq, Structural)]
pub enum FileFormat {
    Json,
    Yaml,
    Toml,
}

/// The index of the dot that starts the extension, looking at positions
/// below `i`: the last dot of the final path component, unless that
/// component starts with it.
pub open spec fn spec_find_ext_dot(p: Seq<char>, i: int) -> Option<int>
    decreases i,
{
    if i <= 0 {
        None
    } else if p[i - 1] == '/' {
        None
    } else if p[i - 1] == '.' {
        if i - 1 == 0 || p[i - 2] == '/' {
            None
        } else {
            Some(i - 1)
        }
    } else {
        spec_find_ext_dot(p, i - 1)
    }
}

/// The extension of a path: what follows the last dot of the final
/// component. A component that only starts with a dot has none.
pub open spec fn spec_extension(p: Seq<char>) -> Option<Seq<char>> {
    match spec_find_ext_dot(p, p.len() as int) {
        Some(d) => Some(p.subrange(d + 1, p.len() as int)),
        None => None,
    }
}

/// The format an extension names, if any.
pub open spec fn spec_format_of_ext(e: Seq<char>) -> Option<FileFormat> {
    if e == "json"@ {
        Some(FileFormat::Json)
    } else if e == "yaml"@ || e == "yml"@ {
        Some(FileFormat::Yaml)
    } else if e == "toml"@ {
        Some(FileFormat::Toml)
    } else {
        None
    }
}

/// The format a path's extension names, if any.
pub open spec fn spec_format_of_path(p: Seq<char>) -> Option<FileFormat> {
    match spec_extension(p) {
        Some(e) => spec_format_of_ext(e),
        None => None,
    }
}

/// The extension of a path, as an owned string.
pub fn path_extension(p: &str) -> (r: Option<String>)
    ensures
        ({
            let m = spec_extension(p@);
            match r {
                Some(e) => m is Some && e@ == m->0,
                None => m is None,
            }
        }),
{
    let n = p.unicode_len();
    let mut j: usize = n;
    loop
        invariant
            j <= n,
            n == p@.len(),
            spec_find_ext_dot(p@, n as int) == spec_find_ext_dot(p@, j as int),
        decreases j,
    {
        if j == 0 {
            return None;
        }
        let c = p.get_char(j - 1);
        if c == '/' {
            return None;
        }
        if c == '.' {
            if j - 1 == 0 || p.get_char(j - 2) == '/' {
                return None;
            }
            return Some(substring_copy(p, j, n));
        }
        j = j - 1;
    }
}

/// The format a path's extension names, if any.
pub fn format_of_path(p: &str) -> (r: Option<FileFormat>)
    ensures
        r == spec_format_of_path(p@),
{
    match path_extension(p) {
        Some(e) => {
            if str_eq(e.as_str(), "json") {
                Some(FileFormat::Json)
            } else if str_eq(e.as_str(), "yaml") || str_eq(e.as_str(), "yml") {
                Some(FileFormat::Yaml)
            } else if str_eq(e.as_str(), "toml") {
                Some(FileFormat::Toml)
            } else {
                None
            }
        },
        None => None,
    }
}

/// What the reader for `fmt` yields on `s`.
pub open spec fn spec_parse_config(fmt: FileFormat, s: Seq<char>) -> Result<
    FileFieldsView,
    ParseFail,
> {
    match fmt {
        FileFormat::Json => spec_parse_json(s),
        FileFormat::Yaml => spec_parse_yaml(s),
        FileFormat::Toml => spec_parse_toml(s),
    }
}

/// Reads the configuration fields from `s` in format `fmt`.
pub fn parse_config(fmt: FileFormat, s: &str) -> (r: Result<FileFields, ParseFail>)
    ensures
        ({
            let m = spec_parse_config(fmt, s@);
            match r {
                Ok(f) => m is Ok && f@ == m->Ok_0,
                Err(e) => m is Err && e == m->Err_0,
            }
        }),
{
    match fmt {
        FileFormat::Json => parse_json(s),
        FileFormat::Yaml => parse_yaml(s),
        FileFormat::Toml => parse_toml(s),
    }
}

/// What loading a file resolves to: the extension decides the format before
/// the content is consulted; a missing file is `NotFound`; malformed content
/// is `ParseError`; a recognized field with a value outside its domain is
/// `InvalidValue`; otherwise the fields are overlaid on the defaults and the
/// environment is overlaid on top.
pub open spec fn spec_load_from_file(
    path: Seq<char>,
    content: Option<Seq<char>>,
    env: EnvView,
) -> Result<ConfigView, ConfigErrorView> {
    match spec_format_of_path(path) {
        None => Err(ConfigErrorView::UnsupportedFormat { path }),
        Some(fmt) => match content {
            None => Err(ConfigErrorView::NotFound { path }),
            Some(text) => match spec_parse_config(fmt, text) {
                Err(ParseFail::Syntax) => Err(ConfigErrorView::ParseError { path }),
                Err(ParseFail::BadValue(k)) => Err(ConfigErrorView::InvalidValue { key: k }),
                Ok(fields) => Ok(
                    spec_apply_env(spec_apply_file(spec_default_config(), fields), env),
                ),
            },
        },
    }
}

/// Whether an executable load result has the shape the model names.
pub open spec fn load_result_matches(
    r: Result<TramConfig, ConfigError>,
    m: Result<ConfigView, ConfigErrorView>,
) -> bool {
    match r {
        Ok(c) => m is Ok && c@ == m->Ok_0,
        Err(e) => m is Err && e@ == m->Err_0,
    }
}

impl TramConfig {
    /// The built-in default values; never fails.
    pub fn load_defaults() -> (r: TramConfig)
        ensures
            r@ == spec_default_config(),
    {
        TramConfig::default()
    }

    /// The defaults overlaid with the environment; never fails.
    pub fn load(env: &EnvOverrides) -> (r: TramConfig)
        ensures
            r@ == spec_apply_env(spec_default_config(), env@),
    {
        apply_env_overrides(&TramConfig::default(), env)
    }

    /// Loads a configuration from one file, handed over as its path and its
    /// content (`None` where the file does not exist), with the environment
    /// overlaid on top.
    pub fn load_from_file(path: &str, content: Option<&str>, env: &EnvOverrides) -> (r: Result<
        TramConfig,
        ConfigError,
    >)
        ensures
            load_result_matches(
                r,
                spec_load_from_file(
                    path@,
                    match content {
                        Some(s) => Some(s@),
                        None => None,
                    },
                    env@,
                ),
            ),
    {
        match format_of_path(path) {
            None => Err(ConfigError::UnsupportedFormat { path: String::from_str(path) }),
            Some(fmt) => match content {
                None => Err(ConfigError::NotFound { path: String::from_str(path) }),
                Some(text) => match parse_config(fmt, text) {
                    Err(ParseFail::Syntax) => Err(
                        ConfigError::ParseError { path: String::from_str(path) },
                    ),
                    Err(ParseFail::BadValue(k)) => Err(ConfigError::InvalidValue { key: k }),
                    Ok(fields) => Ok(
                        apply_env_overrides(
                            &apply_file_fields(&TramConfig::default(), &fields),
                            env,
                        ),
                    ),
                },
            },
        }
    }

    /// Loads from the first configuration file found among the conventional
    /// candidates, handed over in conventional order; with none found, the
    /// defaults overlaid with the environment.
    pub fn load_from_common_paths(files: &Vec<ConfigFile>, env: &EnvOverrides) -> (r: Result<
        TramConfig,
        ConfigError,
    >)
        ensures
            load_result_matches(r, spec_load_from_common(files@.map_values(|f: ConfigFile| f@), env@)),
    {
        if files.len() == 0 {
            Ok(TramConfig::load(env))
        } else {
            let first = &files[0];
            TramConfig::load_from_file(first.path.as_str(), Some(first.content.as_str()), env)
        }
    }
}

/// A configuration file that exists: its path and its content.
#[derive(Clone, Debug, PartialEq)]
pub struct ConfigFile {
    pub path: String,
    pub content: String,
}

/// The mathematical shape of a `ConfigFile`.
pub ghost struct ConfigFileView {
    pub path: Seq<char>,
    pub content: Seq<char>,
}

impl View for ConfigFile {
    type V = ConfigFileView;

    open spec fn view(&self) -> ConfigFileView {
        ConfigFileView { path: self.path@, content: self.content@ }
    }
}

/// What loading from the conventional candidates resolves to: the first
/// found file decides; with none, the defaults overlaid with the
/// environment.
pub open spec fn spec_load_from_common(files: Seq<ConfigFileView>, env: EnvView) -> Result<
    ConfigView,
    ConfigErrorView,
> {
    if files.len() == 0 {
        Ok(spec_apply_env(spec_default_config(), env))
    } else {
        spec_load_from_file(files[0].path, Some(files[0].content), env)
    }
}

/// The conventional candidate file names, in search order.
pub open spec fn spec_common_paths() -> Seq<Seq<char>> {
    seq![
        "tram.json"@,
        "tram.yaml"@,
        "tram.yml"@,
        "tram.toml"@,
        ".tram.json"@,
        ".tram.yaml"@,
        ".tram.yml"@,
        ".tram.toml"@,
    ]
}

/// The conventional candidate file names, in search order.
pub fn common_config_paths() -> (r: Vec<String>)
    ensures
        r@.map_values(|s: String| s@) == spec_common_paths(),
{
    let mut v: Vec<String> = Vec::new();
    v.push(String::from_str("tram.json"));
    v.push(String::from_str("tram.yaml"));
    v.push(String::from_str("tram.yml"));
    v.push(String::from_str("tram.toml"));
    v.push(String::from_str(".tram.json"));
    v.push(String::from_str(".tram.yaml"));
    v.push(String::from_str(".tram.yml"));
    v.push(String::from_str(".tram.toml"));
    proof {
        assert(v@.map_values(|s: String| s@) =~= spec_common_paths());
    }
    v
}

/// A path with an unrecognized extension is rejected as unsupported whatever
/// the file may hold: the verdict never depends on the content or the
/// environment.
pub proof fn lemma_unsupported_extension(
    path: Seq<char>,
    c1: Option<Seq<char>>,
    c2: Option<Seq<char>>,
    e1: EnvView,
    e2: EnvView,
)
    requires
        spec_format_of_path(path) is None,
    ensures
        spec_load_from_file(path, c1, e1) == Err::<ConfigView, ConfigErrorView>(
            ConfigErrorView::UnsupportedFormat { path },
        ),
        spec_load_from_file(path, c1, e1) == spec_load_from_file(path, c2, e2),
{
}

/// Determinism of loading: any two results of loading the same path with the
/// same content under the same environment are identical snapshots (or the
/// same error).
pub proof fn lemma_load_deterministic(
    r1: Result<TramConfig, ConfigError>,
    r2: Result<TramConfig, ConfigError>,
    path: Seq<char>,
    content: Option<Seq<char>>,
    env: EnvView,
)
    requires
        load_result_matches(r1, spec_load_from_file(path, content, env)),
        load_result_matches(r2, spec_load_from_file(path, content, env)),
    ensures
        r1 is Ok <==> r2 is Ok,
        r1 is Ok ==> r1->Ok_0@ == r2->Ok_0@,
        r1 is Err ==> r1->Err_0@ == r2->Err_0@,
{
}

} // verus!
