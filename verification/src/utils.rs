//! Helpers for reading and displaying the project and template type names.

use vstd::prelude::*;

use crate::project_init::InitProjectType;
use crate::strutil::{eq_ignore_case_seq, str_eq_ignore_case};
use crate::template_gen::TemplateType;

verus! {

/// The project type a keyword names, ignoring ASCII case; anything
/// unrecognized is `Generic`.
pub open spec fn spec_parse_project_type(s: Seq<char>) -> InitProjectType {
    if eq_ignore_case_seq(s, "rust"@) {
        InitProjectType::Rust
    } else if eq_ignore_case_seq(s, "nodejs"@) || eq_ignore_case_seq(s, "node"@)
        || eq_ignore_case_seq(s, "js"@) {
        InitProjectType::NodeJs
    } else if eq_ignore_case_seq(s, "python"@) || eq_ignore_case_seq(s, "py"@) {
        InitProjectType::Python
    } else if eq_ignore_case_seq(s, "go"@) {
        InitProjectType::Go
    } else if eq_ignore_case_seq(s, "java"@) {
        InitProjectType::Java
    } else {
        InitProjectType::Generic
    }
}

/// Reads a project type from its keyword, ignoring ASCII case.
pub fn parse_project_type(type_str: &str) -> (r: InitProjectType)
    ensures
        r == spec_parse_project_type(type_str@),
{
    if str_eq_ignore_case(type_str, "rust") {
        InitProjectType::Rust
    } else if str_eq_ignore_case(type_str, "nodejs") || str_eq_ignore_case(type_str, "node")
        || str_eq_ignore_case(type_str, "js") {
        InitProjectType::NodeJs
    } else if str_eq_ignore_case(type_str, "python") || str_eq_ignore_case(type_str, "py") {
        InitProjectType::Python
    } else if str_eq_ignore_case(type_str, "go") {
        InitProjectType::Go
    } else if str_eq_ignore_case(type_str, "java") {
        InitProjectType::Java
    } else {
        InitProjectType::Generic
    }
}

/// The display name of a project type.
pub open spec fn spec_project_type_display(t: InitProjectType) -> Seq<char> {
    match t {
        InitProjectType::Rust => "Rust"@,
        InitProjectType::NodeJs => "Node.js"@,
        InitProjectType::Python => "Python"@,
        InitProjectType::Go => "Go"@,
        InitProjectType::Java => "Java"@,
        InitProjectType::Generic => "Generic"@,
    }
}

/// The display name of a project type.
pub fn project_type_display(project_type: &InitProjectType) -> (r: &'static str)
    ensures
        r@ == spec_project_type_display(*project_type),
{
    match project_type {
        InitProjectType::Rust => "Rust",
        InitProjectType::NodeJs => "Node.js",
        InitProjectType::Python => "Python",
        InitProjectType::Go => "Go",
        InitProjectType::Java => "Java",
        InitProjectType::Generic => "Generic",
    }
}

/// The template type a keyword names, ignoring ASCII case; anything
/// unrecognized is `Command`.
pub open spec fn spec_parse_template_type(s: Seq<char>) -> TemplateType {
    if eq_ignore_case_seq(s, "command"@) || eq_ignore_case_seq(s, "cmd"@) {
        TemplateType::Command
    } else if eq_ignore_case_seq(s, "config-section"@) || eq_ignore_case_seq(s, "config"@) {
        TemplateType::ConfigSection
    } else if eq_ignore_case_seq(s, "error-type"@) || eq_ignore_case_seq(s, "error"@) {
        TemplateType::ErrorType
    } else if eq_ignore_case_seq(s, "session-extension"@) || eq_ignore_case_seq(s, "session"@) {
        TemplateType::SessionExtension
    } else {
        TemplateType::Command
    }
}

/// Reads a template type from its keyword, ignoring ASCII case.
pub fn parse_template_type(type_str: &str) -> (r: TemplateType)
    ensures
        r == spec_parse_template_type(type_str@),
{
    if str_eq_ignore_case(type_str, "command") || str_eq_ignore_case(type_str, "cmd") {
        TemplateType::Command
    } else if str_eq_ignore_case(type_str, "config-section") || str_eq_ignore_case(
        type_str,
        "config",
    ) {
        TemplateType::ConfigSection
    } else if str_eq_ignore_case(type_str, "error-type") || str_eq_ignore_case(type_str, "error") {
        TemplateType::ErrorType
    } else if str_eq_ignore_case(type_str, "session-extension") || str_eq_ignore_case(
        type_str,
        "session",
    ) {
        TemplateType::SessionExtension
    } else {
        TemplateType::Command
    }
}

/// The display name of a template type.
pub open spec fn spec_template_type_display(t: TemplateType) -> Seq<char> {
    match t {
        TemplateType::Command => "Command"@,
        TemplateType::ConfigSection => "Config Section"@,
        TemplateType::ErrorType => "Error Type"@,
        TemplateType::SessionExtension => "Session Extension"@,
    }
}

/// The display name of a template type.
pub fn template_type_display(template_type: &TemplateType) -> (r: &'static str)
    ensures
        r@ == spec_template_type_display(*template_type),
{
    match template_type {
        TemplateType::Command => "Command",
        TemplateType::ConfigSection => "Config Section",
        TemplateType::ErrorType => "Error Type",
        TemplateType::SessionExtension => "Session Extension",
    }
}

} // verus!
