//! A starter-kit library for command-line applications: layered configuration
//! loading with strict precedence (CLI over environment over file over
//! defaults), hot-reload bookkeeping for a watched configuration file,
//! workspace detection, and boilerplate generation for new projects.

pub mod cli_test;
pub mod config;
pub mod error;
pub mod loader;
pub mod mocks;
pub mod parse;
pub mod parse_json;
pub mod parse_toml;
pub mod parse_yaml;
pub mod project_init;
pub mod session;
pub mod strutil;
pub mod template_gen;
pub mod utils;
pub mod watcher;
pub mod workspace;
