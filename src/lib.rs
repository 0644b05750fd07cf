//! Code generation for test-configuration attributes: argument wrapping,
//! serialization of configuration values into Cairo expressions, and
//! splicing of generated setup statements into a guarded configuration branch.
//! Also the settings of the accompanying command-line tool.
pub mod cairo_expression;
pub mod commands;
pub mod config;
pub mod config_statement;
pub mod parse;
pub mod profile;
pub mod show_config;
pub mod tokens;
