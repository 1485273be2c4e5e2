//! Crately: the verified core of a crate documentation processing service.

pub mod text;
pub mod colors;
pub mod cli;
pub mod cli_grammar;
pub mod crate_specifier;
pub mod precedence;
pub mod messages;
pub mod actors;
pub mod commands;
