//! The command-line subcommands. Each produces the lines it reports; the
//! caller prints them.

pub mod batch;
pub mod cache;
pub mod doctor;
pub mod init;
pub mod warm;
pub mod lines;
