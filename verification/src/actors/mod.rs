//! The decision logic of the pipeline's actors.
//!
//! Each actor of the service keeps state and reacts to events; the state,
//! the events, and the decisions (next state and the messages to send) are
//! modelled here, while the message passing itself is done by the runtime.

pub mod config;
pub mod crate_coordinator_actor;
pub mod retry_coordinator;
pub mod vectorizer_actor;
pub mod processor_actor;
pub mod file_reader_actor;
pub mod downloader_actor;
pub mod keyboard_handler;
pub mod server_actor;
pub mod console;
pub mod database;
pub mod crate_store;
pub mod crate_downloader;
