//! A command-line client library for a local language-model server: the
//! persisted model choice, argument dispatch, and the per-batch rendering
//! decisions of a streamed generation.

pub mod cli;
pub mod client;
pub mod config;
pub mod stream;
