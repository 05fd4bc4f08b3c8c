//! The session engine of a command-line client for a graph database.
//!
//! The library decides and renders; it neither connects nor prints. A caller reads the
//! command line with [`cli::Cli`], starts a session ([`client::FalkorCli`]), and asks it
//! what a subcommand or an input line means. The answer is a [`commands::Request`] to make
//! of the database, or lines to show ([`output::Line`]), or a [`error::CommandError`]. Once
//! the database has answered, the session says what to show for the answer.
//!
//! - `cli`: the command line, read with `clap`.
//! - `client`: the session state and the rendering of query results.
//! - `commands`: the dispatch table and the reports of finished commands.
//! - `interactive`: the classification of input lines and the steps of the read loop.
//! - `completion`: keyword completion.
//! - `outcome`, `json`, `output`, `text`, `error`: what these are made of.

pub mod cli;
pub mod client;
pub mod commands;
pub mod completion;
pub mod error;
pub mod interactive;
pub mod json;
pub mod outcome;
pub mod output;
pub mod text;
