//! The command-line surface, as plain data.
//!
//! Parsing the actual command line happens outside the library; these
//! types are what a parsed invocation amounts to.

use vstd::prelude::*;

verus! {

/// The subcommands: today only starting the relay server.
pub enum Commands {
    /// Bootstrap the server.
    Server,
}

/// Top-level arguments: which subcommand to run.
pub struct Args {
    /// The chosen subcommand.
    pub command: Commands,
}

/// How a command's response is rendered.
#[derive(Clone)]
pub enum OutputFormat {
    /// Machine-readable output.
    Json,
    /// Human-readable output.
    Table,
}

/// A full invocation: the subcommand plus the global flags.
pub struct Cli {
    /// The chosen subcommand.
    pub command: Commands,
    /// Root directory for configuration and data, if overridden.
    pub root_dir: Option<String>,
    /// Output format for command responses, if overridden.
    pub output_format: Option<OutputFormat>,
}

} // verus!
