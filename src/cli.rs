use vstd::prelude::*;

verus! {

/// A subcommand of the tool.
#[derive(Debug, PartialEq, Eq)]
pub enum Commands {
    /// Show whether the managed process runs.
    Status,
    /// Start the managed process, with an optional subscription URL from
    /// which to fetch its configuration.
    Start { url: Option<String> },
    /// Stop the managed process.
    Stop,
    /// Expose a local port through a tunnel provider.
    Tunnel { port: u16 },
}

/// The parsed command line: at most one subcommand.
#[derive(Debug, PartialEq, Eq)]
pub struct Cli {
    pub command: Option<Commands>,
}

} // verus!
