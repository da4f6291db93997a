//! The command line and what the daemon does with it.
use vstd::prelude::*;

verus! {

/// The command-line flags.
#[derive(Clone, Copy, PartialEq, Eq, Structural, Debug)]
pub struct Cli {
    /// Run in the background.
    pub daemon: bool,
    /// Write the default configuration file and exit.
    pub config: bool,
}

/// What the program does.
#[derive(Clone, Copy, PartialEq, Eq, Structural, Debug)]
pub enum RunMode {
    /// Write the default configuration and exit.
    WriteConfig,
    /// Start a copy of the program in the background and exit.
    Daemonize,
    /// Run the server and the services in this process.
    Foreground,
}

/// The mode the flags select: writing the configuration comes first, then
/// running in the background.
pub fn run_mode(cli: Cli) -> (r: RunMode)
    ensures
        r == (if cli.config {
            RunMode::WriteConfig
        } else if cli.daemon {
            RunMode::Daemonize
        } else {
            RunMode::Foreground
        }),
{
    if cli.config {
        RunMode::WriteConfig
    } else if cli.daemon {
        RunMode::Daemonize
    } else {
        RunMode::Foreground
    }
}

} // verus!
