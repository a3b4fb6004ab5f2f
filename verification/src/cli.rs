//! The command surface of the notifier tool.
//!
//! Argument parsing itself happens outside the library; these are the plain
//! shapes a parsed command line takes.

use vstd::prelude::*;

verus! {

/// A parsed command line: exactly one command.
#[derive(Debug, Clone, PartialEq)]
pub struct Cli {
    /// The selected command.
    pub command: Commands,
}

/// The commands the notifier tool offers.
#[derive(Debug, Clone, PartialEq)]
pub enum Commands {
    /// Run in server mode, listening for bus requests.
    Server,
    /// Send a notification to all users.
    Send {
        /// The title of the notification.
        title: String,
        /// The body message of the notification.
        body: String,
    },
}

} // verus!
