//! Error taxonomy of the session protocol layer.

use vstd::prelude::*;

verus! {

/// A failure while running a single command on a device.
#[derive(Debug)]
pub enum CommandError {
    /// The transport reported a failure while the command was being written.
    Generic { command: String, message: String },
    /// The device rejected the command for lack of privilege.
    NoPrivilege { command: String },
    /// The device rejected the command as syntactically invalid.
    InvalidInput { command: String },
}

/// A failure of a session operation.
#[derive(Debug)]
pub enum Error {
    /// A transport-level failure (read fault, invalid prompt pattern, ...).
    Generic { message: String },
    /// The transport rejected the supplied credentials.
    AuthenticationFailed { user: String },
    /// A command could not be executed; see the inner classification.
    CommandExecution(CommandError),
    /// Entering configuration mode failed.
    EnterConfigMode,
    /// Leaving configuration mode failed.
    ExitConfigMode,
    /// The command could not be represented in the session's encoding.
    EncodingError { operation: String, encoding_name: String },
}

} // verus!
