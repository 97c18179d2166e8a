//! The errors that an invocation can end in.

use vstd::prelude::*;

verus! {

/// An error that occurred while preparing, running, or interpreting a dialog
/// invocation.
#[derive(Debug)]
pub enum Error {
    /// The external program could not be launched.  Carries the text of the
    /// underlying operating-system error.
    SpawnError(String),
    /// The external program ran but exited with a status that no dialog
    /// result is assigned to.  Carries the exit code for diagnostics, or
    /// `None` if the process was terminated without one.
    ExternalToolFailed {
        /// The exit code the process ended with, if any.
        status: Option<i32>,
    },
    /// A file-selection path does not name an existing directory.
    InvalidPath,
    /// The captured output of the external program is not valid UTF-8 text.
    InvalidEncoding,
}

} // verus!
