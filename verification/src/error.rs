//! The ways in which listening for signals can fail inside this crate.

use vstd::prelude::*;

verus! {

/// A failure that the signal machinery found by itself.
///
/// Failures of the operating system are not listed here: the caller meets them
/// first and hands them on unchanged.
#[derive(Copy, Clone, Debug, PartialEq, Eq, Hash, Structural)]
pub enum SignalError {
    /// A number arrived that names no signal.
    InvalidSignal,
    /// The kernel handed over a record that has not the size of a signal record.
    InvalidSize,
    /// The writing end of the pipe was closed.
    UnexpectedEof,
    /// The backend cannot listen for the signal that was asked for.
    Unsupported,
    /// The one callback that the process may have is installed already.
    AlreadyInstalled,
}

impl SignalError {
    /// The words that describe this failure.
    pub open spec fn text(self) -> Seq<char> {
        match self {
            SignalError::InvalidSignal => "received an invalid signal number"@,
            SignalError::InvalidSize => "signal record has an invalid size"@,
            SignalError::UnexpectedEof => "signal pipe was closed"@,
            SignalError::Unsupported => "signal is not supported by this backend"@,
            SignalError::AlreadyInstalled => "signal callback is already installed"@,
        }
    }

    /// Describes this failure in words.
    pub fn message(self) -> (message: &'static str)
        ensures
            message@ == self.text(),
    {
        match self {
            SignalError::InvalidSignal => "received an invalid signal number",
            SignalError::InvalidSize => "signal record has an invalid size",
            SignalError::UnexpectedEof => "signal pipe was closed",
            SignalError::Unsupported => "signal is not supported by this backend",
            SignalError::AlreadyInstalled => "signal callback is already installed",
        }
    }
}

} // verus!
