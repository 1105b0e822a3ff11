//! The error taxonomy of the core. Every failure is surfaced as a typed
//! value to the immediate caller; nothing is retried or swallowed.

use vstd::prelude::*;
use crate::portmidi::PmError;

verus! {

/// A failure of one core operation, terminal for that operation.
#[derive(Clone, Copy, Debug, PartialEq, Eq, Structural)]
pub enum Error {
    /// The native service returned a non-success status; that status
    /// code is carried along unchanged, never reinterpreted.
    Native(PmError),
    /// A device-info name buffer was not valid text.
    Decode,
    /// A device reported an impossible direction-flag combination, an
    /// assumption violation about the native service.
    Consistency,
    /// The hexadecimal payload text was malformed, caught before any
    /// native call.
    Input,
}

} // verus!
