use vstd::prelude::*;

verus! {

/// The failure taxonomy of the terminal layer.
///
/// No error is retried internally; every failure is surfaced verbatim to the
/// caller.  "Not a terminal" is never an error: the TTY detector reports it as
/// a successful `false`.
#[derive(Clone, Copy, Debug, PartialEq, Eq, Structural)]
pub enum TtyError {
    /// The descriptor does not map to an open handle.
    ResourceNotFound,
    /// The handle resolved, but is structurally invalid: null, or the
    /// platform's invalid-handle sentinel.
    InvalidHandle,
    /// A cbreak request on a platform branch that cannot honor it.
    NotSupported,
    /// An underlying OS call failed; carries the native error code.
    IoError(i32),
}

} // verus!
