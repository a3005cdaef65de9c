use vstd::prelude::*;

use crate::error::TtyError;
use crate::os;

verus! {

/// The interactive-terminal decision over the probe's outcome: a definite
/// answer passes through, and a failed probe means the descriptor is not a
/// terminal.  Not-a-terminal is the `false` result, never an error.
pub fn isatty_from_probe(probe: Result<bool, i32>) -> (r: Result<bool, TtyError>)
    ensures
        probe matches Ok(b) ==> r == Ok::<bool, TtyError>(b),
        probe is Err ==> r == Ok::<bool, TtyError>(false),
{
    match probe {
        Ok(b) => Ok(b),
        Err(_) => Ok(false),
    }
}

/// Reports whether the descriptor is attached to an interactive terminal.
/// A descriptor backed by anything other than a terminal device yields
/// `false` with no error.
pub fn isatty(fd: i32) -> (r: Result<bool, TtyError>)
    ensures
        r is Ok,
{
    isatty_from_probe(os::probe_isatty(fd))
}

} // verus!
