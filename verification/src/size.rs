use vstd::prelude::*;

use crate::error::TtyError;
use crate::os;

verus! {

/// The terminal's character grid dimensions.  Produced fresh on each query;
/// nothing is persisted.
#[derive(Debug, PartialEq, Eq, Clone, Copy, Structural)]
pub struct ConsoleSize {
    /// Number of character columns.
    pub cols: u32,
    /// Number of character rows.
    pub rows: u32,
}

/// The fallback rule of the size query, over the outcomes of the three
/// probes: the first success wins, in the fixed stdin, stdout, stderr order,
/// because any one stream may be redirected to a non-terminal while another
/// remains attached to the real terminal.  If all three failed, the last
/// failure — not the first — is the one reported, wrapped as an I/O error.
pub fn size_from_probes(
    stdin_probe: Result<ConsoleSize, i32>,
    stdout_probe: Result<ConsoleSize, i32>,
    stderr_probe: Result<ConsoleSize, i32>,
) -> (r: Result<ConsoleSize, TtyError>)
    ensures
        stdin_probe matches Ok(s) ==> r == Ok::<ConsoleSize, TtyError>(s),
        stdin_probe is Err ==> (stdout_probe matches Ok(s) ==> r == Ok::<ConsoleSize, TtyError>(
            s,
        )),
        stdin_probe is Err && stdout_probe is Err ==> (stderr_probe matches Ok(s) ==> r == Ok::<
            ConsoleSize,
            TtyError,
        >(s)),
        stdin_probe is Err && stdout_probe is Err ==> (stderr_probe matches Err(code) ==> r
            == Err::<ConsoleSize, TtyError>(TtyError::IoError(code))),
{
    match stdin_probe {
        Ok(s) => Ok(s),
        Err(_) => match stdout_probe {
            Ok(s) => Ok(s),
            Err(_) => match stderr_probe {
                Ok(s) => Ok(s),
                Err(code) => Err(TtyError::IoError(code)),
            },
        },
    }
}

/// Queries the terminal's character grid dimensions.  The three standard
/// streams are probed in the fixed stdin, stdout, stderr order and the first
/// successful probe's dimensions are returned; if every probe fails, the
/// last failure is reported.
pub fn console_size() -> (r: Result<ConsoleSize, TtyError>)
    ensures
        r matches Err(e) ==> e is IoError,
{
    size_from_probes(os::winsize_stdin(), os::winsize_stdout(), os::winsize_stderr())
}

} // verus!
