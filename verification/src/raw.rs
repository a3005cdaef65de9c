use vstd::prelude::*;

use crate::error::TtyError;
use crate::posix::make_raw;
use crate::os;

verus! {

/// The per-descriptor metadata slot of the mode controller: the device mode
/// saved on the first raw-mode entry, held until the restore that consumes
/// it.  At most one saved mode is held at a time, and a second enable never
/// overwrites it.
pub struct TtyMetadata {
    /// The saved attribute set, present exactly between a first enable and
    /// the disable that restores it.
    pub mode: Option<nix::sys::termios::Termios>,
}

impl TtyMetadata {
    /// A fresh slot with nothing saved.
    pub fn new() -> (r: TtyMetadata)
        ensures
            r.mode is None,
    {
        TtyMetadata { mode: None }
    }
}

/// Enters or exits raw input mode on the terminal device behind `fd`,
/// tracking the device's pre-raw attribute set in `meta` so that it can be
/// restored exactly.
///
/// Enabling reads the device's attributes only on the first entry and saves
/// them as the restore point; a re-entry recomputes the raw flags from the
/// saved baseline, so repeated enables stay idempotent relative to the
/// original mode.  Disabling applies the saved attributes back and clears
/// the slot exactly once; with nothing saved it succeeds as a no-op.  When
/// an OS call fails the slot is left intact, so a caller can retry the
/// restore later.  Cbreak is honored on this platform branch.
pub fn set_raw(fd: i32, meta: &mut TtyMetadata, is_raw: bool, cbreak: bool) -> (r: Result<
    (),
    TtyError,
>)
    ensures
        is_raw && old(meta).mode is Some ==> final(meta).mode == old(meta).mode,
        is_raw && r is Ok ==> final(meta).mode is Some,
        !is_raw && old(meta).mode is None ==> r is Ok && final(meta).mode is None,
        !is_raw && r is Ok ==> final(meta).mode is None,
        !is_raw && r is Err ==> final(meta).mode == old(meta).mode,
        r matches Err(e) ==> e is IoError,
{
    if is_raw {
        if meta.mode.is_none() {
            // First entry: save the just-read device mode as the restore
            // point.
            match os::read_termios(fd) {
                Ok(t) => {
                    meta.mode = Some(t);
                },
                Err(code) => {
                    return Err(TtyError::IoError(code));
                },
            }
        }
        match &meta.mode {
            Some(base) => {
                let flags = os::termios_flags(base);
                let raw = make_raw(&flags, cbreak);
                match os::write_termios(fd, base, &raw) {
                    Ok(()) => Ok(()),
                    Err(code) => Err(TtyError::IoError(code)),
                }
            },
            None => {
                // The slot was filled just above, so this arm is dead.
                proof {
                    assert(false);
                }
                Err(TtyError::IoError(0))
            },
        }
    } else {
        match meta.mode.take() {
            Some(saved) => {
                // Writing the saved attribute set with its own flag words
                // overlaid applies it unchanged: a bit-for-bit restore.
                let flags = os::termios_flags(&saved);
                match os::write_termios(fd, &saved, &flags) {
                    Ok(()) => Ok(()),
                    Err(code) => {
                        meta.mode = Some(saved);
                        Err(TtyError::IoError(code))
                    },
                }
            },
            None => Ok(()),
        }
    }
}

} // verus!
