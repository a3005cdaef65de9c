use vstd::prelude::*;

use crate::posix::TermMode;
use crate::size::ConsoleSize;
use nix::sys::termios::{ControlFlags, InputFlags, LocalFlags, SetArg, SpecialCharacterIndices};

verus! {

/// The platform's terminal attribute set, held opaquely between the read of
/// a device's mode and the later write or restore that uses it.
#[verifier::external_type_specification]
#[verifier::external_body]
pub struct ExTermios(nix::sys::termios::Termios);

/// Relies on nix::sys::termios::tcgetattr: reads the device's current
/// attribute set, or reports the OS error code.  Reading never changes the
/// device.
#[verifier::external_body]
pub(crate) fn read_termios(fd: i32) -> (r: Result<nix::sys::termios::Termios, i32>) {
    match nix::sys::termios::tcgetattr(fd) {
        Ok(t) => Ok(t),
        Err(e) => Err(e as i32),
    }
}

/// Relies on the public flag fields of nix::sys::termios::Termios: hands the
/// attribute set's flag words and read-control characters out as plain
/// values.
#[verifier::external_body]
pub(crate) fn termios_flags(t: &nix::sys::termios::Termios) -> (r: TermMode) {
    TermMode {
        iflag: t.input_flags.bits(),
        cflag: t.control_flags.bits(),
        lflag: t.local_flags.bits(),
        vmin: t.control_chars[SpecialCharacterIndices::VMIN as usize],
        vtime: t.control_chars[SpecialCharacterIndices::VTIME as usize],
    }
}

/// Relies on nix::sys::termios::tcsetattr with the drain option: applies the
/// given attribute set to the device with the given flag words and
/// read-control characters overlaid, draining pending output first and
/// keeping unread input.
#[verifier::external_body]
pub(crate) fn write_termios(fd: i32, base: &nix::sys::termios::Termios, mode: &TermMode) -> (r:
    Result<(), i32>) {
    let mut t = base.clone();
    t.input_flags = InputFlags::from_bits_truncate(mode.iflag);
    t.control_flags = ControlFlags::from_bits_truncate(mode.cflag);
    t.local_flags = LocalFlags::from_bits_truncate(mode.lflag);
    t.control_chars[SpecialCharacterIndices::VMIN as usize] = mode.vmin;
    t.control_chars[SpecialCharacterIndices::VTIME as usize] = mode.vtime;
    match nix::sys::termios::tcsetattr(fd, SetArg::TCSADRAIN, &t) {
        Ok(()) => Ok(()),
        Err(e) => Err(e as i32),
    }
}

/// Relies on nix::unistd::isatty: asks the OS whether the descriptor
/// designates a terminal.  A definite "not a terminal" comes back as
/// Ok(false); any other failure as the OS error code.
#[verifier::external_body]
pub(crate) fn probe_isatty(fd: i32) -> (r: Result<bool, i32>) {
    match nix::unistd::isatty(fd) {
        Ok(b) => Ok(b),
        Err(e) => Err(e as i32),
    }
}

/// Relies on rustix::termios::tcgetwinsize on the standard input stream:
/// reads the driver's window size, or reports the OS error code, for one
/// when the stream is not a terminal.
#[verifier::external_body]
pub(crate) fn winsize_stdin() -> (r: Result<ConsoleSize, i32>) {
    match rustix::termios::tcgetwinsize(rustix::stdio::stdin()) {
        Ok(w) => Ok(ConsoleSize { cols: w.ws_col as u32, rows: w.ws_row as u32 }),
        Err(e) => Err(e.raw_os_error()),
    }
}

/// Relies on rustix::termios::tcgetwinsize on the standard output stream:
/// reads the driver's window size, or reports the OS error code.
#[verifier::external_body]
pub(crate) fn winsize_stdout() -> (r: Result<ConsoleSize, i32>) {
    match rustix::termios::tcgetwinsize(rustix::stdio::stdout()) {
        Ok(w) => Ok(ConsoleSize { cols: w.ws_col as u32, rows: w.ws_row as u32 }),
        Err(e) => Err(e.raw_os_error()),
    }
}

/// Relies on rustix::termios::tcgetwinsize on the standard error stream:
/// reads the driver's window size, or reports the OS error code.
#[verifier::external_body]
pub(crate) fn winsize_stderr() -> (r: Result<ConsoleSize, i32>) {
    match rustix::termios::tcgetwinsize(rustix::stdio::stderr()) {
        Ok(w) => Ok(ConsoleSize { cols: w.ws_col as u32, rows: w.ws_row as u32 }),
        Err(e) => Err(e.raw_os_error()),
    }
}

} // verus!
