use vstd::prelude::*;

use crate::error::TtyError;

verus! {

// The console input mode bits that raw-mode control touches, with the values
// the console API documents for the mode word read and written through
// GetConsoleMode and SetConsoleMode.

/// Line-by-line input: a read returns only once a carriage return is read.
pub const ENABLE_LINE_INPUT: u32 = 0x2;
/// Real-time character echo to the console display.
pub const ENABLE_ECHO_INPUT: u32 = 0x4;
/// The system handles control keys instead of delivering them to the reader.
pub const ENABLE_PROCESSED_INPUT: u32 = 0x1;
/// Virtual terminal input: control sequences arrive as escape sequences.
pub const ENABLE_VIRTUAL_TERMINAL_INPUT: u32 = 0x200;

/// The mode bits that make console input cooked: line buffering, echo and
/// processed input.
pub const COOKED_MODE: u32 = ENABLE_LINE_INPUT | ENABLE_ECHO_INPUT | ENABLE_PROCESSED_INPUT;

/// The console's invalid-handle sentinel, the all-ones handle value.
pub const INVALID_HANDLE: u64 = 0xffff_ffff_ffff_ffff;

/// The raw variant of a console input mode word: the cooked bits cleared and
/// virtual terminal input set.
pub open spec fn spec_raw_input_on(mode: u32) -> u32 {
    mode & !COOKED_MODE | ENABLE_VIRTUAL_TERMINAL_INPUT
}

/// The cooked variant of a console input mode word: virtual terminal input
/// cleared and the cooked bits set.
pub open spec fn spec_raw_input_off(mode: u32) -> u32 {
    mode & !ENABLE_VIRTUAL_TERMINAL_INPUT | COOKED_MODE
}

/// Switches a console input mode word to its raw variant.
pub fn mode_raw_input_on(original_mode: u32) -> (r: u32)
    ensures
        r == spec_raw_input_on(original_mode),
{
    original_mode & !COOKED_MODE | ENABLE_VIRTUAL_TERMINAL_INPUT
}

/// Switches a console input mode word back to its cooked variant.
pub fn mode_raw_input_off(original_mode: u32) -> (r: u32)
    ensures
        r == spec_raw_input_off(original_mode),
{
    original_mode & !ENABLE_VIRTUAL_TERMINAL_INPUT | COOKED_MODE
}

/// The console branch of the mode controller, over the mode word itself.
/// Cbreak — raw input that still generates signals — cannot be honored by
/// the console API, so any cbreak request fails with `NotSupported` before
/// anything is read or written; otherwise the result is the mode word to put
/// the device in.
pub fn win_stdin_set_raw(current_mode: u32, is_raw: bool, cbreak: bool) -> (r: Result<
    u32,
    TtyError,
>)
    ensures
        cbreak ==> r == Err::<u32, TtyError>(TtyError::NotSupported),
        !cbreak && is_raw ==> r == Ok::<u32, TtyError>(spec_raw_input_on(current_mode)),
        !cbreak && !is_raw ==> r == Ok::<u32, TtyError>(spec_raw_input_off(current_mode)),
{
    if cbreak {
        return Err(TtyError::NotSupported);
    }
    if is_raw {
        Ok(mode_raw_input_on(current_mode))
    } else {
        Ok(mode_raw_input_off(current_mode))
    }
}

/// Validation of a resolved console handle: the null handle and the
/// invalid-handle sentinel are structurally invalid, and any other value
/// passes through.
pub fn check_windows_handle(handle: u64) -> (r: Result<u64, TtyError>)
    ensures
        handle == 0 || handle == INVALID_HANDLE ==> r == Err::<u64, TtyError>(
            TtyError::InvalidHandle,
        ),
        handle != 0 && handle != INVALID_HANDLE ==> r == Ok::<u64, TtyError>(handle),
{
    if handle == 0 || handle == INVALID_HANDLE {
        Err(TtyError::InvalidHandle)
    } else {
        Ok(handle)
    }
}

/// Law: switching a console mode word raw twice produces the same word as
/// switching it once.
pub proof fn lemma_win_raw_on_idempotent(mode: u32)
    ensures
        spec_raw_input_on(spec_raw_input_on(mode)) == spec_raw_input_on(mode),
{
    assert(spec_raw_input_on(spec_raw_input_on(mode)) == spec_raw_input_on(mode))
        by (bit_vector);
}

/// Law: switching a console mode word raw and back returns the starting word
/// exactly, for every word that is cooked to begin with — the three cooked
/// bits set and the virtual-terminal-input bit clear.  (A word with a cooked
/// bit clear, such as zero, comes back with all three set instead.)
pub proof fn lemma_win_raw_round_trip(mode: u32)
    requires
        mode & COOKED_MODE == COOKED_MODE,
        mode & ENABLE_VIRTUAL_TERMINAL_INPUT == 0,
    ensures
        spec_raw_input_off(spec_raw_input_on(mode)) == mode,
{
    assert(spec_raw_input_off(spec_raw_input_on(mode)) == mode) by (bit_vector)
        requires
            mode & COOKED_MODE == COOKED_MODE,
            mode & ENABLE_VIRTUAL_TERMINAL_INPUT == 0u32,
    ;
}

} // verus!
