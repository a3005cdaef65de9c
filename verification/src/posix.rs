use vstd::prelude::*;

verus! {

// The termios flag bits that raw-mode control touches, with the values the
// platform gives them on Linux.  A test holds each one against the
// platform's own definition.

/// Input flag: signal an interrupt on a break condition.
pub const BRKINT: u32 = 0x2;
/// Input flag: translate carriage return to newline on input.
pub const ICRNL: u32 = 0x100;
/// Input flag: enable input parity checking.
pub const INPCK: u32 = 0x10;
/// Input flag: strip the eighth bit off input characters.
pub const ISTRIP: u32 = 0x20;
/// Input flag: software flow control on output.
pub const IXON: u32 = 0x400;
/// Control flag: eight-bit character size.
pub const CS8: u32 = 0x30;
/// Local flag: echo input characters.
pub const ECHO: u32 = 0x8;
/// Local flag: canonical, line-buffered input.
pub const ICANON: u32 = 0x2;
/// Local flag: extended input processing.
pub const IEXTEN: u32 = 0x8000;
/// Local flag: generate signals from the interrupt, quit and suspend
/// characters.
pub const ISIG: u32 = 0x1;

/// The slice of a device's attribute set that raw-mode control reads and
/// rewrites: the input, control and local flag words, and the two
/// read-control characters (minimum bytes to read, inter-byte timeout).
#[derive(Clone, Copy, Debug, PartialEq, Eq, Structural)]
pub struct TermMode {
    /// The input flag word.
    pub iflag: u32,
    /// The control flag word.
    pub cflag: u32,
    /// The local flag word.
    pub lflag: u32,
    /// Minimum number of bytes before a read returns.
    pub vmin: u8,
    /// Inter-byte read timeout, in tenths of a second.
    pub vtime: u8,
}

/// The raw variant of `mode`: break handling, carriage-return translation,
/// parity checking, stripping and software flow control cleared on the input
/// side; eight-bit character size set; canonical buffering, echo and extended
/// processing cleared; reads returning as soon as one byte is available; and,
/// unless `cbreak`, signal generation cleared as well.
pub open spec fn spec_make_raw(mode: TermMode, cbreak: bool) -> TermMode {
    TermMode {
        iflag: mode.iflag & !(BRKINT | ICRNL | INPCK | ISTRIP | IXON),
        cflag: mode.cflag | CS8,
        lflag: if cbreak {
            mode.lflag & !(ECHO | ICANON | IEXTEN)
        } else {
            mode.lflag & !(ECHO | ICANON | IEXTEN | ISIG)
        },
        vmin: 1,
        vtime: 0,
    }
}

/// Computes the raw variant of `mode`; `cbreak` keeps signal generation
/// active.
pub fn make_raw(mode: &TermMode, cbreak: bool) -> (r: TermMode)
    ensures
        r == spec_make_raw(*mode, cbreak),
{
    let lflag: u32 = if cbreak {
        mode.lflag & !(ECHO | ICANON | IEXTEN)
    } else {
        mode.lflag & !(ECHO | ICANON | IEXTEN | ISIG)
    };
    TermMode {
        iflag: mode.iflag & !(BRKINT | ICRNL | INPCK | ISTRIP | IXON),
        cflag: mode.cflag | CS8,
        lflag,
        vmin: 1,
        vtime: 0,
    }
}

/// One enable step of the mode controller, over the mode values themselves:
/// given the device's current mode and the saved slot, yields the mode the
/// device is put in and the slot afterwards.  The first enable saves the
/// just-read device mode; a re-entry keeps the existing saved value and
/// recomputes the raw mode from that baseline.
pub open spec fn spec_enable_raw(
    device: TermMode,
    saved: Option<TermMode>,
    cbreak: bool,
) -> (TermMode, Option<TermMode>) {
    let base = match saved {
        Some(m) => m,
        None => device,
    };
    (spec_make_raw(base, cbreak), Some(base))
}

/// One disable step of the mode controller: a saved mode is applied to the
/// device and consumed; with nothing saved the step is a no-op.
pub open spec fn spec_disable_raw(
    device: TermMode,
    saved: Option<TermMode>,
) -> (TermMode, Option<TermMode>) {
    match saved {
        Some(m) => (m, None),
        None => (device, None),
    }
}

/// Performs one enable step on mode values, as `spec_enable_raw` states it.
pub fn enable_raw_mode(
    device: TermMode,
    saved: Option<TermMode>,
    cbreak: bool,
) -> (r: (TermMode, Option<TermMode>))
    ensures
        r == spec_enable_raw(device, saved, cbreak),
{
    let base = match saved {
        Some(m) => m,
        None => device,
    };
    (make_raw(&base, cbreak), Some(base))
}

/// Performs one disable step on mode values, as `spec_disable_raw` states it.
pub fn disable_raw_mode(
    device: TermMode,
    saved: Option<TermMode>,
) -> (r: (TermMode, Option<TermMode>))
    ensures
        r == spec_disable_raw(device, saved),
{
    match saved {
        Some(m) => (m, None),
        None => (device, None),
    }
}

/// Law: at most one saved mode is held per descriptor, and an enable step
/// while one is already saved never overwrites it: the slot afterwards still
/// holds the same value.
pub proof fn lemma_enable_raw_keeps_saved(device: TermMode, saved: TermMode, cbreak: bool)
    ensures
        spec_enable_raw(device, Some(saved), cbreak).1 == Some(saved),
{
}

/// Law: enabling raw mode twice in a row, with no disable in between, leaves
/// the saved slot exactly as the first enable left it — still holding the
/// pre-raw baseline — and leaves the device in the same mode a single enable
/// produces.
pub proof fn lemma_enable_raw_idempotent(device: TermMode, saved: Option<TermMode>, cbreak: bool)
    ensures
        ({
            let (device1, saved1) = spec_enable_raw(device, saved, cbreak);
            let (device2, saved2) = spec_enable_raw(device1, saved1, cbreak);
            device2 == device1 && saved2 == saved1
        }),
{
}

/// Law: enabling raw mode from a state with nothing saved and then disabling
/// restores the starting device mode exactly, bit for bit, and leaves the
/// slot empty.
pub proof fn lemma_raw_mode_round_trip(device: TermMode, cbreak: bool)
    ensures
        ({
            let (device1, saved1) = spec_enable_raw(device, None, cbreak);
            let (device2, saved2) = spec_disable_raw(device1, saved1);
            device2 == device && saved2 is None
        }),
{
}

/// Law: disabling raw mode with nothing saved succeeds as a no-op: the
/// device mode is untouched and the slot stays empty.
pub proof fn lemma_disable_raw_no_op(device: TermMode)
    ensures
        spec_disable_raw(device, None) == (device, None::<TermMode>),
{
}

} // verus!
