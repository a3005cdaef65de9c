use tty_control::error::TtyError;
use tty_control::posix;
use tty_control::posix::TermMode;
use tty_control::windows;
use tty_control::windows::mode_raw_input_off;
use tty_control::windows::mode_raw_input_on;

#[test]
fn test_winos_raw_mode_transitions() {
    let known_off_modes = [0xf7 /* Win10/CMD */, 0x1f7 /* Win10/WinTerm */];
    let known_on_modes = [0x2f0 /* Win10/CMD */, 0x3f0 /* Win10/WinTerm */];

    // assert known transitions
    assert_eq!(known_on_modes[0], mode_raw_input_on(known_off_modes[0]));
    assert_eq!(known_on_modes[1], mode_raw_input_on(known_off_modes[1]));

    // assert ON-OFF round-trip is neutral
    assert_eq!(
        known_off_modes[0],
        mode_raw_input_off(mode_raw_input_on(known_off_modes[0]))
    );
    assert_eq!(
        known_off_modes[1],
        mode_raw_input_off(mode_raw_input_on(known_off_modes[1]))
    );
}

#[test]
fn win_cbreak_not_supported() {
    // The console branch cannot honor cbreak, whichever way the switch goes.
    assert_eq!(
        windows::win_stdin_set_raw(0xf7, true, true),
        Err(TtyError::NotSupported)
    );
    assert_eq!(
        windows::win_stdin_set_raw(0xf7, false, true),
        Err(TtyError::NotSupported)
    );
    // Without cbreak the transforms apply.
    assert_eq!(windows::win_stdin_set_raw(0xf7, true, false), Ok(0x2f0));
    assert_eq!(windows::win_stdin_set_raw(0x2f0, false, false), Ok(0xf7));
}

#[test]
fn win_handle_validation() {
    assert_eq!(
        windows::check_windows_handle(0),
        Err(TtyError::InvalidHandle)
    );
    assert_eq!(
        windows::check_windows_handle(u64::MAX),
        Err(TtyError::InvalidHandle)
    );
    assert_eq!(windows::check_windows_handle(0x1c4), Ok(0x1c4));
}

#[test]
fn make_raw_exact_flags() {
    let m = TermMode {
        iflag: 0x537,
        cflag: 0xbf,
        lflag: 0x8a3b,
        vmin: 3,
        vtime: 9,
    };
    let r = posix::make_raw(&m, false);
    assert_eq!(r.iflag, 0x5);
    assert_eq!(r.cflag, 0xbf);
    assert_eq!(r.lflag, 0xa30);
    assert_eq!(r.vmin, 1);
    assert_eq!(r.vtime, 0);
}

#[test]
fn make_raw_cbreak_keeps_signal_flag() {
    let m = TermMode {
        iflag: 0,
        cflag: 0,
        lflag: posix::ISIG | posix::ECHO,
        vmin: 0,
        vtime: 0,
    };
    let with_signals = posix::make_raw(&m, true);
    assert_eq!(with_signals.lflag, posix::ISIG);
    let without_signals = posix::make_raw(&m, false);
    assert_eq!(without_signals.lflag, 0);
}

#[test]
fn enable_twice_keeps_baseline() {
    let baseline = TermMode {
        iflag: 0x4500,
        cflag: 0xbf,
        lflag: 0x8a3b,
        vmin: 1,
        vtime: 0,
    };
    let (device1, saved1) = posix::enable_raw_mode(baseline, None, false);
    let (device2, saved2) = posix::enable_raw_mode(device1, saved1, false);
    // The slot still holds the pre-raw baseline, not a raw-on-raw mixture.
    assert_eq!(saved2, Some(baseline));
    assert_eq!(saved2, saved1);
    // The device mode equals what a single enable produces.
    assert_eq!(device2, device1);
}

#[test]
fn round_trip_plain_baseline() {
    let plain = TermMode {
        iflag: 0x500,
        cflag: 0xbf,
        lflag: 0x8a3b,
        vmin: 1,
        vtime: 0,
    };
    let (raw, saved) = posix::enable_raw_mode(plain, None, false);
    assert_ne!(raw, plain);
    let (restored, cleared) = posix::disable_raw_mode(raw, saved);
    assert_eq!(restored, plain);
    assert_eq!(cleared, None);
}

#[test]
fn round_trip_exotic_baseline() {
    // An already-exotic emulator default: parity checking, stripping, flow
    // control and extended processing on, a two-byte read minimum.
    let exotic = TermMode {
        iflag: posix::BRKINT | posix::ICRNL | posix::INPCK | posix::ISTRIP | posix::IXON,
        cflag: 0x4b00,
        lflag: posix::ECHO | posix::ICANON | posix::IEXTEN | posix::ISIG,
        vmin: 2,
        vtime: 7,
    };
    let (raw, saved) = posix::enable_raw_mode(exotic, None, true);
    assert_ne!(raw, exotic);
    let (restored, cleared) = posix::disable_raw_mode(raw, saved);
    assert_eq!(restored, exotic);
    assert_eq!(cleared, None);
}

#[test]
fn disable_with_nothing_saved_is_noop() {
    let device = TermMode {
        iflag: 0x500,
        cflag: 0xbf,
        lflag: 0x8a3b,
        vmin: 1,
        vtime: 0,
    };
    let (after, slot) = posix::disable_raw_mode(device, None);
    assert_eq!(after, device);
    assert_eq!(slot, None);
}

#[test]
fn posix_constants_match_platform() {
    assert_eq!(posix::BRKINT, libc::BRKINT);
    assert_eq!(posix::ICRNL, libc::ICRNL);
    assert_eq!(posix::INPCK, libc::INPCK);
    assert_eq!(posix::ISTRIP, libc::ISTRIP);
    assert_eq!(posix::IXON, libc::IXON);
    assert_eq!(posix::CS8, libc::CS8);
    assert_eq!(posix::ECHO, libc::ECHO);
    assert_eq!(posix::ICANON, libc::ICANON);
    assert_eq!(posix::IEXTEN, libc::IEXTEN);
    assert_eq!(posix::ISIG, libc::ISIG);
}
