//! Terminal control primitives for the three standard streams.
//!
//! The crate toggles raw input mode on a terminal device while preserving the
//! ability to restore the device's original mode, classifies a descriptor as
//! interactive or not, and queries the terminal's character grid dimensions.
//! The flag arithmetic and the saved-mode bookkeeping are verified; the
//! underlying OS calls stand behind a small set of trusted wrappers.

pub mod error;
pub mod os;
pub mod posix;
pub mod raw;
pub mod size;
pub mod tty;
pub mod windows;
