//! Terminal attribute snapshots, and the handle that keeps the input mode and
//! the terminal's configuration in step.

use crate::input::Mode;
use vstd::prelude::*;

verus! {

/// The bit of the local flags that turns on canonical, line-buffered input.
pub const CANONICAL: u32 = 0o2;

/// The bit of the local flags that turns on local echo.
pub const ECHO: u32 = 0o10;

/// `termios::os::linux::ICANON`, which that crate defines as octal 2.
#[verifier::external_body]
fn canonical_flag() -> (bit: u32)
    ensures
        bit == CANONICAL,
{
    termios::os::linux::ICANON
}

/// `termios::os::linux::ECHO`, which that crate defines as octal 10.
#[verifier::external_body]
fn echo_flag() -> (bit: u32)
    ensures
        bit == ECHO,
{
    termios::os::linux::ECHO
}

/// A snapshot of a terminal's attributes, as plain values.
#[derive(Debug, Clone, Copy, PartialEq, Eq)]
pub struct Attributes {
    pub input_flags: u32,
    pub output_flags: u32,
    pub control_flags: u32,
    pub local_flags: u32,
    pub control_chars: [u8; 32],
}

/// The terminal refused to give or to take its attributes.
#[derive(Debug, Clone, Copy, PartialEq, Eq, Structural)]
pub struct DeviceError {
    /// The error number that the operating system reported.
    pub errno: i32,
}

/// The raw-mode snapshot derived from `snapshot`: canonical input and echo
/// are off, and everything else is as it was.
pub open spec fn raw_of(snapshot: Attributes) -> Attributes {
    Attributes { local_flags: snapshot.local_flags & !(CANONICAL | ECHO), ..snapshot }
}

/// The snapshot that belongs to a mode: the captured one for line mode, its
/// raw derivative for symbol mode.
pub open spec fn snapshot_of(captured: Attributes, mode: Mode) -> Attributes {
    match mode {
        Mode::Line => captured,
        Mode::Symbol => raw_of(captured),
    }
}

/// Derives the raw-mode snapshot: clears the canonical-input and echo flags
/// and leaves every other attribute unchanged.
pub fn derive_raw(snapshot: &Attributes) -> (raw: Attributes)
    ensures
        raw == raw_of(*snapshot),
{
    let cleared: u32 = !(canonical_flag() | echo_flag());
    Attributes {
        input_flags: snapshot.input_flags,
        output_flags: snapshot.output_flags,
        control_flags: snapshot.control_flags,
        local_flags: snapshot.local_flags & cleared,
        control_chars: snapshot.control_chars,
    }
}

/// In a raw snapshot the canonical and echo bits are clear, and every other
/// bit of the local flags is the bit of the snapshot it was derived from.
pub proof fn lemma_raw_clears_canonical_and_echo(snapshot: Attributes)
    ensures
        raw_of(snapshot).local_flags & CANONICAL == 0,
        raw_of(snapshot).local_flags & ECHO == 0,
        raw_of(snapshot).local_flags | (snapshot.local_flags & (CANONICAL | ECHO))
            == snapshot.local_flags,
{
    let flags = snapshot.local_flags;
    assert((flags & !(0o2u32 | 0o10u32)) & 0o2u32 == 0) by (bit_vector);
    assert((flags & !(0o2u32 | 0o10u32)) & 0o10u32 == 0) by (bit_vector);
    assert((flags & !(0o2u32 | 0o10u32)) | (flags & (0o2u32 | 0o10u32)) == flags)
        by (bit_vector);
}

/// Deriving the raw snapshot of a raw snapshot changes nothing.
pub proof fn lemma_raw_is_idempotent(snapshot: Attributes)
    ensures
        raw_of(raw_of(snapshot)) == raw_of(snapshot),
{
    let flags = snapshot.local_flags;
    assert((flags & !(0o2u32 | 0o10u32)) & !(0o2u32 | 0o10u32) == flags & !(0o2u32 | 0o10u32))
        by (bit_vector);
}

} // verus!
