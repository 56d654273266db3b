//! The outside types that flow through the library.

use termion::event::Key as TermionKey;
use vstd::prelude::*;

verus! {

/// `termion::event::Key`, the decoded keystroke delivered by the terminal's
/// key source. Its variants are visible to the verifier; nothing is claimed
/// of it beyond its shape.
#[verifier::external_type_specification]
pub struct ExTermionKey(TermionKey);

/// `std::io::Error`, the failure of a single read from the key source. It is
/// only carried through; nothing inside it is read.
#[verifier::external_type_specification]
#[verifier::external_body]
pub struct ExIoError(std::io::Error);

} // verus!
