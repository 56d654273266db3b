//! Terminal input front-end: the logical key vocabulary, the reader's state
//! machine, and the handle that keeps the input mode and the terminal's
//! attributes in step.
//!
//! The library decides; it performs no input or output. Its caller reads the
//! keys, pushes snapshots to the terminal, and reports back what happened.

pub mod handle;
pub mod input;
pub mod key;
pub mod replay;
pub mod terminal;
pub mod upstream;

pub use crate::handle::Arl;
pub use crate::input::{Input, Mode, Reader};
pub use crate::key::{convert_key, Key};
pub use crate::terminal::{derive_raw, Attributes, DeviceError};
