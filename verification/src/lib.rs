//! Emulite: an interpreter core for historical game consoles.
//!
//! The crate models, per architecture, the instruction interpreter, the
//! memory-mapped bus with its devices and bank switching, and the
//! per-platform orchestration that keeps a CPU and its peripheral chips in
//! lock step.  Every operation is specified by a contract and checked by
//! Verus.

use vstd::prelude::*;

pub mod cpu;
pub mod emulator;
pub mod error;
pub mod gui;
pub mod memory;
pub mod text;
pub mod input;
pub mod platforms;
pub mod utils;
pub mod video;

pub use emulator::Emulator;
pub use error::{EmuliteError, EmuliteResult};
pub use platforms::Platform;

verus! {

} // verus!
