//! Driver for the PicoBorg Reverse dual-motor controller board, spoken to
//! over a byte-oriented command/response bus.
//!
//! The crate is organised around two pieces: a command catalog
//! ([`command`]) that maps every protocol opcode and value code to its
//! single-byte wire value, and a device session ([`diddyborg::DiddyBorg`])
//! that owns a transport handle, performs the identity handshake at
//! construction time, and turns high-level operations (motor power, LED,
//! emergency-stop latch, failsafe, fault query) into command frames.
//!
//! The transport itself (an I2C device file, for instance) is an external
//! collaborator supplied through the [`transport::Transport`] trait;
//! [`mock::MockDevice`] is an in-crate simulation of the peripheral used by
//! the test suite.

use vstd::prelude::*;

pub mod command;
pub mod diddyborg;
pub mod error;
pub mod mock;
pub mod power;
pub mod transport;

pub use diddyborg::DiddyBorg;
pub use error::DiddyBorgError;
pub use power::Power;

verus! {

/// Default bus address of a PicoBorg Reverse peripheral.
pub const DEFAULT_PERIPHERAL_ID: u16 = 0x44;

} // verus!
