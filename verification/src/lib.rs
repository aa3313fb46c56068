//! Core logic of a keyboard controller's link to its LED/Bluetooth companion
//! chip: wire-frame encoding and decoding, the half-duplex transport state
//! machine with its wake handshake, the per-key color policy, and the sparse
//! color-table serialization.

pub mod action;
pub mod bluetooth;
pub mod keycodes;
pub mod layout;
pub mod led;
pub mod protocol;
pub mod serial;
pub mod theme;

use vstd::prelude::*;

verus! {

} // verus!
