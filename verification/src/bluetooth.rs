//! State of the Bluetooth link, as the Bluetooth-management collaborator
//! reports it to the rendering pipeline.

use vstd::prelude::*;

verus! {

/// How the wireless link is operating: not yet known, low-energy pairing,
/// or the legacy mode.
#[derive(Clone, Copy, PartialEq, Eq, Structural)]
pub enum BluetoothMode {
    Unknown,
    Ble,
    Legacy,
}

} // verus!
