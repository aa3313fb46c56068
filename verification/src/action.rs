//! What a physical key can be bound to, and the color policy that maps a
//! binding plus live device state to the key's illumination.

use vstd::prelude::*;

use crate::bluetooth::BluetoothMode;
use crate::keycodes::KeyCode;
use crate::layout::LAYER_FN;
use crate::led::LED_MODE_FLASH;
use crate::led::LED_MODE_ON;

verus! {

/// Everything a physical key can be bound to: nothing, a reset of the key
/// controller, fall-through to a lower layer, the USB-report toggle, a key
/// code, the four layer operations, the LED operations, and the Bluetooth
/// operations. Host slots are 1-based.
#[derive(Clone, Copy, PartialEq, Eq, Structural, Debug)]
pub enum Action {
    Nop,
    Reset,
    Transparent,
    UsbToggle,
    Key(KeyCode),
    LayerMomentary(u8),
    LayerToggle(u8),
    LayerOn(u8),
    LayerOff(u8),
    LedOn,
    LedOff,
    LedToggle,
    LedNextTheme,
    LedNextBrightness,
    LedNextAnimationSpeed,
    LedTheme(u8),
    BtOn,
    BtOff,
    BtSaveHost(u8),
    BtConnectHost(u8),
    BtDeleteHost(u8),
    BtBroadcast,
    BtLegacyMode(bool),
    BtToggleLegacyMode,
    BtHostListQuery,
}

/// Host `slot` has saved credentials: `slot` is a valid 1-based slot and
/// bit `slot - 1` of the saved-hosts bitmap is set.
pub open spec fn has_saved_host_spec(saved_hosts: u8, slot: u8) -> bool {
    &&& 1 <= slot <= 8
    &&& (saved_hosts >> ((slot - 1) as u8)) & 1 == 1
}

/// Relies on bit_field's `BitField::get_bit` for `u8`: the result is bit
/// `bit` of `x`, counting from the least significant; defined for
/// `bit < 8`.
#[verifier::external_body]
fn get_bit_u8(x: u8, bit: usize) -> (r: bool)
    requires
        bit < 8,
    ensures
        r == ((x >> (bit as u8)) & 1 == 1),
{
    bit_field::BitField::get_bit(&x, bit)
}

/// Host `slot` has saved credentials in the bitmap; false for a slot
/// outside 1 through 8.
fn has_saved_host(saved_hosts: u8, slot: u8) -> (r: bool)
    ensures
        r == has_saved_host_spec(saved_hosts, slot),
{
    if 1 <= slot && slot <= 8 {
        get_bit_u8(saved_hosts, (slot - 1) as usize)
    } else {
        false
    }
}

impl KeyCode {
    /// Wraps the key code as the action that presses it, so layout tables
    /// can name keys directly.
    pub fn to_action(self) -> (a: Action)
        ensures
            a == Action::Key(self),
    {
        Action::Key(self)
    }
}

impl Action {
    /// Identity, the counterpart of `KeyCode::to_action` for entries that
    /// already are actions.
    pub fn to_action(self) -> (a: Action)
        ensures
            a == self,
    {
        self
    }

    /// The color policy: first match wins over this ordered rule list.
    ///
    ///  1. USB-report toggle: white, steady when reporting is on, else
    ///     flashing.
    ///  2. Host-list query, next-brightness, or the momentary switch to
    ///     the function layer: white, steady.
    ///  3. Reset, LED off, Bluetooth off, or the left/right meta and `V`
    ///     keys: red, steady.
    ///  4. Bluetooth broadcast or next animation speed: green, steady.
    ///  5. Bluetooth on, or the `6`, `9` and `C` keys: blue, steady.
    ///  6. Layer toggle, any layer: yellow, steady.
    ///  7. Layer off, next theme, or LED on: green, flashing.
    ///  8. The digit key `1` through `4` that names the connected host
    ///     slot: cyan, steady.
    ///  9. Connect-host: cyan flashing when the slot is the connected one,
    ///     else green steady when the slot is saved, else unlit.
    /// 10. Save-host: cyan steady when the slot is saved, else yellow
    ///     steady.
    /// 11. Delete-host: red steady when the slot is saved, else unlit.
    /// 12. Legacy-mode toggle: red, green or yellow steady for unknown,
    ///     low-energy and legacy mode.
    /// 13. Any modifier key: green, steady.
    /// 14. Any navigation-cluster key: white, steady.
    /// 15. Anything else: unlit.
    ///
    /// Rules on distinct action variants can never overlap, so the order
    /// matters only where rules share one: for a key code the order is
    /// rule 3, 5, 8, 13, then 14 (the meta keys are modifiers, and red by
    /// rule 3), and within each Bluetooth host rule the cases are ordered
    /// as written.
    pub open spec fn color_spec(
        self,
        saved_hosts: u8,
        connected_host: u8,
        mode: BluetoothMode,
        usb_report_enabled: bool,
    ) -> Option<(u8, u8, u8, u8)> {
        match self {
            Action::UsbToggle => if usb_report_enabled {
                Some((0xff, 0xff, 0xff, LED_MODE_ON))
            } else {
                Some((0xff, 0xff, 0xff, LED_MODE_FLASH))
            },
            Action::BtHostListQuery => Some((0xff, 0xff, 0xff, LED_MODE_ON)),
            Action::LedNextBrightness => Some((0xff, 0xff, 0xff, LED_MODE_ON)),
            Action::LayerMomentary(layer) => if layer == LAYER_FN {
                Some((0xff, 0xff, 0xff, LED_MODE_ON))
            } else {
                None
            },
            Action::Reset => Some((0x44, 0, 0, LED_MODE_ON)),
            Action::LedOff => Some((0x44, 0, 0, LED_MODE_ON)),
            Action::BtOff => Some((0x44, 0, 0, LED_MODE_ON)),
            Action::BtBroadcast => Some((0, 0xff, 0, LED_MODE_ON)),
            Action::LedNextAnimationSpeed => Some((0, 0xff, 0, LED_MODE_ON)),
            Action::BtOn => Some((0, 0, 0xff, LED_MODE_ON)),
            Action::LayerToggle(_) => Some((0xff, 0xff, 0, LED_MODE_ON)),
            Action::LayerOff(_) => Some((0, 0xff, 0, LED_MODE_FLASH)),
            Action::LedNextTheme => Some((0, 0xff, 0, LED_MODE_FLASH)),
            Action::LedOn => Some((0, 0xff, 0, LED_MODE_FLASH)),
            Action::Key(code) => if code == KeyCode::LMeta || code == KeyCode::RMeta || code
                == KeyCode::V {
                Some((0x44, 0, 0, LED_MODE_ON))
            } else if code == KeyCode::N6 || code == KeyCode::N9 || code == KeyCode::C {
                Some((0, 0, 0xff, LED_MODE_ON))
            } else if (code == KeyCode::N1 && connected_host == 1) || (code == KeyCode::N2
                && connected_host == 2) || (code == KeyCode::N3 && connected_host == 3) || (code
                == KeyCode::N4 && connected_host == 4) {
                Some((0, 0xff, 0xff, LED_MODE_ON))
            } else if code.is_modifier_spec() {
                Some((0, 0xff, 0, LED_MODE_ON))
            } else if code.is_nav_cluster_spec() {
                Some((0xff, 0xff, 0xff, LED_MODE_ON))
            } else {
                None
            },
            Action::BtConnectHost(slot) => if slot == connected_host {
                Some((0, 0xff, 0xff, LED_MODE_FLASH))
            } else if has_saved_host_spec(saved_hosts, slot) {
                Some((0, 0xff, 0, LED_MODE_ON))
            } else {
                None
            },
            Action::BtSaveHost(slot) => if has_saved_host_spec(saved_hosts, slot) {
                Some((0, 0xff, 0xff, LED_MODE_ON))
            } else {
                Some((0xff, 0xff, 0, LED_MODE_ON))
            },
            Action::BtDeleteHost(slot) => if has_saved_host_spec(saved_hosts, slot) {
                Some((0x44, 0, 0, LED_MODE_ON))
            } else {
                None
            },
            Action::BtToggleLegacyMode => match mode {
                BluetoothMode::Unknown => Some((0x44, 0, 0, LED_MODE_ON)),
                BluetoothMode::Ble => Some((0, 0xff, 0, LED_MODE_ON)),
                BluetoothMode::Legacy => Some((0xff, 0xff, 0, LED_MODE_ON)),
            },
            _ => None,
        }
    }

    /// The color the policy assigns to this action under the given device
    /// state: exactly `color_spec`, the ordered rule list above.
    pub fn to_color(
        &self,
        saved_hosts: u8,
        connected_host: u8,
        mode: BluetoothMode,
        usb_report_enabled: bool,
    ) -> (c: Option<(u8, u8, u8, u8)>)
        ensures
            c == self.color_spec(saved_hosts, connected_host, mode, usb_report_enabled),
    {
        match *self {
            Action::UsbToggle => if usb_report_enabled {
                Some((0xff, 0xff, 0xff, LED_MODE_ON))
            } else {
                Some((0xff, 0xff, 0xff, LED_MODE_FLASH))
            },
            Action::BtHostListQuery => Some((0xff, 0xff, 0xff, LED_MODE_ON)),
            Action::LedNextBrightness => Some((0xff, 0xff, 0xff, LED_MODE_ON)),
            Action::LayerMomentary(layer) => if layer == LAYER_FN {
                Some((0xff, 0xff, 0xff, LED_MODE_ON))
            } else {
                None
            },
            Action::Reset => Some((0x44, 0, 0, LED_MODE_ON)),
            Action::LedOff => Some((0x44, 0, 0, LED_MODE_ON)),
            Action::BtOff => Some((0x44, 0, 0, LED_MODE_ON)),
            Action::BtBroadcast => Some((0, 0xff, 0, LED_MODE_ON)),
            Action::LedNextAnimationSpeed => Some((0, 0xff, 0, LED_MODE_ON)),
            Action::BtOn => Some((0, 0, 0xff, LED_MODE_ON)),
            Action::LayerToggle(_) => Some((0xff, 0xff, 0, LED_MODE_ON)),
            Action::LayerOff(_) => Some((0, 0xff, 0, LED_MODE_FLASH)),
            Action::LedNextTheme => Some((0, 0xff, 0, LED_MODE_FLASH)),
            Action::LedOn => Some((0, 0xff, 0, LED_MODE_FLASH)),
            Action::Key(code) => if code == KeyCode::LMeta || code == KeyCode::RMeta || code
                == KeyCode::V {
                Some((0x44, 0, 0, LED_MODE_ON))
            } else if code == KeyCode::N6 || code == KeyCode::N9 || code == KeyCode::C {
                Some((0, 0, 0xff, LED_MODE_ON))
            } else if (code == KeyCode::N1 && connected_host == 1) || (code == KeyCode::N2
                && connected_host == 2) || (code == KeyCode::N3 && connected_host == 3) || (code
                == KeyCode::N4 && connected_host == 4) {
                Some((0, 0xff, 0xff, LED_MODE_ON))
            } else if code.is_modifier() {
                Some((0, 0xff, 0, LED_MODE_ON))
            } else if code.is_nav_cluster() {
                Some((0xff, 0xff, 0xff, LED_MODE_ON))
            } else {
                None
            },
            Action::BtConnectHost(slot) => if slot == connected_host {
                Some((0, 0xff, 0xff, LED_MODE_FLASH))
            } else if has_saved_host(saved_hosts, slot) {
                Some((0, 0xff, 0, LED_MODE_ON))
            } else {
                None
            },
            Action::BtSaveHost(slot) => if has_saved_host(saved_hosts, slot) {
                Some((0, 0xff, 0xff, LED_MODE_ON))
            } else {
                Some((0xff, 0xff, 0, LED_MODE_ON))
            },
            Action::BtDeleteHost(slot) => if has_saved_host(saved_hosts, slot) {
                Some((0x44, 0, 0, LED_MODE_ON))
            } else {
                None
            },
            Action::BtToggleLegacyMode => match mode {
                BluetoothMode::Unknown => Some((0x44, 0, 0, LED_MODE_ON)),
                BluetoothMode::Ble => Some((0, 0xff, 0, LED_MODE_ON)),
                BluetoothMode::Legacy => Some((0xff, 0xff, 0, LED_MODE_ON)),
            },
            _ => None,
        }
    }
}

} // verus!
