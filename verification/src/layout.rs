//! The key-binding tables: one action for each of the 70 physical key
//! positions, per selectable layer.

use vstd::prelude::*;

use crate::action::Action as A;
use crate::action::Action;
use crate::keycodes::KeyCode as KC;

verus! {

/// Number of physical key positions on the board.
pub const NUM_KEYS: usize = 70;

/// A binding table: one action per physical key position, row by row, 14
/// positions per row.
pub type Layout = [Action; 70];

/// Index of the function layer among the selectable layers.
pub const LAYER_FN: u8 = 1;

/// Index of the Bluetooth layer among the selectable layers.
pub const LAYER_BT: u8 = 3;

/// The base layer.
pub fn base_layout() -> Layout {
    [
        A::Key(KC::Escape),
        A::Key(KC::N1),
        A::Key(KC::N2),
        A::Key(KC::N3),
        A::Key(KC::N4),
        A::Key(KC::N5),
        A::Key(KC::N6),
        A::Key(KC::N7),
        A::Key(KC::N8),
        A::Key(KC::N9),
        A::Key(KC::N0),
        A::Key(KC::LBracket),
        A::Key(KC::RBracket),
        A::Key(KC::BSpace),
        A::Key(KC::Tab),
        A::Key(KC::Quote),
        A::Key(KC::Comma),
        A::Key(KC::Dot),
        A::Key(KC::P),
        A::Key(KC::Y),
        A::Key(KC::F),
        A::Key(KC::G),
        A::Key(KC::C),
        A::Key(KC::R),
        A::Key(KC::L),
        A::Key(KC::Slash),
        A::Key(KC::Equal),
        A::Key(KC::BSlash),
        A::Key(KC::LCtrl),
        A::Key(KC::A),
        A::Key(KC::O),
        A::Key(KC::E),
        A::Key(KC::U),
        A::Key(KC::I),
        A::Key(KC::D),
        A::Key(KC::H),
        A::Key(KC::T),
        A::Key(KC::N),
        A::Key(KC::S),
        A::Key(KC::Minus),
        A::Key(KC::No),
        A::Key(KC::Enter),
        A::Key(KC::LShift),
        A::Key(KC::SColon),
        A::Key(KC::Q),
        A::Key(KC::J),
        A::Key(KC::K),
        A::Key(KC::X),
        A::Key(KC::B),
        A::Key(KC::M),
        A::Key(KC::W),
        A::Key(KC::V),
        A::Key(KC::Z),
        A::Key(KC::No),
        A::Key(KC::No),
        A::Key(KC::RShift),
        A::LayerMomentary(LAYER_FN),
        A::Key(KC::LMeta),
        A::Key(KC::LAlt),
        A::Key(KC::No),
        A::Key(KC::No),
        A::Key(KC::Space),
        A::Key(KC::No),
        A::Key(KC::No),
        A::Key(KC::No),
        A::Key(KC::No),
        A::Key(KC::RMeta),
        A::LayerMomentary(LAYER_FN),
        A::LayerMomentary(LAYER_BT),
        A::Key(KC::Grave),
    ]
}

/// The function layer, reached through the momentary function-layer key.
pub fn fn_layout() -> Layout {
    [
        A::Key(KC::Grave),
        A::Key(KC::F1),
        A::Key(KC::F2),
        A::Key(KC::F3),
        A::Key(KC::F4),
        A::Key(KC::F5),
        A::Key(KC::F6),
        A::Key(KC::F7),
        A::Key(KC::F8),
        A::Key(KC::F9),
        A::Key(KC::F10),
        A::Key(KC::F11),
        A::Key(KC::F12),
        A::Key(KC::Delete),
        A::Transparent,
        A::Key(KC::PgUp),
        A::Key(KC::Numlock),
        A::Key(KC::Kp8),
        A::Key(KC::KpPlus),
        A::LedNextBrightness,
        A::LedNextAnimationSpeed,
        A::LedNextTheme,
        A::Key(KC::Up),
        A::LedToggle,
        A::Transparent,
        A::Transparent,
        A::Transparent,
        A::Key(KC::PScreen),
        A::Transparent,
        A::Key(KC::Home),
        A::Key(KC::Kp4),
        A::Key(KC::Kp2),
        A::Key(KC::Kp6),
        A::Key(KC::Insert),
        A::Key(KC::Home),
        A::Key(KC::Left),
        A::Key(KC::Down),
        A::Key(KC::Right),
        A::Key(KC::End),
        A::Transparent,
        A::Key(KC::No),
        A::Transparent,
        A::Transparent,
        A::Key(KC::PgDown),
        A::Key(KC::KpSlash),
        A::Key(KC::KpAsterisk),
        A::Key(KC::KpMinus),
        A::Key(KC::KpDot),
        A::LayerOn(LAYER_BT),
        A::Transparent,
        A::Transparent,
        A::Transparent,
        A::Transparent,
        A::Key(KC::No),
        A::Key(KC::No),
        A::Transparent,
        A::Transparent,
        A::Transparent,
        A::Transparent,
        A::Key(KC::No),
        A::Key(KC::No),
        A::Reset,
        A::Key(KC::No),
        A::Key(KC::No),
        A::Key(KC::No),
        A::Key(KC::No),
        A::Transparent,
        A::Transparent,
        A::Transparent,
        A::Transparent,
    ]
}

/// The second function layer, with the LED controls on the top row.
pub fn fn2_layout() -> Layout {
    [
        A::LedOff,
        A::LedOn,
        A::LedNextTheme,
        A::LedNextAnimationSpeed,
        A::LedNextBrightness,
        A::Transparent,
        A::Transparent,
        A::Transparent,
        A::Transparent,
        A::Transparent,
        A::Transparent,
        A::Transparent,
        A::Transparent,
        A::Transparent,
        A::Transparent,
        A::Transparent,
        A::Transparent,
        A::Transparent,
        A::Transparent,
        A::Transparent,
        A::Transparent,
        A::Transparent,
        A::Transparent,
        A::Transparent,
        A::Transparent,
        A::Transparent,
        A::Transparent,
        A::Transparent,
        A::Transparent,
        A::Transparent,
        A::Transparent,
        A::Transparent,
        A::Transparent,
        A::Transparent,
        A::Transparent,
        A::Transparent,
        A::Transparent,
        A::Transparent,
        A::Transparent,
        A::Transparent,
        A::Key(KC::No),
        A::Transparent,
        A::Transparent,
        A::Transparent,
        A::Transparent,
        A::Transparent,
        A::Transparent,
        A::Transparent,
        A::Transparent,
        A::Transparent,
        A::Transparent,
        A::Transparent,
        A::Transparent,
        A::Transparent,
        A::Transparent,
        A::Transparent,
        A::Transparent,
        A::Transparent,
        A::Transparent,
        A::Key(KC::No),
        A::Key(KC::No),
        A::Transparent,
        A::Key(KC::No),
        A::Key(KC::No),
        A::Key(KC::No),
        A::Key(KC::No),
        A::Transparent,
        A::Transparent,
        A::Transparent,
        A::Transparent,
    ]
}

/// The Bluetooth layer as a sequence, for contracts that speak of its
/// rendering.
pub open spec fn bt_layout_spec() -> Seq<Action> {
    seq![
        Action::LayerOff(LAYER_BT),
        Action::BtConnectHost(1),
        Action::BtConnectHost(2),
        Action::BtConnectHost(3),
        Action::BtConnectHost(4),
        Action::UsbToggle,
        Action::Transparent,
        Action::Transparent,
        Action::Transparent,
        Action::Transparent,
        Action::BtToggleLegacyMode,
        Action::BtOff,
        Action::BtBroadcast,
        Action::BtOn,
        Action::BtHostListQuery,
        Action::BtSaveHost(1),
        Action::BtSaveHost(2),
        Action::BtSaveHost(3),
        Action::BtSaveHost(4),
        Action::Transparent,
        Action::Transparent,
        Action::Transparent,
        Action::Transparent,
        Action::Transparent,
        Action::Transparent,
        Action::Transparent,
        Action::Transparent,
        Action::Transparent,
        Action::Transparent,
        Action::BtDeleteHost(1),
        Action::BtDeleteHost(2),
        Action::BtDeleteHost(3),
        Action::BtDeleteHost(4),
        Action::Transparent,
        Action::Transparent,
        Action::Transparent,
        Action::Transparent,
        Action::Transparent,
        Action::Transparent,
        Action::Transparent,
        Action::Key(KC::No),
        Action::Transparent,
        Action::Transparent,
        Action::Transparent,
        Action::Transparent,
        Action::Transparent,
        Action::Transparent,
        Action::LayerToggle(LAYER_BT),
        Action::LayerOff(LAYER_BT),
        Action::Transparent,
        Action::Transparent,
        Action::Transparent,
        Action::Transparent,
        Action::Transparent,
        Action::Transparent,
        Action::Transparent,
        Action::Transparent,
        Action::Transparent,
        Action::Transparent,
        Action::Key(KC::No),
        Action::Key(KC::No),
        Action::Transparent,
        Action::Key(KC::No),
        Action::Key(KC::No),
        Action::Key(KC::No),
        Action::Key(KC::No),
        Action::Transparent,
        Action::Transparent,
        Action::Transparent,
        Action::Transparent,
    ]
}

/// The Bluetooth layer: host slots, link mode and power controls. Its
/// rendering is what the controller pushes to the companion chip.
pub fn bt_layout() -> (l: Layout)
    ensures
        l@ == bt_layout_spec(),
{
    let l: Layout = [
        A::LayerOff(LAYER_BT),
        A::BtConnectHost(1),
        A::BtConnectHost(2),
        A::BtConnectHost(3),
        A::BtConnectHost(4),
        A::UsbToggle,
        A::Transparent,
        A::Transparent,
        A::Transparent,
        A::Transparent,
        A::BtToggleLegacyMode,
        A::BtOff,
        A::BtBroadcast,
        A::BtOn,
        A::BtHostListQuery,
        A::BtSaveHost(1),
        A::BtSaveHost(2),
        A::BtSaveHost(3),
        A::BtSaveHost(4),
        A::Transparent,
        A::Transparent,
        A::Transparent,
        A::Transparent,
        A::Transparent,
        A::Transparent,
        A::Transparent,
        A::Transparent,
        A::Transparent,
        A::Transparent,
        A::BtDeleteHost(1),
        A::BtDeleteHost(2),
        A::BtDeleteHost(3),
        A::BtDeleteHost(4),
        A::Transparent,
        A::Transparent,
        A::Transparent,
        A::Transparent,
        A::Transparent,
        A::Transparent,
        A::Transparent,
        A::Key(KC::No),
        A::Transparent,
        A::Transparent,
        A::Transparent,
        A::Transparent,
        A::Transparent,
        A::Transparent,
        A::LayerToggle(LAYER_BT),
        A::LayerOff(LAYER_BT),
        A::Transparent,
        A::Transparent,
        A::Transparent,
        A::Transparent,
        A::Transparent,
        A::Transparent,
        A::Transparent,
        A::Transparent,
        A::Transparent,
        A::Transparent,
        A::Key(KC::No),
        A::Key(KC::No),
        A::Transparent,
        A::Key(KC::No),
        A::Key(KC::No),
        A::Key(KC::No),
        A::Key(KC::No),
        A::Transparent,
        A::Transparent,
        A::Transparent,
        A::Transparent,
    ];
    proof {
        assert(l@ =~= bt_layout_spec());
    }
    l
}

} // verus!
