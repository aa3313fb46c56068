use anne_key::action::Action;
use anne_key::bluetooth::BluetoothMode;
use anne_key::keycodes::KeyCode;

const ON: u8 = 1;
const FLASH: u8 = 2;

const RED: (u8, u8, u8, u8) = (0x44, 0x00, 0x00, ON);
const GREEN: (u8, u8, u8, u8) = (0x00, 0xff, 0x00, ON);
const BLUE: (u8, u8, u8, u8) = (0x00, 0x00, 0xff, ON);
const YELLOW: (u8, u8, u8, u8) = (0xff, 0xff, 0x00, ON);
const CYAN: (u8, u8, u8, u8) = (0x00, 0xff, 0xff, ON);
const WHITE: (u8, u8, u8, u8) = (0xff, 0xff, 0xff, ON);

#[test]
fn reset_is_red_regardless_of_state() {
    assert_eq!(Action::Reset.to_color(0, 0, BluetoothMode::Unknown, false), Some(RED));
    assert_eq!(Action::Reset.to_color(0xff, 4, BluetoothMode::Legacy, true), Some(RED));
}

#[test]
fn connect_host_connected_beats_saved() {
    // slot 2 is both connected and saved: the connected rule wins
    assert_eq!(
        Action::BtConnectHost(2).to_color(0b10, 2, BluetoothMode::Ble, false),
        Some((0x00, 0xff, 0xff, FLASH))
    );
}

#[test]
fn connect_host_saved_is_green_else_unlit() {
    assert_eq!(Action::BtConnectHost(2).to_color(0b10, 1, BluetoothMode::Ble, false), Some(GREEN));
    assert_eq!(Action::BtConnectHost(2).to_color(0b01, 1, BluetoothMode::Ble, false), None);
}

#[test]
fn save_host_follows_saved_bitmap() {
    // bit 2 (slot 3) clear: yellow; set: cyan
    assert_eq!(Action::BtSaveHost(3).to_color(0b000, 0, BluetoothMode::Ble, false), Some(YELLOW));
    assert_eq!(Action::BtSaveHost(3).to_color(0b100, 0, BluetoothMode::Ble, false), Some(CYAN));
}

#[test]
fn delete_host_red_only_when_saved() {
    assert_eq!(Action::BtDeleteHost(1).to_color(0b1, 0, BluetoothMode::Ble, false), Some(RED));
    assert_eq!(Action::BtDeleteHost(1).to_color(0b0, 0, BluetoothMode::Ble, false), None);
}

#[test]
fn legacy_mode_toggle_by_bluetooth_mode() {
    assert_eq!(
        Action::BtToggleLegacyMode.to_color(0, 0, BluetoothMode::Unknown, false),
        Some(RED)
    );
    assert_eq!(Action::BtToggleLegacyMode.to_color(0, 0, BluetoothMode::Ble, false), Some(GREEN));
    assert_eq!(
        Action::BtToggleLegacyMode.to_color(0, 0, BluetoothMode::Legacy, false),
        Some(YELLOW)
    );
}

#[test]
fn modifier_keys_are_green() {
    assert_eq!(Action::Key(KeyCode::LShift).to_color(0, 0, BluetoothMode::Ble, false), Some(GREEN));
    assert_eq!(Action::Key(KeyCode::RAlt).to_color(0, 0, BluetoothMode::Ble, false), Some(GREEN));
    assert_eq!(Action::Key(KeyCode::RCtrl).to_color(0, 0, BluetoothMode::Ble, false), Some(GREEN));
}

#[test]
fn meta_keys_are_red_not_modifier_green() {
    // the meta keys are modifiers too, but the earlier red rule wins
    assert_eq!(Action::Key(KeyCode::LMeta).to_color(0, 0, BluetoothMode::Ble, false), Some(RED));
    assert_eq!(Action::Key(KeyCode::RMeta).to_color(0, 0, BluetoothMode::Ble, false), Some(RED));
    assert_eq!(Action::Key(KeyCode::V).to_color(0, 0, BluetoothMode::Ble, false), Some(RED));
}

#[test]
fn six_nine_c_keys_are_blue() {
    assert_eq!(Action::Key(KeyCode::N6).to_color(0, 0, BluetoothMode::Ble, false), Some(BLUE));
    assert_eq!(Action::Key(KeyCode::N9).to_color(0, 0, BluetoothMode::Ble, false), Some(BLUE));
    assert_eq!(Action::Key(KeyCode::C).to_color(0, 0, BluetoothMode::Ble, false), Some(BLUE));
}

#[test]
fn navigation_cluster_is_white() {
    assert_eq!(Action::Key(KeyCode::PScreen).to_color(0, 0, BluetoothMode::Ble, false), Some(WHITE));
    assert_eq!(Action::Key(KeyCode::Home).to_color(0, 0, BluetoothMode::Ble, false), Some(WHITE));
    assert_eq!(Action::Key(KeyCode::Up).to_color(0, 0, BluetoothMode::Ble, false), Some(WHITE));
}

#[test]
fn plain_keys_are_unlit() {
    assert_eq!(Action::Key(KeyCode::A).to_color(0, 0, BluetoothMode::Ble, false), None);
    assert_eq!(Action::Key(KeyCode::Space).to_color(0xff, 4, BluetoothMode::Ble, true), None);
    assert_eq!(Action::Key(KeyCode::Numlock).to_color(0, 0, BluetoothMode::Ble, false), None);
}

#[test]
fn digit_key_of_connected_host_is_cyan() {
    assert_eq!(Action::Key(KeyCode::N1).to_color(0, 1, BluetoothMode::Ble, false), Some(CYAN));
    assert_eq!(Action::Key(KeyCode::N4).to_color(0, 4, BluetoothMode::Ble, false), Some(CYAN));
    assert_eq!(Action::Key(KeyCode::N1).to_color(0, 2, BluetoothMode::Ble, false), None);
}

#[test]
fn usb_toggle_white_steady_or_flashing() {
    assert_eq!(
        Action::UsbToggle.to_color(0, 0, BluetoothMode::Ble, true),
        Some((0xff, 0xff, 0xff, ON))
    );
    assert_eq!(
        Action::UsbToggle.to_color(0, 0, BluetoothMode::Ble, false),
        Some((0xff, 0xff, 0xff, FLASH))
    );
}

#[test]
fn white_steady_command_keys() {
    assert_eq!(Action::BtHostListQuery.to_color(0, 0, BluetoothMode::Ble, false), Some(WHITE));
    assert_eq!(Action::LedNextBrightness.to_color(0, 0, BluetoothMode::Ble, false), Some(WHITE));
    assert_eq!(Action::LayerMomentary(1).to_color(0, 0, BluetoothMode::Ble, false), Some(WHITE));
    assert_eq!(Action::LayerMomentary(2).to_color(0, 0, BluetoothMode::Ble, false), None);
}

#[test]
fn remaining_rule_groups() {
    assert_eq!(Action::LedOff.to_color(0, 0, BluetoothMode::Ble, false), Some(RED));
    assert_eq!(Action::BtOff.to_color(0, 0, BluetoothMode::Ble, false), Some(RED));
    assert_eq!(Action::BtBroadcast.to_color(0, 0, BluetoothMode::Ble, false), Some(GREEN));
    assert_eq!(Action::LedNextAnimationSpeed.to_color(0, 0, BluetoothMode::Ble, false), Some(GREEN));
    assert_eq!(Action::BtOn.to_color(0, 0, BluetoothMode::Ble, false), Some(BLUE));
    assert_eq!(Action::LayerToggle(3).to_color(0, 0, BluetoothMode::Ble, false), Some(YELLOW));
    assert_eq!(
        Action::LayerOff(3).to_color(0, 0, BluetoothMode::Ble, false),
        Some((0x00, 0xff, 0x00, FLASH))
    );
    assert_eq!(
        Action::LedNextTheme.to_color(0, 0, BluetoothMode::Ble, false),
        Some((0x00, 0xff, 0x00, FLASH))
    );
    assert_eq!(
        Action::LedOn.to_color(0, 0, BluetoothMode::Ble, false),
        Some((0x00, 0xff, 0x00, FLASH))
    );
    assert_eq!(Action::Nop.to_color(0, 0, BluetoothMode::Ble, false), None);
    assert_eq!(Action::Transparent.to_color(0, 0, BluetoothMode::Ble, false), None);
    assert_eq!(Action::LedToggle.to_color(0, 0, BluetoothMode::Ble, false), None);
}

#[test]
fn to_action_wraps_and_preserves() {
    assert_eq!(KeyCode::Q.to_action(), Action::Key(KeyCode::Q));
    assert_eq!(Action::Reset.to_action(), Action::Reset);
}

#[test]
fn save_host_out_of_range_slot_is_yellow() {
    // a slot outside 1 through 8 is never saved
    assert_eq!(Action::BtSaveHost(0).to_color(0xff, 0, BluetoothMode::Ble, false), Some(YELLOW));
    assert_eq!(Action::BtSaveHost(9).to_color(0xff, 0, BluetoothMode::Ble, false), Some(YELLOW));
}
