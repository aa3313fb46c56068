use anne_key::bluetooth::BluetoothMode;
use anne_key::layout::bt_layout;
use anne_key::theme::layout_to_theme;
use anne_key::theme::LedTheme;

#[test]
fn serialize_three_colored_keys() {
    let mut t = LedTheme::new();
    t.key_colors[2] = Some((1, 2, 3, 1));
    t.key_colors[10] = Some((4, 5, 6, 2));
    t.key_colors[50] = Some((7, 8, 9, 1));
    let mut payload = vec![0u8; 352];
    let len = t.fill_payload(&mut payload);
    assert_eq!(len, 17);
    assert_eq!(payload[0], 0xca);
    assert_eq!(payload[1], 4);
    assert_eq!(&payload[2..7], &[2, 1, 2, 3, 1]);
    assert_eq!(&payload[7..12], &[10, 4, 5, 6, 2]);
    assert_eq!(&payload[12..17], &[50, 7, 8, 9, 1]);
}

#[test]
fn serialize_empty_table() {
    let t = LedTheme::new();
    let mut payload = vec![0u8; 352];
    let len = t.fill_payload(&mut payload);
    assert_eq!(len, 2);
    assert_eq!(payload[0], 0xca);
    assert_eq!(payload[1], 1);
}

#[test]
fn serialize_orders_entries_by_key_index() {
    let mut t = LedTheme::new();
    t.key_colors[69] = Some((9, 9, 9, 1));
    t.key_colors[0] = Some((1, 1, 1, 1));
    let mut payload = vec![0u8; 352];
    let len = t.fill_payload(&mut payload);
    assert_eq!(len, 12);
    assert_eq!(payload[2], 0);
    assert_eq!(payload[7], 69);
}

#[test]
fn serialize_leaves_tail_untouched() {
    let mut t = LedTheme::new();
    t.key_colors[1] = Some((1, 2, 3, 1));
    let mut payload = vec![0x77u8; 352];
    let len = t.fill_payload(&mut payload);
    assert_eq!(len, 7);
    assert!(payload[len..].iter().all(|&b| b == 0x77));
}

#[test]
fn bluetooth_layout_renders_expected_colors() {
    let layout = bt_layout();
    let t = layout_to_theme(&layout, 0b0010, 2, BluetoothMode::Ble, false);
    // position 0: leave the Bluetooth layer, green flashing
    assert_eq!(t.key_colors[0], Some((0x00, 0xff, 0x00, 2)));
    // position 2: connect host 2, the connected slot, cyan flashing
    assert_eq!(t.key_colors[2], Some((0x00, 0xff, 0xff, 2)));
    // position 1: connect host 1, neither connected nor saved, unlit
    assert_eq!(t.key_colors[1], None);
    // position 16: save host 2, already saved, cyan steady
    assert_eq!(t.key_colors[16], Some((0x00, 0xff, 0xff, 1)));
    // position 15: save host 1, not saved, yellow steady
    assert_eq!(t.key_colors[15], Some((0xff, 0xff, 0x00, 1)));
    // position 6: transparent, unlit
    assert_eq!(t.key_colors[6], None);
    // position 10: legacy-mode toggle under low-energy mode, green steady
    assert_eq!(t.key_colors[10], Some((0x00, 0xff, 0x00, 1)));
}

#[test]
fn rendered_bluetooth_layout_serializes_consistently() {
    let layout = bt_layout();
    let t = layout_to_theme(&layout, 0, 0, BluetoothMode::Unknown, false);
    let colored = t.key_colors.iter().filter(|c| c.is_some()).count();
    assert_eq!(colored, 13);
    let mut payload = vec![0u8; 352];
    let len = t.fill_payload(&mut payload);
    assert_eq!(len, 2 + 5 * colored);
    assert_eq!(payload[1] as usize, 1 + colored);
}
