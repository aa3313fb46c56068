use anne_key::bluetooth::BluetoothMode;
use anne_key::led::Led;
use anne_key::led::LedMode;
use anne_key::protocol::Error;

#[test]
fn power_pin_and_theme_state() {
    let mut led = Led::new();
    assert!(led.pc15);
    assert!(!led.state);
    assert!(led.off().is_ok());
    assert!(!led.pc15);
    assert!(led.on().is_ok());
    assert!(led.pc15);
}

#[test]
fn commands_queue_expected_frames() {
    let mut led = Led::new();
    assert!(led.next_theme().is_ok());
    assert_eq!(led.serial.queued_frame(), vec![9, 4, 3, 1, 0, 0]);
    led.serial.tx_interrupt();

    assert!(led.next_brightness().is_ok());
    assert_eq!(led.serial.queued_frame(), vec![9, 4, 3, 0, 0, 1]);
    led.serial.tx_interrupt();

    assert!(led.next_animation_speed().is_ok());
    assert_eq!(led.serial.queued_frame(), vec![9, 4, 3, 0, 1, 0]);
    led.serial.tx_interrupt();

    assert!(led.set_theme(7).is_ok());
    assert_eq!(led.serial.queued_frame(), vec![9, 2, 2, 7]);
    led.serial.tx_interrupt();

    assert!(led.get_theme_id().is_ok());
    assert_eq!(led.serial.queued_frame(), vec![9, 1, 1]);
    led.serial.tx_interrupt();

    assert!(led.send_keys(&[1, 0, 1]).is_ok());
    assert_eq!(led.serial.queued_frame(), vec![9, 4, 4, 1, 0, 1]);
    led.serial.tx_interrupt();

    assert!(led.send_music(&[5, 6]).is_ok());
    assert_eq!(led.serial.queued_frame(), vec![9, 3, 5, 5, 6]);
}

#[test]
fn second_command_while_busy_is_refused() {
    let mut led = Led::new();
    assert!(led.next_theme().is_ok());
    let queued = led.serial.queued_frame();
    assert_eq!(led.set_theme(3), Err(Error::LinkBusy));
    assert_eq!(led.serial.queued_frame(), queued);
    led.serial.tx_interrupt();
    assert!(led.set_theme(3).is_ok());
}

#[test]
fn toggle_flips_state_and_selects_command() {
    let mut led = Led::new();
    assert!(led.toggle().is_ok());
    assert!(led.state);
    // entering theme mode sends the bare theme-mode command
    assert_eq!(led.serial.queued_frame(), vec![9, 1, 2]);
    led.serial.tx_interrupt();
    assert!(led.toggle().is_ok());
    assert!(!led.state);
    // leaving selects theme 15
    assert_eq!(led.serial.queued_frame(), vec![9, 2, 2, 15]);
}

#[test]
fn theme_mode_enters_state() {
    let mut led = Led::new();
    assert!(led.theme_mode().is_ok());
    assert!(led.state);
    assert_eq!(led.serial.queued_frame(), vec![9, 1, 2]);
}

#[test]
fn wake_ack_is_never_surfaced_by_poll() {
    let mut led = Led::new();
    assert!(led.get_theme_id().is_ok());
    assert!(led.poll(true, &[6, 1]).is_none());
    // the wake acknowledgement starts the queued transmit, silently
    assert!(led.poll(true, &[170]).is_none());
    led.serial.tx_interrupt();
    assert!(led.get_theme_id().is_ok());
}

#[test]
fn acknowledgements_are_consumed() {
    let mut led = Led::new();
    // theme-mode acknowledgement: kind 9, operation 130
    assert!(led.poll(true, &[9, 2]).is_none());
    assert!(led.poll(true, &[130, 4]).is_none());
    // config-cmd acknowledgement
    assert!(led.poll(true, &[9, 4]).is_none());
    assert!(led.poll(true, &[131, 4, 3, 2]).is_none());
    // set-individual-keys acknowledgement
    assert!(led.poll(true, &[9, 2]).is_none());
    assert!(led.poll(true, &[134, 0xca]).is_none());
}

#[test]
fn unhandled_message_is_surfaced() {
    let mut led = Led::new();
    assert!(led.poll(true, &[7, 3]).is_none());
    let m = led.poll(true, &[42, 1, 2]).expect("expected a surfaced message");
    assert_eq!(m.msg_type, 7);
    assert_eq!(m.operation, 42);
    assert_eq!(m.data, vec![1, 2]);
}

#[test]
fn idle_poll_is_noop() {
    let mut led = Led::new();
    assert!(led.poll(false, &[]).is_none());
}

#[test]
fn bluetooth_pin_mode_payload() {
    let mut led = Led::new();
    assert!(led.bluetooth_pin_mode().is_ok());
    let frame = led.serial.queued_frame();
    assert_eq!(frame.len(), 60);
    assert_eq!(&frame[..5], &[9, 58, 6, 0xca, 11]);
    // first entry: key position 1, green, steady
    assert_eq!(&frame[5..10], &[1, 0x00, 0xff, 0x00, 1]);
    // last entry: the enter key, blue, steady
    assert_eq!(&frame[55..60], &[41, 0x00, 0x00, 0xff, 1]);
}

#[test]
fn bluetooth_mode_pushes_rendered_table() {
    let mut led = Led::new();
    assert!(led.bluetooth_mode(0, 0, BluetoothMode::Unknown, false).is_ok());
    let frame = led.serial.queued_frame();
    // 13 keys are colored in this state: 2 + 5 * 13 payload bytes
    assert_eq!(frame.len(), 3 + 67);
    assert_eq!(&frame[..5], &[9, 68, 6, 0xca, 14]);
    // first entry: position 0, leave-layer key, green flashing
    assert_eq!(&frame[5..10], &[0, 0x00, 0xff, 0x00, 2]);
    // second entry: position 5, the USB-report toggle, white flashing
    assert_eq!(&frame[10..15], &[5, 0xff, 0xff, 0xff, 2]);
    // third entry: position 10, legacy-mode toggle under unknown mode, red
    assert_eq!(&frame[15..20], &[10, 0x44, 0x00, 0x00, 1]);
}

#[test]
fn bluetooth_mode_propagates_busy() {
    let mut led = Led::new();
    assert!(led.next_theme().is_ok());
    assert_eq!(led.bluetooth_mode(0, 1, BluetoothMode::Ble, true), Err(Error::LinkBusy));
}

#[test]
fn led_mode_wire_bytes() {
    assert_eq!(LedMode::_Off.value(), 0);
    assert_eq!(LedMode::On.value(), 1);
    assert_eq!(LedMode::Flash.value(), 2);
}
