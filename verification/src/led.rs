//! The LED-link controller: per-key color mode tags, and the command layer
//! over the transport to the companion chip that drives the illumination.
//!
//! Each command encodes a fixed opcode and payload and hands them to the
//! transport's `send`, propagating its busy signal unchanged. Incoming
//! messages are dispatched by opcode: known acknowledgements are consumed,
//! anything else is surfaced to the caller for diagnostics.

use vstd::prelude::*;

use crate::bluetooth::BluetoothMode;
use crate::layout::bt_layout;
use crate::layout::bt_layout_spec;
use crate::layout::NUM_KEYS;
use crate::protocol;
use crate::protocol::Error;
use crate::serial::event_ok;
use crate::serial::sent;
use crate::serial::step;
use crate::serial::step_delivery;
use crate::serial::wf;
use crate::serial::Message;
use crate::serial::ReceiveOutcome;
use crate::serial::Serial;
use crate::theme::layout_to_theme;
use crate::theme::lemma_colored_upto_bound;
use crate::theme::theme_payload_bytes;

verus! {

/// Behavior tag attached to a key color on the wire: dark, steady on, or
/// flashing. `value` gives the byte that stands for it in a payload.
#[derive(Clone, Copy, PartialEq, Eq, Structural)]
pub enum LedMode {
    _Off,
    On,
    Flash,
}

/// Payload byte of `LedMode::_Off`.
pub const LED_MODE_OFF: u8 = 0;

/// Payload byte of `LedMode::On`.
pub const LED_MODE_ON: u8 = 1;

/// Payload byte of `LedMode::Flash`.
pub const LED_MODE_FLASH: u8 = 2;

impl LedMode {
    /// The byte that stands for this tag in a wire payload.
    pub open spec fn value_spec(self) -> u8 {
        match self {
            LedMode::_Off => LED_MODE_OFF,
            LedMode::On => LED_MODE_ON,
            LedMode::Flash => LED_MODE_FLASH,
        }
    }

    /// The byte that stands for this tag in a wire payload.
    pub fn value(self) -> (b: u8)
        ensures
            b == self.value_spec(),
    {
        match self {
            LedMode::_Off => LED_MODE_OFF,
            LedMode::On => LED_MODE_ON,
            LedMode::Flash => LED_MODE_FLASH,
        }
    }
}

/// Room for the largest serialized color table: sentinel, count byte and
/// five bytes for each of the 70 keys.
pub const THEME_BUFFER_SIZE: usize = 352;

/// The colors of the Bluetooth layer's rendering under the given device
/// state, key position by key position.
pub open spec fn bt_colors_spec(
    saved_hosts: u8,
    connected_host: u8,
    mode: BluetoothMode,
    usb_report_enabled: bool,
) -> Seq<Option<(u8, u8, u8, u8)>> {
    Seq::new(
        NUM_KEYS as nat,
        |i: int| bt_layout_spec()[i].color_spec(saved_hosts, connected_host, mode, usb_report_enabled),
    )
}

/// The fixed color-table payload of `bluetooth_pin_mode`: the digit keys
/// lit green and the enter key blue, by physical key position.
pub open spec fn pin_mode_payload() -> Seq<u8> {
    seq![
        0xca as u8, 11,
        1, 0x00, 0xff, 0x00, LED_MODE_ON,
        2, 0x00, 0xff, 0x00, LED_MODE_ON,
        3, 0x00, 0xff, 0x00, LED_MODE_ON,
        4, 0x00, 0xff, 0x00, LED_MODE_ON,
        5, 0x00, 0xff, 0x00, LED_MODE_ON,
        6, 0x00, 0xff, 0x00, LED_MODE_ON,
        7, 0x00, 0xff, 0x00, LED_MODE_ON,
        8, 0x00, 0xff, 0x00, LED_MODE_ON,
        9, 0x00, 0xff, 0x00, LED_MODE_ON,
        10, 0x00, 0xff, 0x00, LED_MODE_ON,
        41, 0x00, 0x00, 0xff, LED_MODE_ON,
    ]
}

/// A message the controller consumes itself: one of the LED subsystem's
/// acknowledgements. Anything else goes to the diagnostic sink.
pub open spec fn message_handled(msg_type: u8, operation: u8) -> bool {
    msg_type == protocol::MSG_TYPE_LED && (operation == protocol::LED_OP_ACK_THEME_MODE
        || operation == protocol::LED_OP_ACK_CONFIG_CMD || operation
        == protocol::LED_OP_ACK_SET_INDIVIDUAL_KEYS)
}

/// What the controller did with a delivered message.
pub enum MessageDisposition {
    Handled,
    Unhandled,
}

/// The LED-link controller: the transport to the companion chip, the level
/// of the power pin that feeds it, and whether theme mode is on.
pub struct Led {
    pub serial: Serial,
    pub pc15: bool,
    pub state: bool,
}

impl Led {
    /// A fresh controller: transport at a clean header stage, power pin
    /// pulled up, theme mode off.
    pub fn new() -> (l: Led)
        ensures
            wf(l.serial@),
            crate::serial::send_ready(l.serial@),
            l.serial@.stage is Header,
            l.pc15,
            !l.state,
    {
        Led { serial: Serial::new(), pc15: true, state: false }
    }

    /// Raises the power pin.
    pub fn on(&mut self) -> (r: Result<(), Error>)
        ensures
            r == Ok::<(), Error>(()),
            final(self).pc15,
            final(self).state == old(self).state,
            final(self).serial == old(self).serial,
    {
        self.pc15 = true;
        Ok(())
    }

    /// Drops the power pin and leaves theme mode.
    pub fn off(&mut self) -> (r: Result<(), Error>)
        ensures
            r == Ok::<(), Error>(()),
            !final(self).pc15,
            !final(self).state,
            final(self).serial == old(self).serial,
    {
        self.pc15 = false;
        self.state = false;
        Ok(())
    }

    /// Flips theme mode and tells the companion: entering theme mode sends
    /// the bare theme-mode command, leaving it selects theme 15.
    pub fn toggle(&mut self) -> (r: Result<(), Error>)
        requires
            wf(old(self).serial@),
        ensures
            wf(final(self).serial@),
            final(self).pc15 == old(self).pc15,
            final(self).state == !old(self).state,
            sent(
                old(self).serial@,
                final(self).serial@,
                r,
                protocol::MSG_TYPE_LED,
                protocol::LED_OP_THEME_MODE,
                if !old(self).state {
                    Seq::<u8>::empty()
                } else {
                    seq![15u8]
                },
            ),
    {
        self.state = !self.state;
        if self.state {
            self.theme_mode()
        } else {
            self.set_theme(15)
        }
    }

    /// Advances to the next theme.
    pub fn next_theme(&mut self) -> (r: Result<(), Error>)
        requires
            wf(old(self).serial@),
        ensures
            wf(final(self).serial@),
            final(self).pc15 == old(self).pc15,
            final(self).state == old(self).state,
            sent(
                old(self).serial@,
                final(self).serial@,
                r,
                protocol::MSG_TYPE_LED,
                protocol::LED_OP_CONFIG_CMD,
                seq![1u8, 0u8, 0u8],
            ),
    {
        let payload: [u8; 3] = [1, 0, 0];
        proof {
            assert(payload@ =~= seq![1u8, 0u8, 0u8]);
        }
        self.serial.send(protocol::MSG_TYPE_LED, protocol::LED_OP_CONFIG_CMD, payload.as_slice())
    }

    /// Advances to the next brightness step.
    pub fn next_brightness(&mut self) -> (r: Result<(), Error>)
        requires
            wf(old(self).serial@),
        ensures
            wf(final(self).serial@),
            final(self).pc15 == old(self).pc15,
            final(self).state == old(self).state,
            sent(
                old(self).serial@,
                final(self).serial@,
                r,
                protocol::MSG_TYPE_LED,
                protocol::LED_OP_CONFIG_CMD,
                seq![0u8, 0u8, 1u8],
            ),
    {
        let payload: [u8; 3] = [0, 0, 1];
        proof {
            assert(payload@ =~= seq![0u8, 0u8, 1u8]);
        }
        self.serial.send(protocol::MSG_TYPE_LED, protocol::LED_OP_CONFIG_CMD, payload.as_slice())
    }

    /// Advances to the next animation speed.
    pub fn next_animation_speed(&mut self) -> (r: Result<(), Error>)
        requires
            wf(old(self).serial@),
        ensures
            wf(final(self).serial@),
            final(self).pc15 == old(self).pc15,
            final(self).state == old(self).state,
            sent(
                old(self).serial@,
                final(self).serial@,
                r,
                protocol::MSG_TYPE_LED,
                protocol::LED_OP_CONFIG_CMD,
                seq![0u8, 1u8, 0u8],
            ),
    {
        let payload: [u8; 3] = [0, 1, 0];
        proof {
            assert(payload@ =~= seq![0u8, 1u8, 0u8]);
        }
        self.serial.send(protocol::MSG_TYPE_LED, protocol::LED_OP_CONFIG_CMD, payload.as_slice())
    }

    /// Selects the theme with this index.
    pub fn set_theme(&mut self, theme: u8) -> (r: Result<(), Error>)
        requires
            wf(old(self).serial@),
        ensures
            wf(final(self).serial@),
            final(self).pc15 == old(self).pc15,
            final(self).state == old(self).state,
            sent(
                old(self).serial@,
                final(self).serial@,
                r,
                protocol::MSG_TYPE_LED,
                protocol::LED_OP_THEME_MODE,
                seq![theme],
            ),
    {
        let payload: [u8; 1] = [theme];
        proof {
            assert(payload@ =~= seq![theme]);
        }
        self.serial.send(protocol::MSG_TYPE_LED, protocol::LED_OP_THEME_MODE, payload.as_slice())
    }

    /// Pushes the pressed-key snapshot.
    pub fn send_keys(&mut self, state: &[u8]) -> (r: Result<(), Error>)
        requires
            wf(old(self).serial@),
        ensures
            wf(final(self).serial@),
            final(self).pc15 == old(self).pc15,
            final(self).state == old(self).state,
            sent(
                old(self).serial@,
                final(self).serial@,
                r,
                protocol::MSG_TYPE_LED,
                protocol::LED_OP_KEY,
                state@,
            ),
    {
        self.serial.send(protocol::MSG_TYPE_LED, protocol::LED_OP_KEY, state)
    }

    /// Pushes music visualizer levels.
    pub fn send_music(&mut self, keys: &[u8]) -> (r: Result<(), Error>)
        requires
            wf(old(self).serial@),
        ensures
            wf(final(self).serial@),
            final(self).pc15 == old(self).pc15,
            final(self).state == old(self).state,
            sent(
                old(self).serial@,
                final(self).serial@,
                r,
                protocol::MSG_TYPE_LED,
                protocol::LED_OP_MUSIC,
                keys@,
            ),
    {
        self.serial.send(protocol::MSG_TYPE_LED, protocol::LED_OP_MUSIC, keys)
    }

    /// Asks for the current theme id; the companion answers with it.
    pub fn get_theme_id(&mut self) -> (r: Result<(), Error>)
        requires
            wf(old(self).serial@),
        ensures
            wf(final(self).serial@),
            final(self).pc15 == old(self).pc15,
            final(self).state == old(self).state,
            sent(
                old(self).serial@,
                final(self).serial@,
                r,
                protocol::MSG_TYPE_LED,
                protocol::LED_OP_GET_THEME_ID,
                Seq::<u8>::empty(),
            ),
    {
        let payload: [u8; 0] = [];
        proof {
            assert(payload@ =~= Seq::<u8>::empty());
        }
        self.serial.send(protocol::MSG_TYPE_LED, protocol::LED_OP_GET_THEME_ID, payload.as_slice())
    }

    /// Pushes a serialized color table, setting individual keys.
    pub fn set_keys(&mut self, payload: &[u8]) -> (r: Result<(), Error>)
        requires
            wf(old(self).serial@),
        ensures
            wf(final(self).serial@),
            final(self).pc15 == old(self).pc15,
            final(self).state == old(self).state,
            sent(
                old(self).serial@,
                final(self).serial@,
                r,
                protocol::MSG_TYPE_LED,
                protocol::LED_OP_SET_INDIVIDUAL_KEYS,
                payload@,
            ),
    {
        self.serial.send(protocol::MSG_TYPE_LED, protocol::LED_OP_SET_INDIVIDUAL_KEYS, payload)
    }

    /// Enters theme mode and tells the companion.
    pub fn theme_mode(&mut self) -> (r: Result<(), Error>)
        requires
            wf(old(self).serial@),
        ensures
            wf(final(self).serial@),
            final(self).pc15 == old(self).pc15,
            final(self).state,
            sent(
                old(self).serial@,
                final(self).serial@,
                r,
                protocol::MSG_TYPE_LED,
                protocol::LED_OP_THEME_MODE,
                Seq::<u8>::empty(),
            ),
    {
        self.state = true;
        let payload: [u8; 0] = [];
        proof {
            assert(payload@ =~= Seq::<u8>::empty());
        }
        self.serial.send(protocol::MSG_TYPE_LED, protocol::LED_OP_THEME_MODE, payload.as_slice())
    }

    /// Renders the Bluetooth layer against the live device state and
    /// pushes the serialized color table in one call.
    pub fn bluetooth_mode(
        &mut self,
        saved_hosts: u8,
        connected_host: u8,
        mode: BluetoothMode,
        keyboard_send_usb_report: bool,
    ) -> (r: Result<(), Error>)
        requires
            wf(old(self).serial@),
        ensures
            wf(final(self).serial@),
            final(self).pc15 == old(self).pc15,
            final(self).state == old(self).state,
            sent(
                old(self).serial@,
                final(self).serial@,
                r,
                protocol::MSG_TYPE_LED,
                protocol::LED_OP_SET_INDIVIDUAL_KEYS,
                theme_payload_bytes(
                    bt_colors_spec(saved_hosts, connected_host, mode, keyboard_send_usb_report),
                ),
            ),
    {
        let layout = bt_layout();
        let theme = layout_to_theme(
            &layout,
            saved_hosts,
            connected_host,
            mode,
            keyboard_send_usb_report,
        );
        proof {
            assert(theme.key_colors@ =~= bt_colors_spec(
                saved_hosts,
                connected_host,
                mode,
                keyboard_send_usb_report,
            ));
            lemma_colored_upto_bound(theme.key_colors@, NUM_KEYS as int);
        }
        let mut buffer = theme_buffer();
        let len = theme.fill_payload(&mut buffer);
        let payload = vstd::slice::slice_subrange(buffer.as_slice(), 0, len);
        self.set_keys(payload)
    }

    /// Lights the host-number keys for PIN entry: the digit keys green and
    /// the enter key blue, as the fixed payload `pin_mode_payload`.
    pub fn bluetooth_pin_mode(&mut self) -> (r: Result<(), Error>)
        requires
            wf(old(self).serial@),
        ensures
            wf(final(self).serial@),
            final(self).pc15 == old(self).pc15,
            final(self).state == old(self).state,
            sent(
                old(self).serial@,
                final(self).serial@,
                r,
                protocol::MSG_TYPE_LED,
                protocol::LED_OP_SET_INDIVIDUAL_KEYS,
                pin_mode_payload(),
            ),
    {
        let payload: [u8; 57] = [
            0xca, 11,
            1, 0x00, 0xff, 0x00, LED_MODE_ON,
            2, 0x00, 0xff, 0x00, LED_MODE_ON,
            3, 0x00, 0xff, 0x00, LED_MODE_ON,
            4, 0x00, 0xff, 0x00, LED_MODE_ON,
            5, 0x00, 0xff, 0x00, LED_MODE_ON,
            6, 0x00, 0xff, 0x00, LED_MODE_ON,
            7, 0x00, 0xff, 0x00, LED_MODE_ON,
            8, 0x00, 0xff, 0x00, LED_MODE_ON,
            9, 0x00, 0xff, 0x00, LED_MODE_ON,
            10, 0x00, 0xff, 0x00, LED_MODE_ON,
            41, 0x00, 0x00, 0xff, LED_MODE_ON,
        ];
        proof {
            assert(payload@ =~= pin_mode_payload());
        }
        self.set_keys(payload.as_slice())
    }

    /// Sorts a delivered message: the LED acknowledgements are accepted
    /// and produce no state change; anything else is for the diagnostic
    /// sink. The controller itself is left untouched.
    pub fn handle_message(&mut self, message: &Message) -> (d: MessageDisposition)
        ensures
            *final(self) == *old(self),
            d is Handled <==> message_handled(message.msg_type, message.operation),
    {
        if message.msg_type == protocol::MSG_TYPE_LED && (message.operation
            == protocol::LED_OP_ACK_THEME_MODE || message.operation
            == protocol::LED_OP_ACK_CONFIG_CMD || message.operation
            == protocol::LED_OP_ACK_SET_INDIVIDUAL_KEYS) {
            MessageDisposition::Handled
        } else {
            MessageDisposition::Unhandled
        }
    }

    /// One poll of the receive machine, with the bytes a completed
    /// transfer moved. The transport steps exactly as `step` says; a
    /// delivered frame is dispatched through `handle_message`, and only an
    /// unhandled one comes back, for the diagnostic sink. The wake
    /// acknowledgement never appears here: the transport consumes it.
    pub fn poll(&mut self, completion: bool, received: &[u8]) -> (r: Option<Message>)
        requires
            wf(old(self).serial@),
            event_ok(old(self).serial@, completion, received@),
        ensures
            wf(final(self).serial@),
            final(self).serial@ == step(old(self).serial@, completion, received@),
            final(self).pc15 == old(self).pc15,
            final(self).state == old(self).state,
            match step_delivery(old(self).serial@, completion, received@) {
                Some(t) => if message_handled(t.0, t.1) {
                    r is None
                } else {
                    r matches Some(m) && m.msg_type == t.0 && m.operation == t.1 && m.data@ == t.2
                },
                None => r is None,
            },
    {
        match self.serial.receive(completion, received) {
            ReceiveOutcome::Frame(m) => match self.handle_message(&m) {
                MessageDisposition::Handled => None,
                MessageDisposition::Unhandled => Some(m),
            },
            _ => None,
        }
    }
}

/// A zeroed scratch buffer big enough for any serialized color table.
fn theme_buffer() -> (v: Vec<u8>)
    ensures
        v@.len() == THEME_BUFFER_SIZE,
{
    let mut v: Vec<u8> = Vec::new();
    let mut i: usize = 0;
    while i < THEME_BUFFER_SIZE
        invariant
            i <= THEME_BUFFER_SIZE,
            v@.len() == i,
        decreases THEME_BUFFER_SIZE - i,
    {
        v.push(0);
        i += 1;
    }
    v
}

} // verus!
