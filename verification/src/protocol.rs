//! Wire protocol of the link to the companion chip: error taxonomy, message
//! kind and opcode bytes, and the frame codec.
//!
//! A frame on the wire is `[kind][length][operation][payload...]` with
//! `length == 1 + payload.len()`. The two header bytes travel in a transfer
//! of their own before the remaining `length` bytes.

use vstd::prelude::*;

verus! {

/// Errors of the link layer: a send refused while a transmit transfer is
/// still outstanding, or a payload that no frame can carry.
#[derive(Clone, Copy, PartialEq, Eq, Structural, Debug)]
pub enum Error {
    LinkBusy,
    PayloadTooLarge,
}

/// Kind tag of the Bluetooth subsystem; the wake acknowledgement arrives
/// under it.
pub const MSG_TYPE_BLE: u8 = 6;

/// Kind tag of the LED subsystem.
pub const MSG_TYPE_LED: u8 = 9;

/// Operation byte of the reserved wake-acknowledgement frame
/// (kind `MSG_TYPE_BLE`). Such a frame is never handed to the application.
pub const WAKE_ACK_OP: u8 = 170;

/// LED opcode: ask for the current theme id.
pub const LED_OP_GET_THEME_ID: u8 = 1;
/// LED opcode: switch to theme mode, or select a theme when the payload
/// carries an index.
pub const LED_OP_THEME_MODE: u8 = 2;
/// LED opcode: advance theme, animation speed or brightness; the three
/// payload bytes select which, one-hot.
pub const LED_OP_CONFIG_CMD: u8 = 3;
/// LED opcode: push the pressed-key snapshot.
pub const LED_OP_KEY: u8 = 4;
/// LED opcode: push music visualizer levels.
pub const LED_OP_MUSIC: u8 = 5;
/// LED opcode: set individual key colors from a color-table payload.
pub const LED_OP_SET_INDIVIDUAL_KEYS: u8 = 6;
/// LED opcode: acknowledgement of `LED_OP_THEME_MODE`.
pub const LED_OP_ACK_THEME_MODE: u8 = 130;
/// LED opcode: acknowledgement of `LED_OP_CONFIG_CMD`.
pub const LED_OP_ACK_CONFIG_CMD: u8 = 131;
/// LED opcode: acknowledgement of `LED_OP_SET_INDIVIDUAL_KEYS`.
pub const LED_OP_ACK_SET_INDIVIDUAL_KEYS: u8 = 134;

/// Capacity of each transport buffer.
pub const BUFFER_SIZE: usize = 255;

/// Largest payload a frame can carry: the length byte holds
/// `1 + payload.len()`, and the whole frame, two header bytes included,
/// must fit a transport buffer of `BUFFER_SIZE` bytes.
pub const MAX_PAYLOAD_LEN: usize = 252;

/// A decoded message: kind tag, opcode, payload. Built from a completed
/// frame and meant to be consumed by a handler right away.
pub struct Message {
    pub msg_type: u8,
    pub operation: u8,
    pub data: Vec<u8>,
}

/// The bytes of a whole frame: kind, length (`1 + payload.len()`),
/// operation, then the payload.
pub open spec fn frame_seq(kind: u8, operation: u8, payload: Seq<u8>) -> Seq<u8> {
    seq![kind, (payload.len() + 1) as u8, operation] + payload
}

/// True when a payload of this length can be framed into a buffer of
/// capacity `cap`.
pub open spec fn encodable(payload_len: nat, cap: nat) -> bool {
    payload_len <= MAX_PAYLOAD_LEN && payload_len + 3 <= cap
}

/// Writes the frame for `(kind, operation, payload)` over the front of
/// `out` and returns the number of bytes written; bytes past the frame are
/// untouched. Rejects a payload that the length byte or the buffer cannot
/// carry, leaving `out` as it was.
pub fn encode(kind: u8, operation: u8, payload: &[u8], out: &mut Vec<u8>) -> (r: Result<
    usize,
    Error,
>)
    ensures
        final(out)@.len() == old(out)@.len(),
        encodable(payload@.len(), old(out)@.len()) ==> {
            &&& r == Ok::<usize, Error>((payload@.len() + 3) as usize)
            &&& final(out)@ == frame_seq(kind, operation, payload@) + old(out)@.subrange(
                (payload@.len() + 3) as int,
                old(out)@.len() as int,
            )
        },
        !encodable(payload@.len(), old(out)@.len()) ==> {
            &&& r == Err::<usize, Error>(Error::PayloadTooLarge)
            &&& final(out)@ == old(out)@
        },
{
    if payload.len() > MAX_PAYLOAD_LEN || out.len() < 3 || payload.len() > out.len() - 3 {
        return Err(Error::PayloadTooLarge);
    }
    let ghost orig = out@;
    out.set(0, kind);
    out.set(1, (payload.len() + 1) as u8);
    out.set(2, operation);
    let mut i: usize = 0;
    while i < payload.len()
        invariant
            i <= payload@.len(),
            encodable(payload@.len(), orig.len()),
            out@.len() == orig.len(),
            out@[0] == kind,
            out@[1] == (payload@.len() + 1) as u8,
            out@[2] == operation,
            forall|j: int| 0 <= j < i ==> out@[3 + j] == payload@[j],
            forall|j: int| 3 + payload@.len() <= j < orig.len() ==> out@[j] == orig[j],
        decreases payload@.len() - i,
    {
        out.set(3 + i, payload[i]);
        i += 1;
    }
    proof {
        assert(out@ =~= frame_seq(kind, operation, payload@) + orig.subrange(
            (payload@.len() + 3) as int,
            orig.len() as int,
        ));
    }
    Ok(payload.len() + 3)
}

/// Rebuilds a message from a received frame: `raw_header` is the two-byte
/// header `[kind, length]`, and `body` holds exactly `length` bytes —
/// opcode first, payload after. The transport guarantees that the body
/// transfer moved exactly the declared number of bytes.
pub fn decode(raw_header: &[u8; 2], body: &[u8]) -> (m: Message)
    requires
        body@.len() == raw_header@[1] as int,
        raw_header@[1] >= 1,
    ensures
        m.msg_type == raw_header@[0],
        m.operation == body@[0],
        m.data@ == body@.subrange(1, body@.len() as int),
{
    let mut data: Vec<u8> = Vec::new();
    let mut i: usize = 1;
    while i < body.len()
        invariant
            1 <= i <= body@.len(),
            data@ == body@.subrange(1, i as int),
        decreases body@.len() - i,
    {
        data.push(body[i]);
        i += 1;
        proof {
            assert(data@ =~= body@.subrange(1, i as int));
        }
    }
    proof {
        assert(data@ =~= body@.subrange(1, body@.len() as int));
    }
    Message { msg_type: raw_header[0], operation: body[0], data }
}

/// Round trip: a frame built from a triple with a payload of at most
/// `MAX_PAYLOAD_LEN` bytes declares the right length, and splitting it as
/// the receiver does — two header bytes, then a body whose first byte is
/// the opcode and whose rest is the payload — gives back exactly the
/// triple it was built from.
pub proof fn lemma_frame_round_trip(kind: u8, operation: u8, payload: Seq<u8>)
    requires
        payload.len() <= MAX_PAYLOAD_LEN,
    ensures
        ({
            let f = frame_seq(kind, operation, payload);
            let body = f.subrange(2, f.len() as int);
            &&& f.len() == payload.len() + 3
            &&& f[0] == kind
            &&& f[1] as int == payload.len() + 1
            &&& body.len() == f[1] as int
            &&& body[0] == operation
            &&& body.subrange(1, body.len() as int) == payload
        }),
{
    let f = frame_seq(kind, operation, payload);
    let body = f.subrange(2, f.len() as int);
    assert(body.subrange(1, body.len() as int) =~= payload);
}

} // verus!
