//! The half-duplex link transport: owns the send and receive buffers, runs
//! the two-stage receive state machine, and carries out the wake handshake.
//!
//! The byte-transfer peripheral is modeled by plain values: an armed
//! receive transfer (offset and byte count into the receive buffer) and a
//! transmit transfer (outstanding byte count and an enabled flag). The
//! surrounding program observes transfer-complete signals and hands the
//! moved bytes to `receive`; a completed transmit is reported through
//! `tx_interrupt`.
//!
//! A send is two-phase: `send` queues the encoded frame, re-arms the
//! receive machine for a fresh header and asserts the wake line; the queued
//! transmit transfer is started only when the peer's wake-acknowledgement
//! frame arrives. The acknowledgement itself is never delivered as an
//! application message.

use vstd::prelude::*;

use crate::protocol;
use crate::protocol::Error;
pub use crate::protocol::Message;

verus! {

/// Which transfer the receive machine is waiting for: the two header bytes,
/// or the body whose byte count the header declared.
#[derive(Clone, Copy, PartialEq, Eq, Structural)]
pub enum ReceiveStage {
    Header,
    Body,
}

/// The transport's state as mathematics: buffer contents as sequences, the
/// armed receive transfer, the queued transmit transfer and the wake line.
#[verifier::ext_equal]
pub struct SerialModel {
    /// Which stage the receive machine is in.
    pub stage: ReceiveStage,
    /// Contents of the send buffer.
    pub send_buffer: Seq<u8>,
    /// Contents of the receive buffer.
    pub receive_buffer: Seq<u8>,
    /// Offset into the receive buffer at which the armed transfer lands.
    pub rx_offset: int,
    /// Byte count of the armed receive transfer.
    pub rx_count: int,
    /// Bytes of the queued transmit transfer still outstanding; zero when
    /// the link is free for a new send.
    pub tx_remaining: int,
    /// Whether the transmit transfer has been started (it is queued by
    /// `send` and started by the wake acknowledgement).
    pub tx_enabled: bool,
    /// Level of the wake line: raised by `send`, dropped when the peer's
    /// first header bytes arrive.
    pub wake_asserted: bool,
}

/// Well-formedness of the transport: full-capacity buffers, and a receive
/// transfer that matches the stage — two header bytes at the front, or a
/// body of exactly the declared length right behind the header.
pub open spec fn wf(m: SerialModel) -> bool {
    &&& m.send_buffer.len() == protocol::BUFFER_SIZE
    &&& m.receive_buffer.len() == protocol::BUFFER_SIZE
    &&& 0 <= m.tx_remaining <= protocol::BUFFER_SIZE
    &&& (m.stage is Header ==> m.rx_offset == 0 && m.rx_count == 2)
    &&& (m.stage is Body ==> {
        &&& m.rx_offset == 2
        &&& m.rx_count == m.receive_buffer[1] as int
        &&& m.rx_count <= protocol::BUFFER_SIZE - 2
    })
}

/// What a transfer-complete signal may look like: the peripheral moved
/// exactly the armed byte count. A header announces a length that fits the
/// buffer (the peer's frames respect the transport's capacity), and a
/// zero-length body transfer never signals completion.
pub open spec fn event_ok(m: SerialModel, completion: bool, received: Seq<u8>) -> bool {
    completion ==> {
        &&& received.len() == m.rx_count
        &&& (m.stage is Header ==> received[1] as int <= protocol::BUFFER_SIZE - 2)
        &&& (m.stage is Body ==> m.rx_count >= 1)
    }
}

/// The reserved wake-acknowledgement tuple.
pub open spec fn is_wake_ack(kind: u8, operation: u8) -> bool {
    kind == protocol::MSG_TYPE_BLE && operation == protocol::WAKE_ACK_OP
}

/// The receive machine's transition on a poll: no-op without a completion;
/// a completed header stores the two bytes, drops the wake line and arms
/// the body transfer; a completed body re-arms the header transfer and, on
/// the wake acknowledgement, starts the queued transmit.
pub open spec fn step(m: SerialModel, completion: bool, received: Seq<u8>) -> SerialModel {
    if !completion {
        m
    } else if m.stage is Header {
        SerialModel {
            stage: ReceiveStage::Body,
            send_buffer: m.send_buffer,
            receive_buffer: m.receive_buffer.update(0, received[0]).update(1, received[1]),
            rx_offset: 2,
            rx_count: received[1] as int,
            tx_remaining: m.tx_remaining,
            tx_enabled: m.tx_enabled,
            wake_asserted: false,
        }
    } else {
        SerialModel {
            stage: ReceiveStage::Header,
            send_buffer: m.send_buffer,
            receive_buffer: m.receive_buffer.subrange(0, 2) + received + m.receive_buffer.subrange(
                2 + received.len() as int,
                m.receive_buffer.len() as int,
            ),
            rx_offset: 0,
            rx_count: 2,
            tx_remaining: m.tx_remaining,
            tx_enabled: if is_wake_ack(m.receive_buffer[0], received[0]) {
                true
            } else {
                m.tx_enabled
            },
            wake_asserted: m.wake_asserted,
        }
    }
}

/// What a poll hands to the application: the decoded frame of a completed
/// body transfer — kind, operation, payload — unless it is the wake
/// acknowledgement, which is consumed by the transport.
pub open spec fn step_delivery(m: SerialModel, completion: bool, received: Seq<u8>) -> Option<
    (u8, u8, Seq<u8>),
> {
    if completion && m.stage is Body && !is_wake_ack(m.receive_buffer[0], received[0]) {
        Some(
            (m.receive_buffer[0], received[0], received.subrange(1, received.len() as int)),
        )
    } else {
        None
    }
}

/// The link is free to admit a new send.
pub open spec fn send_ready(m: SerialModel) -> bool {
    m.tx_remaining == 0
}

/// The transport after an admitted send: the frame stands at the front of
/// the send buffer, its full length is queued on the transmit transfer
/// (started only by the wake acknowledgement), the receive machine is back
/// at a fresh header, and the wake line is raised.
pub open spec fn post_send(
    pre: SerialModel,
    kind: u8,
    operation: u8,
    payload: Seq<u8>,
) -> SerialModel {
    SerialModel {
        stage: ReceiveStage::Header,
        send_buffer: protocol::frame_seq(kind, operation, payload) + pre.send_buffer.subrange(
            (payload.len() + 3) as int,
            pre.send_buffer.len() as int,
        ),
        receive_buffer: pre.receive_buffer,
        rx_offset: 0,
        rx_count: 2,
        tx_remaining: (payload.len() + 3) as int,
        tx_enabled: false,
        wake_asserted: true,
    }
}

/// Everything `send` promises, as a relation between the transport before
/// and after the call: busy while a transmit is outstanding (and nothing
/// changed), an oversized payload rejected (and nothing changed), or the
/// frame admitted and the state exactly `post_send`.
pub open spec fn sent(
    pre: SerialModel,
    post: SerialModel,
    r: Result<(), Error>,
    kind: u8,
    operation: u8,
    payload: Seq<u8>,
) -> bool {
    if !send_ready(pre) {
        &&& r == Err::<(), Error>(Error::LinkBusy)
        &&& post == pre
    } else if !protocol::encodable(payload.len(), protocol::BUFFER_SIZE as nat) {
        &&& r == Err::<(), Error>(Error::PayloadTooLarge)
        &&& post == pre
    } else {
        &&& r == Ok::<(), Error>(())
        &&& post == post_send(pre, kind, operation, payload)
    }
}

/// What a completed poll reports: nothing pending, a header consumed and
/// the body transfer armed, the queued transmit started by the wake
/// acknowledgement, or a delivered message.
pub enum ReceiveOutcome {
    Idle,
    AwaitingBody,
    TransmitStarted,
    Frame(Message),
}

/// The link transport. All mutation goes through `send`, `receive` and
/// `tx_interrupt`; the model `self@` ties each to its spec transition.
pub struct Serial {
    stage: ReceiveStage,
    send_buffer: Vec<u8>,
    receive_buffer: Vec<u8>,
    rx_offset: usize,
    rx_count: usize,
    tx_remaining: usize,
    tx_enabled: bool,
    wake_asserted: bool,
}

impl View for Serial {
    type V = SerialModel;

    closed spec fn view(&self) -> SerialModel {
        SerialModel {
            stage: self.stage,
            send_buffer: self.send_buffer@,
            receive_buffer: self.receive_buffer@,
            rx_offset: self.rx_offset as int,
            rx_count: self.rx_count as int,
            tx_remaining: self.tx_remaining as int,
            tx_enabled: self.tx_enabled,
            wake_asserted: self.wake_asserted,
        }
    }
}

/// A zeroed transport buffer of full capacity.
fn zero_buffer() -> (v: Vec<u8>)
    ensures
        v@.len() == protocol::BUFFER_SIZE,
        forall|i: int| 0 <= i < v@.len() ==> v@[i] == 0u8,
{
    let mut v: Vec<u8> = Vec::new();
    let mut i: usize = 0;
    while i < protocol::BUFFER_SIZE
        invariant
            i <= protocol::BUFFER_SIZE,
            v@.len() == i,
            forall|j: int| 0 <= j < i ==> v@[j] == 0u8,
        decreases protocol::BUFFER_SIZE - i,
    {
        v.push(0);
        i += 1;
    }
    v
}

impl Serial {
    /// A fresh transport: receive machine at the header stage with the
    /// two-byte transfer armed, no transmit queued, wake line low.
    pub fn new() -> (s: Serial)
        ensures
            wf(s@),
            s@.stage is Header,
            s@.tx_remaining == 0,
            !s@.tx_enabled,
            !s@.wake_asserted,
    {
        Serial {
            stage: ReceiveStage::Header,
            send_buffer: zero_buffer(),
            receive_buffer: zero_buffer(),
            rx_offset: 0,
            rx_count: 2,
            tx_remaining: 0,
            tx_enabled: false,
            wake_asserted: false,
        }
    }

    /// Queues a frame for transmission. While the previous transmit
    /// transfer is outstanding the link is busy and nothing changes; an
    /// oversized payload is rejected before any effect. On success the
    /// state is exactly `post_send`: frame encoded into the send buffer,
    /// its length queued, receiver reset to a fresh header, wake line
    /// raised — the transfer itself starts only on the peer's wake
    /// acknowledgement.
    pub fn send(&mut self, message_type: u8, operation: u8, data: &[u8]) -> (r: Result<(), Error>)
        requires
            wf(old(self)@),
        ensures
            wf(final(self)@),
            sent(old(self)@, final(self)@, r, message_type, operation, data@),
    {
        if self.tx_remaining != 0 {
            return Err(Error::LinkBusy);
        }
        match protocol::encode(message_type, operation, data, &mut self.send_buffer) {
            Err(e) => Err(e),
            Ok(n) => {
                self.tx_remaining = n;
                self.tx_enabled = false;
                self.stage = ReceiveStage::Header;
                self.rx_offset = 0;
                self.rx_count = 2;
                self.wake_asserted = true;
                proof {
                    assert(self@ =~= post_send(old(self)@, message_type, operation, data@));
                }
                Ok(())
            },
        }
    }

    /// One poll of the receive machine, called when a transfer-complete
    /// signal for the receive channel is observed; `received` holds the
    /// bytes that the completed transfer moved. Without a completion this
    /// is a no-op. The state moves by `step`, and the outcome reports what
    /// `step_delivery` says: a decoded frame, or nothing when the frame
    /// was the wake acknowledgement that starts the queued transmit.
    pub fn receive(&mut self, completion: bool, received: &[u8]) -> (r: ReceiveOutcome)
        requires
            wf(old(self)@),
            event_ok(old(self)@, completion, received@),
        ensures
            wf(final(self)@),
            final(self)@ == step(old(self)@, completion, received@),
            !completion ==> r is Idle,
            completion && old(self)@.stage is Header ==> r is AwaitingBody,
            completion && old(self)@.stage is Body && step_delivery(
                old(self)@,
                completion,
                received@,
            ) is None ==> r is TransmitStarted,
            step_delivery(old(self)@, completion, received@) matches Some(t) ==> r matches
                ReceiveOutcome::Frame(m) && m.msg_type == t.0 && m.operation == t.1 && m.data@
                == t.2,
    {
        if !completion {
            return ReceiveOutcome::Idle;
        }
        match self.stage {
            ReceiveStage::Header => {
                self.receive_buffer.set(0, received[0]);
                self.receive_buffer.set(1, received[1]);
                self.wake_asserted = false;
                self.stage = ReceiveStage::Body;
                self.rx_offset = 2;
                self.rx_count = received[1] as usize;
                ReceiveOutcome::AwaitingBody
            },
            ReceiveStage::Body => {
                let n: usize = received.len();
                let mut i: usize = 0;
                while i < n
                    invariant
                        i <= n,
                        n == received@.len(),
                        n + 2 <= protocol::BUFFER_SIZE,
                        n + 2 <= self.receive_buffer@.len(),
                        self@.stage == old(self)@.stage,
                        self@.send_buffer == old(self)@.send_buffer,
                        self@.rx_offset == old(self)@.rx_offset,
                        self@.rx_count == old(self)@.rx_count,
                        self@.tx_remaining == old(self)@.tx_remaining,
                        self@.tx_enabled == old(self)@.tx_enabled,
                        self@.wake_asserted == old(self)@.wake_asserted,
                        self.receive_buffer@.len() == old(self)@.receive_buffer.len(),
                        forall|j: int| 0 <= j < 2 ==> self.receive_buffer@[j] == old(
                            self,
                        )@.receive_buffer[j],
                        forall|j: int| 0 <= j < i ==> self.receive_buffer@[2 + j] == received@[j],
                        forall|j: int|
                            2 + n <= j < self.receive_buffer@.len() ==> self.receive_buffer@[j]
                                == old(self)@.receive_buffer[j],
                    decreases n - i,
                {
                    self.receive_buffer.set(2 + i, received[i]);
                    i += 1;
                }
                proof {
                    assert(self.receive_buffer@ =~= old(self)@.receive_buffer.subrange(0, 2)
                        + received@ + old(self)@.receive_buffer.subrange(
                        2 + received@.len() as int,
                        old(self)@.receive_buffer.len() as int,
                    ));
                }
                let kind: u8 = self.receive_buffer[0];
                let length: u8 = self.receive_buffer[1];
                let operation: u8 = self.receive_buffer[2];
                let outcome: ReceiveOutcome = if kind == protocol::MSG_TYPE_BLE && operation
                    == protocol::WAKE_ACK_OP {
                    self.tx_enabled = true;
                    ReceiveOutcome::TransmitStarted
                } else {
                    let raw_header: [u8; 2] = [kind, length];
                    let m = protocol::decode(&raw_header, received);
                    ReceiveOutcome::Frame(m)
                };
                self.stage = ReceiveStage::Header;
                self.rx_offset = 0;
                self.rx_count = 2;
                proof {
                    assert(self@ =~= step(old(self)@, completion, received@));
                }
                outcome
            },
        }
    }

    /// The frame bytes the queued transmit transfer still has to move:
    /// the outstanding-length prefix of the send buffer. Empty when the
    /// link is free.
    pub fn queued_frame(&self) -> (v: Vec<u8>)
        requires
            wf(self@),
        ensures
            v@ == self@.send_buffer.subrange(0, self@.tx_remaining),
    {
        let mut v: Vec<u8> = Vec::new();
        let mut i: usize = 0;
        while i < self.tx_remaining
            invariant
                i <= self.tx_remaining,
                self.tx_remaining as int == self@.tx_remaining,
                self@.tx_remaining <= self@.send_buffer.len(),
                self.send_buffer@ == self@.send_buffer,
                v@.len() == i,
                forall|j: int| 0 <= j < i ==> v@[j] == self@.send_buffer[j],
            decreases self.tx_remaining - i,
        {
            v.push(self.send_buffer[i]);
            i += 1;
        }
        proof {
            assert(v@ =~= self@.send_buffer.subrange(0, self@.tx_remaining));
        }
        v
    }

    /// Called on the transmit-transfer-complete signal: the queued frame
    /// has left, the channel is disarmed and the link is free again.
    /// Nothing else of the transport changes.
    pub fn tx_interrupt(&mut self)
        ensures
            final(self)@ == (SerialModel { tx_remaining: 0, tx_enabled: false, ..old(self)@ }),
            send_ready(final(self)@),
    {
        self.tx_remaining = 0;
        self.tx_enabled = false;
        proof {
            assert(self@ =~= SerialModel { tx_remaining: 0, tx_enabled: false, ..old(self)@ });
        }
    }
}

/// Every poll keeps the transport well-formed: after any sequence of
/// header and body completions, a body transfer is armed for exactly the
/// length the stored header declares.
pub proof fn lemma_step_preserves_wf(m: SerialModel, completion: bool, received: Seq<u8>)
    requires
        wf(m),
        event_ok(m, completion, received),
    ensures
        wf(step(m, completion, received)),
{
}

/// A delivered frame's payload is one byte short of the declared length,
/// and the body transfer that completed moved exactly the declared number
/// of bytes: the transport never hands out a frame whose declared length
/// disagrees with what was transferred.
pub proof fn lemma_delivery_matches_declared_length(
    m: SerialModel,
    completion: bool,
    received: Seq<u8>,
)
    requires
        wf(m),
        event_ok(m, completion, received),
    ensures
        step_delivery(m, completion, received) matches Some(t) ==> {
            &&& t.2.len() + 1 == m.receive_buffer[1] as int
            &&& received.len() == m.receive_buffer[1] as int
        },
{
}

/// The wake acknowledgement is suppressed: it is never delivered to the
/// application, and its arrival starts the queued transmit transfer.
pub proof fn lemma_wake_ack_suppressed(m: SerialModel, received: Seq<u8>)
    requires
        wf(m),
        event_ok(m, true, received),
        m.stage is Body,
        is_wake_ack(m.receive_buffer[0], received[0]),
    ensures
        step_delivery(m, true, received) is None,
        step(m, true, received).tx_enabled,
{
}

/// The transport after a whole sequence of polls, each event a completion
/// flag and the bytes its transfer moved.
pub open spec fn run(m: SerialModel, events: Seq<(bool, Seq<u8>)>) -> SerialModel
    decreases events.len(),
{
    if events.len() == 0 {
        m
    } else {
        run(step(m, events[0].0, events[0].1), events.skip(1))
    }
}

/// Every event of the sequence is an admissible transfer-complete signal
/// for the state it meets.
pub open spec fn events_ok(m: SerialModel, events: Seq<(bool, Seq<u8>)>) -> bool
    decreases events.len(),
{
    events.len() == 0 || (event_ok(m, events[0].0, events[0].1) && events_ok(
        step(m, events[0].0, events[0].1),
        events.skip(1),
    ))
}

/// After any sequence of polls the transport is still well-formed — a body
/// transfer is always armed for exactly the declared length, so no
/// delivered frame can disagree with what was transferred — and the queued
/// transmit, send buffer included, is exactly as it was: polling alone
/// neither frees the link nor touches the outgoing frame.
pub proof fn lemma_run_preserves_wf_and_transmit(m: SerialModel, events: Seq<(bool, Seq<u8>)>)
    requires
        wf(m),
        events_ok(m, events),
    ensures
        wf(run(m, events)),
        run(m, events).tx_remaining == m.tx_remaining,
        run(m, events).send_buffer == m.send_buffer,
    decreases events.len(),
{
    if events.len() > 0 {
        lemma_step_preserves_wf(m, events[0].0, events[0].1);
        lemma_run_preserves_wf_and_transmit(step(m, events[0].0, events[0].1), events.skip(1));
    }
}

/// An admitted send leaves the transmit transfer outstanding, so a second
/// send before its completion is refused as busy and changes nothing.
pub proof fn lemma_send_marks_busy(pre: SerialModel, kind: u8, operation: u8, payload: Seq<u8>)
    requires
        wf(pre),
        send_ready(pre),
        protocol::encodable(payload.len(), protocol::BUFFER_SIZE as nat),
    ensures
        !send_ready(post_send(pre, kind, operation, payload)),
{
}

} // verus!
