//! What the engine asks of the platform, and what the platform tells it.
//!
//! The engine returns register operations and client notifications as plain
//! values, in the order in which they have to happen. The platform performs
//! them one after the other and hands the registers it read to the engine as
//! an `InterruptStatus`.
use vstd::prelude::*;
use crate::error::ErrorCode;
use crate::registers::{Event, Register, Task};

verus! {

/// The two places in which the engine keeps a buffer.
#[derive(PartialEq, Eq, Structural, Debug, Copy, Clone)]
pub enum BufferSlot {
    /// The frame that is being transmitted.
    Tx,
    /// The buffer that the next received frame is written to.
    Rx,
}

/// One operation on the peripheral.
#[derive(PartialEq, Eq, Structural, Debug, Copy, Clone)]
pub enum RadioOp {
    /// Start a task.
    Trigger(Task),
    /// Acknowledge an event, so that its latch reads as not set.
    ClearEvent(Event),
    /// Wait until the hardware has latched an event.
    AwaitEvent(Event),
    /// Store a word in a register.
    Write(Register, u32),
    /// Store, in PACKETPTR, the address of the byte at index `offset` of the
    /// buffer that the engine holds in `slot`.
    PointDma { slot: BufferSlot, offset: usize },
}

/// One thing for the platform to do while it serves an interrupt.
#[derive(Debug, PartialEq, Eq)]
pub enum Action {
    /// Perform a register operation.
    Radio(RadioOp),
    /// Arm the one-shot alarm to fire `dt` microseconds after `reference`;
    /// when it fires, call the engine's `alarm`.
    SetAlarm { reference: u32, dt: u32 },
    /// Hand the frame buffer back to the transmit client.
    SendDone { buf: Vec<u8>, acked: bool, result: Result<(), ErrorCode> },
    /// Hand a received frame to the receive client.
    Receive { buf: Vec<u8>, frame_len: usize, crc_ok: bool, result: Result<(), ErrorCode> },
}

/// An `Action` with its buffer seen as a sequence of bytes.
pub enum ActionView {
    Radio(RadioOp),
    SetAlarm { reference: u32, dt: u32 },
    SendDone { buf: Seq<u8>, acked: bool, result: Result<(), ErrorCode> },
    Receive { buf: Seq<u8>, frame_len: usize, crc_ok: bool, result: Result<(), ErrorCode> },
}

impl DeepView for Action {
    type V = ActionView;

    open spec fn deep_view(&self) -> ActionView {
        match *self {
            Action::Radio(op) => ActionView::Radio(op),
            Action::SetAlarm { reference, dt } => ActionView::SetAlarm { reference, dt },
            Action::SendDone { buf, acked, result } => ActionView::SendDone {
                buf: buf@,
                acked,
                result,
            },
            Action::Receive { buf, frame_len, crc_ok, result } => ActionView::Receive {
                buf: buf@,
                frame_len,
                crc_ok,
                result,
            },
        }
    }
}

/// The register operations `ops`, each as an action.
pub open spec fn as_actions(ops: Seq<RadioOp>) -> Seq<ActionView> {
    ops.map_values(|op: RadioOp| ActionView::Radio(op))
}

/// Whether an event register word shows the event as latched.
pub open spec fn latched(word: u32) -> bool {
    word & 1 == 1
}

/// The registers that the interrupt handler decides on, as read at its entry.
#[derive(PartialEq, Eq, Structural, Debug, Copy, Clone)]
pub struct InterruptStatus {
    /// EVENTS_READY.
    pub ready: u32,
    /// EVENTS_FRAMESTART.
    pub framestart: u32,
    /// EVENTS_CCAIDLE.
    pub ccaidle: u32,
    /// EVENTS_CCABUSY.
    pub ccabusy: u32,
    /// EVENTS_END.
    pub end: u32,
    /// STATE.
    pub state: u32,
    /// CRCSTATUS.
    pub crcstatus: u32,
}

impl InterruptStatus {
    /// END is handled when it is latched and READY is not: handling READY
    /// acknowledges END as well.
    pub open spec fn end_pending(self) -> bool {
        latched(self.end) && !latched(self.ready)
    }

    /// Whether the last frame passed its CRC.
    pub open spec fn crc_ok(self) -> bool {
        latched(self.crcstatus)
    }
}

/// Whether an event register word shows the event as latched.
pub fn is_latched(word: u32) -> (set: bool)
    ensures
        set == latched(word),
{
    word & 1 == 1
}

/// A register that reads 1 shows its event as latched, one that reads 0 does
/// not; only the lowest bit counts.
pub proof fn lemma_latched(word: u32)
    ensures
        latched(1),
        !latched(0),
        latched(word) <==> word % 2 == 1,
{
    assert(1u32 & 1 == 1) by (bit_vector);
    assert(0u32 & 1 == 0) by (bit_vector);
    assert((word & 1 == 1) <==> word % 2 == 1) by (bit_vector);
}

/// Appends one register operation to a list of actions.
pub fn push_op(actions: &mut Vec<Action>, op: RadioOp)
    ensures
        final(actions).deep_view() == old(actions).deep_view().push(ActionView::Radio(op)),
{
    actions.push(Action::Radio(op));
    assert(actions.deep_view() =~= old(actions).deep_view().push(ActionView::Radio(op)));
}

/// Appends one action to a list of actions.
pub fn push_action(actions: &mut Vec<Action>, action: Action)
    ensures
        final(actions).deep_view() == old(actions).deep_view().push(action.deep_view()),
{
    let ghost view = action.deep_view();
    actions.push(action);
    assert(actions.deep_view() =~= old(actions).deep_view().push(view));
}

} // verus!
