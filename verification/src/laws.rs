//! What holds of the engine over every input.
//!
//! The statements are about the state machine of `model`; the executable
//! engine follows that machine step by step, so they hold of it as well.
use vstd::multiset::Multiset;
use vstd::prelude::*;
use vstd::seq_lib::lemma_multiset_commutative;
use crate::channel::RadioChannel;
use crate::config::frequency_word_of;
use crate::constants::{
    IEEE802154_MAX_BE, IEEE802154_MAX_POLLING_ATTEMPTS, IEEE802154_MIN_BE, MIMIC_PSDU_OFFSET,
    NONCE_SEED, PSDU_OFFSET,
};
use crate::error::ErrorCode;
use crate::model::{
    ccabusy_prologue, ccaidle_ops, disable_all_interrupts_op, enable_interrupts_op, framestart_ops,
    rx_family, tx_family, Call, RadioState,
};
use crate::nonce::{backoff_delay, lemma_nonce_sequence, nonce_after};
use crate::ops::{as_actions, latched, ActionView, BufferSlot, InterruptStatus, RadioOp};
use crate::registers::{Event, Register};

verus! {

/// The buffer that an action hands to the client of `slot`, if it hands one:
/// `SendDone` returns the transmit buffer, `Receive` delivers the receive
/// buffer.
pub open spec fn buffer_of(action: ActionView, slot: BufferSlot) -> Seq<Seq<u8>> {
    match action {
        ActionView::SendDone { buf, .. } => if slot == BufferSlot::Tx {
            seq![buf]
        } else {
            seq![]
        },
        ActionView::Receive { buf, .. } => if slot == BufferSlot::Rx {
            seq![buf]
        } else {
            seq![]
        },
        _ => seq![],
    }
}

/// The buffers that a list of actions hands to the client of `slot`, in
/// order.
pub open spec fn handed_back(actions: Seq<ActionView>, slot: BufferSlot) -> Seq<Seq<u8>>
    decreases actions.len(),
{
    if actions.len() == 0 {
        seq![]
    } else {
        handed_back(actions.drop_last(), slot) + buffer_of(actions.last(), slot)
    }
}

/// What the engine holds in `slot`: one buffer or none.
pub open spec fn held(state: RadioState, slot: BufferSlot) -> Seq<Seq<u8>> {
    let content = if slot == BufferSlot::Tx {
        state.tx_buf
    } else {
        state.rx_buf
    };
    match content {
        Some(buf) => seq![buf],
        None => seq![],
    }
}

/// The engine after `n` busy channel assessments in a row.
pub open spec fn after_busy_rounds(state: RadioState, status: InterruptStatus, n: nat) -> RadioState
    decreases n,
{
    if n == 0 {
        state
    } else {
        after_busy_rounds(state, status, (n - 1) as nat).after_busy(status)
    }
}

/// The backoff exponent that the `k`-th busy assessment of a transmission
/// finds, counted from zero: 3, 4, 5, 5.
pub open spec fn exponent_at(k: nat) -> nat {
    if IEEE802154_MIN_BE + k < IEEE802154_MAX_BE {
        IEEE802154_MIN_BE as nat + k
    } else {
        IEEE802154_MAX_BE as nat
    }
}

/// Handing back distributes over joining two lists of actions.
proof fn lemma_handed_back_concat(a: Seq<ActionView>, b: Seq<ActionView>, slot: BufferSlot)
    ensures
        handed_back(a + b, slot) == handed_back(a, slot) + handed_back(b, slot),
    decreases b.len(),
{
    if b.len() == 0 {
        assert(a + b =~= a);
        assert(handed_back(a, slot) + handed_back(b, slot) =~= handed_back(a, slot));
    } else {
        assert((a + b).drop_last() =~= a + b.drop_last());
        assert((a + b).last() == b.last());
        lemma_handed_back_concat(a, b.drop_last(), slot);
        assert(handed_back(a + b, slot) =~= handed_back(a, slot) + handed_back(b, slot));
    }
}

/// Register operations hand nothing back.
proof fn lemma_handed_back_ops(ops: Seq<RadioOp>, slot: BufferSlot)
    ensures
        handed_back(as_actions(ops), slot) == Seq::<Seq<u8>>::empty(),
    decreases ops.len(),
{
    if ops.len() > 0 {
        assert(as_actions(ops).drop_last() =~= as_actions(ops.drop_last()));
        lemma_handed_back_ops(ops.drop_last(), slot);
        assert(handed_back(as_actions(ops), slot) =~= Seq::<Seq<u8>>::empty());
    }
}

/// A single action hands back its own buffer, if it carries one.
proof fn lemma_handed_back_one(action: ActionView, slot: BufferSlot)
    ensures
        handed_back(seq![action], slot) == buffer_of(action, slot),
{
    let none = Seq::<ActionView>::empty();
    assert(seq![action].drop_last() =~= none);
    assert(handed_back(none, slot) =~= Seq::<Seq<u8>>::empty());
    assert(seq![action].last() == action);
    assert(handed_back(seq![action], slot) =~= buffer_of(action, slot));
}

/// The notification of the transmit client hands back the frame.
proof fn lemma_handed_back_send_done(
    state: RadioState,
    result: Result<(), ErrorCode>,
    slot: BufferSlot,
)
    ensures
        handed_back(state.send_done_actions(result), slot) == if slot == BufferSlot::Tx
            && state.tx_client && state.tx_buf is Some {
            seq![state.tx_buf->0]
        } else {
            seq![]
        },
{
    if state.tx_client && state.tx_buf is Some {
        lemma_handed_back_one(
            ActionView::SendDone { buf: state.tx_buf->0, acked: false, result },
            slot,
        );
    }
}

/// The CCABUSY part of the handler conserves the buffers.
proof fn lemma_handed_back_busy(state: RadioState, status: InterruptStatus, slot: BufferSlot)
    ensures
        held(state, slot) == held(state.after_busy(status), slot) + handed_back(
            state.busy_actions(status),
            slot,
        ),
{
    let actions = state.busy_actions(status);
    if latched(status.ccabusy) {
        let head = as_actions(ccabusy_prologue());
        let tail = seq![ActionView::Radio(enable_interrupts_op())];
        let middle = if state.backs_off() {
            seq![
                ActionView::SetAlarm {
                    reference: 0,
                    dt: backoff_delay(
                        state.after_backoff().random_nonce,
                        state.after_backoff().cca_be,
                    ) as u32,
                },
            ]
        } else {
            state.send_done_actions(Err(ErrorCode::BUSY))
        };
        assert(actions == head + middle + tail);
        lemma_handed_back_concat(head + middle, tail, slot);
        lemma_handed_back_concat(head, middle, slot);
        lemma_handed_back_ops(ccabusy_prologue(), slot);
        lemma_handed_back_one(ActionView::Radio(enable_interrupts_op()), slot);
        if state.backs_off() {
            lemma_handed_back_one(middle[0], slot);
        } else {
            lemma_handed_back_send_done(state, Err(ErrorCode::BUSY), slot);
        }
        assert(held(state, slot) =~= held(state.after_busy(status), slot) + handed_back(
            actions,
            slot,
        ));
    } else {
        assert(held(state, slot) =~= held(state.after_busy(status), slot) + handed_back(
            actions,
            slot,
        ));
    }
}

/// The END part of the handler conserves the buffers.
proof fn lemma_handed_back_end(state: RadioState, status: InterruptStatus, slot: BufferSlot)
    ensures
        held(state, slot) == held(state.after_end(status), slot) + handed_back(
            state.end_actions(status),
            slot,
        ),
{
    let actions = state.end_actions(status);
    if status.end_pending() {
        let head = seq![ActionView::Radio(RadioOp::ClearEvent(Event::End))];
        let rest = if tx_family(status.state) {
            state.send_done_actions(Ok(()))
        } else if rx_family(status.state) {
            state.receive_actions(status)
        } else {
            seq![]
        };
        assert(actions == head + rest);
        lemma_handed_back_concat(head, rest, slot);
        lemma_handed_back_one(head[0], slot);
        if tx_family(status.state) {
            lemma_handed_back_send_done(state, Ok(()), slot);
        } else if rx_family(status.state) {
            if state.rx_client && state.rx_buf is Some {
                lemma_handed_back_one(rest[0], slot);
            }
        }
    }
    assert(held(state, slot) =~= held(state.after_end(status), slot) + handed_back(
        actions,
        slot,
    ));
}

/// An interrupt neither loses nor doubles a buffer. Whatever the engine
/// held in a slot before the handler ran is afterwards either still in that
/// slot or in exactly one notification to the slot's client: a transmit
/// buffer in a `SendDone`, a receive buffer in a `Receive`.
pub proof fn lemma_interrupt_conserves_buffers(
    state: RadioState,
    status: InterruptStatus,
    slot: BufferSlot,
)
    ensures
        held(state, slot) == held(state.after_interrupt(status), slot) + handed_back(
            state.interrupt_actions(status),
            slot,
        ),
        handed_back(state.interrupt_actions(status), slot).len() <= 1,
{
    let mask = seq![ActionView::Radio(disable_all_interrupts_op())];
    let ready = as_actions(state.ready_ops(status));
    let framestart = as_actions(framestart_ops(status));
    let ccaidle = as_actions(ccaidle_ops(status));
    let busy = state.busy_actions(status);
    let middle = state.after_busy(status);
    let end = middle.end_actions(status);
    let tail = if status.end_pending() {
        Seq::<ActionView>::empty()
    } else {
        seq![ActionView::Radio(enable_interrupts_op())]
    };
    assert(state.interrupt_actions(status) == mask + ready + framestart + ccaidle + busy + end
        + tail);
    lemma_handed_back_concat(mask + ready + framestart + ccaidle + busy + end, tail, slot);
    lemma_handed_back_concat(mask + ready + framestart + ccaidle + busy, end, slot);
    lemma_handed_back_concat(mask + ready + framestart + ccaidle, busy, slot);
    lemma_handed_back_concat(mask + ready + framestart, ccaidle, slot);
    lemma_handed_back_concat(mask + ready, framestart, slot);
    lemma_handed_back_concat(mask, ready, slot);
    lemma_handed_back_one(mask[0], slot);
    lemma_handed_back_ops(state.ready_ops(status), slot);
    lemma_handed_back_ops(framestart_ops(status), slot);
    lemma_handed_back_ops(ccaidle_ops(status), slot);
    if !status.end_pending() {
        lemma_handed_back_one(tail[0], slot);
    }
    lemma_handed_back_busy(state, status, slot);
    lemma_handed_back_end(middle, status, slot);
    assert(handed_back(state.interrupt_actions(status), slot) =~= handed_back(busy, slot)
        + handed_back(end, slot));
    assert(held(state, slot) =~= held(state.after_interrupt(status), slot) + handed_back(
        state.interrupt_actions(status),
        slot,
    ));
}

/// A frame that `transmit` accepts goes into the transmit slot, which was
/// empty, and nowhere else; a frame that it refuses changes nothing.
pub proof fn lemma_transmit_conserves_buffers(state: RadioState, buf: Seq<u8>, frame_len: usize)
    ensures
        state.transmit_error(buf.len(), frame_len as nat) is None ==> {
            &&& held(state, BufferSlot::Tx) == Seq::<Seq<u8>>::empty()
            &&& held(state.after_transmit(buf, frame_len), BufferSlot::Tx) == seq![
                RadioState::stamped(buf, frame_len),
            ]
            &&& held(state.after_transmit(buf, frame_len), BufferSlot::Rx) == held(
                state,
                BufferSlot::Rx,
            )
            &&& RadioState::stamped(buf, frame_len).len() == buf.len()
        },
{
    if state.transmit_error(buf.len(), frame_len as nat) is None {
        assert(held(state, BufferSlot::Tx) =~= Seq::<Seq<u8>>::empty());
    }
}

/// The radio works on one buffer at a time. Of the operations that enter
/// RX, exactly one points the radio at a buffer: at the transmit buffer while
/// a transmission is in flight, at the receive buffer otherwise, and always
/// one byte into it.
pub proof fn lemma_one_dma_target(state: RadioState, i: int)
    requires
        0 <= i < state.rx_ops().len(),
    ensures
        state.rx_ops()[1] == (RadioOp::PointDma {
            slot: state.dma_slot(),
            offset: MIMIC_PSDU_OFFSET,
        }),
        state.dma_slot() == BufferSlot::Tx <==> state.transmitting,
        (state.rx_ops()[i] is PointDma) <==> i == 1,
        state.wf() && state.transmitting ==> held(state, state.dma_slot()).len() == 1,
{
}

/// While a frame is in flight, `transmit` answers BUSY: of two calls in a
/// row the first of which is accepted, the second is refused with BUSY,
/// whatever it is given.
pub proof fn lemma_single_in_flight(
    state: RadioState,
    first: Seq<u8>,
    first_len: usize,
    second: Seq<u8>,
    second_len: usize,
)
    requires
        state.transmit_error(first.len(), first_len as nat) is None,
    ensures
        state.after_transmit(first, first_len).in_flight(),
        state.after_transmit(first, first_len).transmit_error(second.len(), second_len as nat)
            == Some(ErrorCode::BUSY),
{
}

/// An idle engine accepts a frame exactly when the frame leaves room for
/// its CRC.
pub proof fn lemma_transmit_accepts(state: RadioState, buf: Seq<u8>, frame_len: usize)
    ensures
        state.transmit_error(buf.len(), frame_len as nat) is None <==> !state.in_flight()
            && PSDU_OFFSET + frame_len < buf.len(),
        state.in_flight() <==> state.transmit_error(buf.len(), frame_len as nat) == Some(
            ErrorCode::BUSY,
        ),
{
}

/// A frame stays in flight until a `SendDone` hands it back: an interrupt
/// that notifies no transmit client leaves the engine answering BUSY.
pub proof fn lemma_in_flight_until_send_done(state: RadioState, status: InterruptStatus)
    requires
        state.wf(),
        state.in_flight(),
        handed_back(state.interrupt_actions(status), BufferSlot::Tx).len() == 0,
    ensures
        state.after_interrupt(status).in_flight(),
{
    lemma_interrupt_conserves_buffers(state, status, BufferSlot::Tx);
    assert(held(state, BufferSlot::Tx).len() == held(
        state.after_interrupt(status),
        BufferSlot::Tx,
    ).len());
}

/// The handler keeps the engine well formed.
pub proof fn lemma_interrupt_keeps_invariant(state: RadioState, status: InterruptStatus)
    requires
        state.wf(),
    ensures
        state.after_interrupt(status).wf(),
        state.after_busy(status).wf(),
{
}

/// Channel `k` is accepted exactly for `k` from 11 to 26, and the word that
/// then reaches the FREQUENCY register is `5 * (k - 11) + 5`.
pub proof fn lemma_channel_math(state: RadioState, k: nat)
    ensures
        RadioChannel::from_index(k) is Some <==> 11 <= k <= 26,
        RadioChannel::from_index(k) matches Some(channel) ==> {
            &&& frequency_word_of(channel) == 5 * (k - 11) + 5
            &&& (RadioState { channel, ..state }).configure_ops()[9] == RadioOp::Write(
                Register::Frequency,
                (5 * (k - 11) + 5) as u32,
            )
        },
{
    if RadioChannel::from_index(k) is Some {
        let channel = RadioChannel::from_index(k)->0;
        let mhz: u32 = channel.frequency_offset() as u32;
        assert((mhz & (((1u32 << 7u32) - 1) as u32)) << 0u32 == mhz) by (bit_vector)
            requires
                mhz <= 80,
        ;
    }
}

/// The CSMA-CA bound. After a frame is accepted, the first four busy
/// channel assessments are each answered with a backoff: they find the
/// backoff exponent at 3, 4, 5 and 5, arm the alarm and notify nobody. The
/// assessment after them ends the transmission: the frame goes back to the
/// client in a `SendDone` with BUSY.
pub proof fn lemma_csma_bound(
    state: RadioState,
    buf: Seq<u8>,
    frame_len: usize,
    status: InterruptStatus,
    k: nat,
)
    requires
        state.tx_client,
        latched(status.ccabusy),
        k < IEEE802154_MAX_POLLING_ATTEMPTS,
    ensures
        ({
            let round = after_busy_rounds(state.after_transmit(buf, frame_len), status, k);
            &&& round.cca_count == k
            &&& round.cca_be == exponent_at(k)
            &&& round.transmitting
            &&& round.tx_buf == Some(RadioState::stamped(buf, frame_len))
            &&& round.busy_actions(status)[5] is SetAlarm
            &&& handed_back(round.busy_actions(status), BufferSlot::Tx).len() == 0
        }),
        ({
            let last = after_busy_rounds(
                state.after_transmit(buf, frame_len),
                status,
                IEEE802154_MAX_POLLING_ATTEMPTS as nat,
            );
            &&& last.cca_count == IEEE802154_MAX_POLLING_ATTEMPTS
            &&& !last.backs_off()
            &&& last.busy_actions(status)[5] == (ActionView::SendDone {
                buf: RadioState::stamped(buf, frame_len),
                acked: false,
                result: Err(ErrorCode::BUSY),
            })
            &&& handed_back(last.busy_actions(status), BufferSlot::Tx) == seq![
                RadioState::stamped(buf, frame_len),
            ]
            &&& !last.after_busy(status).transmitting
            &&& last.after_busy(status).tx_buf is None
        }),
{
    reveal_with_fuel(after_busy_rounds, 5);
    let start = state.after_transmit(buf, frame_len);
    let r1 = start.after_busy(status);
    let r2 = r1.after_busy(status);
    let r3 = r2.after_busy(status);
    let r4 = r3.after_busy(status);
    assert(after_busy_rounds(start, status, 0) == start);
    assert(after_busy_rounds(start, status, 1) == r1);
    assert(after_busy_rounds(start, status, 2) == r2);
    assert(after_busy_rounds(start, status, 3) == r3);
    assert(after_busy_rounds(start, status, 4) == r4);
    let round = after_busy_rounds(start, status, k);
    lemma_handed_back_busy(round, status, BufferSlot::Tx);
    lemma_handed_back_busy(r4, status, BufferSlot::Tx);
    assert(held(round, BufferSlot::Tx).len() == held(
        round.after_busy(status),
        BufferSlot::Tx,
    ).len());
    assert(held(r4, BufferSlot::Tx) =~= seq![RadioState::stamped(buf, frame_len)]);
    assert(held(r4.after_busy(status), BufferSlot::Tx) =~= Seq::<Seq<u8>>::empty());
    assert(handed_back(r4.busy_actions(status), BufferSlot::Tx) =~= seq![
        RadioState::stamped(buf, frame_len),
    ]);
}

/// The buffers that a call puts into `slot`: a frame that `transmit`
/// accepts, with its length byte, and every buffer handed in for reception.
pub open spec fn taken(state: RadioState, call: Call, slot: BufferSlot) -> Seq<Seq<u8>> {
    match call {
        Call::Transmit { buf, frame_len } => if slot == BufferSlot::Tx && state.transmit_error(
            buf.len(),
            frame_len as nat,
        ) is None {
            seq![RadioState::stamped(buf, frame_len)]
        } else {
            seq![]
        },
        Call::SetReceiveClient { buf } => if slot == BufferSlot::Rx {
            seq![buf]
        } else {
            seq![]
        },
        Call::SetReceiveBuffer { buf } => if slot == BufferSlot::Rx {
            seq![buf]
        } else {
            seq![]
        },
        _ => seq![],
    }
}

/// The buffers that a call takes out of `slot`: those that an interrupt
/// hands to the slot's client, and a receive buffer that a new one displaces.
pub open spec fn given(state: RadioState, call: Call, slot: BufferSlot) -> Seq<Seq<u8>> {
    match call {
        Call::HandleInterrupt { status } => handed_back(state.interrupt_actions(status), slot),
        Call::SetReceiveClient { buf } => if slot == BufferSlot::Rx {
            held(state, slot)
        } else {
            seq![]
        },
        Call::SetReceiveBuffer { buf } => if slot == BufferSlot::Rx {
            held(state, slot)
        } else {
            seq![]
        },
        _ => seq![],
    }
}

/// The engine after a sequence of calls.
pub open spec fn run(state: RadioState, calls: Seq<Call>) -> RadioState
    decreases calls.len(),
{
    if calls.len() == 0 {
        state
    } else {
        run(state, calls.drop_last()).apply(calls.last())
    }
}

/// All the buffers that a sequence of calls puts into `slot`.
pub open spec fn all_taken(state: RadioState, calls: Seq<Call>, slot: BufferSlot) -> Multiset<
    Seq<u8>,
>
    decreases calls.len(),
{
    if calls.len() == 0 {
        Multiset::empty()
    } else {
        all_taken(state, calls.drop_last(), slot).add(
            taken(run(state, calls.drop_last()), calls.last(), slot).to_multiset(),
        )
    }
}

/// All the buffers that a sequence of calls takes out of `slot`.
pub open spec fn all_given(state: RadioState, calls: Seq<Call>, slot: BufferSlot) -> Multiset<
    Seq<u8>,
>
    decreases calls.len(),
{
    if calls.len() == 0 {
        Multiset::empty()
    } else {
        all_given(state, calls.drop_last(), slot).add(
            given(run(state, calls.drop_last()), calls.last(), slot).to_multiset(),
        )
    }
}

/// No call loses or doubles a buffer: what a slot held before the call,
/// together with what the call put in, is what the slot holds afterwards
/// together with what the call took out.
pub proof fn lemma_call_conserves_buffers(state: RadioState, call: Call, slot: BufferSlot)
    ensures
        held(state, slot).to_multiset().add(taken(state, call, slot).to_multiset()) == held(
            state.apply(call),
            slot,
        ).to_multiset().add(given(state, call, slot).to_multiset()),
{
    broadcast use vstd::multiset::group_multiset_axioms;

    let before = held(state, slot);
    let after = held(state.apply(call), slot);
    let put_in = taken(state, call, slot);
    let took_out = given(state, call, slot);
    let none = Seq::<Seq<u8>>::empty();
    assert(none.to_multiset() =~= Multiset::<Seq<u8>>::empty()) by {
        none.to_multiset_ensures();
    }
    match call {
        Call::HandleInterrupt { status } => {
            lemma_interrupt_conserves_buffers(state, status, slot);
            lemma_multiset_commutative(after, took_out);
            assert(put_in =~= none);
        },
        Call::Transmit { buf, frame_len } => {
            assert(took_out =~= none);
            if state.transmit_error(buf.len(), frame_len as nat) is None && slot
                == BufferSlot::Tx {
                assert(before =~= none);
                assert(after =~= put_in);
            } else {
                assert(put_in =~= none);
                assert(after =~= before);
            }
        },
        Call::SetReceiveClient { buf } => {
            if slot == BufferSlot::Rx {
                assert(after =~= put_in);
                assert(took_out =~= before);
            } else {
                assert(put_in =~= none);
                assert(took_out =~= none);
                assert(after =~= before);
            }
        },
        Call::SetReceiveBuffer { buf } => {
            if slot == BufferSlot::Rx {
                assert(after =~= put_in);
                assert(took_out =~= before);
            } else {
                assert(put_in =~= none);
                assert(took_out =~= none);
                assert(after =~= before);
            }
        },
        _ => {
            assert(put_in =~= none);
            assert(took_out =~= none);
            assert(after =~= before);
        },
    }
    assert(before.to_multiset().add(put_in.to_multiset()) =~= after.to_multiset().add(
        took_out.to_multiset(),
    ));
}

/// Buffer conservation. Over any sequence of calls, the buffers that a slot
/// held at the start and those that the calls put into it are, one for one,
/// the buffers that the slot holds at the end and those that the calls took
/// out of it. A buffer that was handed in is therefore either still in its
/// slot or has come back exactly once: a transmit buffer in a `SendDone`, a
/// receive buffer in a `Receive` or as the buffer that a new one displaced.
pub proof fn lemma_buffers_conserved(state: RadioState, calls: Seq<Call>, slot: BufferSlot)
    ensures
        held(state, slot).to_multiset().add(all_taken(state, calls, slot)) == held(
            run(state, calls),
            slot,
        ).to_multiset().add(all_given(state, calls, slot)),
    decreases calls.len(),
{
    broadcast use vstd::multiset::group_multiset_axioms;

    let start = held(state, slot).to_multiset();
    let end = held(run(state, calls), slot).to_multiset();
    if calls.len() > 0 {
        let earlier = calls.drop_last();
        let middle = run(state, earlier);
        let between = held(middle, slot).to_multiset();
        let put_in = taken(middle, calls.last(), slot).to_multiset();
        let took_out = given(middle, calls.last(), slot).to_multiset();
        let put_in_earlier = all_taken(state, earlier, slot);
        let took_out_earlier = all_given(state, earlier, slot);
        lemma_buffers_conserved(state, earlier, slot);
        lemma_call_conserves_buffers(middle, calls.last(), slot);
        assert forall|buf: Seq<u8>|
            start.add(all_taken(state, calls, slot)).count(buf) == end.add(
                all_given(state, calls, slot),
            ).count(buf) by {
            assert(start.add(put_in_earlier).count(buf) == between.add(took_out_earlier).count(
                buf,
            ));
            assert(between.add(put_in).count(buf) == end.add(took_out).count(buf));
        }
    }
    assert(start.add(all_taken(state, calls, slot)) =~= end.add(all_given(state, calls, slot)));
}

/// Every call keeps the engine well formed.
pub proof fn lemma_calls_keep_invariant(state: RadioState, calls: Seq<Call>)
    requires
        state.wf(),
        forall|i: int| 0 <= i < calls.len() ==> (#[trigger] calls[i]).wf(),
    ensures
        run(state, calls).wf(),
    decreases calls.len(),
{
    if calls.len() > 0 {
        let earlier = calls.drop_last();
        assert forall|i: int| 0 <= i < earlier.len() implies (#[trigger] earlier[i]).wf() by {
            assert(earlier[i] == calls[i]);
        }
        lemma_calls_keep_invariant(state, earlier);
        assert(calls.last().wf());
    }
}

/// One transmission at a time. Once a frame is accepted, and for as long as
/// no `SendDone` has handed it back, every further `transmit` is refused
/// with BUSY, whatever else is called in between.
pub proof fn lemma_busy_until_send_done(
    state: RadioState,
    calls: Seq<Call>,
    buf: Seq<u8>,
    frame_len: usize,
)
    requires
        state.wf(),
        state.in_flight(),
        forall|i: int| 0 <= i < calls.len() ==> (#[trigger] calls[i]).wf(),
        all_given(state, calls, BufferSlot::Tx).len() == 0,
    ensures
        run(state, calls).in_flight(),
        run(state, calls).transmit_error(buf.len(), frame_len as nat) == Some(ErrorCode::BUSY),
    decreases calls.len(),
{
    broadcast use vstd::multiset::group_multiset_axioms;

    if calls.len() > 0 {
        let earlier = calls.drop_last();
        let middle = run(state, earlier);
        let last = calls.last();
        assert forall|i: int| 0 <= i < earlier.len() implies (#[trigger] earlier[i]).wf() by {
            assert(earlier[i] == calls[i]);
        }
        let out = given(middle, last, BufferSlot::Tx);
        assert(all_given(state, calls, BufferSlot::Tx) == all_given(
            state,
            earlier,
            BufferSlot::Tx,
        ).add(out.to_multiset()));
        out.to_multiset_ensures();
        lemma_busy_until_send_done(state, earlier, buf, frame_len);
        lemma_calls_keep_invariant(state, earlier);
        match last {
            Call::HandleInterrupt { status } => {
                lemma_in_flight_until_send_done(middle, status);
            },
            _ => {},
        }
    }
}

/// The number of nonces that a call draws: one for `random_nonce`, and one
/// for an interrupt that backs off from a busy channel.
pub open spec fn draws_of(state: RadioState, call: Call) -> nat {
    match call {
        Call::RandomNonce => 1,
        Call::HandleInterrupt { status } => if latched(status.ccabusy) && state.backs_off() {
            1
        } else {
            0
        },
        _ => 0,
    }
}

/// The number of nonces that a sequence of calls draws.
pub open spec fn draws(state: RadioState, calls: Seq<Call>) -> nat
    decreases calls.len(),
{
    if calls.len() == 0 {
        0
    } else {
        draws(state, calls.drop_last()) + draws_of(run(state, calls.drop_last()), calls.last())
    }
}

/// The nonces are a function of the seed alone. Whatever is called, the
/// generator only ever moves along the xorshift sequence of its seed, one
/// step for each nonce drawn; so the `n`-th nonce that an engine draws is
/// the `n`-th element of the sequence of `NONCE_SEED`, which starts
/// 0x477d20b7, 0x8e1d9142, 0xba8c2458.
pub proof fn lemma_nonces_follow_the_seed(state: RadioState, calls: Seq<Call>)
    ensures
        run(state, calls).random_nonce == nonce_after(state.random_nonce, draws(state, calls)),
        RadioState::initial().random_nonce == NONCE_SEED,
        nonce_after(NONCE_SEED, 1) == 0x477d_20b7u32,
        nonce_after(NONCE_SEED, 2) == 0x8e1d_9142u32,
        nonce_after(NONCE_SEED, 3) == 0xba8c_2458u32,
    decreases calls.len(),
{
    lemma_nonce_sequence();
    if calls.len() > 0 {
        lemma_nonces_follow_the_seed(state, calls.drop_last());
    }
}

} // verus!
