//! The laws the queue obeys, stated over the same spec functions the
//! operation contracts use, so that each chains admission, delivery,
//! teardown and reply completion into one statement.

use vstd::prelude::*;

use crate::bits::has_bit;
use crate::server::{Server, QUEUE_CAPACITY};
use crate::slot::{admitted_slot, delivered_envelope, reply_matches, reply_outcome,
    slot_after_discard, slot_after_take, slot_awaiting, slot_deliverable, slot_wf,
    take_advances_tail, QueuedMessage};
use crate::types::{MemoryRange, Message, Pid, WaitingMessage};

verus! {

/// Admission then delivery is a round trip: the slot that admission writes is
/// deliverable, and delivering it hands back a message structurally equal to
/// the admitted one. The envelope's sender token is the sender's own pid and
/// tid for scalars and moves, and the reply route — server index over slot
/// index — for borrows.
pub proof fn lemma_admit_take_round_trip(
    pid: Pid,
    context: u16,
    message: Message,
    origin: usize,
    slot_idx: int,
    server_idx: int,
)
    requires
        pid.valid(),
        message.wf(),
        message.is_borrow() ==> origin != 0,
    ensures
        ({
            let slot = admitted_slot(pid.number as u16, context, message, origin);
            let envelope = delivered_envelope(slot, slot_idx, server_idx);
            &&& slot_deliverable(slot)
            &&& envelope.message == message
            &&& !message.is_borrow() ==> envelope.sender == (pid.number as int * 0x10000
                + context as int) as usize
            &&& message.is_borrow() ==> envelope.sender == (server_idx * 0x10000
                + slot_idx) as usize
        }),
{
}

/// A delivered borrow, completed with the buffer it lent, returns the borrow
/// to its sender: the awaiting slot that delivery writes matches a reply
/// naming the lent region, and its outcome carries the sender's pid and tid,
/// the region's address as the server maps it, the client address recorded at
/// admission, and the region's length.
pub proof fn lemma_borrow_reply_round_trip(pid: Pid, context: u16, message: Message, origin: usize)
    requires
        pid.valid(),
        message.wf(),
        message.is_borrow(),
        origin != 0,
    ensures
        ({
            let slot = admitted_slot(pid.number as u16, context, message, origin);
            let awaiting = slot_after_take(slot);
            let buf = (match message {
                Message::MutableBorrow(m) => m.buf,
                Message::Borrow(m) => m.buf,
                Message::Scalar(_) => MemoryRange { addr: 0, size: 0 },
                Message::Move(_) => MemoryRange { addr: 0, size: 0 },
            });
            &&& awaiting is WaitingResponse
            &&& !take_advances_tail(slot)
            &&& reply_matches(awaiting, buf)
            &&& reply_outcome(awaiting) == WaitingMessage::BorrowedMemory(
                pid,
                context as usize,
                buf.addr,
                origin,
                buf.size,
            )
        }),
{
}

/// A delivered move requires no reply: its slot clears at delivery and the
/// read cursor moves on, so nothing remains for a completion to act on.
pub proof fn lemma_move_needs_no_reply(pid: Pid, context: u16, message: Message, origin: usize)
    requires
        pid.valid(),
        message is Move,
    ensures
        slot_after_take(admitted_slot(pid.number as u16, context, message, origin)) is Empty,
        take_advances_tail(admitted_slot(pid.number as u16, context, message, origin)),
{
}

/// A lender's death between admission and delivery turns the round trip into
/// a forget: the teardown sweep rewrites the pending borrow to its terminated
/// variant, delivery still hands out the same message and leaves an
/// awaiting-forget slot, and completing the reply yields the obligation to
/// forget the lent region. Scalars and moves are untouched by the sweep and
/// deliver normally.
pub proof fn lemma_discard_then_take(
    pid: Pid,
    context: u16,
    message: Message,
    origin: usize,
    slot_idx: int,
    server_idx: int,
)
    requires
        pid.valid(),
        message.wf(),
        message.is_borrow() ==> origin != 0,
    ensures
        ({
            let slot = admitted_slot(pid.number as u16, context, message, origin);
            let discarded = slot_after_discard(slot, pid.number as u16);
            &&& slot_deliverable(discarded)
            &&& delivered_envelope(discarded, slot_idx, server_idx).message == message
            &&& !message.is_borrow() ==> discarded == slot
            &&& message.is_borrow() ==> {
                let awaiting = slot_after_take(discarded);
                let buf = (match message {
                    Message::MutableBorrow(m) => m.buf,
                    Message::Borrow(m) => m.buf,
                    Message::Scalar(_) => MemoryRange { addr: 0, size: 0 },
                    Message::Move(_) => MemoryRange { addr: 0, size: 0 },
                });
                &&& awaiting is WaitingForget
                &&& reply_matches(awaiting, buf)
                &&& reply_outcome(awaiting) == WaitingMessage::ForgetMemory(buf)
            }
        }),
{
}

/// Both cursors of a well-formed queue lie strictly inside its fixed
/// capacity.
pub proof fn lemma_cursors_in_range(s: &Server)
    requires
        s.wf(),
    ensures
        0 <= s.head() < QUEUE_CAPACITY,
        0 <= s.tail() < QUEUE_CAPACITY,
{
}

/// Every slot is in exactly one of the enumerated states: the nine variant
/// predicates cover every slot and exclude one another pairwise.
pub proof fn lemma_slot_states_exhaustive(s: QueuedMessage)
    ensures
        ({
            ||| s is Empty
            ||| s is ScalarMessage
            ||| s is MemoryMessageSend
            ||| s is MemoryMessageROLend
            ||| s is MemoryMessageRWLend
            ||| s is MemoryMessageROLendTerminated
            ||| s is MemoryMessageRWLendTerminated
            ||| s is WaitingResponse
            ||| s is WaitingForget
        }),
        s is Empty ==> !(s is ScalarMessage) && !(s is WaitingResponse),
        slot_awaiting(s) ==> !slot_deliverable(s),
{
}

/// An awaiting slot of a well-formed queue records a non-zero length exactly
/// when it records a borrow: a move leaves the server address zero and the
/// length zero, a borrow leaves both non-zero.
pub proof fn lemma_awaiting_length_iff_borrow(s: &Server, i: int)
    requires
        s.wf(),
        0 <= i < QUEUE_CAPACITY,
        slot_awaiting(s.slots()[i]),
    ensures
        s.slots()[i] matches QueuedMessage::WaitingResponse(_pid, _tid, server, _client, len)
            ==> (len != 0 <==> server != 0),
        s.slots()[i] matches QueuedMessage::WaitingForget(_pid, _tid, server, _client, len)
            ==> (len != 0 <==> server != 0),
{
    assert(slot_wf(s.slots()[i]));
}

/// The teardown sweep leaves no pending borrow lent by the dying process:
/// whatever state a slot was in, its state after the sweep is not a pending
/// borrow of that process.
pub proof fn lemma_discard_clears_pid(s: QueuedMessage, pid: u16)
    ensures
        !crate::slot::slot_pending_borrow_of(slot_after_discard(s, pid), pid),
{
}

/// The ready-thread set changes one bit at a time: parking or returning a
/// thread touches no bit but that thread's, so a set bit can only name a
/// thread that some operation parked. Bits at or above the set's width never
/// exist.
pub proof fn lemma_ready_bit_is_parked_thread(mask: u64, tid: u64, t: u64)
    requires
        tid < 64,
    ensures
        t != tid && t < 64 ==> has_bit(mask | (1u64 << tid), t) == has_bit(mask, t),
        t >= 64 ==> !has_bit(mask | (1u64 << tid), t),
{
    crate::bits::lemma_set_bit(mask, tid);
}

/// The sender token round trip: the token packed from a pid and a tid splits
/// back into exactly that pair.
pub proof fn lemma_sender_token_round_trip(pid: u16, context: u16)
    ensures
        (pid as int * 0x10000 + context as int) / 0x10000 == pid as int,
        (pid as int * 0x10000 + context as int) % 0x10000 == context as int,
{
    assert((pid as int * 0x10000 + context as int) / 0x10000 == pid as int) by (nonlinear_arith);
    assert((pid as int * 0x10000 + context as int) % 0x10000 == context as int)
        by (nonlinear_arith);
}

} // verus!
