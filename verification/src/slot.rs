//! The fixed-size tagged slot and its state machine.
//!
//! A slot holds one queued message or its aftermath. Pending slots are
//! written at admission; delivery either clears a slot (scalars and moves) or
//! rewrites it in place to an awaiting state (borrows); completion of a reply
//! clears an awaiting slot; a lender's death rewrites its pending borrows to
//! terminated variants and its awaiting-reply slots to awaiting-forget.
//!
//! The spec functions here say, slot by slot, what each queue operation
//! writes and returns; the contracts in [`crate::server`] are stated over
//! them, and the laws in [`crate::laws`] chain them into round trips.

use vstd::prelude::*;

use crate::types::{MemoryMessage, MemoryRange, Message, MessageEnvelope, Pid, ScalarMessage,
    WaitingMessage};

verus! {

/// One entry of the server queue. Field layout is shared across variants so
/// the queue is a plain array of fixed-width records: a discriminant, the
/// sender's process and thread identifiers in sixteen bits each, and up to
/// six word-sized payload arguments.
#[derive(Clone, Copy, Debug, PartialEq, Eq, Structural)]
pub enum QueuedMessage {
    /// No message.
    Empty,
    /// Fields: sender pid, sender tid, origin address (unused), id,
    /// arg1, arg2, arg3, arg4.
    ScalarMessage(u16, u16, usize, usize, usize, usize, usize, usize),
    /// A moved region. Fields: sender pid, sender tid, origin address
    /// (unused), id, buffer address, buffer size, offset, valid.
    MemoryMessageSend(u16, u16, usize, usize, usize, usize, usize, usize),
    /// A read-only loan. Fields: sender pid, sender tid, client address, id,
    /// buffer address, buffer size, offset, valid.
    MemoryMessageROLend(u16, u16, usize, usize, usize, usize, usize, usize),
    /// A read/write loan; fields as in the read-only variant.
    MemoryMessageRWLend(u16, u16, usize, usize, usize, usize, usize, usize),
    /// A read-only loan whose lender terminated before delivery; the memory
    /// must be forgotten rather than returned after the reply.
    MemoryMessageROLendTerminated(u16, u16, usize, usize, usize, usize, usize, usize),
    /// A read/write loan whose lender terminated before delivery.
    MemoryMessageRWLendTerminated(u16, u16, usize, usize, usize, usize, usize, usize),
    /// A delivered borrow held open until the server replies, so the lender
    /// can be unblocked and its mapping restored. Fields: sender pid, sender
    /// tid, server address, client address, length.
    WaitingResponse(u16, u16, usize, usize, usize),
    /// As `WaitingResponse`, but the lender died: on reply the memory is
    /// forgotten instead of returned.
    WaitingForget(u16, u16, usize, usize, usize),
}

/// Every non-empty slot names a real sender (a non-zero pid that fits the
/// eight bits of a process identifier); pending memory slots name a real
/// region, and pending borrows record the client's address; an awaiting slot
/// records a non-zero length exactly when it records a borrow (a move leaves
/// the server address zero), and a borrow's client address is non-zero.
pub open spec fn slot_wf(s: QueuedMessage) -> bool {
    match s {
        QueuedMessage::Empty => true,
        QueuedMessage::ScalarMessage(pid, _tid, _origin, _id, _a1, _a2, _a3, _a4) =>
            0 < pid < 256,
        QueuedMessage::MemoryMessageSend(pid, _tid, _origin, _id, buf, size, _off, _val) =>
            0 < pid < 256 && buf != 0 && size != 0,
        QueuedMessage::MemoryMessageROLend(pid, _tid, client, _id, buf, size, _off, _val) =>
            0 < pid < 256 && client != 0 && buf != 0 && size != 0,
        QueuedMessage::MemoryMessageRWLend(pid, _tid, client, _id, buf, size, _off, _val) =>
            0 < pid < 256 && client != 0 && buf != 0 && size != 0,
        QueuedMessage::MemoryMessageROLendTerminated(pid, _tid, client, _id, buf, size, _off, _val) =>
            0 < pid < 256 && client != 0 && buf != 0 && size != 0,
        QueuedMessage::MemoryMessageRWLendTerminated(pid, _tid, client, _id, buf, size, _off, _val) =>
            0 < pid < 256 && client != 0 && buf != 0 && size != 0,
        QueuedMessage::WaitingResponse(pid, _tid, server, client, len) =>
            0 < pid < 256 && (server != 0 <==> len != 0) && (server != 0 ==> client != 0),
        QueuedMessage::WaitingForget(pid, _tid, server, client, len) =>
            0 < pid < 256 && (server != 0 <==> len != 0) && (server != 0 ==> client != 0),
    }
}

/// The slot that admission writes for a message: the variant matching the
/// message's kind, with the origin address recorded beside borrows as the
/// client address to restore on reply.
pub open spec fn admitted_slot(pid: u16, tid: u16, message: Message, origin: usize)
    -> QueuedMessage {
    match message {
        Message::Scalar(m) => QueuedMessage::ScalarMessage(
            pid, tid, origin, m.id, m.arg1, m.arg2, m.arg3, m.arg4),
        Message::Move(m) => QueuedMessage::MemoryMessageSend(
            pid, tid, origin, m.id, m.buf.addr, m.buf.size, m.offset, m.valid),
        Message::MutableBorrow(m) => QueuedMessage::MemoryMessageRWLend(
            pid, tid, origin, m.id, m.buf.addr, m.buf.size, m.offset, m.valid),
        Message::Borrow(m) => QueuedMessage::MemoryMessageROLend(
            pid, tid, origin, m.id, m.buf.addr, m.buf.size, m.offset, m.valid),
    }
}

/// The slot that a reply-path admission writes: an awaiting-reply record
/// holding the borrowed region's bounds, or a zero region for kinds that
/// carry no loan.
pub open spec fn admitted_reply_slot(pid: u16, tid: u16, message: Message, client: usize)
    -> QueuedMessage {
    match message {
        Message::Scalar(_) => QueuedMessage::WaitingResponse(pid, tid, 0, client, 0),
        Message::Move(_) => QueuedMessage::WaitingResponse(pid, tid, 0, client, 0),
        Message::MutableBorrow(m) => QueuedMessage::WaitingResponse(
            pid, tid, m.buf.addr, client, m.buf.size),
        Message::Borrow(m) => QueuedMessage::WaitingResponse(
            pid, tid, m.buf.addr, client, m.buf.size),
    }
}

/// Whether delivery can act on this slot. An empty slot has nothing to
/// deliver; an awaiting slot blocks the read cursor until its reply lands.
pub open spec fn slot_deliverable(s: QueuedMessage) -> bool {
    match s {
        QueuedMessage::Empty => false,
        QueuedMessage::WaitingResponse(_, _, _, _, _) => false,
        QueuedMessage::WaitingForget(_, _, _, _, _) => false,
        _ => true,
    }
}

/// The envelope delivery composes from a deliverable slot. Scalars and moves
/// carry the sender's own token (pid and tid packed into one word); borrows
/// carry the reply route instead: the server's index over the slot's index.
pub open spec fn delivered_envelope(s: QueuedMessage, slot_idx: int, server_idx: int)
    -> MessageEnvelope
    recommends
        slot_deliverable(s),
{
    match s {
        QueuedMessage::ScalarMessage(pid, tid, _origin, id, a1, a2, a3, a4) => MessageEnvelope {
            sender: (pid * 0x10000 + tid) as usize,
            message: Message::Scalar(ScalarMessage { id, arg1: a1, arg2: a2, arg3: a3, arg4: a4 }),
        },
        QueuedMessage::MemoryMessageSend(pid, tid, _origin, id, buf, size, off, val) =>
            MessageEnvelope {
                sender: (pid * 0x10000 + tid) as usize,
                message: Message::Move(MemoryMessage {
                    id,
                    buf: MemoryRange { addr: buf, size },
                    offset: off,
                    valid: val,
                }),
            },
        QueuedMessage::MemoryMessageROLend(_pid, _tid, _client, id, buf, size, off, val) =>
            MessageEnvelope {
                sender: (server_idx * 0x10000 + slot_idx) as usize,
                message: Message::Borrow(MemoryMessage {
                    id,
                    buf: MemoryRange { addr: buf, size },
                    offset: off,
                    valid: val,
                }),
            },
        QueuedMessage::MemoryMessageRWLend(_pid, _tid, _client, id, buf, size, off, val) =>
            MessageEnvelope {
                sender: (server_idx * 0x10000 + slot_idx) as usize,
                message: Message::MutableBorrow(MemoryMessage {
                    id,
                    buf: MemoryRange { addr: buf, size },
                    offset: off,
                    valid: val,
                }),
            },
        QueuedMessage::MemoryMessageROLendTerminated(_pid, _tid, _client, id, buf, size, off, val)
            => MessageEnvelope {
                sender: (server_idx * 0x10000 + slot_idx) as usize,
                message: Message::Borrow(MemoryMessage {
                    id,
                    buf: MemoryRange { addr: buf, size },
                    offset: off,
                    valid: val,
                }),
            },
        QueuedMessage::MemoryMessageRWLendTerminated(_pid, _tid, _client, id, buf, size, off, val)
            => MessageEnvelope {
                sender: (server_idx * 0x10000 + slot_idx) as usize,
                message: Message::MutableBorrow(MemoryMessage {
                    id,
                    buf: MemoryRange { addr: buf, size },
                    offset: off,
                    valid: val,
                }),
            },
        _ => MessageEnvelope { sender: 0, message: Message::Scalar(ScalarMessage {
            id: 0, arg1: 0, arg2: 0, arg3: 0, arg4: 0 }) },
    }
}

/// What delivery leaves in the slot: scalars and moves clear it; borrows are
/// rewritten in place to the awaiting state that records the sender, the
/// region as mapped in the server, and the client address to restore.
pub open spec fn slot_after_take(s: QueuedMessage) -> QueuedMessage
    recommends
        slot_deliverable(s),
{
    match s {
        QueuedMessage::ScalarMessage(_pid, _tid, _origin, _id, _a1, _a2, _a3, _a4) =>
            QueuedMessage::Empty,
        QueuedMessage::MemoryMessageSend(_pid, _tid, _origin, _id, _buf, _size, _off, _val) =>
            QueuedMessage::Empty,
        QueuedMessage::MemoryMessageROLend(pid, tid, client, _id, buf, size, _off, _val) =>
            QueuedMessage::WaitingResponse(pid, tid, buf, client, size),
        QueuedMessage::MemoryMessageRWLend(pid, tid, client, _id, buf, size, _off, _val) =>
            QueuedMessage::WaitingResponse(pid, tid, buf, client, size),
        QueuedMessage::MemoryMessageROLendTerminated(pid, tid, client, _id, buf, size, _off, _val)
            => QueuedMessage::WaitingForget(pid, tid, buf, client, size),
        QueuedMessage::MemoryMessageRWLendTerminated(pid, tid, client, _id, buf, size, _off, _val)
            => QueuedMessage::WaitingForget(pid, tid, buf, client, size),
        _ => s,
    }
}

/// Whether the read cursor advances when this slot is delivered: it does for
/// slots that clear immediately, and stays for borrows, whose slot index must
/// remain stable until the reply completes.
pub open spec fn take_advances_tail(s: QueuedMessage) -> bool {
    s is ScalarMessage || s is MemoryMessageSend
}

/// Whether a reply aimed at this slot matches it: the slot is awaiting a
/// reply, and the buffer handed back has the recorded address and length.
pub open spec fn reply_matches(s: QueuedMessage, buf: MemoryRange) -> bool {
    match s {
        QueuedMessage::WaitingResponse(_pid, _tid, server, _client, len) =>
            server == buf.addr && len == buf.size,
        QueuedMessage::WaitingForget(_pid, _tid, server, _client, len) =>
            server == buf.addr && len == buf.size,
        _ => false,
    }
}

/// Whether this slot is in one of the two awaiting states.
pub open spec fn slot_awaiting(s: QueuedMessage) -> bool {
    s is WaitingResponse || s is WaitingForget
}

/// The obligation a completed reply returns: forget the region if the lender
/// died; nothing if the original message moved its memory (the server
/// address is zero); otherwise return the borrow to its sender.
pub open spec fn reply_outcome(s: QueuedMessage) -> WaitingMessage
    recommends
        slot_awaiting(s),
{
    match s {
        QueuedMessage::WaitingForget(_pid, _tid, server, _client, len) =>
            WaitingMessage::ForgetMemory(MemoryRange { addr: server, size: len }),
        QueuedMessage::WaitingResponse(pid, tid, server, client, len) => {
            if server == 0 {
                WaitingMessage::MovedMemory
            } else {
                WaitingMessage::BorrowedMemory(
                    Pid { number: pid as u8 }, tid as usize, server, client, len)
            }
        },
        _ => WaitingMessage::NoMessage,
    }
}

/// What the teardown sweep leaves in a slot when the given process dies:
/// pending borrows from that process become terminated variants with the
/// same payload, its awaiting-reply slots become awaiting-forget, and every
/// other slot is untouched (scalars carry no memory; moves already
/// transferred ownership at admission).
pub open spec fn slot_after_discard(s: QueuedMessage, pid: u16) -> QueuedMessage {
    match s {
        QueuedMessage::MemoryMessageROLend(p, tid, client, id, buf, size, off, val) => {
            if p == pid {
                QueuedMessage::MemoryMessageROLendTerminated(p, tid, client, id, buf, size, off, val)
            } else {
                s
            }
        },
        QueuedMessage::MemoryMessageRWLend(p, tid, client, id, buf, size, off, val) => {
            if p == pid {
                QueuedMessage::MemoryMessageRWLendTerminated(p, tid, client, id, buf, size, off, val)
            } else {
                s
            }
        },
        QueuedMessage::WaitingResponse(p, tid, server, client, len) => {
            if p == pid {
                QueuedMessage::WaitingForget(p, tid, server, client, len)
            } else {
                s
            }
        },
        _ => s,
    }
}

/// Whether this slot is a pending borrow from the given process — the states
/// the teardown sweep must leave none of.
pub open spec fn slot_pending_borrow_of(s: QueuedMessage, pid: u16) -> bool {
    ||| (s matches QueuedMessage::MemoryMessageROLend(p, _tid, _client, _id, _buf, _size, _off, _val)
        && p == pid)
    ||| (s matches QueuedMessage::MemoryMessageRWLend(p, _tid, _client, _id, _buf, _size, _off, _val)
        && p == pid)
}

} // verus!
