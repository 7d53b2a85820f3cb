//! Plain data carried across the queue boundary: identifiers, memory
//! descriptors, the message kinds a sender can submit, and the envelope and
//! reply obligations handed back to the server.

use vstd::prelude::*;

verus! {

/// Errors returned by queue operations. Errors are enumerated and returned,
/// never raised as control flow.
#[derive(Clone, Copy, Debug, PartialEq, Eq, Structural)]
pub enum Error {
    /// Attempted to initialize a queue where one already exists.
    MemoryInUse,
    /// Admission at full capacity; the caller must arrange a retry.
    ServerQueueFull,
    /// A reply named a slot index out of range, or a buffer whose address or
    /// length does not match what the slot recorded.
    BadAddress,
}

/// A process identifier. Zero is reserved and never names a process.
#[derive(Clone, Copy, Debug, PartialEq, Eq, Structural)]
pub struct Pid {
    pub number: u8,
}

impl Pid {
    /// A usable process identifier is non-zero.
    pub open spec fn valid(self) -> bool {
        self.number != 0
    }

    /// Builds a process identifier; zero is rejected.
    pub fn new(number: u8) -> (r: Option<Pid>)
        ensures
            r == (if number == 0 {
                Option::<Pid>::None
            } else {
                Some(Pid { number })
            }),
    {
        if number == 0 {
            None
        } else {
            Some(Pid { number })
        }
    }

    /// The identifier as a plain integer.
    pub fn get(self) -> (r: u8)
        ensures
            r == self.number,
    {
        self.number
    }
}

/// An opaque 128-bit server identifier, immutable for the server's lifetime.
#[derive(Clone, Copy, Debug, PartialEq, Eq, Structural)]
pub struct Sid {
    pub w0: u32,
    pub w1: u32,
    pub w2: u32,
    pub w3: u32,
}

impl Sid {
    /// Assembles a server identifier from four words.
    pub fn from_u32(w0: u32, w1: u32, w2: u32, w3: u32) -> (r: Sid)
        ensures
            r == (Sid { w0, w1, w2, w3 }),
    {
        Sid { w0, w1, w2, w3 }
    }
}

/// A contiguous region of memory named by its starting address and byte
/// length. A region that takes part in a loan always has a non-zero address
/// and a non-zero length; the zero address is the sentinel for "no region".
#[derive(Clone, Copy, Debug, PartialEq, Eq, Structural)]
pub struct MemoryRange {
    pub addr: usize,
    pub size: usize,
}

impl MemoryRange {
    /// Builds a region descriptor.
    pub fn new(addr: usize, size: usize) -> (r: MemoryRange)
        ensures
            r == (MemoryRange { addr, size }),
    {
        MemoryRange { addr, size }
    }
}

/// A fire-and-forget message of four word-sized arguments.
#[derive(Clone, Copy, Debug, PartialEq, Eq, Structural)]
pub struct ScalarMessage {
    pub id: usize,
    pub arg1: usize,
    pub arg2: usize,
    pub arg3: usize,
    pub arg4: usize,
}

/// A message that names a memory region: the buffer, how far into it the
/// payload starts, and how many bytes are valid. Zero stands for an absent
/// offset or valid count.
#[derive(Clone, Copy, Debug, PartialEq, Eq, Structural)]
pub struct MemoryMessage {
    pub id: usize,
    pub buf: MemoryRange,
    pub offset: usize,
    pub valid: usize,
}

impl MemoryMessage {
    /// A memory message always names a real region.
    pub open spec fn wf(self) -> bool {
        self.buf.addr != 0 && self.buf.size != 0
    }
}

/// The kinds of message a sender can submit to a server.
#[derive(Clone, Copy, Debug, PartialEq, Eq, Structural)]
pub enum Message {
    /// Four word arguments; carries no memory.
    Scalar(ScalarMessage),
    /// A region whose ownership transfers to the server on delivery.
    Move(MemoryMessage),
    /// A read/write loan; the region must be returned on reply.
    MutableBorrow(MemoryMessage),
    /// A read-only loan; the region must be returned on reply.
    Borrow(MemoryMessage),
}

impl Message {
    /// Memory-bearing kinds name a real region; scalars carry none.
    pub open spec fn wf(self) -> bool {
        match self {
            Message::Scalar(_) => true,
            Message::Move(m) => m.wf(),
            Message::MutableBorrow(m) => m.wf(),
            Message::Borrow(m) => m.wf(),
        }
    }

    /// Whether this kind lends memory that must come back to the sender.
    pub open spec fn is_borrow(self) -> bool {
        self is MutableBorrow || self is Borrow
    }
}

/// A delivered message as the receiving worker sees it: the reconstructed
/// message plus a sender token that routes the reply.
#[derive(Clone, Copy, Debug, PartialEq, Eq, Structural)]
pub struct MessageEnvelope {
    pub sender: usize,
    pub message: Message,
}

/// The memory-return obligation computed when a reply completes.
#[derive(Clone, Copy, Debug, PartialEq, Eq, Structural)]
pub enum WaitingMessage {
    /// No message was waiting at that slot (a benign race with teardown).
    NoMessage,
    /// The memory was borrowed: unmap it from the server, restore the
    /// client's mapping, and unblock the sending thread.
    /// Fields: sender pid, sender tid, server address, client address, length.
    BorrowedMemory(Pid, usize, usize, usize, usize),
    /// The memory was moved, so nothing is returned.
    MovedMemory,
    /// The lender died; the region is reclaimed by the system.
    ForgetMemory(MemoryRange),
}

/// The two halves of a sender token: a server (or process) index in the high
/// sixteen bits and a slot (or thread) index in the low sixteen.
#[derive(Clone, Copy, Debug, PartialEq, Eq, Structural)]
pub struct SenderID {
    pub sidx: usize,
    pub tidx: usize,
}

impl SenderID {
    /// Splits a sender token into its index pair.
    pub fn from_usize(src: usize) -> (r: Result<SenderID, Error>)
        ensures
            r matches Ok(s) && s.sidx == src / 0x10000 && s.tidx == src % 0x10000,
    {
        proof {
            assert(src >> 16usize == src / 0x10000) by (bit_vector);
            assert(src & 0xffff == src % 0x10000) by (bit_vector);
        }
        Ok(SenderID { sidx: src >> 16, tidx: src & 0xffff })
    }
}

/// Packs a process identifier and a thread identifier into the sender token
/// delivered with scalar and move messages.
pub fn make_sender(pid: u16, ctx: u16) -> (r: usize)
    ensures
        r == pid * 0x10000 + ctx,
{
    (pid as usize) * 0x10000 + (ctx as usize)
}

} // verus!
