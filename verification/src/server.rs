//! The per-server bounded message ring and its ready-thread set.
//!
//! The queue is a fixed-capacity ring of slots with two cursors: `queue_head`,
//! where admission writes, and `queue_tail`, where delivery reads. Emptiness
//! and fullness are judged by slot contents, never by the cursors alone: the
//! queue is full exactly when the head slot is non-empty, and the tail does
//! not skip past a slot that is awaiting a reply — the index of a borrow
//! stays stable from admission until its reply completes.

use vstd::prelude::*;

use crate::slot::{admitted_reply_slot, admitted_slot, delivered_envelope, reply_matches,
    reply_outcome, slot_after_discard, slot_after_take, slot_awaiting, slot_deliverable,
    slot_pending_borrow_of, slot_wf, take_advances_tail, QueuedMessage};
use crate::bits::{has_bit, MAX_THREADS};
use crate::types::{make_sender, Error, MemoryMessage, MemoryRange, Message, MessageEnvelope, Pid,
    ScalarMessage, Sid, WaitingMessage};

verus! {

/// Bytes in one memory page; a queue occupies exactly one page.
pub const PAGE_SIZE: usize = 4096;

/// Bytes in one slot: a one-word discriminant and seven words of payload on a
/// 32-bit target.
pub const SLOT_SIZE: usize = 32;

/// Slots per queue: one page of fixed-width slots.
pub const QUEUE_CAPACITY: usize = 128;

/// A single server instance: its identity, its message ring, and the bitset
/// of its worker threads parked awaiting a message.
pub struct Server {
    /// The server's opaque identifier, immutable for its lifetime.
    pub sid: Sid,
    /// The process hosting the server, immutable for its lifetime.
    pub pid: Pid,
    /// Next index admission will write.
    queue_head: usize,
    /// Next index delivery will read.
    queue_tail: usize,
    /// The fixed-capacity slot ring.
    queue: Vec<QueuedMessage>,
    /// Bit `t` set means worker thread `t` is parked awaiting a message.
    ready_threads: u64,
}

impl Server {
    /// The slot ring's contents.
    pub closed spec fn slots(self) -> Seq<QueuedMessage> {
        self.queue@
    }

    /// The admission cursor.
    pub closed spec fn head(self) -> int {
        self.queue_head as int
    }

    /// The delivery cursor.
    pub closed spec fn tail(self) -> int {
        self.queue_tail as int
    }

    /// The ready-thread bitset.
    pub closed spec fn ready(self) -> u64 {
        self.ready_threads
    }

    /// The server's identifier, as contracts see it.
    pub closed spec fn spec_sid(self) -> Sid {
        self.sid
    }

    /// The owning process, as contracts see it.
    pub closed spec fn spec_pid(self) -> Pid {
        self.pid
    }

    /// The queue's well-formedness: the ring has its fixed capacity, both
    /// cursors lie inside it, the owner is a real process, and every slot
    /// satisfies the slot invariant.
    pub open spec fn wf(self) -> bool {
        &&& self.slots().len() == QUEUE_CAPACITY
        &&& 0 <= self.head() < QUEUE_CAPACITY
        &&& 0 <= self.tail() < QUEUE_CAPACITY
        &&& self.spec_pid().valid()
        &&& forall|i: int| 0 <= i < self.slots().len() ==> slot_wf(#[trigger] self.slots()[i])
    }

    /// Both queues hold the same messages, cursors and ready set.
    pub open spec fn same_state(self, other: Server) -> bool {
        &&& self.spec_sid() == other.spec_sid()
        &&& self.spec_pid() == other.spec_pid()
        &&& self.slots() == other.slots()
        &&& self.head() == other.head()
        &&& self.tail() == other.tail()
        &&& self.ready() == other.ready()
    }

    /// Initializes a server in the given option slot. Fails with
    /// `MemoryInUse` when a server already occupies it; otherwise the slot
    /// receives a fresh server with an all-empty ring, both cursors at zero,
    /// and no parked threads.
    pub fn init(new: &mut Option<Server>, pid: Pid, sid: Sid) -> (r: Result<(), Error>)
        requires
            pid.valid(),
        ensures
            *old(new) is Some ==> r == Err::<(), Error>(Error::MemoryInUse) && *final(new) == *old(new),
            *old(new) is None ==> {
                &&& r == Ok::<(), Error>(())
                &&& *final(new) matches Some(s)
                &&& s.wf()
                &&& s.spec_sid() == sid
                &&& s.spec_pid() == pid
                &&& s.head() == 0
                &&& s.tail() == 0
                &&& s.ready() == 0
                &&& forall|i: int| 0 <= i < QUEUE_CAPACITY ==> s.slots()[i] is Empty
            },
    {
        if new.is_some() {
            return Err(Error::MemoryInUse);
        }

        let mut queue: Vec<QueuedMessage> = Vec::new();
        let mut i: usize = 0;
        while i < QUEUE_CAPACITY
            invariant
                i <= QUEUE_CAPACITY,
                queue@.len() == i,
                forall|j: int| 0 <= j < i ==> queue@[j] is Empty,
            decreases QUEUE_CAPACITY - i,
        {
            queue.push(QueuedMessage::Empty);
            i = i + 1;
        }

        *new = Some(
            Server {
                sid,
                pid,
                queue_head: 0,
                queue_tail: 0,
                queue,
                ready_threads: 0,
            },
        );
        Ok(())
    }

    /// Empties the option slot, dropping the queue. Outstanding borrows must
    /// have been handled by prior teardown hooks.
    pub fn destroy(current: &mut Option<Server>) -> (r: Result<(), Error>)
        ensures
            r == Ok::<(), Error>(()),
            *final(current) is None,
    {
        *current = None;
        Ok(())
    }

    /// Admits a message into the ring. Fails fast with `ServerQueueFull`,
    /// changing nothing, when the head slot is occupied; otherwise writes the
    /// slot variant matching the message's kind at the head, advances the
    /// head modulo capacity, and returns the written index. That index names
    /// the message for its whole lifetime, even after its slot transitions to
    /// an awaiting state.
    pub fn queue_message(
        &mut self,
        pid: Pid,
        context: usize,
        message: Message,
        original_address: Option<usize>,
    ) -> (r: Result<usize, Error>)
        requires
            old(self).wf(),
            pid.valid(),
            context < 0x10000,
            message.wf(),
            message.is_borrow() ==> (original_address matches Some(a) && a != 0),
        ensures
            final(self).wf(),
            !(old(self).slots()[old(self).head()] is Empty) ==> {
                &&& r == Err::<usize, Error>(Error::ServerQueueFull)
                &&& final(self).same_state(*old(self))
            },
            old(self).slots()[old(self).head()] is Empty ==> {
                &&& r matches Ok(idx) && idx == old(self).head()
                &&& final(self).slots() == old(self).slots().update(
                    old(self).head(),
                    admitted_slot(
                        pid.number as u16,
                        context as u16,
                        message,
                        origin_value(original_address),
                    ),
                )
                &&& final(self).head() == (old(self).head() + 1) % (QUEUE_CAPACITY as int)
                &&& final(self).tail() == old(self).tail()
                &&& final(self).ready() == old(self).ready()
                &&& final(self).spec_sid() == old(self).spec_sid()
                &&& final(self).spec_pid() == old(self).spec_pid()
            },
    {
        let head: usize = self.queue_head;
        if self.queue[head] != QueuedMessage::Empty {
            return Err(Error::ServerQueueFull);
        }

        let origin: usize = match original_address {
            Some(a) => a,
            None => 0,
        };
        let pid16: u16 = pid.number as u16;
        let ctx16: u16 = context as u16;

        self.queue[head] = match message {
            Message::Scalar(m) => QueuedMessage::ScalarMessage(
                pid16,
                ctx16,
                origin,
                m.id,
                m.arg1,
                m.arg2,
                m.arg3,
                m.arg4,
            ),
            Message::Move(m) => QueuedMessage::MemoryMessageSend(
                pid16,
                ctx16,
                origin,
                m.id,
                m.buf.addr,
                m.buf.size,
                m.offset,
                m.valid,
            ),
            Message::MutableBorrow(m) => QueuedMessage::MemoryMessageRWLend(
                pid16,
                ctx16,
                origin,
                m.id,
                m.buf.addr,
                m.buf.size,
                m.offset,
                m.valid,
            ),
            Message::Borrow(m) => QueuedMessage::MemoryMessageROLend(
                pid16,
                ctx16,
                origin,
                m.id,
                m.buf.addr,
                m.buf.size,
                m.offset,
                m.valid,
            ),
        };

        self.queue_head = head + 1;
        if self.queue_head >= QUEUE_CAPACITY {
            self.queue_head = 0;
        }
        Ok(head)
    }

    /// Admits an awaiting-reply slot directly: the path a server takes when
    /// it queues an address for a synchronous reply. Records the borrowed
    /// region's bounds from a borrow message and a zero region from a scalar
    /// or move; the capacity rule and head advancement match
    /// [`Server::queue_message`].
    pub fn queue_address(
        &mut self,
        pid: Pid,
        context: usize,
        message: &Message,
        client_address: Option<usize>,
    ) -> (r: Result<usize, Error>)
        requires
            old(self).wf(),
            pid.valid(),
            context < 0x10000,
            message.wf(),
            message.is_borrow() ==> (client_address matches Some(a) && a != 0),
        ensures
            final(self).wf(),
            !(old(self).slots()[old(self).head()] is Empty) ==> {
                &&& r == Err::<usize, Error>(Error::ServerQueueFull)
                &&& final(self).same_state(*old(self))
            },
            old(self).slots()[old(self).head()] is Empty ==> {
                &&& r matches Ok(idx) && idx == old(self).head()
                &&& final(self).slots() == old(self).slots().update(
                    old(self).head(),
                    admitted_reply_slot(
                        pid.number as u16,
                        context as u16,
                        *message,
                        origin_value(client_address),
                    ),
                )
                &&& final(self).head() == (old(self).head() + 1) % (QUEUE_CAPACITY as int)
                &&& final(self).tail() == old(self).tail()
                &&& final(self).ready() == old(self).ready()
                &&& final(self).spec_sid() == old(self).spec_sid()
                &&& final(self).spec_pid() == old(self).spec_pid()
            },
    {
        let head: usize = self.queue_head;
        if self.queue[head] != QueuedMessage::Empty {
            return Err(Error::ServerQueueFull);
        }

        let client: usize = match client_address {
            Some(a) => a,
            None => 0,
        };
        let (server_address, len): (usize, usize) = match message {
            Message::Scalar(_) => (0, 0),
            Message::Move(_) => (0, 0),
            Message::MutableBorrow(m) => (m.buf.addr, m.buf.size),
            Message::Borrow(m) => (m.buf.addr, m.buf.size),
        };

        self.queue[head] = QueuedMessage::WaitingResponse(
            pid.number as u16,
            context as u16,
            server_address,
            client,
            len,
        );

        self.queue_head = head + 1;
        if self.queue_head >= QUEUE_CAPACITY {
            self.queue_head = 0;
        }
        Ok(head)
    }
}

impl Server {
    /// Delivers the message at the tail, if one is deliverable there. An
    /// empty or awaiting slot yields `None` and changes nothing: the tail
    /// waits, it does not skip. A scalar or move clears its slot and advances
    /// the tail; a borrow is rewritten in place to its awaiting state and the
    /// tail stays, so the slot's index keeps naming the message until its
    /// reply completes. The envelope's sender token carries the sender's pid
    /// and tid for scalars and moves, and the reply route — this server's
    /// index over the slot's index — for borrows.
    pub fn take_next_message(&mut self, server_idx: usize) -> (r: Option<MessageEnvelope>)
        requires
            old(self).wf(),
            server_idx < 0x10000,
        ensures
            final(self).wf(),
            !slot_deliverable(old(self).slots()[old(self).tail()]) ==> {
                &&& r is None
                &&& final(self).same_state(*old(self))
            },
            slot_deliverable(old(self).slots()[old(self).tail()]) ==> {
                let slot = old(self).slots()[old(self).tail()];
                &&& r == Some(delivered_envelope(slot, old(self).tail(), server_idx as int))
                &&& final(self).slots() == old(self).slots().update(
                    old(self).tail(),
                    slot_after_take(slot),
                )
                &&& final(self).tail() == (if take_advances_tail(slot) {
                    (old(self).tail() + 1) % (QUEUE_CAPACITY as int)
                } else {
                    old(self).tail()
                })
                &&& final(self).head() == old(self).head()
                &&& final(self).ready() == old(self).ready()
                &&& final(self).spec_sid() == old(self).spec_sid()
                &&& final(self).spec_pid() == old(self).spec_pid()
            },
    {
        let tail: usize = self.queue_tail;
        let slot: QueuedMessage = self.queue[tail];
        match slot {
            QueuedMessage::Empty => None,
            QueuedMessage::WaitingResponse(_, _, _, _, _) => None,
            QueuedMessage::WaitingForget(_, _, _, _, _) => None,
            QueuedMessage::ScalarMessage(pid, ctx, _origin, id, a1, a2, a3, a4) => {
                let env = MessageEnvelope {
                    sender: make_sender(pid, ctx),
                    message: Message::Scalar(ScalarMessage {
                        id,
                        arg1: a1,
                        arg2: a2,
                        arg3: a3,
                        arg4: a4,
                    }),
                };
                self.queue[tail] = QueuedMessage::Empty;
                self.queue_tail = tail + 1;
                if self.queue_tail >= QUEUE_CAPACITY {
                    self.queue_tail = 0;
                }
                Some(env)
            },
            QueuedMessage::MemoryMessageSend(pid, ctx, _origin, id, buf, size, off, val) => {
                let env = MessageEnvelope {
                    sender: make_sender(pid, ctx),
                    message: Message::Move(MemoryMessage {
                        id,
                        buf: MemoryRange { addr: buf, size },
                        offset: off,
                        valid: val,
                    }),
                };
                self.queue[tail] = QueuedMessage::Empty;
                self.queue_tail = tail + 1;
                if self.queue_tail >= QUEUE_CAPACITY {
                    self.queue_tail = 0;
                }
                Some(env)
            },
            QueuedMessage::MemoryMessageROLend(pid, ctx, client, id, buf, size, off, val) => {
                let env = MessageEnvelope {
                    sender: server_idx * 0x10000 + tail,
                    message: Message::Borrow(MemoryMessage {
                        id,
                        buf: MemoryRange { addr: buf, size },
                        offset: off,
                        valid: val,
                    }),
                };
                self.queue[tail] = QueuedMessage::WaitingResponse(pid, ctx, buf, client, size);
                Some(env)
            },
            QueuedMessage::MemoryMessageRWLend(pid, ctx, client, id, buf, size, off, val) => {
                let env = MessageEnvelope {
                    sender: server_idx * 0x10000 + tail,
                    message: Message::MutableBorrow(MemoryMessage {
                        id,
                        buf: MemoryRange { addr: buf, size },
                        offset: off,
                        valid: val,
                    }),
                };
                self.queue[tail] = QueuedMessage::WaitingResponse(pid, ctx, buf, client, size);
                Some(env)
            },
            QueuedMessage::MemoryMessageROLendTerminated(pid, ctx, client, id, buf, size, off, val)
                => {
                let env = MessageEnvelope {
                    sender: server_idx * 0x10000 + tail,
                    message: Message::Borrow(MemoryMessage {
                        id,
                        buf: MemoryRange { addr: buf, size },
                        offset: off,
                        valid: val,
                    }),
                };
                self.queue[tail] = QueuedMessage::WaitingForget(pid, ctx, buf, client, size);
                Some(env)
            },
            QueuedMessage::MemoryMessageRWLendTerminated(pid, ctx, client, id, buf, size, off, val)
                => {
                let env = MessageEnvelope {
                    sender: server_idx * 0x10000 + tail,
                    message: Message::MutableBorrow(MemoryMessage {
                        id,
                        buf: MemoryRange { addr: buf, size },
                        offset: off,
                        valid: val,
                    }),
                };
                self.queue[tail] = QueuedMessage::WaitingForget(pid, ctx, buf, client, size);
                Some(env)
            },
        }
    }

    /// Completes a reply against an awaiting slot, clearing it and advancing
    /// the tail — also when the slot lies elsewhere than the tail, which is
    /// what keeps the ring moving when replies complete out of order. An
    /// index at or past capacity, or a buffer whose address or length differs
    /// from what the slot recorded, is `BadAddress`. A slot in any other
    /// state yields a benign `NoMessage`, unchanged: a double or stale reply
    /// is a race with teardown, not an error. A matching reply returns the
    /// memory-return obligation: forget the region if the lender died,
    /// nothing if the message moved its memory, otherwise return the borrow
    /// to its sender.
    pub fn take_waiting_message(&mut self, idx: usize, buf: MemoryRange) -> (r: Result<
        WaitingMessage,
        Error,
    >)
        requires
            old(self).wf(),
        ensures
            final(self).wf(),
            idx >= QUEUE_CAPACITY ==> {
                &&& r == Err::<WaitingMessage, Error>(Error::BadAddress)
                &&& final(self).same_state(*old(self))
            },
            idx < QUEUE_CAPACITY ==> {
                let slot = old(self).slots()[idx as int];
                &&& !slot_awaiting(slot) ==> {
                    &&& r == Ok::<WaitingMessage, Error>(WaitingMessage::NoMessage)
                    &&& final(self).same_state(*old(self))
                }
                &&& slot_awaiting(slot) && !reply_matches(slot, buf) ==> {
                    &&& r == Err::<WaitingMessage, Error>(Error::BadAddress)
                    &&& final(self).same_state(*old(self))
                }
                &&& slot_awaiting(slot) && reply_matches(slot, buf) ==> {
                    &&& r == Ok::<WaitingMessage, Error>(reply_outcome(slot))
                    &&& final(self).slots() == old(self).slots().update(
                        idx as int,
                        QueuedMessage::Empty,
                    )
                    &&& final(self).tail() == (old(self).tail() + 1) % (QUEUE_CAPACITY as int)
                    &&& final(self).head() == old(self).head()
                    &&& final(self).ready() == old(self).ready()
                    &&& final(self).spec_sid() == old(self).spec_sid()
                    &&& final(self).spec_pid() == old(self).spec_pid()
                }
            },
    {
        if idx >= QUEUE_CAPACITY {
            return Err(Error::BadAddress);
        }
        let slot: QueuedMessage = self.queue[idx];
        let (pid, ctx, server_addr, client_addr, len, forget): (
            u16,
            u16,
            usize,
            usize,
            usize,
            bool,
        ) = match slot {
            QueuedMessage::WaitingResponse(pid, ctx, server_addr, client_addr, len) => (
                pid,
                ctx,
                server_addr,
                client_addr,
                len,
                false,
            ),
            QueuedMessage::WaitingForget(pid, ctx, server_addr, client_addr, len) => (
                pid,
                ctx,
                server_addr,
                client_addr,
                len,
                true,
            ),
            _ => {
                return Ok(WaitingMessage::NoMessage);
            },
        };
        if server_addr != buf.addr || len != buf.size {
            return Err(Error::BadAddress);
        }

        self.queue[idx] = QueuedMessage::Empty;
        self.queue_tail = self.queue_tail + 1;
        if self.queue_tail >= QUEUE_CAPACITY {
            self.queue_tail = 0;
        }

        if forget {
            return Ok(WaitingMessage::ForgetMemory(MemoryRange::new(server_addr, len)));
        }
        if server_addr == 0 {
            return Ok(WaitingMessage::MovedMemory);
        }
        Ok(
            WaitingMessage::BorrowedMemory(
                Pid { number: pid as u8 },
                ctx as usize,
                server_addr,
                client_addr,
                len,
            ),
        )
    }

    /// The teardown sweep for a dying process: every pending borrow it lent
    /// becomes the terminated variant with an identical payload, and every
    /// slot awaiting its reply becomes awaiting-forget, so that later
    /// completion forgets the memory instead of returning it into a dead
    /// address space. Scalars, moves and empty slots are untouched — scalars
    /// carry no memory and a move's ownership already transferred. The
    /// rewrite is structural only; no memory is touched here.
    pub fn discard_messages_for_pid(&mut self, pid: Pid)
        requires
            old(self).wf(),
            pid.valid(),
        ensures
            final(self).wf(),
            forall|i: int|
                0 <= i < QUEUE_CAPACITY ==> final(self).slots()[i] == slot_after_discard(
                    old(self).slots()[i],
                    pid.number as u16,
                ),
            forall|i: int|
                0 <= i < QUEUE_CAPACITY ==> !slot_pending_borrow_of(
                    #[trigger] final(self).slots()[i],
                    pid.number as u16,
                ),
            final(self).head() == old(self).head(),
            final(self).tail() == old(self).tail(),
            final(self).ready() == old(self).ready(),
            final(self).spec_sid() == old(self).spec_sid(),
            final(self).spec_pid() == old(self).spec_pid(),
    {
        let pid16: u16 = pid.number as u16;
        let mut i: usize = 0;
        while i < QUEUE_CAPACITY
            invariant
                old(self).wf(),
                i <= QUEUE_CAPACITY,
                self.queue@.len() == QUEUE_CAPACITY,
                forall|j: int|
                    0 <= j < i ==> self.queue@[j] == slot_after_discard(
                        old(self).slots()[j],
                        pid16,
                    ),
                forall|j: int| i <= j < QUEUE_CAPACITY ==> self.queue@[j] == old(self).slots()[j],
                self.queue_head == old(self).queue_head,
                self.queue_tail == old(self).queue_tail,
                self.ready_threads == old(self).ready_threads,
                self.sid == old(self).sid,
                self.pid == old(self).pid,
                pid16 == pid.number as u16,
            decreases QUEUE_CAPACITY - i,
        {
            let entry: QueuedMessage = self.queue[i];
            match entry {
                QueuedMessage::MemoryMessageROLend(p, tid, client, id, buf, size, off, val) => {
                    if p == pid16 {
                        self.queue[i] = QueuedMessage::MemoryMessageROLendTerminated(
                            p,
                            tid,
                            client,
                            id,
                            buf,
                            size,
                            off,
                            val,
                        );
                    }
                },
                QueuedMessage::MemoryMessageRWLend(p, tid, client, id, buf, size, off, val) => {
                    if p == pid16 {
                        self.queue[i] = QueuedMessage::MemoryMessageRWLendTerminated(
                            p,
                            tid,
                            client,
                            id,
                            buf,
                            size,
                            off,
                            val,
                        );
                    }
                },
                QueuedMessage::WaitingResponse(p, tid, server_addr, client_addr, len) => {
                    if p == pid16 {
                        self.queue[i] = QueuedMessage::WaitingForget(
                            p,
                            tid,
                            server_addr,
                            client_addr,
                            len,
                        );
                    }
                },
                _ => {},
            }
            i = i + 1;
        }
    }

    /// Takes the lowest-numbered parked thread, clearing its bit, or returns
    /// `None` when no thread is parked. Lowest-first is stable and
    /// deterministic; fairness is the scheduler's concern, not this set's.
    pub fn take_available_thread(&mut self) -> (r: Option<usize>)
        requires
            old(self).wf(),
        ensures
            final(self).wf(),
            r is None ==> forall|t: u64| !has_bit(old(self).ready(), t),
            old(self).ready() == 0 ==> r is None && final(self).same_state(*old(self)),
            old(self).ready() != 0 ==> {
                &&& r matches Some(t)
                &&& t < MAX_THREADS
                &&& has_bit(old(self).ready(), t as u64)
                &&& forall|t2: u64| t2 < t as u64 ==> !has_bit(old(self).ready(), t2)
                &&& forall|t2: u64|
                    t2 < 64 ==> has_bit(final(self).ready(), t2) == (has_bit(
                        old(self).ready(),
                        t2,
                    ) && t2 != t as u64)
                &&& final(self).slots() == old(self).slots()
                &&& final(self).head() == old(self).head()
                &&& final(self).tail() == old(self).tail()
                &&& final(self).spec_sid() == old(self).spec_sid()
                &&& final(self).spec_pid() == old(self).spec_pid()
            },
    {
        if self.ready_threads == 0 {
            proof {
                crate::bits::lemma_no_bits_in_zero();
            }
            return None;
        }
        let mask: u64 = self.ready_threads;
        let mut cur: u64 = mask;
        let mut i: u64 = 0;
        proof {
            assert(mask == (mask >> 0u64) << 0u64 && mask >> 0u64 == mask) by (bit_vector);
        }
        while cur & 1u64 != 1u64
            invariant
                mask != 0,
                cur == mask >> i,
                mask == (mask >> i) << i,
                i <= 64,
            decreases 64u64 - i,
        {
            proof {
                assert(mask >> i != 0u64) by (bit_vector)
                    requires
                        mask == (mask >> i) << i,
                        mask != 0u64,
                ;
                assert(i < 64) by (bit_vector)
                    requires
                        mask >> i != 0u64,
                ;
                let i1: u64 = ((i + 1) as u64);
                assert(mask == (mask >> i1) << i1 && mask >> i1 == (mask >> i) >> 1u64)
                    by (bit_vector)
                    requires
                        mask == (mask >> i) << i,
                        (mask >> i) & 1u64 != 1u64,
                        i < 64,
                        i1 == (i + 1) as u64,
                ;
            }
            cur = cur >> 1u64;
            i = i + 1;
        }
        proof {
            assert(i < 64 && (mask >> i) & 1u64 == 1u64) by (bit_vector)
                requires
                    (mask >> i) & 1u64 == 1u64,
                    mask == (mask >> i) << i,
                    mask != 0u64,
                    i <= 64,
            ;
            crate::bits::lemma_low_bits_clear(mask, i);
            crate::bits::lemma_clear_bit(mask, i);
        }
        self.ready_threads = mask & !(1u64 << i);
        Some(i as usize)
    }

    /// Returns a taken thread to the parked set. The bit must be clear:
    /// returning a thread that is already parked indicates scheduler
    /// corruption, a kernel bug rather than an error to report.
    pub fn return_available_thread(&mut self, tid: usize)
        requires
            old(self).wf(),
            tid < MAX_THREADS,
            !has_bit(old(self).ready(), tid as u64),
        ensures
            final(self).wf(),
            final(self).ready() == old(self).ready() | (1u64 << (tid as u64)),
            final(self).ready() != 0,
            forall|t: u64|
                t < 64 ==> has_bit(final(self).ready(), t) == (has_bit(old(self).ready(), t)
                    || t == tid as u64),
            final(self).slots() == old(self).slots(),
            final(self).head() == old(self).head(),
            final(self).tail() == old(self).tail(),
            final(self).spec_sid() == old(self).spec_sid(),
            final(self).spec_pid() == old(self).spec_pid(),
    {
        proof {
            crate::bits::lemma_set_bit(self.ready_threads, tid as u64);
            crate::bits::lemma_has_bit_nonzero(
                self.ready_threads | (1u64 << (tid as u64)),
                tid as u64,
            );
        }
        self.ready_threads = self.ready_threads | (1u64 << (tid as u64));
    }

    /// Parks a worker thread: marks it ready and blocked awaiting a message.
    /// Parking an already-parked thread is a kernel bug, so the bit must be
    /// clear.
    pub fn park_thread(&mut self, tid: usize)
        requires
            old(self).wf(),
            tid < MAX_THREADS,
            !has_bit(old(self).ready(), tid as u64),
        ensures
            final(self).wf(),
            final(self).ready() == old(self).ready() | (1u64 << (tid as u64)),
            final(self).ready() != 0,
            forall|t: u64|
                t < 64 ==> has_bit(final(self).ready(), t) == (has_bit(old(self).ready(), t)
                    || t == tid as u64),
            final(self).slots() == old(self).slots(),
            final(self).head() == old(self).head(),
            final(self).tail() == old(self).tail(),
            final(self).spec_sid() == old(self).spec_sid(),
            final(self).spec_pid() == old(self).spec_pid(),
    {
        proof {
            crate::bits::lemma_set_bit(self.ready_threads, tid as u64);
            crate::bits::lemma_has_bit_nonzero(
                self.ready_threads | (1u64 << (tid as u64)),
                tid as u64,
            );
        }
        self.ready_threads = self.ready_threads | (1u64 << (tid as u64));
    }
}

/// The address recorded for an optional origin: zero stands for "absent".
pub open spec fn origin_value(address: Option<usize>) -> usize {
    match address {
        Some(a) => a,
        None => 0,
    }
}

} // verus!
