use server_queue::server::Server;
use server_queue::types::{
    Error, MemoryMessage, MemoryRange, Message, Pid, ScalarMessage, Sid, WaitingMessage,
};

fn fresh_server(pid: u8) -> Server {
    let mut slot: Option<Server> = None;
    let pid = Pid::new(pid).unwrap();
    let sid = Sid::from_u32(1, 2, 3, 4);
    Server::init(&mut slot, pid, sid).unwrap();
    slot.unwrap()
}

fn scalar(id: usize, a1: usize, a2: usize, a3: usize, a4: usize) -> Message {
    Message::Scalar(ScalarMessage {
        id,
        arg1: a1,
        arg2: a2,
        arg3: a3,
        arg4: a4,
    })
}

#[test]
fn init_fails_when_occupied() {
    let mut slot: Option<Server> = None;
    let pid = Pid::new(3).unwrap();
    let sid = Sid::from_u32(9, 9, 9, 9);
    assert_eq!(Server::init(&mut slot, pid, sid), Ok(()));
    assert!(slot.is_some());
    assert_eq!(Server::init(&mut slot, pid, sid), Err(Error::MemoryInUse));
    assert_eq!(Server::destroy(&mut slot), Ok(()));
    assert!(slot.is_none());
    assert_eq!(Server::init(&mut slot, pid, sid), Ok(()));
}

#[test]
fn scalar_round_trip() {
    // Scenario: a scalar admitted at slot 0 is delivered unchanged, with the
    // sender token packing pid 3 and tid 1.
    let mut s = fresh_server(3);
    let pid = Pid::new(3).unwrap();
    let msg = scalar(42, 1, 2, 3, 4);
    let idx = s.queue_message(pid, 1, msg, None).unwrap();
    assert_eq!(idx, 0);
    let env = s.take_next_message(0).unwrap();
    assert_eq!(env.sender, 0x30001);
    assert_eq!(env.message, msg);
    // The slot cleared and the tail advanced: nothing further to deliver.
    assert!(s.take_next_message(0).is_none());
}

#[test]
fn borrow_with_reply() {
    // Scenario: a mutable borrow delivers with the reply route as its sender
    // token, then the reply returns the borrowed region to the lender.
    let mut s = fresh_server(3);
    let pid = Pid::new(3).unwrap();
    let msg = Message::MutableBorrow(MemoryMessage {
        id: 9,
        buf: MemoryRange::new(0x1000, 4096),
        offset: 0,
        valid: 4096,
    });
    let idx = s.queue_message(pid, 1, msg, Some(0x5000)).unwrap();
    assert_eq!(idx, 0);
    let server_idx = 7;
    let env = s.take_next_message(server_idx).unwrap();
    assert_eq!(env.sender, (server_idx << 16) | idx);
    assert_eq!(env.message, msg);
    let reply = s
        .take_waiting_message(idx, MemoryRange::new(0x1000, 4096))
        .unwrap();
    assert_eq!(
        reply,
        WaitingMessage::BorrowedMemory(pid, 1, 0x1000, 0x5000, 4096)
    );
}

#[test]
fn move_needs_no_reply() {
    // A move delivers as a move and clears its slot: a follow-up reply at
    // that index finds nothing waiting.
    let mut s = fresh_server(3);
    let pid = Pid::new(3).unwrap();
    let msg = Message::Move(MemoryMessage {
        id: 5,
        buf: MemoryRange::new(0x2000, 512),
        offset: 0,
        valid: 512,
    });
    let idx = s.queue_message(pid, 4, msg, None).unwrap();
    let env = s.take_next_message(0).unwrap();
    assert_eq!(env.sender, (3 << 16) | 4);
    assert_eq!(env.message, msg);
    assert_eq!(
        s.take_waiting_message(idx, MemoryRange::new(0x2000, 512)),
        Ok(WaitingMessage::NoMessage)
    );
}

#[test]
fn lender_dies_before_delivery() {
    // Scenario: the lender terminates between admission and delivery; the
    // message still delivers, and the reply yields a forget obligation.
    let mut s = fresh_server(3);
    let lender = Pid::new(4).unwrap();
    let msg = Message::Borrow(MemoryMessage {
        id: 11,
        buf: MemoryRange::new(0x2000, 8192),
        offset: 0,
        valid: 8192,
    });
    let idx = s.queue_message(lender, 2, msg, Some(0x6000)).unwrap();
    s.discard_messages_for_pid(lender);
    let env = s.take_next_message(1).unwrap();
    assert_eq!(env.message, msg);
    assert_eq!(env.sender, (1 << 16) | idx);
    let reply = s
        .take_waiting_message(idx, MemoryRange::new(0x2000, 8192))
        .unwrap();
    assert_eq!(
        reply,
        WaitingMessage::ForgetMemory(MemoryRange::new(0x2000, 8192))
    );
}

#[test]
fn discard_leaves_scalars_and_moves() {
    // Teardown touches only the dying process's borrows: a scalar from the
    // same process and a borrow from another process deliver normally.
    let mut s = fresh_server(3);
    let dying = Pid::new(4).unwrap();
    let other = Pid::new(5).unwrap();
    s.queue_message(dying, 1, scalar(1, 10, 20, 30, 40), None)
        .unwrap();
    let borrow = Message::Borrow(MemoryMessage {
        id: 2,
        buf: MemoryRange::new(0x3000, 64),
        offset: 0,
        valid: 64,
    });
    let idx = s.queue_message(other, 1, borrow, Some(0x7000)).unwrap();
    s.discard_messages_for_pid(dying);
    let env = s.take_next_message(0).unwrap();
    assert_eq!(env.message, scalar(1, 10, 20, 30, 40));
    let env2 = s.take_next_message(0).unwrap();
    assert_eq!(env2.message, borrow);
    let reply = s
        .take_waiting_message(idx, MemoryRange::new(0x3000, 64))
        .unwrap();
    assert_eq!(
        reply,
        WaitingMessage::BorrowedMemory(other, 1, 0x3000, 0x7000, 64)
    );
}

#[test]
fn queue_full_boundary() {
    // Scenario: admitting into a ring of capacity 128 succeeds exactly 128
    // times; the 129th admission fails with the queue full; taking one
    // message frees the head slot and a further admission succeeds there.
    let mut s = fresh_server(2);
    let pid = Pid::new(2).unwrap();
    for i in 0..128 {
        let idx = s.queue_message(pid, 1, scalar(i, 0, 0, 0, 0), None).unwrap();
        assert_eq!(idx, i);
    }
    assert_eq!(
        s.queue_message(pid, 1, scalar(999, 0, 0, 0, 0), None),
        Err(Error::ServerQueueFull)
    );
    let env = s.take_next_message(0).unwrap();
    assert_eq!(env.message, scalar(0, 0, 0, 0, 0));
    let idx = s.queue_message(pid, 1, scalar(128, 0, 0, 0, 0), None).unwrap();
    assert_eq!(idx, 0);
}

#[test]
fn take_drains_exactly_what_was_admitted() {
    // After filling, delivery returns each message once in admission order;
    // the next take finds nothing.
    let mut s = fresh_server(2);
    let pid = Pid::new(2).unwrap();
    for i in 0..128 {
        s.queue_message(pid, 1, scalar(i, i, 0, 0, 0), None).unwrap();
    }
    for i in 0..128 {
        let env = s.take_next_message(0).unwrap();
        assert_eq!(env.message, scalar(i, i, 0, 0, 0));
    }
    assert!(s.take_next_message(0).is_none());
}

#[test]
fn reply_error_cases() {
    // A reply against an empty slot is a benign no-message; an out-of-range
    // index or a mismatched buffer is a bad address.
    let mut s = fresh_server(3);
    assert_eq!(
        s.take_waiting_message(0, MemoryRange::new(0x1000, 4096)),
        Ok(WaitingMessage::NoMessage)
    );
    assert_eq!(
        s.take_waiting_message(128, MemoryRange::new(0x1000, 4096)),
        Err(Error::BadAddress)
    );
    assert_eq!(
        s.take_waiting_message(4096, MemoryRange::new(0x1000, 4096)),
        Err(Error::BadAddress)
    );
    let pid = Pid::new(3).unwrap();
    let msg = Message::Borrow(MemoryMessage {
        id: 1,
        buf: MemoryRange::new(0x1000, 4096),
        offset: 0,
        valid: 0x10,
    });
    let idx = s.queue_message(pid, 1, msg, Some(0x5000)).unwrap();
    s.take_next_message(0).unwrap();
    assert_eq!(
        s.take_waiting_message(idx, MemoryRange::new(0x1000, 64)),
        Err(Error::BadAddress)
    );
    assert_eq!(
        s.take_waiting_message(idx, MemoryRange::new(0x2000, 4096)),
        Err(Error::BadAddress)
    );
}

#[test]
fn double_reply_is_benign() {
    // Scenario: after a completed borrow reply, a second reply at the same
    // slot finds it empty and reports no message.
    let mut s = fresh_server(3);
    let pid = Pid::new(3).unwrap();
    let msg = Message::MutableBorrow(MemoryMessage {
        id: 9,
        buf: MemoryRange::new(0x1000, 4096),
        offset: 0,
        valid: 4096,
    });
    let idx = s.queue_message(pid, 1, msg, Some(0x5000)).unwrap();
    s.take_next_message(0).unwrap();
    let first = s
        .take_waiting_message(idx, MemoryRange::new(0x1000, 4096))
        .unwrap();
    assert_eq!(
        first,
        WaitingMessage::BorrowedMemory(pid, 1, 0x1000, 0x5000, 4096)
    );
    assert_eq!(
        s.take_waiting_message(idx, MemoryRange::new(0x1000, 4096)),
        Ok(WaitingMessage::NoMessage)
    );
}

#[test]
fn head_of_line_stall() {
    // Scenario: two borrows are admitted; after the first delivers, the tail
    // stays at its slot, so the second cannot deliver until the first's reply
    // completes.
    let mut s = fresh_server(3);
    let pid = Pid::new(3).unwrap();
    let b1 = Message::Borrow(MemoryMessage {
        id: 1,
        buf: MemoryRange::new(0x1000, 4096),
        offset: 0,
        valid: 4096,
    });
    let b2 = Message::Borrow(MemoryMessage {
        id: 2,
        buf: MemoryRange::new(0x2000, 4096),
        offset: 0,
        valid: 4096,
    });
    let i1 = s.queue_message(pid, 1, b1, Some(0x5000)).unwrap();
    let i2 = s.queue_message(pid, 2, b2, Some(0x6000)).unwrap();
    assert_eq!((i1, i2), (0, 1));
    let env1 = s.take_next_message(0).unwrap();
    assert_eq!(env1.message, b1);
    // Slot 0 is awaiting a reply and the tail waits there: nothing delivers.
    assert!(s.take_next_message(0).is_none());
    let reply = s
        .take_waiting_message(i1, MemoryRange::new(0x1000, 4096))
        .unwrap();
    assert_eq!(
        reply,
        WaitingMessage::BorrowedMemory(pid, 1, 0x1000, 0x5000, 4096)
    );
    // The reply cleared slot 0 and advanced the tail: the second delivers.
    let env2 = s.take_next_message(0).unwrap();
    assert_eq!(env2.message, b2);
    assert_eq!(env2.sender, 1);
}

#[test]
fn queue_address_records_reply_slot() {
    // The reply-path admission writes an awaiting slot directly; completing
    // it returns the borrow, and a scalar writes a zero region that resolves
    // as moved memory.
    let mut s = fresh_server(3);
    let pid = Pid::new(3).unwrap();
    let borrow = Message::Borrow(MemoryMessage {
        id: 3,
        buf: MemoryRange::new(0x4000, 256),
        offset: 0,
        valid: 256,
    });
    let idx = s.queue_address(pid, 6, &borrow, Some(0x8000)).unwrap();
    assert_eq!(idx, 0);
    // An awaiting slot is not deliverable.
    assert!(s.take_next_message(0).is_none());
    let reply = s
        .take_waiting_message(idx, MemoryRange::new(0x4000, 256))
        .unwrap();
    assert_eq!(
        reply,
        WaitingMessage::BorrowedMemory(pid, 6, 0x4000, 0x8000, 256)
    );

    let msg = scalar(1, 0, 0, 0, 0);
    let idx2 = s.queue_address(pid, 6, &msg, None).unwrap();
    let reply2 = s
        .take_waiting_message(idx2, MemoryRange::new(0, 0))
        .unwrap();
    assert_eq!(reply2, WaitingMessage::MovedMemory);
}

#[test]
fn discard_converts_awaiting_reply() {
    // A slot awaiting the dying process's reply becomes awaiting-forget: the
    // completed reply forgets the region instead of returning it.
    let mut s = fresh_server(3);
    let lender = Pid::new(6).unwrap();
    let msg = Message::MutableBorrow(MemoryMessage {
        id: 8,
        buf: MemoryRange::new(0x9000, 128),
        offset: 0,
        valid: 128,
    });
    let idx = s.queue_message(lender, 1, msg, Some(0xa000)).unwrap();
    s.take_next_message(2).unwrap();
    s.discard_messages_for_pid(lender);
    let reply = s
        .take_waiting_message(idx, MemoryRange::new(0x9000, 128))
        .unwrap();
    assert_eq!(
        reply,
        WaitingMessage::ForgetMemory(MemoryRange::new(0x9000, 128))
    );
}

#[test]
fn ring_wraps_around() {
    // Both cursors travel around the ring repeatedly: fill and drain the
    // whole ring three times over.
    let mut s = fresh_server(2);
    let pid = Pid::new(2).unwrap();
    for round in 0..3 {
        for i in 0..128 {
            s.queue_message(pid, 1, scalar(round * 1000 + i, 0, 0, 0, 0), None)
                .unwrap();
        }
        assert_eq!(
            s.queue_message(pid, 1, scalar(0, 0, 0, 0, 0), None),
            Err(Error::ServerQueueFull)
        );
        for i in 0..128 {
            let env = s.take_next_message(0).unwrap();
            assert_eq!(env.message, scalar(round * 1000 + i, 0, 0, 0, 0));
        }
        assert!(s.take_next_message(0).is_none());
    }
}

#[test]
fn max_identifiers_round_trip() {
    // The widest pid and tid that fit the sixteen-bit token halves survive
    // the round trip through the sender token.
    let mut s = fresh_server(255);
    let pid = Pid::new(255).unwrap();
    s.queue_message(pid, 0xffff, scalar(1, 0, 0, 0, 0), None).unwrap();
    let env = s.take_next_message(0).unwrap();
    assert_eq!(env.sender, (255 << 16) | 0xffff);
    let split = server_queue::types::SenderID::from_usize(env.sender).unwrap();
    assert_eq!(split.sidx, 255);
    assert_eq!(split.tidx, 0xffff);
}
