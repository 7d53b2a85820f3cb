//! A per-server message queue for a microkernel IPC subsystem.
//!
//! Each server owns a bounded ring of fixed-size message slots, a pair of
//! cursors (head for admission, tail for delivery), and a bitset of worker
//! threads parked awaiting a message. Slots move through a small state
//! machine: admitted messages wait as pending slots; delivered borrows linger
//! in place awaiting the server's reply so the lender can be unblocked and
//! its memory mapping restored; a lender's death rewrites its in-flight slots
//! so that completion forgets the memory instead of returning it.

pub mod bits;
pub mod laws;
pub mod rtc;
pub mod server;
pub mod slot;
pub mod startup;
pub mod types;
