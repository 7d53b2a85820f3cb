//! The decisions of the process-startup responder: which command a message
//! identifier names, what a ping answers, and how a received block of words
//! is copied into a freshly mapped buffer. The surrounding receive loop, the
//! memory mapping and the final jump to the spawned program's entry point are
//! the runtime's business, outside this library.

use vstd::prelude::*;

use crate::types::ScalarMessage;

verus! {

/// The commands a spawned process accepts while starting up.
#[derive(Clone, Copy, Debug, PartialEq, Eq, Structural)]
pub enum StartupCommand {
    /// A message identifier that names no command.
    Unhandled,
    /// Copy a block of words into the process's memory.
    WriteMemory,
    /// Install the program's arguments.
    WriteArgs,
    /// Install the program's environment.
    WriteEnvironment,
    /// Answer a liveness ping.
    PingResponse,
    /// Tear the startup server down and jump to the program.
    FinishStartup,
}

/// The command each message identifier names: the low identifiers in order,
/// the highest for finishing, anything else unhandled.
pub open spec fn command_of_id(id: usize) -> StartupCommand {
    if id == 1 {
        StartupCommand::WriteMemory
    } else if id == 2 {
        StartupCommand::WriteArgs
    } else if id == 3 {
        StartupCommand::WriteEnvironment
    } else if id == 4 {
        StartupCommand::PingResponse
    } else if id == 255 {
        StartupCommand::FinishStartup
    } else {
        StartupCommand::Unhandled
    }
}

impl From<usize> for StartupCommand {
    /// Maps a message identifier to the command it names.
    fn from(src: usize) -> (r: StartupCommand) {
        match src {
            1 => StartupCommand::WriteMemory,
            2 => StartupCommand::WriteArgs,
            3 => StartupCommand::WriteEnvironment,
            4 => StartupCommand::PingResponse,
            255 => StartupCommand::FinishStartup,
            _ => StartupCommand::Unhandled,
        }
    }
}

impl vstd::std_specs::convert::FromSpecImpl<usize> for StartupCommand {
    open spec fn obeys_from_spec() -> bool {
        true
    }

    open spec fn from_spec(src: usize) -> Self {
        command_of_id(src)
    }
}

/// What a ping answers: a blocking scalar ping is acknowledged with its first
/// argument incremented; anything else gets no reply.
pub fn ping_reply(message: Option<ScalarMessage>, blocking: bool) -> (r: Option<usize>)
    requires
        (blocking && message is Some) ==> (message matches Some(m) && m.arg1 < usize::MAX),
    ensures
        r == (if blocking {
            match message {
                Some(m) => Some((m.arg1 + 1) as usize),
                None => None::<usize>,
            }
        } else {
            None::<usize>
        }),
{
    if !blocking {
        return None;
    }
    match message {
        Some(m) => Some(m.arg1 + 1),
        None => None,
    }
}

/// Copies words from a received buffer into a destination buffer, up to the
/// shorter of the two lengths; the destination keeps its length and whatever
/// lies past the copied prefix.
pub fn copy_words(src: &Vec<usize>, dest: &mut Vec<usize>)
    ensures
        final(dest).len() == old(dest).len(),
        forall|i: int|
            0 <= i < src.len() && i < old(dest).len() ==> final(dest)@[i] == src@[i],
        forall|i: int|
            src.len() <= i < old(dest).len() ==> final(dest)@[i] == old(dest)@[i],
{
    let mut i: usize = 0;
    while i < src.len() && i < dest.len()
        invariant
            i <= src.len(),
            i <= dest.len(),
            dest.len() == old(dest).len(),
            forall|j: int| 0 <= j < i ==> dest@[j] == src@[j],
            forall|j: int| i <= j < dest.len() ==> dest@[j] == old(dest)@[j],
        decreases src.len() - i,
    {
        dest[i] = src[i];
        i = i + 1;
    }
}

} // verus!
