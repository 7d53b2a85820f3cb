//! The real-time-clock service's wire types: calendar values and the opcodes
//! of its message protocol. The on-wire serialization of these payloads is
//! out of scope here; callers that speak to the clock hardware convert these
//! plain values at the boundary.

use vstd::prelude::*;

verus! {

/// Day of the week as the clock hardware reports it.
#[derive(Clone, Copy, Debug, PartialEq, Eq, Structural)]
pub enum Weekday {
    Sunday,
    Monday,
    Tuesday,
    Wednesday,
    Thursday,
    Friday,
    Saturday,
}

/// Units for a wake-up alarm's delay.
#[derive(Clone, Copy, Debug, PartialEq, Eq, Structural)]
pub enum TimeUnits {
    Seconds,
    Minutes,
    Hours,
}

/// A calendar timestamp as the clock service reports it.
#[derive(Clone, Copy, Debug, PartialEq, Eq, Structural)]
pub struct DateTime {
    pub seconds: u8,
    pub minutes: u8,
    pub hours: u8,
    pub days: u8,
    pub months: u8,
    pub years: u8,
    pub weekday: Weekday,
}

/// The operations a caller can request of the clock service, numbered in
/// declaration order on the wire.
#[derive(Clone, Copy, Debug, PartialEq, Eq, Structural)]
pub enum Opcode {
    /// Register a callback for the datetime.
    RegisterDateTimeCallback,
    /// Register a callback for the alarm event.
    RegisterAlarmCallback,
    /// Request the current datetime; registered callbacks receive it.
    RequestDateTime,
    /// Set the datetime.
    SetDateTime,
    /// Set a wake-up alarm, forcing power-on when the system is off.
    SetWakeupAlarm,
    /// Clear any wake-up alarms that have been set.
    ClearWakeupAlarm,
    /// Set an alarm that only raises a regular interrupt.
    SetRtcAlarm,
    /// Clear any interrupt alarms that have been set.
    ClearRtcAlarm,
}

/// The wire number of each opcode: its position in declaration order.
pub open spec fn opcode_number(op: Opcode) -> usize {
    match op {
        Opcode::RegisterDateTimeCallback => 0,
        Opcode::RegisterAlarmCallback => 1,
        Opcode::RequestDateTime => 2,
        Opcode::SetDateTime => 3,
        Opcode::SetWakeupAlarm => 4,
        Opcode::ClearWakeupAlarm => 5,
        Opcode::SetRtcAlarm => 6,
        Opcode::ClearRtcAlarm => 7,
    }
}

impl Opcode {
    /// Decodes a wire number; numbers past the last opcode are rejected.
    pub fn from_usize(number: usize) -> (r: Option<Opcode>)
        ensures
            number < 8 ==> (r matches Some(op) && opcode_number(op) == number),
            number >= 8 ==> r is None,
    {
        match number {
            0 => Some(Opcode::RegisterDateTimeCallback),
            1 => Some(Opcode::RegisterAlarmCallback),
            2 => Some(Opcode::RequestDateTime),
            3 => Some(Opcode::SetDateTime),
            4 => Some(Opcode::SetWakeupAlarm),
            5 => Some(Opcode::ClearWakeupAlarm),
            6 => Some(Opcode::SetRtcAlarm),
            7 => Some(Opcode::ClearRtcAlarm),
            _ => None,
        }
    }

    /// Encodes this opcode as its wire number.
    pub fn to_usize(self) -> (r: usize)
        ensures
            r == opcode_number(self),
    {
        match self {
            Opcode::RegisterDateTimeCallback => 0,
            Opcode::RegisterAlarmCallback => 1,
            Opcode::RequestDateTime => 2,
            Opcode::SetDateTime => 3,
            Opcode::SetWakeupAlarm => 4,
            Opcode::ClearWakeupAlarm => 5,
            Opcode::SetRtcAlarm => 6,
            Opcode::ClearRtcAlarm => 7,
        }
    }
}

/// Encoding then decoding an opcode gives the opcode back.
pub proof fn lemma_opcode_round_trip(op: Opcode)
    ensures
        opcode_number(op) < 8,
        forall|other: Opcode| opcode_number(other) == opcode_number(op) ==> other == op,
{
}

} // verus!
