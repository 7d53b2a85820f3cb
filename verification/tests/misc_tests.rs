use server_queue::rtc::{DateTime, Opcode, TimeUnits, Weekday};
use server_queue::startup::{ping_reply, copy_words, StartupCommand};
use server_queue::types::{make_sender, Pid, ScalarMessage, SenderID};

#[test]
fn sender_token_packs_and_splits() {
    let token = make_sender(3, 1);
    assert_eq!(token, 0x30001);
    let split = SenderID::from_usize(token).unwrap();
    assert_eq!(split.sidx, 3);
    assert_eq!(split.tidx, 1);
    let split2 = SenderID::from_usize(0xdead_beef).unwrap();
    assert_eq!(split2.sidx, 0xdead);
    assert_eq!(split2.tidx, 0xbeef);
}

#[test]
fn pid_rejects_zero() {
    assert!(Pid::new(0).is_none());
    let pid = Pid::new(7).unwrap();
    assert_eq!(pid.get(), 7);
}

#[test]
fn opcode_wire_numbers() {
    assert_eq!(Opcode::RequestDateTime.to_usize(), 2);
    assert_eq!(Opcode::ClearRtcAlarm.to_usize(), 7);
    for n in 0..8 {
        let op = Opcode::from_usize(n).unwrap();
        assert_eq!(op.to_usize(), n);
    }
    assert!(Opcode::from_usize(8).is_none());
    assert!(Opcode::from_usize(1000).is_none());
}

#[test]
fn datetime_holds_its_fields() {
    let dt = DateTime {
        seconds: 30,
        minutes: 45,
        hours: 12,
        days: 25,
        months: 12,
        years: 20,
        weekday: Weekday::Friday,
    };
    assert_eq!(dt.weekday, Weekday::Friday);
    assert_eq!(dt.hours, 12);
    assert_ne!(TimeUnits::Seconds, TimeUnits::Hours);
}

#[test]
fn startup_command_from_id() {
    assert_eq!(StartupCommand::from(1), StartupCommand::WriteMemory);
    assert_eq!(StartupCommand::from(2), StartupCommand::WriteArgs);
    assert_eq!(StartupCommand::from(3), StartupCommand::WriteEnvironment);
    assert_eq!(StartupCommand::from(4), StartupCommand::PingResponse);
    assert_eq!(StartupCommand::from(255), StartupCommand::FinishStartup);
    assert_eq!(StartupCommand::from(0), StartupCommand::Unhandled);
    assert_eq!(StartupCommand::from(42), StartupCommand::Unhandled);
}

#[test]
fn ping_reply_increments_blocking_scalar() {
    let msg = ScalarMessage {
        id: 4,
        arg1: 41,
        arg2: 0,
        arg3: 0,
        arg4: 0,
    };
    assert_eq!(ping_reply(Some(msg), true), Some(42));
    assert_eq!(ping_reply(Some(msg), false), None);
    assert_eq!(ping_reply(None, true), None);
}

#[test]
fn copy_words_copies_prefix() {
    let src = vec![1, 2, 3];
    let mut dest = vec![0, 0, 0, 0, 9];
    copy_words(&src, &mut dest);
    assert_eq!(dest, vec![1, 2, 3, 0, 9]);

    let mut short = vec![7, 7];
    copy_words(&src, &mut short);
    assert_eq!(short, vec![1, 2]);
}
