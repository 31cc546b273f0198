use litra::error::CommandError;
use litra::protocol::Command;
use litra::raw::{RawEvent, RawPhase, RawSession, RawStep};
use litra::report::Delivery;

/// Feeds `answers` to a new session, one per step, and counts the claims
/// that succeeded and the releases that were handed out.
fn drive(set_alternate: bool, read_ack: bool, answers: &[RawEvent]) -> (usize, usize, RawStep, RawSession) {
    let cmd = Command { opcode: 0x1c, argument: 0x0100 };
    let (mut s, mut step) = RawSession::start("1-4:1.0".to_string(), cmd, 8, set_alternate, read_ack);
    let mut claims = 0;
    let mut releases = 0;
    for &e in answers {
        assert!(s.accepts(e));
        if step == RawStep::ClaimInterface && !matches!(e, RawEvent::Failed | RawEvent::TimedOut) {
            claims += 1;
        }
        step = s.advance(e);
        if step == RawStep::ReleaseInterface {
            releases += 1;
        }
    }
    (claims, releases, step, s)
}

#[test]
fn full_sequence_with_ack() {
    let (claims, releases, last, s) = drive(
        true,
        true,
        &[
            RawEvent::Opened { configured: false },
            RawEvent::Succeeded,
            RawEvent::Succeeded,
            RawEvent::Succeeded,
            RawEvent::Written(8),
            RawEvent::Succeeded,
            RawEvent::Succeeded,
        ],
    );
    assert_eq!((claims, releases), (1, 1));
    assert_eq!(last, RawStep::Finish { outcome: Ok(Delivery { written: 8, complete: true }) });
    assert_eq!(s.phase, RawPhase::Finished);
    assert_eq!(s.frame, vec![0x11, 0xff, 0x04, 0x1c, 0x01, 0x00, 0, 0]);
}

#[test]
fn step_order() {
    let cmd = Command { opcode: 0x4c, argument: 0x0080 };
    let (mut s, step) = RawSession::start("a".to_string(), cmd, 8, true, true);
    assert_eq!(step, RawStep::Open);
    assert_eq!(s.advance(RawEvent::Opened { configured: false }), RawStep::SetConfiguration);
    assert_eq!(s.advance(RawEvent::Succeeded), RawStep::ClaimInterface);
    assert_eq!(s.advance(RawEvent::Succeeded), RawStep::SetAlternate);
    assert_eq!(s.advance(RawEvent::Succeeded), RawStep::WriteInterrupt);
    assert_eq!(s.advance(RawEvent::Written(8)), RawStep::ReadAck);
    assert_eq!(s.advance(RawEvent::Succeeded), RawStep::ReleaseInterface);
}

#[test]
fn configured_device_skips_set_configuration() {
    let cmd = Command { opcode: 0x4c, argument: 0x0080 };
    let (mut s, _) = RawSession::start("a".to_string(), cmd, 8, false, false);
    assert_eq!(s.advance(RawEvent::Opened { configured: true }), RawStep::ClaimInterface);
    assert_eq!(s.advance(RawEvent::Succeeded), RawStep::WriteInterrupt);
    assert_eq!(s.advance(RawEvent::Written(8)), RawStep::ReleaseInterface);
}

#[test]
fn release_once_when_write_fails() {
    let (claims, releases, last, _) = drive(
        false,
        false,
        &[RawEvent::Opened { configured: true }, RawEvent::Succeeded, RawEvent::Failed, RawEvent::Succeeded],
    );
    assert_eq!((claims, releases), (1, 1));
    assert_eq!(
        last,
        RawStep::Finish { outcome: Err(CommandError::WriteFailure { address: "1-4:1.0".to_string(), opcode: 0x1c }) }
    );
}

#[test]
fn release_once_when_write_times_out() {
    let (claims, releases, last, _) = drive(
        false,
        true,
        &[RawEvent::Opened { configured: true }, RawEvent::Succeeded, RawEvent::TimedOut, RawEvent::Failed],
    );
    assert_eq!((claims, releases), (1, 1));
    assert_eq!(
        last,
        RawStep::Finish { outcome: Err(CommandError::Timeout { address: "1-4:1.0".to_string(), opcode: 0x1c }) }
    );
}

#[test]
fn release_once_when_ack_times_out() {
    let (claims, releases, last, _) = drive(
        false,
        true,
        &[
            RawEvent::Opened { configured: true },
            RawEvent::Succeeded,
            RawEvent::Written(8),
            RawEvent::TimedOut,
            RawEvent::Succeeded,
        ],
    );
    assert_eq!((claims, releases), (1, 1));
    assert_eq!(
        last,
        RawStep::Finish { outcome: Err(CommandError::Timeout { address: "1-4:1.0".to_string(), opcode: 0x1c }) }
    );
}

#[test]
fn release_once_when_alternate_setting_fails() {
    let (claims, releases, last, _) = drive(
        true,
        false,
        &[RawEvent::Opened { configured: true }, RawEvent::Succeeded, RawEvent::Failed, RawEvent::Succeeded],
    );
    assert_eq!((claims, releases), (1, 1));
    assert_eq!(
        last,
        RawStep::Finish { outcome: Err(CommandError::OpenFailure { address: "1-4:1.0".to_string() }) }
    );
}

#[test]
fn no_release_without_claim() {
    let (claims, releases, last, _) =
        drive(false, false, &[RawEvent::Opened { configured: true }, RawEvent::Failed]);
    assert_eq!((claims, releases), (0, 0));
    assert_eq!(
        last,
        RawStep::Finish { outcome: Err(CommandError::OpenFailure { address: "1-4:1.0".to_string() }) }
    );
    let (claims, releases, _, _) = drive(false, false, &[RawEvent::Failed]);
    assert_eq!((claims, releases), (0, 0));
    let (claims, releases, _, _) =
        drive(false, false, &[RawEvent::Opened { configured: false }, RawEvent::TimedOut]);
    assert_eq!((claims, releases), (0, 0));
}

#[test]
fn short_interrupt_write_is_reported() {
    let (_, _, last, _) = drive(
        false,
        false,
        &[RawEvent::Opened { configured: true }, RawEvent::Succeeded, RawEvent::Written(3), RawEvent::Succeeded],
    );
    assert_eq!(last, RawStep::Finish { outcome: Ok(Delivery { written: 3, complete: false }) });
}
