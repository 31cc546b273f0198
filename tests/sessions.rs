use litra::commands::{light_off, light_on, set_brightness, set_temperature, send_command};
use litra::error::{CommandError, TransferFault};
use litra::locator::DeviceDescriptor;
use litra::models::{Commands, LitraConfig};
use litra::protocol::{Command, Operation};
use litra::report::{Delivery, ReportEvent, ReportPhase, ReportStep};

fn config(path: Option<&str>) -> LitraConfig {
    LitraConfig { vendor_id: 1133, product_id: 51456, path: path.map(|p| p.to_string()) }
}

fn dev(vendor_id: u16, product_id: u16, path: &str) -> DeviceDescriptor {
    DeviceDescriptor { vendor_id, product_id, path: Some(path.to_string()) }
}

fn frame(opcode: u8, high: u8, low: u8) -> Vec<u8> {
    let mut f = vec![0x11, 0xff, 0x04, opcode, high, low];
    f.resize(20, 0);
    f
}

#[test]
fn known_address_is_opened_without_enumeration() {
    let (s, step) = light_on(&config(Some("1-4:1.0")));
    assert_eq!(step, ReportStep::Open { address: "1-4:1.0".to_string() });
    assert_eq!(s.frame, frame(0x1c, 0x01, 0x00));
}

#[test]
fn unknown_address_enumerates_first() {
    let (s, step) = light_off(&config(None));
    assert_eq!(step, ReportStep::Enumerate);
    assert_eq!(s.phase, ReportPhase::Resolving);
    assert_eq!(s.frame, frame(0x1c, 0x00, 0x00));
}

#[test]
fn full_command_on_enumerated_device() {
    let (mut s, step) = set_temperature(&config(None), 4000);
    assert_eq!(step, ReportStep::Enumerate);
    let listed = vec![dev(1133, 51456, "first"), dev(5, 5, "other"), dev(1133, 51456, "second")];
    let step = s.advance(ReportEvent::Listed(listed));
    assert_eq!(step, ReportStep::Open { address: "second".to_string() });
    let step = s.advance(ReportEvent::Opened);
    assert_eq!(step, ReportStep::Write { frame: frame(0x9c, 0x0f, 0xa0) });
    let step = s.advance(ReportEvent::Wrote(20));
    assert_eq!(step, ReportStep::Finish { outcome: Ok(Delivery { written: 20, complete: true }) });
    assert_eq!(s.phase, ReportPhase::Finished);
    assert!(!s.accepts(&ReportEvent::Opened));
}

#[test]
fn short_write_is_reported() {
    let (mut s, _) = send_command(&config(Some("p")), 0x1c, 0x0100);
    s.advance(ReportEvent::Opened);
    let step = s.advance(ReportEvent::Wrote(7));
    assert_eq!(step, ReportStep::Finish { outcome: Ok(Delivery { written: 7, complete: false }) });
}

#[test]
fn no_device_found() {
    let (mut s, _) = light_on(&config(None));
    let step = s.advance(ReportEvent::Listed(vec![dev(1, 1, "x")]));
    assert_eq!(step, ReportStep::Finish { outcome: Err(CommandError::DeviceNotFound) });
}

#[test]
fn enumeration_unavailable() {
    let (mut s, _) = light_on(&config(None));
    assert!(s.accepts(&ReportEvent::Unavailable));
    assert!(!s.accepts(&ReportEvent::Opened));
    let step = s.advance(ReportEvent::Unavailable);
    assert_eq!(step, ReportStep::Finish { outcome: Err(CommandError::BackendUnavailable) });
}

#[test]
fn open_failure_is_not_device_not_found() {
    let (mut s, _) = light_on(&config(Some("1-4:1.0")));
    let step = s.advance(ReportEvent::OpenFailed);
    assert_eq!(
        step,
        ReportStep::Finish { outcome: Err(CommandError::OpenFailure { address: "1-4:1.0".to_string() }) }
    );
}

#[test]
fn open_failure_after_enumeration() {
    let (mut s, _) = light_on(&config(None));
    s.advance(ReportEvent::Listed(vec![dev(1133, 51456, "found")]));
    let step = s.advance(ReportEvent::OpenFailed);
    assert_eq!(
        step,
        ReportStep::Finish { outcome: Err(CommandError::OpenFailure { address: "found".to_string() }) }
    );
}

#[test]
fn write_failure_and_timeout() {
    let (mut s, _) = set_temperature(&config(Some("p")), 2700);
    s.advance(ReportEvent::Opened);
    let step = s.advance(ReportEvent::WriteFailed(TransferFault::Failed));
    assert_eq!(
        step,
        ReportStep::Finish { outcome: Err(CommandError::WriteFailure { address: "p".to_string(), opcode: 0x9c }) }
    );
    let (mut s, _) = set_temperature(&config(Some("p")), 2700);
    s.advance(ReportEvent::Opened);
    let step = s.advance(ReportEvent::WriteFailed(TransferFault::TimedOut));
    assert_eq!(
        step,
        ReportStep::Finish { outcome: Err(CommandError::Timeout { address: "p".to_string(), opcode: 0x9c }) }
    );
}

#[test]
fn brightness_command() {
    let (s, step) = set_brightness(&config(Some("p")), 100).unwrap();
    assert_eq!(step, ReportStep::Open { address: "p".to_string() });
    assert_eq!(s.command, Command { opcode: 0x4c, argument: 0xff });
    assert_eq!(s.frame, frame(0x4c, 0x00, 0xff));
    let (s, _) = set_brightness(&config(Some("p")), 0).unwrap();
    assert_eq!(s.command, Command { opcode: 0x4c, argument: 0 });
}

#[test]
fn brightness_above_range_starts_nothing() {
    let r = set_brightness(&config(Some("p")), 150);
    assert_eq!(r.err(), Some(CommandError::ProtocolRangeError { opcode: 0x4c, value: 150 }));
}

#[test]
fn subcommand_operations() {
    assert_eq!(Commands::On.operation(), Some(Operation::PowerOn));
    assert_eq!(Commands::Off.operation(), Some(Operation::PowerOff));
    assert_eq!(Commands::Brightness { percent: 40 }.operation(), Some(Operation::SetBrightness(40)));
    assert_eq!(Commands::Temperature { temperature: 5000 }.operation(), Some(Operation::SetTemperature(5000)));
    assert_eq!(Commands::Init.operation(), None);
    assert_eq!(Commands::Status.operation(), None);
}
