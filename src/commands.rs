use vstd::prelude::*;

use crate::error::CommandError;
use crate::identity::DeviceIdentity;
use crate::locator::{locate_in, located, opt_text, texts, DeviceDescriptor};
use crate::models::LitraConfig;
use crate::protocol::{
    encode, Command, Operation, Profile, OPCODE_POWER, OPCODE_TEMPERATURE,
};
use crate::report::{ReportPhase, ReportSession, ReportStep};

verus! {

pub open spec fn identity_of(config: LitraConfig) -> DeviceIdentity {
    DeviceIdentity { vendor_id: config.vendor_id, product_id: config.product_id }
}

/// `s` and its first `step` are a command `c` started for `config`: a known
/// address is opened directly, otherwise the host is enumerated first.
pub open spec fn begins(config: LitraConfig, c: Command, s: ReportSession, step: ReportStep) -> bool {
    &&& s.wf()
    &&& s.command == c
    &&& s.identities@ == seq![identity_of(config)]
    &&& match config.path {
        Some(a) => s.phase == (ReportPhase::Opening { address: a }) && step == (ReportStep::Open { address: a }),
        None => s.phase == ReportPhase::Resolving && step == ReportStep::Enumerate,
    }
}

/// The addresses to reach the configured light by. A configured address is
/// returned alone and `devices` is not looked at, so a caller that holds one
/// need not enumerate; otherwise every device of `devices` that carries the
/// configured identity, in enumeration order.
pub fn find_device_path(config: &LitraConfig, devices: &Vec<DeviceDescriptor>) -> (r: Vec<String>)
    ensures
        texts(r@) == located(opt_text(config.path), seq![identity_of(*config)], devices@),
{
    locate_in(&config.path, &config.identities(), devices)
}

/// Starts the delivery of `command` with `argument` to the configured light.
pub fn send_command(config: &LitraConfig, command: u8, argument: u16) -> (r: (ReportSession, ReportStep))
    ensures
        begins(*config, Command { opcode: command, argument }, r.0, r.1),
{
    let known = match &config.path {
        Some(a) => Some(a.clone()),
        None => None,
    };
    ReportSession::start(config.identities(), known, Command { opcode: command, argument })
}

/// Turns the light on.
pub fn light_on(config: &LitraConfig) -> (r: (ReportSession, ReportStep))
    ensures
        begins(*config, Command { opcode: 0x1c, argument: 0x0100 }, r.0, r.1),
{
    let profile = Profile::canonical();
    send_command(config, OPCODE_POWER, profile.power_on)
}

/// Turns the light off.
pub fn light_off(config: &LitraConfig) -> (r: (ReportSession, ReportStep))
    ensures
        begins(*config, Command { opcode: 0x1c, argument: 0x0000 }, r.0, r.1),
{
    let profile = Profile::canonical();
    send_command(config, OPCODE_POWER, profile.power_off)
}

/// Sets the brightness to `percent` of the canonical range. Above 100
/// percent nothing is started and the range error is returned.
pub fn set_brightness(config: &LitraConfig, percent: u16) -> (r: Result<
    (ReportSession, ReportStep),
    CommandError,
>)
    ensures
        percent <= 100 ==> (r matches Ok(p) && begins(
            *config,
            Command { opcode: 0x4c, argument: (0xff * percent / 100) as u16 },
            p.0,
            p.1,
        )),
        percent > 100 ==> r == Err::<(ReportSession, ReportStep), CommandError>(
            CommandError::ProtocolRangeError { opcode: 0x4c, value: percent },
        ),
{
    let profile = Profile::canonical();
    match encode(Operation::SetBrightness(percent), profile) {
        Ok(c) => Ok(send_command(config, c.opcode, c.argument)),
        Err(e) => Err(e),
    }
}

/// Sets the colour temperature; the value is sent unscaled.
pub fn set_temperature(config: &LitraConfig, temperature: u16) -> (r: (ReportSession, ReportStep))
    ensures
        begins(*config, Command { opcode: 0x9c, argument: temperature }, r.0, r.1),
{
    send_command(config, OPCODE_TEMPERATURE, temperature)
}

} // verus!
