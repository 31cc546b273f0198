use vstd::prelude::*;

verus! {

/// Why a command was not delivered. Each failure is reported once, with the
/// address and opcode that were involved where there are any.
#[derive(Clone, Debug, PartialEq, Eq)]
pub enum CommandError {
    /// The device enumeration could not be set up at all.
    BackendUnavailable,
    /// The enumeration found no supported device.
    DeviceNotFound,
    /// An address was resolved but could not be opened.
    OpenFailure { address: String },
    /// The transfer of the frame failed.
    WriteFailure { address: String, opcode: u8 },
    /// The transfer of the frame did not complete within its bound.
    Timeout { address: String, opcode: u8 },
    /// The caller asked for a value outside the protocol's range; nothing was sent.
    ProtocolRangeError { opcode: u8, value: u16 },
}

/// How a single transfer went wrong, as the transport reports it.
#[derive(Clone, Copy, Debug, PartialEq, Eq, Structural)]
pub enum TransferFault {
    Failed,
    TimedOut,
}

} // verus!
