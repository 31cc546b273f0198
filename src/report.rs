use vstd::prelude::*;

use crate::error::{CommandError, TransferFault};
use crate::identity::DeviceIdentity;
use crate::locator::{locate_in, matching_paths, select_target, texts, DeviceDescriptor};
use crate::protocol::{assemble_frame, frame_bytes, Command, REPORT_FRAME_LEN};

verus! {

/// What was delivered: the bytes the transport took, and whether that was
/// the whole frame. A short write is an anomaly to report, not a failure.
#[derive(Clone, Copy, Debug, PartialEq, Eq, Structural)]
pub struct Delivery {
    pub written: usize,
    pub complete: bool,
}

/// Where a command on the report backend stands.
#[derive(Clone, Debug, PartialEq, Eq)]
pub enum ReportPhase {
    /// Waiting for the device enumeration.
    Resolving,
    /// Waiting for the device at `address` to open.
    Opening { address: String },
    /// Waiting for the write to the device at `address`.
    Writing { address: String },
    Finished,
}

/// The next thing the caller must do for the command.
#[derive(Debug, PartialEq, Eq)]
pub enum ReportStep {
    /// Enumerate the host's devices; answer with `Listed` or `Unavailable`.
    Enumerate,
    /// Open the device at `address` directly; answer with `Opened` or `OpenFailed`.
    Open { address: String },
    /// Write `frame` as one output report; answer with `Wrote` or `WriteFailed`.
    Write { frame: Vec<u8> },
    /// The command is over; nothing more is to be done.
    Finish { outcome: Result<Delivery, CommandError> },
}

/// What the caller observed when it did the last step.
#[derive(Clone, Debug)]
pub enum ReportEvent {
    Listed(Vec<DeviceDescriptor>),
    Unavailable,
    Opened,
    OpenFailed,
    Wrote(usize),
    WriteFailed(TransferFault),
}

/// One command on the report backend, from address resolution to the write.
/// The caller performs each step it is handed and feeds back what happened.
#[derive(Clone, Debug)]
pub struct ReportSession {
    pub identities: Vec<DeviceIdentity>,
    pub command: Command,
    pub frame: Vec<u8>,
    pub phase: ReportPhase,
}

pub open spec fn finish(outcome: Result<Delivery, CommandError>) -> ReportStep {
    ReportStep::Finish { outcome }
}

impl ReportSession {
    pub open spec fn wf(&self) -> bool {
        self.frame@ == frame_bytes(self.command, REPORT_FRAME_LEN as nat)
    }

    /// Whether `e` answers the step this session is waiting on.
    pub open spec fn expects(&self, e: ReportEvent) -> bool {
        match self.phase {
            ReportPhase::Resolving => e is Listed || e is Unavailable,
            ReportPhase::Opening { .. } => e is Opened || e is OpenFailed,
            ReportPhase::Writing { .. } => e is Wrote || e is WriteFailed,
            ReportPhase::Finished => false,
        }
    }

    /// Starts a command. A known address is opened directly and the host is
    /// never enumerated; without one, the first step is the enumeration.
    pub fn start(identities: Vec<DeviceIdentity>, known: Option<String>, command: Command) -> (r: (
        ReportSession,
        ReportStep,
    ))
        ensures
            r.0.wf(),
            r.0.identities@ == identities@,
            r.0.command == command,
            known matches Some(a) ==> r.0.phase == (ReportPhase::Opening { address: a })
                && r.1 == (ReportStep::Open { address: a }),
            known is None ==> r.0.phase == ReportPhase::Resolving && r.1 == ReportStep::Enumerate,
    {
        let frame = assemble_frame(command, REPORT_FRAME_LEN);
        match known {
            Some(a) => {
                let s = ReportSession {
                    identities,
                    command,
                    frame,
                    phase: ReportPhase::Opening { address: a.clone() },
                };
                (s, ReportStep::Open { address: a })
            },
            None => {
                let s = ReportSession { identities, command, frame, phase: ReportPhase::Resolving };
                (s, ReportStep::Enumerate)
            },
        }
    }

    /// Whether `e` answers the step this session is waiting on.
    pub fn accepts(&self, e: &ReportEvent) -> (r: bool)
        ensures
            r == self.expects(*e),
    {
        match self.phase {
            ReportPhase::Resolving => matches!(e, ReportEvent::Listed(_) | ReportEvent::Unavailable),
            ReportPhase::Opening { .. } => matches!(e, ReportEvent::Opened | ReportEvent::OpenFailed),
            ReportPhase::Writing { .. } => matches!(e, ReportEvent::Wrote(_) | ReportEvent::WriteFailed(_)),
            ReportPhase::Finished => false,
        }
    }

    /// Takes the outcome of the last step and hands out the next one.
    /// - After an enumeration, the last supported device is opened (see
    ///   `select_target`); none gives `DeviceNotFound`, a failed enumeration
    ///   `BackendUnavailable`.
    /// - A failed open gives `OpenFailure` with the address; a successful one
    ///   leads to the write of the frame.
    /// - A write ends the command: with the count written, or with
    ///   `WriteFailure` / `Timeout`, carrying the address and opcode.
    pub fn advance(&mut self, e: ReportEvent) -> (r: ReportStep)
        requires
            old(self).wf(),
            old(self).expects(e),
        ensures
            final(self).wf(),
            final(self).identities == old(self).identities,
            final(self).command == old(self).command,
            final(self).frame == old(self).frame,
            (r is Finish) == (final(self).phase == ReportPhase::Finished),
            old(self).phase is Resolving ==> match e {
                ReportEvent::Listed(devices) => {
                    let m = matching_paths(old(self).identities@, devices@);
                    &&& m.len() == 0 ==> r == finish(Err(CommandError::DeviceNotFound))
                    &&& m.len() > 0 ==> r is Open && r->address@ == m.last()
                        && final(self).phase == (ReportPhase::Opening { address: r->address })
                },
                _ => r == finish(Err(CommandError::BackendUnavailable)),
            },
            old(self).phase matches ReportPhase::Opening { address } ==> match e {
                ReportEvent::Opened => r is Write && r->frame@ == old(self).frame@
                    && final(self).phase == (ReportPhase::Writing { address }),
                _ => r == finish(Err(CommandError::OpenFailure { address })),
            },
            old(self).phase matches ReportPhase::Writing { address } ==> match e {
                ReportEvent::Wrote(n) => r == finish(
                    Ok(Delivery { written: n, complete: n == REPORT_FRAME_LEN }),
                ),
                ReportEvent::WriteFailed(TransferFault::TimedOut) => r == finish(
                    Err(CommandError::Timeout { address, opcode: old(self).command.opcode }),
                ),
                _ => r == finish(
                    Err(CommandError::WriteFailure { address, opcode: old(self).command.opcode }),
                ),
            },
    {
        match &self.phase {
            ReportPhase::Resolving => match e {
                ReportEvent::Listed(devices) => {
                    let matches = locate_in(&None, &self.identities, &devices);
                    match select_target(&matches) {
                        Some(a) => {
                            self.phase = ReportPhase::Opening { address: a.clone() };
                            proof {
                                assert(texts(matches@).last() == matches@.last()@);
                            }
                            ReportStep::Open { address: a }
                        },
                        None => {
                            self.phase = ReportPhase::Finished;
                            ReportStep::Finish { outcome: Err(CommandError::DeviceNotFound) }
                        },
                    }
                },
                _ => {
                    self.phase = ReportPhase::Finished;
                    ReportStep::Finish { outcome: Err(CommandError::BackendUnavailable) }
                },
            },
            ReportPhase::Opening { address } => {
                let address = address.clone();
                match e {
                    ReportEvent::Opened => {
                        self.phase = ReportPhase::Writing { address };
                        ReportStep::Write { frame: self.frame.clone() }
                    },
                    _ => {
                        self.phase = ReportPhase::Finished;
                        ReportStep::Finish { outcome: Err(CommandError::OpenFailure { address }) }
                    },
                }
            },
            ReportPhase::Writing { address } => {
                let address = address.clone();
                let opcode = self.command.opcode;
                self.phase = ReportPhase::Finished;
                match e {
                    ReportEvent::Wrote(n) => ReportStep::Finish {
                        outcome: Ok(Delivery { written: n, complete: n == REPORT_FRAME_LEN }),
                    },
                    ReportEvent::WriteFailed(TransferFault::TimedOut) => ReportStep::Finish {
                        outcome: Err(CommandError::Timeout { address, opcode }),
                    },
                    _ => ReportStep::Finish { outcome: Err(CommandError::WriteFailure { address, opcode }) },
                }
            },
            ReportPhase::Finished => ReportStep::Finish { outcome: Err(CommandError::BackendUnavailable) },
        }
    }
}

} // verus!
