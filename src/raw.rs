use vstd::prelude::*;

use crate::error::CommandError;
use crate::protocol::{assemble_frame, frame_bytes, Command, HEADER_LEN};
use crate::report::Delivery;

verus! {

/// Where a command on the raw-endpoint backend stands. Each phase waits for
/// the answer to the step of the same name.
#[derive(Clone, Copy, Debug, PartialEq, Eq, Structural)]
pub enum RawPhase {
    Opening,
    Configuring,
    Claiming,
    Alternating,
    Writing,
    Acknowledging,
    Releasing,
    Finished,
}

/// How the command is to end once the interface is released.
#[derive(Clone, Copy, Debug, PartialEq, Eq, Structural)]
pub enum RawOutcome {
    Delivered(usize),
    Unusable,
    WriteFailed,
    TimedOut,
}

/// The next thing the caller must do on the USB device.
#[derive(Debug, PartialEq, Eq)]
pub enum RawStep {
    /// Open a handle to the session's address.
    Open,
    /// Make the first configuration active.
    SetConfiguration,
    /// Claim interface 0.
    ClaimInterface,
    /// Select alternate setting 0.
    SetAlternate,
    /// Send the session's frame as an interrupt OUT transfer.
    WriteInterrupt,
    /// Read the acknowledgment with an interrupt IN transfer.
    ReadAck,
    /// Release interface 0.
    ReleaseInterface,
    /// The command is over.
    Finish { outcome: Result<Delivery, CommandError> },
}

/// What the caller observed when it did the last step.
#[derive(Clone, Copy, Debug, PartialEq, Eq, Structural)]
pub enum RawEvent {
    /// The handle is open; `configured` tells whether a configuration is active.
    Opened { configured: bool },
    /// The step succeeded.
    Succeeded,
    /// The OUT transfer moved this many bytes.
    Written(usize),
    /// The step failed.
    Failed,
    /// The step's transfer did not complete within its bound.
    TimedOut,
}

/// One command on the raw-endpoint backend. `claimed` records that the
/// interface was claimed, `released` that its release has been handed out.
#[derive(Debug)]
pub struct RawSession {
    pub address: String,
    pub command: Command,
    pub frame: Vec<u8>,
    pub set_alternate: bool,
    pub read_ack: bool,
    pub phase: RawPhase,
    pub pending: RawOutcome,
    pub claimed: bool,
    pub released: bool,
}

pub open spec fn is_failure(e: RawEvent) -> bool {
    e is Failed || e is TimedOut
}

/// The result reported for `o`.
pub open spec fn result_of(s: RawSession, o: RawOutcome) -> Result<Delivery, CommandError> {
    match o {
        RawOutcome::Delivered(n) => Ok(Delivery { written: n, complete: n == s.frame@.len() }),
        RawOutcome::Unusable => Err(CommandError::OpenFailure { address: s.address }),
        RawOutcome::WriteFailed => Err(CommandError::WriteFailure { address: s.address, opcode: s.command.opcode }),
        RawOutcome::TimedOut => Err(CommandError::Timeout { address: s.address, opcode: s.command.opcode }),
    }
}

pub open spec fn fault_of(e: RawEvent) -> RawOutcome {
    if e is TimedOut {
        RawOutcome::TimedOut
    } else {
        RawOutcome::WriteFailed
    }
}

pub open spec fn with_phase(s: RawSession, phase: RawPhase) -> RawSession {
    RawSession { phase, ..s }
}

/// Moves to the release of the interface, to end with `o`.
pub open spec fn to_release(s: RawSession, o: RawOutcome) -> (RawSession, RawStep) {
    (RawSession { phase: RawPhase::Releasing, pending: o, released: true, ..s }, RawStep::ReleaseInterface)
}

/// Ends before the interface was claimed.
pub open spec fn to_finish(s: RawSession, o: RawOutcome) -> (RawSession, RawStep) {
    (with_phase(s, RawPhase::Finished), RawStep::Finish { outcome: result_of(s, o) })
}

/// After the write (and the acknowledgment, if one is read).
pub open spec fn after_write(s: RawSession, o: RawOutcome) -> (RawSession, RawStep) {
    if s.read_ack && o is Delivered {
        (RawSession { phase: RawPhase::Acknowledging, pending: o, ..s }, RawStep::ReadAck)
    } else {
        to_release(s, o)
    }
}

/// The transition table. Every step can fail; a failure ends the command,
/// and once the interface is claimed every way out passes through its
/// release.
pub open spec fn raw_next(s: RawSession, e: RawEvent) -> (RawSession, RawStep) {
    match s.phase {
        RawPhase::Opening => match e {
            RawEvent::Opened { configured: true } => (with_phase(s, RawPhase::Claiming), RawStep::ClaimInterface),
            RawEvent::Opened { configured: false } => (with_phase(s, RawPhase::Configuring), RawStep::SetConfiguration),
            _ => to_finish(s, RawOutcome::Unusable),
        },
        RawPhase::Configuring => if is_failure(e) {
            to_finish(s, RawOutcome::Unusable)
        } else {
            (with_phase(s, RawPhase::Claiming), RawStep::ClaimInterface)
        },
        RawPhase::Claiming => if is_failure(e) {
            to_finish(s, RawOutcome::Unusable)
        } else if s.set_alternate {
            (RawSession { phase: RawPhase::Alternating, claimed: true, ..s }, RawStep::SetAlternate)
        } else {
            (RawSession { phase: RawPhase::Writing, claimed: true, ..s }, RawStep::WriteInterrupt)
        },
        RawPhase::Alternating => if is_failure(e) {
            to_release(s, RawOutcome::Unusable)
        } else {
            (with_phase(s, RawPhase::Writing), RawStep::WriteInterrupt)
        },
        RawPhase::Writing => match e {
            RawEvent::Written(n) => after_write(s, RawOutcome::Delivered(n)),
            _ => to_release(s, fault_of(e)),
        },
        RawPhase::Acknowledging => if is_failure(e) {
            to_release(s, fault_of(e))
        } else {
            to_release(s, s.pending)
        },
        RawPhase::Releasing => (with_phase(s, RawPhase::Finished), RawStep::Finish { outcome: result_of(s, s.pending) }),
        RawPhase::Finished => (s, RawStep::Finish { outcome: result_of(s, s.pending) }),
    }
}

impl RawSession {
    /// The frame carries the command; the claim and release flags agree
    /// with the phase.
    pub open spec fn wf(&self) -> bool {
        &&& self.frame@ == frame_bytes(self.command, self.frame@.len())
        &&& self.released ==> self.claimed
        &&& match self.phase {
            RawPhase::Opening | RawPhase::Configuring | RawPhase::Claiming => !self.claimed,
            RawPhase::Alternating | RawPhase::Writing | RawPhase::Acknowledging => self.claimed && !self.released,
            RawPhase::Releasing => self.claimed && self.released,
            RawPhase::Finished => self.claimed == self.released,
        }
    }

    /// Whether `e` answers the step this session is waiting on.
    pub open spec fn expects(&self, e: RawEvent) -> bool {
        match self.phase {
            RawPhase::Opening => e is Opened || is_failure(e),
            RawPhase::Writing => e is Written || is_failure(e),
            RawPhase::Finished => false,
            _ => e is Succeeded || is_failure(e),
        }
    }

    /// Starts a command on the device at `address`, with a frame of
    /// `frame_len` bytes. The first step opens the handle.
    pub fn start(address: String, command: Command, frame_len: usize, set_alternate: bool, read_ack: bool) -> (r: (
        RawSession,
        RawStep,
    ))
        requires
            HEADER_LEN <= frame_len,
        ensures
            r.0.wf(),
            r.0.address == address,
            r.0.command == command,
            r.0.frame@ == frame_bytes(command, frame_len as nat),
            r.0.set_alternate == set_alternate,
            r.0.read_ack == read_ack,
            r.0.phase == RawPhase::Opening,
            !r.0.claimed,
            !r.0.released,
            r.1 == RawStep::Open,
    {
        let frame = assemble_frame(command, frame_len);
        let s = RawSession {
            address,
            command,
            frame,
            set_alternate,
            read_ack,
            phase: RawPhase::Opening,
            pending: RawOutcome::Unusable,
            claimed: false,
            released: false,
        };
        (s, RawStep::Open)
    }

    /// Whether `e` answers the step this session is waiting on.
    pub fn accepts(&self, e: RawEvent) -> (r: bool)
        ensures
            r == self.expects(e),
    {
        let failure = matches!(e, RawEvent::Failed | RawEvent::TimedOut);
        match self.phase {
            RawPhase::Opening => failure || matches!(e, RawEvent::Opened { .. }),
            RawPhase::Writing => failure || matches!(e, RawEvent::Written(_)),
            RawPhase::Finished => false,
            _ => failure || matches!(e, RawEvent::Succeeded),
        }
    }

    fn result(&self, o: RawOutcome) -> (r: Result<Delivery, CommandError>)
        ensures
            r == result_of(*self, o),
    {
        match o {
            RawOutcome::Delivered(n) => Ok(Delivery { written: n, complete: n == self.frame.len() }),
            RawOutcome::Unusable => Err(CommandError::OpenFailure { address: self.address.clone() }),
            RawOutcome::WriteFailed => Err(
                CommandError::WriteFailure { address: self.address.clone(), opcode: self.command.opcode },
            ),
            RawOutcome::TimedOut => Err(
                CommandError::Timeout { address: self.address.clone(), opcode: self.command.opcode },
            ),
        }
    }

    fn finish(&mut self, o: RawOutcome) -> (r: RawStep)
        ensures
            (*final(self), r) == to_finish(*old(self), o),
    {
        let outcome = self.result(o);
        self.phase = RawPhase::Finished;
        RawStep::Finish { outcome }
    }

    fn release(&mut self, o: RawOutcome) -> (r: RawStep)
        ensures
            (*final(self), r) == to_release(*old(self), o),
    {
        self.phase = RawPhase::Releasing;
        self.pending = o;
        self.released = true;
        RawStep::ReleaseInterface
    }

    /// Takes the outcome of the last step and hands out the next one, as
    /// `raw_next` says.
    pub fn advance(&mut self, e: RawEvent) -> (r: RawStep)
        requires
            old(self).wf(),
            old(self).expects(e),
        ensures
            final(self).wf(),
            (*final(self), r) == raw_next(*old(self), e),
    {
        let failure = matches!(e, RawEvent::Failed | RawEvent::TimedOut);
        let fault = if matches!(e, RawEvent::TimedOut) {
            RawOutcome::TimedOut
        } else {
            RawOutcome::WriteFailed
        };
        match self.phase {
            RawPhase::Opening => match e {
                RawEvent::Opened { configured: true } => {
                    self.phase = RawPhase::Claiming;
                    RawStep::ClaimInterface
                },
                RawEvent::Opened { configured: false } => {
                    self.phase = RawPhase::Configuring;
                    RawStep::SetConfiguration
                },
                _ => self.finish(RawOutcome::Unusable),
            },
            RawPhase::Configuring => if failure {
                self.finish(RawOutcome::Unusable)
            } else {
                self.phase = RawPhase::Claiming;
                RawStep::ClaimInterface
            },
            RawPhase::Claiming => if failure {
                self.finish(RawOutcome::Unusable)
            } else {
                self.claimed = true;
                if self.set_alternate {
                    self.phase = RawPhase::Alternating;
                    RawStep::SetAlternate
                } else {
                    self.phase = RawPhase::Writing;
                    RawStep::WriteInterrupt
                }
            },
            RawPhase::Alternating => if failure {
                self.release(RawOutcome::Unusable)
            } else {
                self.phase = RawPhase::Writing;
                RawStep::WriteInterrupt
            },
            RawPhase::Writing => match e {
                RawEvent::Written(n) => {
                    if self.read_ack {
                        self.phase = RawPhase::Acknowledging;
                        self.pending = RawOutcome::Delivered(n);
                        RawStep::ReadAck
                    } else {
                        self.release(RawOutcome::Delivered(n))
                    }
                },
                _ => self.release(fault),
            },
            RawPhase::Acknowledging => if failure {
                self.release(fault)
            } else {
                let o = self.pending;
                self.release(o)
            },
            RawPhase::Releasing => {
                let o = self.pending;
                self.finish(o)
            },
            RawPhase::Finished => {
                let o = self.pending;
                RawStep::Finish { outcome: self.result(o) }
            },
        }
    }
}

} // verus!

verus! {

/// The steps handed out while `es` is fed to `s`, one event after the other.
pub open spec fn run(s: RawSession, es: Seq<RawEvent>) -> Seq<RawStep>
    decreases es.len(),
{
    if es.len() == 0 {
        Seq::empty()
    } else {
        let (t, step) = raw_next(s, es[0]);
        seq![step] + run(t, es.drop_first())
    }
}

/// The session after `es` was fed to `s`.
pub open spec fn after(s: RawSession, es: Seq<RawEvent>) -> RawSession
    decreases es.len(),
{
    if es.len() == 0 {
        s
    } else {
        after(raw_next(s, es[0]).0, es.drop_first())
    }
}

/// Every event of `es` answers the step the session was waiting on.
pub open spec fn accepted(s: RawSession, es: Seq<RawEvent>) -> bool
    decreases es.len(),
{
    es.len() == 0 || (s.expects(es[0]) && accepted(raw_next(s, es[0]).0, es.drop_first()))
}

/// How many interface claims succeeded while `es` was fed to `s`.
pub open spec fn claims(s: RawSession, es: Seq<RawEvent>) -> nat
    decreases es.len(),
{
    if es.len() == 0 {
        0
    } else {
        let here: nat = if s.phase == RawPhase::Claiming && !is_failure(es[0]) {
            1
        } else {
            0
        };
        here + claims(raw_next(s, es[0]).0, es.drop_first())
    }
}

/// How many interface releases `steps` hands out.
pub open spec fn releases(steps: Seq<RawStep>) -> nat
    decreases steps.len(),
{
    if steps.len() == 0 {
        0
    } else {
        let here: nat = if steps[0] is ReleaseInterface {
            1
        } else {
            0
        };
        here + releases(steps.drop_first())
    }
}

spec fn flag(b: bool) -> int {
    if b {
        1
    } else {
        0
    }
}

proof fn lemma_step(s: RawSession, e: RawEvent)
    requires
        s.wf(),
        s.expects(e),
    ensures
        raw_next(s, e).0.wf(),
        flag(raw_next(s, e).1 is ReleaseInterface) == flag(raw_next(s, e).0.released) - flag(s.released),
        flag(s.phase == RawPhase::Claiming && !is_failure(e)) == flag(raw_next(s, e).0.claimed) - flag(
            s.claimed,
        ),
{
}

proof fn lemma_run(s: RawSession, es: Seq<RawEvent>)
    requires
        s.wf(),
        accepted(s, es),
    ensures
        after(s, es).wf(),
        releases(run(s, es)) == flag(after(s, es).released) - flag(s.released),
        claims(s, es) == flag(after(s, es).claimed) - flag(s.claimed),
    decreases es.len(),
{
    if es.len() > 0 {
        let t = raw_next(s, es[0]).0;
        lemma_step(s, es[0]);
        lemma_run(t, es.drop_first());
        let steps = run(s, es);
        assert(steps.drop_first() =~= run(t, es.drop_first()));
    }
}

/// Interface release is scoped to a successful claim: on any run of a new
/// session, the release is handed out at most once and never without a
/// successful claim, and a run that has ended has handed out exactly one
/// release per successful claim, whichever step failed.
pub proof fn lemma_release_once_per_claim(s: RawSession, es: Seq<RawEvent>)
    requires
        s.wf(),
        s.phase == RawPhase::Opening,
        accepted(s, es),
    ensures
        releases(run(s, es)) <= claims(s, es) <= 1,
        after(s, es).phase == RawPhase::Finished ==> releases(run(s, es)) == claims(s, es),
{
    lemma_run(s, es);
}

} // verus!
