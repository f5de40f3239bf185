//! The network session controller.
//!
//! The controller owns the radio adapter, one regional channel plan, the
//! pseudo-random seed and, after a successful join, the session state
//! the handshake returned.  Its phase moves along
//! `Uninitialized -> Joining -> Joined -> (SendingUplink <-> Joined)`;
//! a failed handshake moves it to `Fatal` instead, and no transition
//! ever returns to `Uninitialized`.  The handshake and every transmit
//! are outside work: their outcomes are handed in as values, and the
//! controller's reaction is verified for every outcome.

use vstd::prelude::*;
use crate::identity::DeviceIdentity;
use crate::peripherals::TimeSource;
use crate::radio::RadioAdapter;

verus! {

/// The regional channel plan, selected once at build time.
#[derive(Clone, Copy, Debug, PartialEq, Eq, Structural)]
pub enum Region {
    Eu868,
}

/// Where the controller stands in the life of the session.
#[derive(Clone, Copy, Debug, PartialEq, Eq, Structural)]
pub enum Phase {
    Uninitialized,
    Joining,
    Joined,
    SendingUplink,
    Fatal,
}

/// The session state a successful join handshake returns: the device
/// address the network assigned and the initial frame counters.
#[derive(Clone, Copy, Debug, PartialEq, Eq, Structural)]
pub struct SessionState {
    pub dev_addr: u32,
    pub fcnt_up: u32,
    pub fcnt_down: u32,
}

/// Why the join handshake failed.
#[derive(Clone, Copy, Debug, PartialEq, Eq, Structural)]
pub enum JoinError {
    Timeout,
    Rejected,
    RadioFault,
}

/// The resolution of the join handshake, observed by the outside
/// protocol stack.
#[derive(Clone, Copy, Debug, PartialEq, Eq, Structural)]
pub enum JoinOutcome {
    Accepted(SessionState),
    Failed(JoinError),
}

/// The resolution of one uplink transmit attempt.
#[derive(Clone, Copy, Debug, PartialEq, Eq, Structural)]
pub enum UplinkOutcome {
    Sent,
    TransmitFailed,
}

/// The events the controller reacts to, used to state the phase
/// transition relation.
#[derive(Clone, Copy, Debug, PartialEq, Eq, Structural)]
pub enum SessionEvent {
    JoinRequested,
    JoinResolved(JoinOutcome),
    UplinkStarted,
    UplinkResolved(UplinkOutcome),
}

/// The phase the controller moves to when `ev` arrives in phase `pre`.
/// An event that does not apply in `pre` leaves the phase unchanged.
pub open spec fn phase_step(pre: Phase, ev: SessionEvent) -> Phase {
    match (pre, ev) {
        (Phase::Uninitialized, SessionEvent::JoinRequested) => Phase::Joining,
        (Phase::Joining, SessionEvent::JoinResolved(JoinOutcome::Accepted(_))) => Phase::Joined,
        (Phase::Joining, SessionEvent::JoinResolved(JoinOutcome::Failed(_))) => Phase::Fatal,
        (Phase::Joined, SessionEvent::UplinkStarted) => Phase::SendingUplink,
        (Phase::SendingUplink, SessionEvent::UplinkResolved(_)) => Phase::Joined,
        _ => pre,
    }
}

/// No transition returns to `Uninitialized`: once the controller has
/// left that phase, re-joining requires a new controller instance.
pub proof fn lemma_no_return_to_uninitialized(pre: Phase, ev: SessionEvent)
    requires
        pre != Phase::Uninitialized,
    ensures
        phase_step(pre, ev) != Phase::Uninitialized,
{
}

/// The fatal phase is absorbing: after a failed handshake no event
/// moves the controller anywhere else, so the failure is entered
/// exactly once and is never followed by further join attempts.
pub proof fn lemma_fatal_is_absorbing(ev: SessionEvent)
    ensures
        phase_step(Phase::Fatal, ev) == Phase::Fatal,
{
}

/// The controller: one radio adapter, one regional configuration, one
/// seed, and the state the session accumulates.
pub struct SessionController {
    phase: Phase,
    region: Region,
    seed: u64,
    radio: RadioAdapter,
    time_source: TimeSource,
    identity: Option<DeviceIdentity>,
    session: Option<SessionState>,
}

impl SessionController {
    /// The current phase.
    pub closed spec fn phase(self) -> Phase {
        self.phase
    }

    /// The regional channel plan.
    pub closed spec fn region(self) -> Region {
        self.region
    }

    /// The pseudo-random seed the protocol stack was given.
    pub closed spec fn seed(self) -> u64 {
        self.seed
    }

    /// The radio adapter the controller owns.
    pub closed spec fn radio(self) -> RadioAdapter {
        self.radio
    }

    /// The identity the join call was issued with, once one was.
    pub closed spec fn identity(self) -> Option<DeviceIdentity> {
        self.identity
    }

    /// The session state returned by the join handshake, once joined.
    pub closed spec fn session(self) -> Option<SessionState> {
        self.session
    }

    /// Session state exists exactly in the phases a successful join has
    /// been seen in; an identity is recorded from the join request on.
    pub open spec fn wf(self) -> bool {
        &&& (self.session() is Some <==> self.phase() == Phase::Joined || self.phase()
            == Phase::SendingUplink)
        &&& (self.identity() is Some <==> self.phase() != Phase::Uninitialized)
    }

    /// Build the controller around the radio adapter, the regional
    /// configuration, the scheduler's time source and the seed.  It
    /// starts uninitialized, with no identity and no session.
    pub fn new(region: Region, radio: RadioAdapter, time_source: TimeSource, seed: u64) -> (r:
        SessionController)
        ensures
            r.wf(),
            r.phase() == Phase::Uninitialized,
            r.region() == region,
            r.seed() == seed,
            r.radio() == radio,
            r.identity() is None,
            r.session() is None,
    {
        SessionController {
            phase: Phase::Uninitialized,
            region,
            seed,
            radio,
            time_source,
            identity: Option::None,
            session: Option::None,
        }
    }

    /// Issue the over-the-air activation request with `identity`.  The
    /// controller records the identity and moves to `Joining`; nothing
    /// else changes.
    pub fn start_join(&mut self, identity: DeviceIdentity)
        requires
            old(self).wf(),
            old(self).phase() == Phase::Uninitialized,
        ensures
            final(self).wf(),
            final(self).phase() == phase_step(old(self).phase(), SessionEvent::JoinRequested),
            final(self).phase() == Phase::Joining,
            final(self).identity() == Option::Some(identity),
            final(self).session() is None,
            final(self).region() == old(self).region(),
            final(self).seed() == old(self).seed(),
            final(self).radio() == old(self).radio(),
    {
        self.phase = Phase::Joining;
        self.identity = Option::Some(identity);
    }

    /// React to the resolution of the join handshake.  Acceptance moves
    /// the controller to `Joined` and stores the returned session state;
    /// failure moves it to `Fatal`, from which no event leads anywhere
    /// else.  Nothing else changes either way.
    pub fn resolve_join(&mut self, outcome: JoinOutcome)
        requires
            old(self).wf(),
            old(self).phase() == Phase::Joining,
        ensures
            final(self).wf(),
            final(self).phase() == phase_step(
                old(self).phase(),
                SessionEvent::JoinResolved(outcome),
            ),
            outcome is Accepted ==> final(self).phase() == Phase::Joined && final(self).session()
                == Option::Some(outcome->Accepted_0),
            outcome is Failed ==> final(self).phase() == Phase::Fatal && final(self).session()
                is None,
            final(self).identity() == old(self).identity(),
            final(self).region() == old(self).region(),
            final(self).seed() == old(self).seed(),
            final(self).radio() == old(self).radio(),
    {
        match outcome {
            JoinOutcome::Accepted(s) => {
                self.phase = Phase::Joined;
                self.session = Option::Some(s);
            },
            JoinOutcome::Failed(_) => {
                self.phase = Phase::Fatal;
            },
        }
    }

    /// The current phase, read back.
    pub fn phase_value(&self) -> (r: Phase)
        ensures
            r == self.phase(),
    {
        self.phase
    }

    /// The session state, read back.
    pub fn session_value(&self) -> (r: Option<SessionState>)
        ensures
            r == self.session(),
    {
        self.session
    }

    /// Hand one uplink to the radio: the controller is mid-transmit
    /// until the outcome arrives.
    pub fn start_uplink(&mut self)
        requires
            old(self).wf(),
            old(self).phase() == Phase::Joined,
        ensures
            final(self).wf(),
            final(self).phase() == phase_step(old(self).phase(), SessionEvent::UplinkStarted),
            final(self).phase() == Phase::SendingUplink,
            final(self).session() == old(self).session(),
            final(self).identity() == old(self).identity(),
            final(self).region() == old(self).region(),
            final(self).seed() == old(self).seed(),
            final(self).radio() == old(self).radio(),
    {
        self.phase = Phase::SendingUplink;
    }

    /// React to the resolution of one uplink attempt.  The controller
    /// returns to `Joined` either way: a transmit failure is tolerated
    /// and left for the next scheduled tick, never escalated.  A sent
    /// frame advances the uplink frame counter by one; a failed one
    /// leaves it unchanged.
    pub fn resolve_uplink(&mut self, outcome: UplinkOutcome)
        requires
            old(self).wf(),
            old(self).phase() == Phase::SendingUplink,
            old(self).session()->0.fcnt_up < u32::MAX,
        ensures
            final(self).wf(),
            final(self).phase() == phase_step(
                old(self).phase(),
                SessionEvent::UplinkResolved(outcome),
            ),
            final(self).phase() == Phase::Joined,
            final(self).session() is Some,
            outcome == UplinkOutcome::Sent ==> final(self).session()->0 == (SessionState {
                fcnt_up: (old(self).session()->0.fcnt_up + 1) as u32,
                ..old(self).session()->0
            }),
            outcome == UplinkOutcome::TransmitFailed ==> final(self).session() == old(
                self,
            ).session(),
            final(self).identity() == old(self).identity(),
            final(self).region() == old(self).region(),
            final(self).seed() == old(self).seed(),
            final(self).radio() == old(self).radio(),
    {
        self.phase = Phase::Joined;
        if outcome == UplinkOutcome::Sent {
            let s = self.session.unwrap();
            self.session = Option::Some(
                SessionState { dev_addr: s.dev_addr, fcnt_up: s.fcnt_up + 1, fcnt_down: s.fcnt_down },
            );
        }
    }
}

} // verus!
