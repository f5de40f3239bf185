//! The node orchestrator: the main task and the heartbeat task on one
//! cooperative scheduler.
//!
//! After bring-up the main task issues the join request, waits for its
//! resolution, and only then spawns the heartbeat task and enters its
//! own periodic loop; the two tasks then run interleaved, each waking
//! exactly one period after its previous wake, with no drift.  The
//! orchestrator is a step machine over explicit time: every diagnostic
//! line it emits is recorded in order, so the visible output of a run is
//! part of the verified state.  A failed join is terminal: the node
//! enters the fatal phase once, spawns nothing, and retries nothing.

use vstd::prelude::*;
use crate::identity::DeviceIdentity;
use crate::peripherals::OutputPin;
use crate::peripherals::PinRole;
use crate::session::JoinOutcome;
use crate::session::Phase;
use crate::session::SessionController;

verus! {

/// The fixed period of the main task's loop, in milliseconds.
pub const MAIN_PERIOD_MS: u64 = 5000;

/// The fixed period of the heartbeat task's loop, in milliseconds.
pub const HEARTBEAT_PERIOD_MS: u64 = 1000;

/// One line of the node's diagnostic stream.
#[derive(Clone, Copy, Debug, PartialEq, Eq, Structural)]
pub enum Line {
    /// Bring-up has started.
    Init,
    /// The join request is being issued.
    Joining,
    /// The join handshake succeeded.
    Joined,
    /// The join handshake failed; the node is in its fatal phase.
    JoinFailed,
    /// One pass of the main task's periodic loop.
    Bing,
    /// One pass of the heartbeat task's periodic loop.
    HeartbeatHello,
}

impl Line {
    /// The text the line is printed as.
    pub fn text(&self) -> (r: &'static str)
        ensures
            *self == Line::Init ==> r@ == "Init!"@,
            *self == Line::Joining ==> r@ == "Joining LoRaWAN network"@,
            *self == Line::Joined ==> r@ == "LoRaWAN network joined"@,
            *self == Line::JoinFailed ==> r@ == "LoRaWAN join failed"@,
            *self == Line::Bing ==> r@ == "Bing!"@,
            *self == Line::HeartbeatHello ==> r@ == "Hello world from embassy using esp-hal-async!"@,
    {
        match self {
            Line::Init => "Init!",
            Line::Joining => "Joining LoRaWAN network",
            Line::Joined => "LoRaWAN network joined",
            Line::JoinFailed => "LoRaWAN join failed",
            Line::Bing => "Bing!",
            Line::HeartbeatHello => "Hello world from embassy using esp-hal-async!",
        }
    }
}

/// The orchestrator state: the session controller, the heartbeat output
/// line, the two task schedules and the diagnostic log.
pub struct Node {
    ctrl: SessionController,
    led: OutputPin,
    led_initial_high: bool,
    heartbeat_spawned: bool,
    join_time_ms: u64,
    now_ms: u64,
    main_due: Option<u64>,
    heartbeat_due: Option<u64>,
    bing_count: u64,
    hello_count: u64,
    log: Vec<Line>,
}

impl Node {
    /// The session controller the node drives.
    pub closed spec fn ctrl(self) -> SessionController {
        self.ctrl
    }

    /// The node's phase is its controller's phase.
    pub open spec fn phase(self) -> Phase {
        self.ctrl().phase()
    }

    /// The heartbeat output line.
    pub closed spec fn led(self) -> OutputPin {
        self.led
    }

    /// The level the heartbeat line was claimed at.
    pub closed spec fn led_initial_high(self) -> bool {
        self.led_initial_high
    }

    /// Whether the heartbeat task has been spawned.
    pub closed spec fn heartbeat_spawned(self) -> bool {
        self.heartbeat_spawned
    }

    /// The time the join resolved at, in milliseconds.
    pub closed spec fn join_time_ms(self) -> u64 {
        self.join_time_ms
    }

    /// The time of the most recent activity, in milliseconds.
    pub closed spec fn now_ms(self) -> u64 {
        self.now_ms
    }

    /// When the main task's loop is next due to run.
    pub closed spec fn main_due(self) -> Option<u64> {
        self.main_due
    }

    /// When the heartbeat task is next due to run.
    pub closed spec fn heartbeat_due(self) -> Option<u64> {
        self.heartbeat_due
    }

    /// How many passes of the main task's loop have run.
    pub closed spec fn bing_count(self) -> u64 {
        self.bing_count
    }

    /// How many passes of the heartbeat task have run.
    pub closed spec fn hello_count(self) -> u64 {
        self.hello_count
    }

    /// The diagnostic lines emitted so far, in order.
    pub closed spec fn log(self) -> Seq<Line> {
        self.log@
    }

    /// Whether the next step is a heartbeat pass: the heartbeat task is
    /// running and is due strictly before the main task.  On a tie the
    /// main task runs first, as it holds the execution context until its
    /// timed wait.
    pub open spec fn heartbeat_runs_next(self) -> bool {
        self.heartbeat_due() is Some && self.heartbeat_due()->0 < self.main_due()->0
    }

    /// The well-formedness invariant: every reachable node state
    /// satisfies it, and it ties the log, the schedules and the pin
    /// level to the phase.
    pub open spec fn wf(self) -> bool {
        &&& self.ctrl().wf()
        &&& self.led().role() == PinRole::Heartbeat
        &&& (self.phase() == Phase::Uninitialized || self.phase() == Phase::Joining || self.phase()
            == Phase::Joined || self.phase() == Phase::Fatal)
        // The heartbeat task exists only after a successful join.
        &&& (self.heartbeat_spawned() ==> self.phase() == Phase::Joined)
        &&& (self.heartbeat_spawned() <==> self.heartbeat_due() is Some)
        // Before the join resolves nothing periodic has run.
        &&& (self.phase() != Phase::Joined ==> {
            &&& !self.heartbeat_spawned()
            &&& self.main_due() is None
            &&& self.bing_count() == 0
            &&& self.hello_count() == 0
            &&& self.led().level_high() == self.led_initial_high()
        })
        &&& (!self.heartbeat_spawned() ==> self.hello_count() == 0)
        // The log mirrors the phase.
        &&& (self.phase() == Phase::Uninitialized ==> self.log() == seq![Line::Init])
        &&& (self.phase() == Phase::Joining ==> self.log() == seq![Line::Init, Line::Joining])
        &&& (self.phase() == Phase::Fatal ==> self.log() == seq![
            Line::Init,
            Line::Joining,
            Line::JoinFailed,
        ])
        &&& (self.phase() == Phase::Joined ==> {
            &&& self.log().len() == 3 + self.bing_count() + self.hello_count()
            &&& self.log()[0] == Line::Init
            &&& self.log()[1] == Line::Joining
            &&& self.log()[2] == Line::Joined
            &&& (forall|i: int|
                3 <= i < self.log().len() ==> (self.log()[i] == Line::Bing || self.log()[i]
                    == Line::HeartbeatHello))
            // Each task wakes exactly one period after its previous
            // wake: its next due time is a whole number of periods
            // after the join resolved, so no drift accumulates.
            &&& self.main_due() is Some
            &&& self.main_due()->0 == self.join_time_ms() + MAIN_PERIOD_MS * self.bing_count()
            &&& (self.heartbeat_spawned() ==> self.heartbeat_due()->0 == self.join_time_ms()
                + HEARTBEAT_PERIOD_MS * self.hello_count())
            &&& self.now_ms() <= self.main_due()->0
            &&& (self.heartbeat_spawned() ==> self.now_ms() <= self.heartbeat_due()->0)
            // The pin level alternates with the main task's passes.
            &&& self.led().level_high() == (if self.bing_count() % 2 == 0 {
                self.led_initial_high()
            } else {
                !self.led_initial_high()
            })
        })
    }

    /// Build the node around a freshly constructed session controller
    /// and the claimed heartbeat line, and emit the bring-up line.
    pub fn new(ctrl: SessionController, led: OutputPin) -> (r: Node)
        requires
            ctrl.wf(),
            ctrl.phase() == Phase::Uninitialized,
            led.role() == PinRole::Heartbeat,
        ensures
            r.wf(),
            r.phase() == Phase::Uninitialized,
            r.ctrl() == ctrl,
            r.led() == led,
            r.led_initial_high() == led.level_high(),
            r.log() == seq![Line::Init],
            !r.heartbeat_spawned(),
            r.now_ms() == 0,
    {
        let led_initial_high = led.is_set_high();
        let mut log: Vec<Line> = Vec::new();
        log.push(Line::Init);
        proof {
            assert(log@ == seq![Line::Init]);
        }
        Node {
            ctrl,
            led,
            led_initial_high,
            heartbeat_spawned: false,
            join_time_ms: 0,
            now_ms: 0,
            main_due: Option::None,
            heartbeat_due: Option::None,
            bing_count: 0,
            hello_count: 0,
            log,
        }
    }

    /// Issue the join request with the resolved identity and emit the
    /// joining line.  The heartbeat task is not spawned here.
    pub fn begin_join(&mut self, identity: DeviceIdentity)
        requires
            old(self).wf(),
            old(self).phase() == Phase::Uninitialized,
        ensures
            final(self).wf(),
            final(self).phase() == Phase::Joining,
            final(self).ctrl().identity() == Option::Some(identity),
            final(self).log() == old(self).log().push(Line::Joining),
            !final(self).heartbeat_spawned(),
            final(self).led() == old(self).led(),
            final(self).now_ms() == old(self).now_ms(),
    {
        self.ctrl.start_join(identity);
        self.log.push(Line::Joining);
        proof {
            assert(self.log@ =~= seq![Line::Init, Line::Joining]);
        }
    }

    /// React to the resolution of the join handshake at time `now_ms`.
    ///
    /// On acceptance the node emits the joined line, records the spawn
    /// attempt of the heartbeat task (`spawn_ok` is the scheduler's
    /// answer; a refused spawn only means the heartbeat never runs), and
    /// schedules both loops to start immediately.  On failure it emits
    /// the failure line and enters the fatal phase, spawning nothing:
    /// the join is attempted exactly once and never retried.
    pub fn resolve_join(&mut self, outcome: JoinOutcome, spawn_ok: bool, now_ms: u64)
        requires
            old(self).wf(),
            old(self).phase() == Phase::Joining,
        ensures
            final(self).wf(),
            final(self).led() == old(self).led(),
            outcome is Accepted ==> {
                &&& final(self).phase() == Phase::Joined
                &&& final(self).ctrl().session() == Option::Some(outcome->Accepted_0)
                &&& final(self).log() == old(self).log().push(Line::Joined)
                &&& final(self).heartbeat_spawned() == spawn_ok
                &&& final(self).join_time_ms() == now_ms
                &&& final(self).now_ms() == now_ms
                &&& final(self).main_due() == Option::Some(now_ms)
                &&& final(self).heartbeat_due() == (if spawn_ok {
                    Option::Some(now_ms)
                } else {
                    Option::<u64>::None
                })
                &&& final(self).bing_count() == 0
                &&& final(self).hello_count() == 0
            },
            outcome is Failed ==> {
                &&& final(self).phase() == Phase::Fatal
                &&& final(self).log() == old(self).log().push(Line::JoinFailed)
                &&& !final(self).heartbeat_spawned()
            },
    {
        self.ctrl.resolve_join(outcome);
        match outcome {
            JoinOutcome::Accepted(_) => {
                self.log.push(Line::Joined);
                proof {
                    assert(self.log@ =~= seq![Line::Init, Line::Joining, Line::Joined]);
                }
                self.heartbeat_spawned = spawn_ok;
                self.join_time_ms = now_ms;
                self.now_ms = now_ms;
                self.main_due = Option::Some(now_ms);
                self.heartbeat_due = if spawn_ok {
                    Option::Some(now_ms)
                } else {
                    Option::None
                };
            },
            JoinOutcome::Failed(_) => {
                self.log.push(Line::JoinFailed);
                proof {
                    assert(self.log@ =~= seq![Line::Init, Line::Joining, Line::JoinFailed]);
                }
            },
        }
    }

    /// Run the next due task pass and return the time it ran at.
    ///
    /// The heartbeat pass runs when it is due strictly before the main
    /// pass (on a tie the main task keeps the execution context): it
    /// emits its line and reschedules itself exactly one heartbeat
    /// period later.  The main pass emits its line, toggles the
    /// heartbeat output line, and reschedules itself exactly one main
    /// period later.  Nothing else changes, so each task wakes on its
    /// own fixed period indefinitely.
    pub fn step(&mut self) -> (t: u64)
        requires
            old(self).wf(),
            old(self).phase() == Phase::Joined,
            old(self).main_due()->0 <= u64::MAX - MAIN_PERIOD_MS,
            old(self).heartbeat_due() is Some ==> old(self).heartbeat_due()->0 <= u64::MAX
                - HEARTBEAT_PERIOD_MS,
        ensures
            final(self).wf(),
            final(self).phase() == Phase::Joined,
            final(self).ctrl() == old(self).ctrl(),
            final(self).heartbeat_spawned() == old(self).heartbeat_spawned(),
            final(self).join_time_ms() == old(self).join_time_ms(),
            final(self).now_ms() == t,
            t >= old(self).now_ms(),
            old(self).heartbeat_runs_next() ==> {
                &&& t == old(self).heartbeat_due()->0
                &&& final(self).log() == old(self).log().push(Line::HeartbeatHello)
                &&& final(self).hello_count() == old(self).hello_count() + 1
                &&& final(self).bing_count() == old(self).bing_count()
                &&& final(self).heartbeat_due()->0 == old(self).heartbeat_due()->0
                    + HEARTBEAT_PERIOD_MS
                &&& final(self).main_due() == old(self).main_due()
                &&& final(self).led() == old(self).led()
            },
            !old(self).heartbeat_runs_next() ==> {
                &&& t == old(self).main_due()->0
                &&& final(self).log() == old(self).log().push(Line::Bing)
                &&& final(self).bing_count() == old(self).bing_count() + 1
                &&& final(self).hello_count() == old(self).hello_count()
                &&& final(self).main_due()->0 == old(self).main_due()->0 + MAIN_PERIOD_MS
                &&& final(self).heartbeat_due() == old(self).heartbeat_due()
                &&& final(self).led().level_high() == !old(self).led().level_high()
            },
    {
        let md = self.main_due.unwrap();
        let run_heartbeat = match self.heartbeat_due {
            Option::Some(hd) => hd < md,
            Option::None => false,
        };
        if run_heartbeat {
            let hd = self.heartbeat_due.unwrap();
            self.log.push(Line::HeartbeatHello);
            self.hello_count = self.hello_count + 1;
            self.heartbeat_due = Option::Some(hd + HEARTBEAT_PERIOD_MS);
            self.now_ms = hd;
            hd
        } else {
            self.log.push(Line::Bing);
            self.bing_count = self.bing_count + 1;
            self.led.toggle();
            self.main_due = Option::Some(md + MAIN_PERIOD_MS);
            self.now_ms = md;
            md
        }
    }

    /// The number of diagnostic lines emitted so far.
    pub fn log_len(&self) -> (r: usize)
        ensures
            r == self.log().len(),
    {
        self.log.len()
    }

    /// The `i`-th diagnostic line.
    pub fn log_line(&self, i: usize) -> (r: Line)
        requires
            i < self.log().len(),
        ensures
            r == self.log()[i as int],
    {
        self.log[i]
    }

    /// When the main task's loop is next due to run, read back.
    pub fn main_due_value(&self) -> (r: Option<u64>)
        ensures
            r == self.main_due(),
    {
        self.main_due
    }

    /// When the heartbeat task is next due to run, read back.
    pub fn heartbeat_due_value(&self) -> (r: Option<u64>)
        ensures
            r == self.heartbeat_due(),
    {
        self.heartbeat_due
    }

    /// Whether the heartbeat task was spawned.
    pub fn heartbeat_started(&self) -> (r: bool)
        ensures
            r == self.heartbeat_spawned(),
    {
        self.heartbeat_spawned
    }

    /// The current level of the heartbeat output line.
    pub fn led_is_high(&self) -> (r: bool)
        ensures
            r == self.led().level_high(),
    {
        self.led.is_set_high()
    }

    /// How many passes of the main task's loop have run.
    pub fn main_passes(&self) -> (r: u64)
        ensures
            r == self.bing_count(),
    {
        self.bing_count
    }

    /// How many passes of the heartbeat task have run.
    pub fn heartbeat_passes(&self) -> (r: u64)
        ensures
            r == self.hello_count(),
    {
        self.hello_count
    }
}

/// Heartbeat output never precedes join resolution: in every reachable
/// node state, any heartbeat line in the log sits strictly after the
/// joining line and the joined line, which sit at their fixed places.
pub proof fn lemma_heartbeat_output_after_join(n: Node, i: int)
    requires
        n.wf(),
        0 <= i < n.log().len(),
        n.log()[i] == Line::HeartbeatHello,
    ensures
        i >= 3,
        n.log()[1] == Line::Joining,
        n.log()[2] == Line::Joined,
{
    assert(n.phase() == Phase::Joined);
}

/// The periodic schedule is exact: while the node is joined, the next
/// main pass is due a whole number of main periods after the join
/// resolved, the next heartbeat pass a whole number of heartbeat
/// periods, and the heartbeat output level alternates with the count of
/// main passes — so no drift beyond a single period ever accumulates.
pub proof fn lemma_schedule_has_no_drift(n: Node)
    requires
        n.wf(),
        n.phase() == Phase::Joined,
    ensures
        n.main_due()->0 == n.join_time_ms() + MAIN_PERIOD_MS * n.bing_count(),
        n.heartbeat_spawned() ==> n.heartbeat_due()->0 == n.join_time_ms() + HEARTBEAT_PERIOD_MS
            * n.hello_count(),
        n.led().level_high() == (if n.bing_count() % 2 == 0 {
            n.led_initial_high()
        } else {
            !n.led_initial_high()
        }),
{
}

/// A failed join is terminal and happens exactly once: the fatal phase
/// fixes the log at its three lines, the heartbeat task was never
/// spawned, and no periodic pass has run or will run (no node operation
/// accepts the fatal phase, and no session event leaves it).
pub proof fn lemma_fatal_state_is_quiescent(n: Node)
    requires
        n.wf(),
        n.phase() == Phase::Fatal,
    ensures
        n.log() == seq![Line::Init, Line::Joining, Line::JoinFailed],
        !n.heartbeat_spawned(),
        n.bing_count() == 0,
        n.hello_count() == 0,
{
}

} // verus!
