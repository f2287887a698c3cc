use vstd::prelude::*;

use crate::shared::{bumped, SharedState};
use tokio_util::sync::CancellationToken;

verus! {

#[verifier::external_type_specification]
#[verifier::external_body]
pub struct ExCancellationToken(CancellationToken);

/// Relies on tokio_util's `CancellationToken::new`: a token of its own, not
/// yet cancelled.
#[verifier::external_body]
fn new_token() -> CancellationToken {
    CancellationToken::new()
}

/// Relies on tokio_util's `CancellationToken::cancel`: it sets the token and
/// wakes every task that waits on it or on a clone of it; setting it again
/// does nothing more.
#[verifier::external_body]
fn cancel_token(t: &CancellationToken) {
    t.cancel()
}

/// Relies on tokio_util's `Clone` for `CancellationToken`: a second handle to
/// the same token.
#[verifier::external_body]
fn clone_token(t: &CancellationToken) -> CancellationToken {
    t.clone()
}

/// How many timer ticks the poller counts before it ends the run itself.
pub const POLL_LIMIT: u32 = 30;

/// What the writer records when a write cycle fails.
pub const FAILURE_CODE: i32 = 1;

/// The exit code of a shutdown that an outside signal started.
pub const SIGNAL_CODE: i32 = 1;

/// The exit code of a forced exit on a repeated interrupt.
pub const FORCED_EXIT_CODE: i32 = 1;

/// Where a worker's control loop stands.
#[derive(Clone, Copy, Debug, PartialEq, Eq, Structural)]
pub enum Phase {
    Running,
    /// Left its loop after it saw the shutdown latch set.
    Cancelled,
    /// Left its loop after counting up to its bound.
    LimitReached,
}

/// Something that happened, reported by the runtime that drives the workers.
#[derive(Clone, Copy, Debug, PartialEq, Eq, Structural)]
pub enum Event {
    /// The writer finished one write cycle; `failed` is the verdict of its
    /// failure check on that cycle.
    WriteDone { failed: bool },
    /// The poller woke up, from its timer or from the shutdown latch.
    PollTick,
    /// An outside interrupt request (Ctrl+C).
    Interrupt,
    /// An outside termination request.
    Terminate,
    /// The signal bridge saw the shutdown latch set.
    CancelSeen,
    /// No more workers will be registered.
    CloseTracker,
    /// The force-exit watchdog starts listening.
    ArmWatchdog,
}

/// What the runtime is to do after an event.
#[derive(Clone, Copy, Debug, PartialEq, Eq, Structural)]
pub enum Action {
    /// The reporting worker goes on with its loop.
    Continue,
    /// The reporting worker leaves its loop.
    Stop,
    /// The signal bridge has resolved with this exit code.
    Resolved(i32),
    /// The process ends now with this code, without waiting for the workers.
    ForceExit(i32),
    /// The event changes nothing.
    Ignored,
}

/// The mathematical state of a supervised run.
pub ghost struct Model {
    pub counter: nat,
    pub failure_code: int,
    pub fired: bool,
    pub writer: Phase,
    pub poller: Phase,
    pub polls: nat,
    pub poll_limit: nat,
    pub closed: bool,
    pub bridge: Option<int>,
    pub armed: bool,
    pub forced: bool,
}

/// The state at start-up: both workers registered and running, nothing fired.
pub open spec fn initial(poll_limit: nat) -> Model {
    Model {
        counter: 0,
        failure_code: 0,
        fired: false,
        writer: Phase::Running,
        poller: Phase::Running,
        polls: 0,
        poll_limit,
        closed: false,
        bridge: None,
        armed: false,
        forced: false,
    }
}

/// Sets the shutdown latch; it never resets.
pub open spec fn fire(m: Model) -> Model {
    Model { fired: true, ..m }
}

/// The code the signal bridge resolves with when an outside signal comes:
/// zero when a worker had already set the latch, else the signal code.
pub open spec fn signal_code(fired: bool) -> int {
    if fired { 0 } else { SIGNAL_CODE as int }
}

/// The bridge's answer to an outside signal; a second interrupt once the
/// watchdog listens forces the exit.
pub open spec fn on_signal(m: Model, interrupt: bool) -> (Model, Action) {
    if m.bridge is None {
        let c = signal_code(m.fired);
        (Model { bridge: Some(c), ..fire(m) }, Action::Resolved(c as i32))
    } else if interrupt && m.armed {
        (Model { forced: true, ..m }, Action::ForceExit(FORCED_EXIT_CODE))
    } else {
        (m, Action::Ignored)
    }
}

/// One transition of the run, and the action it asks of the runtime.
pub open spec fn next(m: Model, e: Event) -> (Model, Action) {
    if m.forced {
        (m, Action::Ignored)
    } else {
        match e {
            Event::WriteDone { failed } => {
                if m.writer != Phase::Running {
                    (m, Action::Ignored)
                } else {
                    let w = Model { counter: bumped(m.counter), ..m };
                    if w.fired {
                        (Model { writer: Phase::Cancelled, ..fire(w) }, Action::Stop)
                    } else if failed {
                        (Model { failure_code: FAILURE_CODE as int, ..w }, Action::Continue)
                    } else {
                        (w, Action::Continue)
                    }
                }
            },
            Event::PollTick => {
                if m.poller != Phase::Running {
                    (m, Action::Ignored)
                } else if m.fired {
                    (Model { poller: Phase::Cancelled, ..m }, Action::Stop)
                } else if m.polls + 1 >= m.poll_limit {
                    (
                        Model { polls: m.polls + 1, poller: Phase::LimitReached, ..fire(m) },
                        Action::Stop,
                    )
                } else {
                    (Model { polls: m.polls + 1, ..m }, Action::Continue)
                }
            },
            Event::Interrupt => on_signal(m, true),
            Event::Terminate => on_signal(m, false),
            Event::CancelSeen => {
                if m.bridge is None && m.fired {
                    (Model { bridge: Some(0), ..m }, Action::Resolved(0))
                } else {
                    (m, Action::Ignored)
                }
            },
            Event::CloseTracker => (Model { closed: true, ..m }, Action::Continue),
            Event::ArmWatchdog => {
                if m.bridge is Some {
                    (Model { armed: true, ..m }, Action::Continue)
                } else {
                    (m, Action::Ignored)
                }
            },
        }
    }
}

/// The orchestrator's rule: the bridge's code when it is nonzero, else the
/// failure code that the workers recorded.
pub open spec fn exit_code_of(bridge_code: int, failure_code: int) -> int {
    if bridge_code != 0 { bridge_code } else { failure_code }
}

/// Every worker has left its loop and the tracker is closed.
pub open spec fn drained(m: Model) -> bool {
    m.closed && m.writer != Phase::Running && m.poller != Phase::Running
}

/// The process exit code, once the run is over.
pub open spec fn outcome(m: Model) -> Option<int> {
    if m.forced {
        Some(FORCED_EXIT_CODE as int)
    } else if drained(m) && m.bridge is Some {
        Some(exit_code_of(m.bridge.unwrap(), m.failure_code))
    } else {
        None
    }
}

/// What holds of every state that a run reaches.
pub open spec fn model_inv(m: Model) -> bool {
    &&& m.counter <= u32::MAX
    &&& m.poll_limit <= u32::MAX
    &&& m.failure_code == 0 || m.failure_code == FAILURE_CODE
    &&& m.poller == Phase::Running ==> m.polls < m.poll_limit || m.polls == 0
    &&& m.poller != Phase::Running ==> m.fired
    &&& m.writer != Phase::Running ==> m.fired
    &&& m.writer != Phase::LimitReached
    &&& m.bridge is Some ==> m.fired && (m.bridge.unwrap() == 0 || m.bridge.unwrap() == SIGNAL_CODE)
    &&& m.armed ==> m.bridge is Some
    &&& m.forced ==> m.armed
}

/// The exit code rule.
pub fn exit_code(bridge_code: i32, failure_code: i32) -> (r: i32)
    ensures
        r as int == exit_code_of(bridge_code as int, failure_code as int),
{
    if bridge_code != 0 {
        bridge_code
    } else {
        failure_code
    }
}

/// The shutdown coordination of one run: the shared record, the shutdown
/// latch, where each worker stands, the tracker, the signal bridge and the
/// watchdog. Whenever its latch is set, so is its cancellation token, which
/// wakes the tasks that wait for shutdown.
pub struct Supervisor {
    shared: SharedState,
    token: CancellationToken,
    fired: bool,
    writer: Phase,
    poller: Phase,
    polls: u32,
    poll_limit: u32,
    closed: bool,
    bridge: Option<i32>,
    armed: bool,
    forced: bool,
}

impl View for Supervisor {
    type V = Model;

    closed spec fn view(&self) -> Model {
        Model {
            counter: self.shared.counter as nat,
            failure_code: self.shared.failure_code as int,
            fired: self.fired,
            writer: self.writer,
            poller: self.poller,
            polls: self.polls as nat,
            poll_limit: self.poll_limit as nat,
            closed: self.closed,
            bridge: match self.bridge {
                Some(c) => Some(c as int),
                None => None,
            },
            armed: self.armed,
            forced: self.forced,
        }
    }
}

impl Supervisor {
    pub open spec fn inv(&self) -> bool {
        model_inv(self@)
    }

    /// A run whose poller stops by itself after `poll_limit` ticks.
    pub fn new(poll_limit: u32) -> (r: Supervisor)
        ensures
            r@ == initial(poll_limit as nat),
            r.inv(),
    {
        Supervisor {
            shared: SharedState::new(),
            token: new_token(),
            fired: false,
            writer: Phase::Running,
            poller: Phase::Running,
            polls: 0,
            poll_limit,
            closed: false,
            bridge: None,
            armed: false,
            forced: false,
        }
    }

    fn fire(&mut self)
        ensures
            final(self)@ == fire(old(self)@),
    {
        self.fired = true;
        cancel_token(&self.token);
    }

    fn signal(&mut self, interrupt: bool) -> (r: Action)
        requires
            old(self).inv(),
        ensures
            (final(self)@, r) == on_signal(old(self)@, interrupt),
    {
        match self.bridge {
            None => {
                let c: i32 = if self.fired { 0 } else { SIGNAL_CODE };
                self.fire();
                self.bridge = Some(c);
                Action::Resolved(c)
            },
            Some(_) => {
                if interrupt && self.armed {
                    self.forced = true;
                    Action::ForceExit(FORCED_EXIT_CODE)
                } else {
                    Action::Ignored
                }
            },
        }
    }

    /// Applies one event and says what the runtime is to do next.
    pub fn step(&mut self, e: Event) -> (r: Action)
        requires
            old(self).inv(),
        ensures
            (final(self)@, r) == next(old(self)@, e),
            final(self).inv(),
    {
        if self.forced {
            return Action::Ignored;
        }
        match e {
            Event::WriteDone { failed } => {
                if self.writer != Phase::Running {
                    return Action::Ignored;
                }
                self.shared.record_write();
                if self.fired {
                    self.writer = Phase::Cancelled;
                    self.fire();
                    Action::Stop
                } else {
                    if failed {
                        self.shared.record_failure(FAILURE_CODE);
                    }
                    Action::Continue
                }
            },
            Event::PollTick => {
                if self.poller != Phase::Running {
                    Action::Ignored
                } else if self.fired {
                    self.poller = Phase::Cancelled;
                    Action::Stop
                } else {
                    self.polls = self.polls + 1;
                    if self.polls >= self.poll_limit {
                        self.poller = Phase::LimitReached;
                        self.fire();
                        Action::Stop
                    } else {
                        Action::Continue
                    }
                }
            },
            Event::Interrupt => self.signal(true),
            Event::Terminate => self.signal(false),
            Event::CancelSeen => {
                if self.bridge.is_none() && self.fired {
                    self.bridge = Some(0);
                    Action::Resolved(0)
                } else {
                    Action::Ignored
                }
            },
            Event::CloseTracker => {
                self.closed = true;
                Action::Continue
            },
            Event::ArmWatchdog => {
                if self.bridge.is_some() {
                    self.armed = true;
                    Action::Continue
                } else {
                    Action::Ignored
                }
            },
        }
    }

    /// The process exit code once the run is over, `None` while it is not.
    pub fn final_code(&self) -> (r: Option<i32>)
        requires
            self.inv(),
        ensures
            r is Some == outcome(self@) is Some,
            r is Some ==> r.unwrap() as int == outcome(self@).unwrap(),
    {
        if self.forced {
            Some(FORCED_EXIT_CODE)
        } else if self.closed && self.writer != Phase::Running && self.poller != Phase::Running {
            match self.bridge {
                Some(c) => Some(exit_code(c, self.shared.failure_code)),
                None => None,
            }
        } else {
            None
        }
    }

    /// A handle to the cancellation token, for tasks that wait for shutdown.
    pub fn token(&self) -> CancellationToken {
        clone_token(&self.token)
    }

    /// Whether the shutdown latch is set.
    pub fn is_fired(&self) -> (r: bool)
        ensures
            r == self@.fired,
    {
        self.fired
    }

    /// The number of completed write cycles.
    pub fn counter(&self) -> (r: u32)
        ensures
            r as nat == self@.counter,
    {
        self.shared.counter
    }

    /// The failure code that the workers recorded.
    pub fn failure_code(&self) -> (r: i32)
        ensures
            r as int == self@.failure_code,
    {
        self.shared.failure_code
    }

    /// The number of timer ticks that the poller counted.
    pub fn polls(&self) -> (r: u32)
        ensures
            r as nat == self@.polls,
    {
        self.polls
    }
}

} // verus!
