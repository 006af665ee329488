//! The lifecycle controller: startup order and graceful shutdown.
//!
//! The controller is a state machine. The program around the library reports
//! what happened (`Event`) and does what the controller answers (`Action`):
//! it binds and accepts, counts nothing itself, and leaves only when told to.
//!
//! ```text
//! Starting --Bound--> Running --Signal--> Draining --Drained--> Stopped
//!     \--BindFailed--> Failed
//! ```

use vstd::prelude::*;

verus! {

/// Where the process is in its life.
#[derive(Clone, Copy, Debug, PartialEq, Eq, Structural)]
pub enum Phase {
    /// The listening socket is not bound yet; nothing is accepted.
    Starting,
    /// The sampler ticks and requests are admitted.
    Running,
    /// Shutdown was signalled: no new tick, no new request; requests in
    /// flight may finish.
    Draining,
    /// Terminal: the process leaves with status 0.
    Stopped,
    /// Terminal: the socket could not be bound; the process leaves with a
    /// status other than 0.
    Failed,
}

/// The termination signals that the process reacts to.
#[derive(Clone, Copy, Debug, PartialEq, Eq, Structural)]
pub enum Signal {
    Interrupt,
    Terminate,
}

/// What the program reports to the controller.
#[derive(Clone, Copy, Debug, PartialEq, Eq, Structural)]
pub enum Event {
    /// The listening socket is bound.
    Bound,
    /// The listening socket could not be bound.
    BindFailed,
    /// A termination signal was received.
    Signal(Signal),
    /// A request has come in and waits to be admitted.
    RequestArrived,
    /// An admitted request has been answered.
    RequestCompleted,
    /// The listener is closed and no connection is left.
    Drained,
}

/// What the controller tells the program to do.
#[derive(Clone, Copy, Debug, PartialEq, Eq, Structural)]
pub enum Action {
    /// Nothing.
    Idle,
    /// Start the sampler and accept connections.
    Serve,
    /// Schedule no further tick, accept no further connection, and report
    /// `Drained` once the connections at hand have ended.
    Drain,
    /// Answer the request that arrived.
    Admit,
    /// Do not answer the request that arrived.
    Refuse,
    /// Leave the process with `code`, after `runtime_secs` seconds of life.
    Exit { code: i32, runtime_secs: u64 },
}

/// Exit status after a graceful shutdown.
pub const EXIT_STOPPED: i32 = 0;

/// Exit status where the listening socket could not be bound.
pub const EXIT_BIND_FAILED: i32 = 1;

/// Seconds from `started_at` to `now`, and 0 where `now` is the earlier.
pub open spec fn elapsed_secs(started_at: u64, now: u64) -> u64 {
    if now >= started_at {
        (now - started_at) as u64
    } else {
        0
    }
}

/// The controller's state as contracts see it.
pub struct LifecycleView {
    pub phase: Phase,
    /// Requests admitted and not yet answered.
    pub in_flight: u64,
    /// Reading of the clock, in seconds, when the controller was made.
    pub started_at: u64,
}

impl LifecycleView {
    /// The state after `event`, reported at `now` seconds on the clock, and
    /// the action that answers it. An event that the phase has no
    /// transition for leaves the state as it is.
    pub open spec fn next(self, event: Event, now: u64) -> (LifecycleView, Action) {
        match (self.phase, event) {
            (Phase::Starting, Event::Bound) => (
                LifecycleView { phase: Phase::Running, ..self },
                Action::Serve,
            ),
            (Phase::Starting, Event::BindFailed) => (
                LifecycleView { phase: Phase::Failed, ..self },
                Action::Exit {
                    code: EXIT_BIND_FAILED,
                    runtime_secs: elapsed_secs(self.started_at, now),
                },
            ),
            (Phase::Running, Event::Signal(_)) => (
                LifecycleView { phase: Phase::Draining, ..self },
                Action::Drain,
            ),
            (Phase::Running, Event::RequestArrived) => if self.in_flight < u64::MAX {
                (
                    LifecycleView { in_flight: (self.in_flight + 1) as u64, ..self },
                    Action::Admit,
                )
            } else {
                (self, Action::Refuse)
            },
            (Phase::Running, Event::RequestCompleted) | (
                Phase::Draining,
                Event::RequestCompleted,
            ) => if self.in_flight > 0 {
                (LifecycleView { in_flight: (self.in_flight - 1) as u64, ..self }, Action::Idle)
            } else {
                (self, Action::Idle)
            },
            (Phase::Draining, Event::Drained) => if self.in_flight == 0 {
                (
                    LifecycleView { phase: Phase::Stopped, ..self },
                    Action::Exit {
                        code: EXIT_STOPPED,
                        runtime_secs: elapsed_secs(self.started_at, now),
                    },
                )
            } else {
                (self, Action::Idle)
            },
            (_, Event::RequestArrived) => (self, Action::Refuse),
            _ => (self, Action::Idle),
        }
    }

    /// The state after `events`, each with the time of its report, in their
    /// order.
    pub open spec fn run(self, events: Seq<(Event, u64)>) -> LifecycleView
        decreases events.len(),
    {
        if events.len() == 0 {
            self
        } else {
            self.run(events.drop_last()).next(events.last().0, events.last().1).0
        }
    }

    /// The action that answers the last of `events`.
    pub open spec fn answer(self, events: Seq<(Event, u64)>) -> Action
        recommends
            events.len() > 0,
    {
        self.run(events.drop_last()).next(events.last().0, events.last().1).1
    }
}

/// How many of `events` report an answered request.
pub open spec fn completions(events: Seq<(Event, u64)>) -> nat
    decreases events.len(),
{
    if events.len() == 0 {
        0
    } else {
        completions(events.drop_last()) + if events.last().0 == Event::RequestCompleted {
            1nat
        } else {
            0nat
        }
    }
}

/// The lifecycle controller.
#[derive(Debug, PartialEq, Eq)]
pub struct Lifecycle {
    phase: Phase,
    in_flight: u64,
    started_at: u64,
}

impl View for Lifecycle {
    type V = LifecycleView;

    closed spec fn view(&self) -> LifecycleView {
        LifecycleView {
            phase: self.phase,
            in_flight: self.in_flight,
            started_at: self.started_at,
        }
    }
}

impl Lifecycle {
    /// A controller in `Starting`, made when the clock read `now` seconds.
    pub fn new(now: u64) -> (r: Lifecycle)
        ensures
            r@ == (LifecycleView { phase: Phase::Starting, in_flight: 0, started_at: now }),
    {
        Lifecycle { phase: Phase::Starting, in_flight: 0, started_at: now }
    }

    /// The phase that the controller is in.
    pub fn phase(&self) -> (r: Phase)
        ensures
            r == self@.phase,
    {
        self.phase
    }

    /// Requests admitted and not yet answered.
    pub fn in_flight(&self) -> (r: u64)
        ensures
            r == self@.in_flight,
    {
        self.in_flight
    }

    /// Whether shutdown has begun: the sampler schedules no tick from then
    /// on.
    pub fn shutdown_requested(&self) -> (r: bool)
        ensures
            r == (self@.phase != Phase::Starting && self@.phase != Phase::Running),
    {
        match self.phase {
            Phase::Starting | Phase::Running => false,
            _ => true,
        }
    }

    /// Seconds of life at `now` seconds on the clock.
    pub fn runtime_secs(&self, now: u64) -> (r: u64)
        ensures
            r == elapsed_secs(self@.started_at, now),
    {
        if now >= self.started_at {
            now - self.started_at
        } else {
            0
        }
    }

    /// Takes one event, reported at `now` seconds on the clock, and answers
    /// with what to do.
    pub fn step(&mut self, event: Event, now: u64) -> (r: Action)
        ensures
            (final(self)@, r) == old(self)@.next(event, now),
    {
        match (self.phase, event) {
            (Phase::Starting, Event::Bound) => {
                self.phase = Phase::Running;
                Action::Serve
            },
            (Phase::Starting, Event::BindFailed) => {
                self.phase = Phase::Failed;
                Action::Exit { code: EXIT_BIND_FAILED, runtime_secs: self.runtime_secs(now) }
            },
            (Phase::Running, Event::Signal(_)) => {
                self.phase = Phase::Draining;
                Action::Drain
            },
            (Phase::Running, Event::RequestArrived) => {
                if self.in_flight < u64::MAX {
                    self.in_flight = self.in_flight + 1;
                    Action::Admit
                } else {
                    Action::Refuse
                }
            },
            (Phase::Running, Event::RequestCompleted) | (
                Phase::Draining,
                Event::RequestCompleted,
            ) => {
                if self.in_flight > 0 {
                    self.in_flight = self.in_flight - 1;
                }
                Action::Idle
            },
            (Phase::Draining, Event::Drained) => {
                if self.in_flight == 0 {
                    self.phase = Phase::Stopped;
                    Action::Exit { code: EXIT_STOPPED, runtime_secs: self.runtime_secs(now) }
                } else {
                    Action::Idle
                }
            },
            (_, Event::RequestArrived) => Action::Refuse,
            _ => Action::Idle,
        }
    }
}

/// Outside `Running` a termination signal changes nothing and asks for
/// nothing: a second signal, received while draining, has no effect.
pub proof fn lemma_signal_outside_running_is_idle(
    state: LifecycleView,
    signal: Signal,
    now: u64,
)
    requires
        state.phase != Phase::Running,
    ensures
        state.next(Event::Signal(signal), now) == (state, Action::Idle),
{
}

/// Whatever the state, the signal that follows a signal changes nothing and
/// asks for nothing.
pub proof fn lemma_second_signal_is_idle(
    state: LifecycleView,
    first: Signal,
    first_at: u64,
    second: Signal,
    second_at: u64,
)
    ensures
        ({
            let signalled = state.next(Event::Signal(first), first_at).0;
            signalled.next(Event::Signal(second), second_at) == (signalled, Action::Idle)
        }),
{
}

/// Once draining, the controller never runs again and admits nothing:
/// whatever is reported, it stays in `Draining` or `Stopped`, and the number
/// of requests in flight does not grow.
pub proof fn lemma_draining_admits_nothing(state: LifecycleView, events: Seq<(Event, u64)>)
    requires
        state.phase == Phase::Draining || state.phase == Phase::Stopped,
    ensures
        state.run(events).phase == Phase::Draining || state.run(events).phase == Phase::Stopped,
        state.run(events).in_flight <= state.in_flight,
        state.run(events).started_at == state.started_at,
        events.len() > 0 && events.last().0 == Event::RequestArrived ==> state.answer(events)
            == Action::Refuse,
    decreases events.len(),
{
    if events.len() > 0 {
        lemma_draining_admits_nothing(state, events.drop_last());
    }
}

/// A request that arrives after the signal is refused, wherever among the
/// later events it stands.
pub proof fn lemma_request_after_signal_is_refused(
    state: LifecycleView,
    events: Seq<(Event, u64)>,
    position: int,
)
    requires
        state.phase == Phase::Draining,
        0 <= position < events.len(),
        events[position].0 == Event::RequestArrived,
    ensures
        state.answer(events.take(position + 1)) == Action::Refuse,
{
    let upto = events.take(position + 1);
    assert(upto.last() == events[position]);
    lemma_draining_admits_nothing(state, upto);
}

/// The controller stops only after every request that was in flight at the
/// signal has been answered: a run from `Draining` that ends in `Stopped`
/// holds at least as many completions as requests were in flight, and ends
/// with none in flight.
pub proof fn lemma_stop_waits_for_in_flight(state: LifecycleView, events: Seq<(Event, u64)>)
    requires
        state.phase == Phase::Draining,
    ensures
        state.run(events).in_flight + completions(events) >= state.in_flight,
        state.run(events).phase == Phase::Stopped ==> state.run(events).in_flight == 0
            && completions(events) >= state.in_flight,
    decreases events.len(),
{
    if events.len() > 0 {
        lemma_stop_waits_for_in_flight(state, events.drop_last());
        lemma_draining_admits_nothing(state, events.drop_last());
    }
}

/// A signal received while running, with any number of requests in flight,
/// starts a drain that keeps them all; from then on every arriving request is
/// refused, and the controller stops only after as many completions as
/// requests were in flight at the signal.
pub proof fn lemma_signal_drains_before_stop(
    state: LifecycleView,
    signal: Signal,
    signalled_at: u64,
    later: Seq<(Event, u64)>,
)
    requires
        state.phase == Phase::Running,
    ensures
        ({
            let (draining, action) = state.next(Event::Signal(signal), signalled_at);
            &&& action == Action::Drain
            &&& draining == (LifecycleView { phase: Phase::Draining, ..state })
            &&& draining.run(later).phase == Phase::Draining || draining.run(later).phase
                == Phase::Stopped
            &&& draining.run(later).phase == Phase::Stopped ==> completions(later)
                >= state.in_flight
            &&& forall|position: int|
                0 <= position < later.len() && (#[trigger] later[position]).0
                    == Event::RequestArrived ==> draining.answer(later.take(position + 1))
                    == Action::Refuse
        }),
{
    let draining = state.next(Event::Signal(signal), signalled_at).0;
    lemma_draining_admits_nothing(draining, later);
    lemma_stop_waits_for_in_flight(draining, later);
    assert forall|position: int|
        0 <= position < later.len() && (#[trigger] later[position]).0
            == Event::RequestArrived implies draining.answer(later.take(position + 1))
        == Action::Refuse by {
        lemma_request_after_signal_is_refused(draining, later, position);
    }
}

/// The controller leaves with status 0 only from `Draining`, on the report
/// that the drain is over, and with no request in flight.
pub proof fn lemma_exit_needs_empty_drain(state: LifecycleView, event: Event, now: u64)
    ensures
        state.next(event, now).1 matches Action::Exit { code, .. } && code == EXIT_STOPPED ==> {
            &&& state.phase == Phase::Draining
            &&& event == Event::Drained
            &&& state.in_flight == 0
            &&& state.next(event, now).0.phase == Phase::Stopped
        },
{
}

} // verus!
