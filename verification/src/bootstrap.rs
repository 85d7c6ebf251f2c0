//! The start-up sequence as a state machine: six stages in a fixed order,
//! each of which either hands over to the next or ends start-up for good.
//!
//! The machine decides; its driver acts. The driver asks the state for the
//! work that is due, does it, and reports how it ended.

use crate::address::{bind_address, bind_address_text};
use crate::error::Error;
use crate::settings::Settings;
use vstd::prelude::*;

verus! {

/// Where start-up stands.
#[derive(Clone, Copy, Debug, PartialEq, Eq, Structural)]
pub enum State {
    /// The settings are to be read.
    ReadConfig,
    /// The execution environment is to be built for these settings.
    BuildRuntime(Settings),
    /// The route table is to be mounted.
    BuildRouter(Settings),
    /// The bind address is to be derived from these settings and parsed.
    ParseAddress(Settings),
    /// The listener is to be opened.
    Bind,
    /// The server accepts and dispatches connections.
    Serve,
    /// Start-up has ended with this failure.
    Failed(Error),
}

/// How the work of a stage ended.
#[derive(Clone, Copy, Debug, PartialEq, Eq, Structural)]
pub enum Event {
    /// The settings were read.
    Loaded(Settings),
    /// The work of the stage is done.
    Done,
    /// The work of the stage failed.
    Failed,
}

/// The work that is due in a state.
#[derive(Debug)]
pub enum Action {
    /// Read the settings.
    LoadConfig,
    /// Build the execution environment for this worker limit.
    BuildRuntime(Option<u32>),
    /// Obtain the route table and mount it.
    MountRoutes,
    /// Parse this text into a socket address.
    ParseAddress(String),
    /// Open the listener on the parsed address.
    Bind,
    /// Serve until the loop ends.
    Serve,
    /// Give up and report this failure.
    Halt(Error),
}

impl State {
    /// The place of a state in the sequence. Every failure comes last.
    pub open spec fn rank(self) -> nat {
        match self {
            State::ReadConfig => 0,
            State::BuildRuntime(_) => 1,
            State::BuildRouter(_) => 2,
            State::ParseAddress(_) => 3,
            State::Bind => 4,
            State::Serve => 5,
            State::Failed(_) => 6,
        }
    }

    /// The failure that ends start-up when the work of this state fails.
    /// Mounting the routes cannot fail, and nothing fails after a failure.
    pub open spec fn failure(self) -> Option<Error> {
        match self {
            State::ReadConfig => Some(Error::Config),
            State::BuildRuntime(_) => Some(Error::Runtime),
            State::BuildRouter(_) => None,
            State::ParseAddress(_) => Some(Error::Address),
            State::Bind => Some(Error::Bind),
            State::Serve => Some(Error::Serve),
            State::Failed(_) => None,
        }
    }

    /// Whether `event` can end the work of this state. Reading the settings
    /// ends with the settings or fails; serving never ends well; a failed
    /// start-up takes no event at all.
    pub open spec fn admits(self, event: Event) -> bool {
        match event {
            Event::Loaded(_) => self is ReadConfig,
            Event::Done => self is BuildRuntime || self is BuildRouter || self is ParseAddress
                || self is Bind,
            Event::Failed => self.failure() is Some,
        }
    }

    /// The state that follows this one on `event`.
    pub open spec fn next(self, event: Event) -> State
        recommends
            self.admits(event),
    {
        match event {
            Event::Loaded(settings) => State::BuildRuntime(settings),
            Event::Done => match self {
                State::BuildRuntime(settings) => State::BuildRouter(settings),
                State::BuildRouter(settings) => State::ParseAddress(settings),
                State::ParseAddress(_) => State::Bind,
                _ => State::Serve,
            },
            Event::Failed => match self.failure() {
                Some(error) => State::Failed(error),
                None => self,
            },
        }
    }

    /// Whether nothing can follow this state.
    pub open spec fn terminal(self) -> bool {
        forall|event: Event| !self.admits(event)
    }

    /// The state in which start-up begins.
    pub fn start() -> (state: State)
        ensures
            state == State::ReadConfig,
    {
        State::ReadConfig
    }

    /// Tells whether `event` can end the work of this state.
    pub fn accepts(&self, event: &Event) -> (admitted: bool)
        ensures
            admitted == self.admits(*event),
    {
        match event {
            Event::Loaded(_) => matches!(self, State::ReadConfig),
            Event::Done => matches!(
                self,
                State::BuildRuntime(_) | State::BuildRouter(_) | State::ParseAddress(_)
                    | State::Bind
            ),
            Event::Failed => !matches!(self, State::BuildRouter(_) | State::Failed(_)),
        }
    }

    /// Moves on from this state on `event`.
    pub fn step(self, event: Event) -> (state: State)
        requires
            self.admits(event),
        ensures
            state == self.next(event),
    {
        match event {
            Event::Loaded(settings) => State::BuildRuntime(settings),
            Event::Done => match self {
                State::BuildRuntime(settings) => State::BuildRouter(settings),
                State::BuildRouter(settings) => State::ParseAddress(settings),
                State::ParseAddress(_) => State::Bind,
                _ => State::Serve,
            },
            Event::Failed => match self {
                State::ReadConfig => State::Failed(Error::Config),
                State::BuildRuntime(_) => State::Failed(Error::Runtime),
                State::ParseAddress(_) => State::Failed(Error::Address),
                State::Bind => State::Failed(Error::Bind),
                _ => State::Failed(Error::Serve),
            },
        }
    }

    /// Whether `action` is the work that is due in this state.
    pub open spec fn calls_for(self, action: Action) -> bool {
        match self {
            State::ReadConfig => action is LoadConfig,
            State::BuildRuntime(settings) => action == Action::BuildRuntime(settings.worker_limit),
            State::BuildRouter(_) => action is MountRoutes,
            State::ParseAddress(settings) => action matches Action::ParseAddress(text) && text@
                == bind_address_text(settings.port),
            State::Bind => action is Bind,
            State::Serve => action is Serve,
            State::Failed(error) => action == Action::Halt(error),
        }
    }

    /// The work that is due in this state.
    pub fn action(&self) -> (action: Action)
        ensures
            self.calls_for(action),
    {
        match self {
            State::ReadConfig => Action::LoadConfig,
            State::BuildRuntime(settings) => Action::BuildRuntime(settings.worker_limit),
            State::BuildRouter(_) => Action::MountRoutes,
            State::ParseAddress(settings) => Action::ParseAddress(bind_address(settings.port)),
            State::Bind => Action::Bind,
            State::Serve => Action::Serve,
            State::Failed(error) => Action::Halt(*error),
        }
    }
}

/// Whether start-up can take `events` one after the other from `state`.
pub open spec fn admits_all(state: State, events: Seq<Event>) -> bool
    decreases events.len(),
{
    events.len() > 0 ==> state.admits(events[0]) && admits_all(
        state.next(events[0]),
        events.subrange(1, events.len() as int),
    )
}

/// The state that start-up reaches from `state` through `events`.
pub open spec fn run(state: State, events: Seq<Event>) -> State
    decreases events.len(),
{
    if events.len() == 0 {
        state
    } else {
        run(state.next(events[0]), events.subrange(1, events.len() as int))
    }
}

/// Every step moves forward in the sequence: no stage is entered twice and
/// none is gone back to.
pub proof fn lemma_step_moves_forward(state: State, event: Event)
    requires
        state.admits(event),
    ensures
        state.rank() < state.next(event).rank(),
{
}

/// Success leads to the stage that follows, never further.
pub proof fn lemma_success_enters_the_following_stage(state: State, event: Event)
    requires
        state.admits(event),
        event !is Failed,
    ensures
        state.next(event).rank() == state.rank() + 1,
{
}

/// A stage that fails ends start-up with the failure of that stage, and no
/// two stages end it with the same failure.
pub proof fn lemma_failure_names_the_stage(state: State, other: State)
    requires
        state.admits(Event::Failed),
        other.admits(Event::Failed),
    ensures
        state.next(Event::Failed) == State::Failed(state.failure()->Some_0),
        state.next(Event::Failed) == other.next(Event::Failed) ==> state.rank() == other.rank(),
{
}

/// The states that nothing follows are exactly the failures: start-up never
/// ends in success, it serves until it fails.
pub proof fn lemma_only_failures_are_terminal(state: State)
    ensures
        state.terminal() <==> state is Failed,
{
    if state is Failed {
        assert forall|event: Event| !state.admits(event) by {}
    } else {
        if state is ReadConfig || state is Serve {
            assert(state.admits(Event::Failed));
        } else {
            assert(state.admits(Event::Done));
        }
    }
}

/// Whatever is reported after a failure, start-up has nothing to take: the
/// only run from a failure is the empty one.
pub proof fn lemma_failure_is_final(error: Error, events: Seq<Event>)
    requires
        admits_all(State::Failed(error), events),
    ensures
        events.len() == 0,
        run(State::Failed(error), events) == State::Failed(error),
{
}

/// A run moves forward by at least one place for each event.
pub proof fn lemma_run_moves_forward(state: State, events: Seq<Event>)
    requires
        admits_all(state, events),
    ensures
        state.rank() + events.len() <= run(state, events).rank(),
    decreases events.len(),
{
    if events.len() > 0 {
        lemma_run_moves_forward(
            state.next(events[0]),
            events.subrange(1, events.len() as int),
        );
    }
}

/// Start-up is over after six events at most.
pub proof fn lemma_run_is_bounded(events: Seq<Event>)
    requires
        admits_all(State::ReadConfig, events),
    ensures
        events.len() <= 6,
{
    lemma_run_moves_forward(State::ReadConfig, events);
}

/// A run that has a failure in it has it as its last event, and ends in the
/// failure of the stage that was at work.
pub proof fn lemma_run_stops_at_failure(state: State, events: Seq<Event>, at: int)
    requires
        admits_all(state, events),
        0 <= at < events.len(),
        events[at] is Failed,
    ensures
        at == events.len() - 1,
        run(state, events) is Failed,
        run(state, events) == run(state, events.subrange(0, at)).next(Event::Failed),
    decreases events.len(),
{
    let rest = events.subrange(1, events.len() as int);
    if at == 0 {
        let failed = state.next(events[0]);
        assert(failed is Failed);
        lemma_failure_is_final(failed->Failed_0, rest);
        assert(events.subrange(0, 0).len() == 0);
    } else {
        lemma_run_stops_at_failure(state.next(events[0]), rest, at - 1);
        assert(rest[at - 1] == events[at]);
        assert(events.subrange(0, at).subrange(1, at) =~= rest.subrange(0, at - 1));
        assert(events.subrange(0, at)[0] == events[0]);
    }
}

/// The server serves only after all five stages before it have ended well,
/// in their order, for the settings that were read.
pub proof fn lemma_serving_needs_every_stage(events: Seq<Event>)
    requires
        admits_all(State::ReadConfig, events),
        run(State::ReadConfig, events) is Serve,
    ensures
        events.len() == 5,
        events[0] is Loaded,
        forall|i: int| 1 <= i < 5 ==> events[i] is Done,
{
    lemma_run_moves_forward(State::ReadConfig, events);
    assert forall|i: int| 0 <= i < events.len() implies !(events[i] is Failed) by {
        if events[i] is Failed {
            lemma_run_stops_at_failure(State::ReadConfig, events, i);
        }
    }
    lemma_run_without_failure(State::ReadConfig, events);
    assert(events.len() == 5);
    let e0 = events;
    let s1 = State::ReadConfig.next(e0[0]);
    let e1 = e0.subrange(1, e0.len() as int);
    let s2 = s1.next(e1[0]);
    let e2 = e1.subrange(1, e1.len() as int);
    let s3 = s2.next(e2[0]);
    let e3 = e2.subrange(1, e2.len() as int);
    let s4 = s3.next(e3[0]);
    let e4 = e3.subrange(1, e3.len() as int);
    assert(admits_all(s1, e1));
    assert(admits_all(s2, e2));
    assert(admits_all(s3, e3));
    assert(admits_all(s4, e4));
    assert(e1[0] == events[1]);
    assert(e2[0] == events[2]);
    assert(e3[0] == events[3]);
    assert(e4[0] == events[4]);
}

/// A run in which nothing fails climbs one place with each event.
proof fn lemma_run_without_failure(state: State, events: Seq<Event>)
    requires
        admits_all(state, events),
        forall|i: int| 0 <= i < events.len() ==> !(events[i] is Failed),
    ensures
        run(state, events).rank() == state.rank() + events.len(),
    decreases events.len(),
{
    if events.len() > 0 {
        let rest = events.subrange(1, events.len() as int);
        assert forall|i: int| 0 <= i < rest.len() implies !(rest[i] is Failed) by {
            assert(rest[i] == events[i + 1]);
        }
        lemma_run_without_failure(state.next(events[0]), rest);
    }
}

/// Where the listener cannot be opened, start-up ends with the bind failure
/// and stays there: the server never serves.
pub proof fn lemma_bind_failure_never_serves(events: Seq<Event>)
    requires
        admits_all(State::Bind.next(Event::Failed), events),
    ensures
        State::Bind.next(Event::Failed) == State::Failed(Error::Bind),
        run(State::Bind.next(Event::Failed), events) == State::Failed(Error::Bind),
{
    lemma_failure_is_final(Error::Bind, events);
}

} // verus!
