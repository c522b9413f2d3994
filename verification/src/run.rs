//! How the run of a worker goes on and ends.
//!
//! A run first waits for the engine's event loop and then for the result of the main module.
//! Where the run is limited, the wall clock can end it at any time.

use vstd::prelude::*;
use vstd::string::*;

use crate::text::concat3;

verus! {

/// How long a run may take.
#[derive(Clone, Copy, Debug, PartialEq, Eq, Structural)]
pub enum WallClockLimit {
    Unlimited,
    Millis(u64),
}

/// What a run waits for.
#[derive(Clone, Copy, Debug, PartialEq, Eq, Structural)]
pub enum RunState {
    EventLoop,
    ModuleResult,
}

/// What became of the main module.
pub enum ModuleOutcome<X> {
    /// Whoever owed the result has gone without giving one.
    SenderDropped,
    /// The module failed.
    Failed(X),
    /// The module was evaluated.
    Succeeded,
}

/// What can happen during a run.
pub enum RunEvent<X> {
    /// The event loop has come to rest, or failed with a message.
    EventLoopReturned(Result<(), String>),
    /// The main module has a result.
    ModuleSettled(ModuleOutcome<X>),
    /// The run has taken as long as it may.
    WallClockElapsed,
}

/// Why a run has failed.
pub enum RunError<X> {
    /// The runtime ended the run, with a message.
    Message(String),
    /// The main module failed with this error.
    Module(X),
}

/// Why a run has failed, with the message as text.
pub enum RunErrorView<X> {
    Message(Seq<char>),
    Module(X),
}

impl<X> View for RunError<X> {
    type V = RunErrorView<X>;

    open spec fn view(&self) -> RunErrorView<X> {
        match self {
            RunError::Message(text) => RunErrorView::Message(text@),
            RunError::Module(error) => RunErrorView::Module(*error),
        }
    }
}

/// Where an event leads to.
pub enum RunStep<X> {
    /// The run goes on.
    Await(RunState),
    /// The run is over.
    Finished(Result<(), RunError<X>>),
}

/// Where an event leads to, with messages as text.
pub enum RunStepView<X> {
    Await(RunState),
    Finished(Result<(), RunErrorView<X>>),
}

impl<X> View for RunStep<X> {
    type V = RunStepView<X>;

    open spec fn view(&self) -> RunStepView<X> {
        match self {
            RunStep::Await(state) => RunStepView::Await(*state),
            RunStep::Finished(Ok(_)) => RunStepView::Finished(Ok(())),
            RunStep::Finished(Err(error)) => RunStepView::Finished(Err(error@)),
        }
    }
}

/// The event can happen while the run is in the given state. The wall clock runs out only where
/// there is a limit.
pub open spec fn can_happen<X>(limit: WallClockLimit, state: RunState, event: RunEvent<X>) -> bool {
    match event {
        RunEvent::EventLoopReturned(_) => state is EventLoop,
        RunEvent::ModuleSettled(_) => state is ModuleResult,
        RunEvent::WallClockElapsed => limit is Millis,
    }
}

/// How a run ends that takes too long.
pub open spec fn timed_out<X>() -> RunStepView<X> {
    RunStepView::Finished(Err(RunErrorView::Message("wall clock duration reached"@)))
}

/// Where an event leads to.
pub open spec fn next_step<X>(event: RunEvent<X>) -> RunStepView<X> {
    match event {
        RunEvent::EventLoopReturned(Ok(_)) => RunStepView::Await(RunState::ModuleResult),
        RunEvent::EventLoopReturned(Err(error)) => RunStepView::Finished(
            Err(RunErrorView::Message("event loop error: "@ + error@)),
        ),
        RunEvent::ModuleSettled(ModuleOutcome::SenderDropped) => RunStepView::Finished(
            Err(RunErrorView::Message("mod result sender dropped"@)),
        ),
        RunEvent::ModuleSettled(ModuleOutcome::Failed(error)) => RunStepView::Finished(
            Err(RunErrorView::Module(error)),
        ),
        RunEvent::ModuleSettled(ModuleOutcome::Succeeded) => RunStepView::Finished(Ok(())),
        RunEvent::WallClockElapsed => timed_out(),
    }
}

/// Takes note of an event of a run with the given limit.
pub fn run_step<X>(limit: WallClockLimit, state: RunState, event: RunEvent<X>) -> (step: RunStep<X>)
    requires
        can_happen(limit, state, event),
    ensures
        step@ == next_step(event),
        (match event {
            RunEvent::EventLoopReturned(Ok(_)) => step == RunStep::<X>::Await(RunState::ModuleResult),
            RunEvent::EventLoopReturned(Err(error)) => step matches RunStep::Finished(
                Err(RunError::Message(text)),
            ) && text@ == "event loop error: "@ + error@,
            RunEvent::ModuleSettled(ModuleOutcome::SenderDropped) => step matches RunStep::Finished(
                Err(RunError::Message(text)),
            ) && text@ == "mod result sender dropped"@,
            RunEvent::ModuleSettled(ModuleOutcome::Failed(error)) => step matches RunStep::Finished(
                Err(RunError::Module(found)),
            ) && found == error,
            RunEvent::ModuleSettled(ModuleOutcome::Succeeded) => step matches RunStep::Finished(
                Ok(_),
            ),
            RunEvent::WallClockElapsed => step matches RunStep::Finished(
                Err(RunError::Message(text)),
            ) && text@ == "wall clock duration reached"@,
        }),
{
    match event {
        RunEvent::EventLoopReturned(Ok(_)) => RunStep::Await(RunState::ModuleResult),
        RunEvent::EventLoopReturned(Err(error)) => {
            let text = concat3("event loop error: ", error.as_str(), "");
            assert(text@ =~= "event loop error: "@ + error@) by {
                reveal_strlit("");
            }
            RunStep::Finished(Err(RunError::Message(text)))
        },
        RunEvent::ModuleSettled(ModuleOutcome::SenderDropped) => RunStep::Finished(
            Err(RunError::Message("mod result sender dropped".to_owned())),
        ),
        RunEvent::ModuleSettled(ModuleOutcome::Failed(error)) => RunStep::Finished(
            Err(RunError::Module(error)),
        ),
        RunEvent::ModuleSettled(ModuleOutcome::Succeeded) => RunStep::Finished(Ok(())),
        RunEvent::WallClockElapsed => RunStep::Finished(
            Err(RunError::Message("wall clock duration reached".to_owned())),
        ),
    }
}

/// What becomes of a run that is in `state` when `events` happen one after the other. Once the
/// run is over, nothing more happens to it.
pub open spec fn run_through<X>(state: RunState, events: Seq<RunEvent<X>>) -> RunStepView<X>
    decreases events.len(),
{
    if events.len() == 0 {
        RunStepView::Await(state)
    } else {
        match next_step(events[0]) {
            RunStepView::Await(next) => run_through(next, events.skip(1)),
            RunStepView::Finished(result) => RunStepView::Finished(result),
        }
    }
}

/// The events can happen one after the other, up to the end of the run.
pub open spec fn is_history<X>(
    limit: WallClockLimit,
    state: RunState,
    events: Seq<RunEvent<X>>,
) -> bool
    decreases events.len(),
{
    events.len() == 0 || {
        &&& can_happen(limit, state, events[0])
        &&& match next_step(events[0]) {
            RunStepView::Await(next) => is_history(limit, next, events.skip(1)),
            RunStepView::Finished(_) => events.len() == 1,
        }
    }
}

/// A run succeeds exactly when the event loop comes to rest and then the main module is
/// evaluated, before the wall clock runs out.
pub proof fn law_run_succeeds_after_loop_and_module<X>(
    limit: WallClockLimit,
    events: Seq<RunEvent<X>>,
)
    requires
        is_history(limit, RunState::EventLoop, events),
    ensures
        run_through(RunState::EventLoop, events) matches RunStepView::Finished(Ok(_)) <==> {
            &&& events.len() == 2
            &&& events[0] matches RunEvent::EventLoopReturned(Ok(_))
            &&& events[1] matches RunEvent::ModuleSettled(ModuleOutcome::Succeeded)
        },
{
    reveal_with_fuel(run_through, 4);
    reveal_with_fuel(is_history, 4);
}

/// A run is over after two events at the latest.
pub proof fn law_run_ends_within_two_events<X>(limit: WallClockLimit, events: Seq<RunEvent<X>>)
    requires
        is_history(limit, RunState::EventLoop, events),
    ensures
        events.len() <= 2,
        events.len() == 2 ==> run_through(RunState::EventLoop, events) is Finished,
{
    reveal_with_fuel(run_through, 4);
    reveal_with_fuel(is_history, 4);
}

/// When the wall clock runs out during a run, the run ends with the message that says so,
/// whatever happened before.
pub proof fn law_wall_clock_ends_the_run<X>(
    limit: WallClockLimit,
    state: RunState,
    events: Seq<RunEvent<X>>,
)
    requires
        is_history(limit, state, events),
        events.len() > 0,
        events.last() is WallClockElapsed,
    ensures
        run_through(state, events) == timed_out::<X>(),
    decreases events.len(),
{
    if next_step(events[0]) is Await {
        assert(events.len() > 1);
        assert(events.skip(1).last() == events.last());
        law_wall_clock_ends_the_run(limit, RunState::ModuleResult, events.skip(1));
    } else {
        assert(events.len() == 1);
    }
}

/// When the event loop fails, the result of the main module is not waited for.
pub proof fn law_failed_event_loop_ends_the_run<X>(
    limit: WallClockLimit,
    events: Seq<RunEvent<X>>,
    error: String,
)
    requires
        is_history(limit, RunState::EventLoop, events),
        events.len() > 0,
        events[0] == RunEvent::<X>::EventLoopReturned(Err(error)),
    ensures
        events.len() == 1,
        run_through(RunState::EventLoop, events) == RunStepView::<X>::Finished(
            Err(RunErrorView::Message("event loop error: "@ + error@)),
        ),
{
}

/// Each way in which a run can fail has a message of its own.
pub proof fn law_run_failures_have_their_messages<X>(error: String, module_error: X)
    ensures
        next_step(RunEvent::<X>::EventLoopReturned(Err(error))) == RunStepView::<X>::Finished(
            Err(RunErrorView::Message("event loop error: "@ + error@)),
        ),
        next_step(RunEvent::<X>::ModuleSettled(ModuleOutcome::SenderDropped)) == RunStepView::<
            X,
        >::Finished(Err(RunErrorView::Message("mod result sender dropped"@))),
        next_step(RunEvent::<X>::WallClockElapsed) == RunStepView::<X>::Finished(
            Err(RunErrorView::Message("wall clock duration reached"@)),
        ),
        next_step(RunEvent::ModuleSettled(ModuleOutcome::Failed(module_error)))
            == RunStepView::Finished(Err(RunErrorView::Module(module_error))),
        timed_out::<X>() == next_step(RunEvent::<X>::WallClockElapsed),
{
}

/// A step is known by what it holds: messages by their text, errors of modules as they are.
pub proof fn law_steps_are_known_by_what_they_hold<X>(text: String, error: X, state: RunState)
    ensures
        RunStep::<X>::Await(state)@ == RunStepView::<X>::Await(state),
        RunStep::<X>::Finished(Ok(()))@ matches RunStepView::Finished(Ok(_)),
        RunStep::<X>::Finished(Err(RunError::Message(text)))@ == RunStepView::<X>::Finished(
            Err(RunErrorView::Message(text@)),
        ),
        RunStep::Finished(Err(RunError::Module(error)))@ == RunStepView::Finished(
            Err(RunErrorView::Module(error)),
        ),
{
}

/// What can happen in a run is fixed: the event loop returns while the run waits for it, the module
/// settles while the run waits for it, and the wall clock runs out where there is a limit.
pub proof fn law_events_happen_in_their_place<X>(
    limit: WallClockLimit,
    state: RunState,
    returned: Result<(), String>,
    outcome: ModuleOutcome<X>,
)
    ensures
        can_happen(limit, state, RunEvent::<X>::EventLoopReturned(returned)) <==> state
            == RunState::EventLoop,
        can_happen(limit, state, RunEvent::ModuleSettled(outcome)) <==> state
            == RunState::ModuleResult,
        can_happen(limit, state, RunEvent::<X>::WallClockElapsed) <==> limit
            != WallClockLimit::Unlimited,
{
}

/// The time that a run may take is exactly its limit.
pub proof fn law_limits_are_exact(millis: u64, nanos: nat)
    ensures
        has_elapsed(WallClockLimit::Millis(millis), nanos) <==> nanos > millis * 1000000,
        !has_elapsed(WallClockLimit::Unlimited, nanos),
{
}

/// A module's own error comes out of the run as it is.
pub proof fn law_module_error_comes_out_unchanged<X>(
    limit: WallClockLimit,
    events: Seq<RunEvent<X>>,
    error: X,
)
    requires
        is_history(limit, RunState::EventLoop, events),
    ensures
        run_through(RunState::EventLoop, events) == RunStepView::Finished(
            Err(RunErrorView::Module(error)),
        ) <==> {
            &&& events.len() == 2
            &&& events[0] matches RunEvent::EventLoopReturned(Ok(_))
            &&& events[1] == RunEvent::ModuleSettled(ModuleOutcome::Failed(error))
        },
{
    reveal_with_fuel(run_through, 4);
    reveal_with_fuel(is_history, 4);
}

/// A run without a limit never ends because it took too long.
pub proof fn law_unlimited_run_never_times_out<X>(events: Seq<RunEvent<X>>)
    requires
        is_history(WallClockLimit::Unlimited, RunState::EventLoop, events),
    ensures
        run_through(RunState::EventLoop, events) != timed_out::<X>(),
{
    reveal_with_fuel(run_through, 4);
    reveal_with_fuel(is_history, 4);
    reveal_strlit("wall clock duration reached");
    reveal_strlit("mod result sender dropped");
    reveal_strlit("event loop error: ");
    assert("wall clock duration reached"@[0] == 'w');
    assert("mod result sender dropped"@[0] == 'm');
    assert forall|error: Seq<char>| #[trigger] ("event loop error: "@ + error)
        != "wall clock duration reached"@ by {
        assert(("event loop error: "@ + error)[0] == 'e');
    }
}

/// An event, and how long after the start of the run it happens.
pub struct TimedEvent<X> {
    pub event: RunEvent<X>,
    pub nanos: nat,
}

/// A run that has taken the given time has taken longer than the limit allows. What happens just
/// when the limit is reached still happens in time.
pub open spec fn has_elapsed(limit: WallClockLimit, nanos: nat) -> bool {
    match limit {
        WallClockLimit::Unlimited => false,
        WallClockLimit::Millis(millis) => nanos > millis * 1000000,
    }
}

/// The events without their times.
pub open spec fn untimed<X>(events: Seq<TimedEvent<X>>) -> Seq<RunEvent<X>> {
    Seq::new(events.len(), |i: int| events[i].event)
}

/// What happens in a run from `state` on as long as no limit ends it: events that can follow one
/// another, at times that do. A run that waits forever has fewer events.
pub open spec fn is_execution<X>(state: RunState, events: Seq<TimedEvent<X>>) -> bool {
    &&& is_history(WallClockLimit::Unlimited, state, untimed(events))
    &&& forall|i: int, j: int|
        0 <= i < j < events.len() ==> #[trigger] events[i].nanos <= #[trigger] events[j].nanos
}

/// What happens of an execution under a limit. What does not happen in time does not happen at
/// all, and the wall clock runs out in its place.
pub open spec fn happenings<X>(limit: WallClockLimit, events: Seq<TimedEvent<X>>) -> Seq<
    RunEvent<X>,
>
    decreases events.len(),
{
    if events.len() == 0 {
        if limit is Millis {
            seq![RunEvent::WallClockElapsed]
        } else {
            seq![]
        }
    } else if has_elapsed(limit, events[0].nanos) {
        seq![RunEvent::WallClockElapsed]
    } else if next_step(events[0].event) is Finished {
        seq![events[0].event]
    } else {
        seq![events[0].event] + happenings(limit, events.skip(1))
    }
}

/// What becomes of a run that is executed under a limit.
pub open spec fn run_outcome<X>(limit: WallClockLimit, events: Seq<TimedEvent<X>>) -> RunStepView<
    X,
> {
    run_through(RunState::EventLoop, happenings(limit, events))
}

proof fn lemma_rest_is_execution<X>(state: RunState, events: Seq<TimedEvent<X>>)
    requires
        is_execution(state, events),
        events.len() > 0,
        next_step(events[0].event) is Await,
    ensures
        is_execution(next_step(events[0].event)->Await_0, events.skip(1)),
{
    assert(untimed(events)[0] == events[0].event);
    assert(untimed(events).skip(1) =~= untimed(events.skip(1)));
    let rest = events.skip(1);
    assert forall|i: int, j: int| 0 <= i < j < rest.len() implies #[trigger] rest[i].nanos
        <= #[trigger] rest[j].nanos by {
        assert(rest[i] == events[i + 1] && rest[j] == events[j + 1]);
    }
}

proof fn lemma_run_through_first<X>(state: RunState, first: RunEvent<X>, rest: Seq<RunEvent<X>>)
    requires
        next_step(first) is Await,
    ensures
        run_through(state, seq![first] + rest) == run_through(next_step(first)->Await_0, rest),
{
    assert((seq![first] + rest)[0] == first);
    assert((seq![first] + rest).skip(1) =~= rest);
}

/// What happens of an execution under a limit is a history of a run with that limit.
pub proof fn law_limited_execution_is_a_history<X>(
    limit: WallClockLimit,
    state: RunState,
    events: Seq<TimedEvent<X>>,
)
    requires
        is_execution(state, events),
    ensures
        is_history(limit, state, happenings(limit, events)),
    decreases events.len(),
{
    if events.len() > 0 {
        let first = events[0].event;
        assert(untimed(events)[0] == first);
        if !has_elapsed(limit, events[0].nanos) && next_step(first) is Await {
            let next = next_step(first)->Await_0;
            let rest = happenings(limit, events.skip(1));
            lemma_rest_is_execution(state, events);
            law_limited_execution_is_a_history(limit, next, events.skip(1));
            assert((seq![first] + rest)[0] == first);
            assert((seq![first] + rest).skip(1) =~= rest);
        }
    }
}

/// A run with a limit always ends, even where nothing happens in it any more.
pub proof fn law_limited_run_ends<X>(millis: u64, events: Seq<TimedEvent<X>>)
    requires
        is_execution(RunState::EventLoop, events),
    ensures
        run_outcome(WallClockLimit::Millis(millis), events) is Finished,
{
    lemma_limited_run_ends(millis, RunState::EventLoop, events);
}

proof fn lemma_limited_run_ends<X>(millis: u64, state: RunState, events: Seq<TimedEvent<X>>)
    ensures
        run_through(state, happenings(WallClockLimit::Millis(millis), events)) is Finished,
    decreases events.len(),
{
    let limit = WallClockLimit::Millis(millis);
    if events.len() > 0 && !has_elapsed(limit, events[0].nanos) && next_step(
        events[0].event,
    ) is Await {
        let next = next_step(events[0].event)->Await_0;
        lemma_limited_run_ends(millis, next, events.skip(1));
        lemma_run_through_first(state, events[0].event, happenings(limit, events.skip(1)));
    }
}

/// Without a limit, everything in an execution happens, however long it takes, and the run does
/// not end because of it.
pub proof fn law_unlimited_run_takes_its_time<X>(events: Seq<TimedEvent<X>>)
    requires
        is_execution(RunState::EventLoop, events),
    ensures
        run_outcome(WallClockLimit::Unlimited, events) == run_through(
            RunState::EventLoop,
            untimed(events),
        ),
        run_outcome(WallClockLimit::Unlimited, events) != timed_out::<X>(),
{
    lemma_everything_happens(RunState::EventLoop, events);
    law_unlimited_run_never_times_out(untimed(events));
}

proof fn lemma_everything_happens<X>(state: RunState, events: Seq<TimedEvent<X>>)
    requires
        is_execution(state, events),
    ensures
        happenings(WallClockLimit::Unlimited, events) == untimed(events),
    decreases events.len(),
{
    if events.len() > 0 {
        assert(untimed(events)[0] == events[0].event);
        if next_step(events[0].event) is Await {
            lemma_rest_is_execution(state, events);
            lemma_everything_happens(next_step(events[0].event)->Await_0, events.skip(1));
            assert(untimed(events.skip(1)) =~= untimed(events).skip(1));
        }
        assert(happenings(WallClockLimit::Unlimited, events) =~= untimed(events));
    }
}

/// What takes longer than a larger limit allows takes longer than a smaller one allows.
pub proof fn law_larger_limit_elapses_no_earlier(a: u64, b: u64, nanos: nat)
    requires
        a <= b,
        has_elapsed(WallClockLimit::Millis(b), nanos),
    ensures
        has_elapsed(WallClockLimit::Millis(a), nanos),
{
}

/// A larger limit never adds a timeout: what a run comes to within a limit, the same execution
/// comes to within any larger one, and what is too long for the larger limit is too long for the
/// smaller one.
pub proof fn law_larger_limit_adds_no_timeout<X>(a: u64, b: u64, events: Seq<TimedEvent<X>>)
    requires
        a <= b,
        is_execution(RunState::EventLoop, events),
    ensures
        run_outcome(WallClockLimit::Millis(a), events) != timed_out::<X>() ==> run_outcome(
            WallClockLimit::Millis(b),
            events,
        ) == run_outcome(WallClockLimit::Millis(a), events),
        run_outcome(WallClockLimit::Millis(b), events) == timed_out::<X>() ==> run_outcome(
            WallClockLimit::Millis(a),
            events,
        ) == timed_out::<X>(),
{
    lemma_larger_limit(a, b, RunState::EventLoop, events);
}

proof fn lemma_larger_limit<X>(a: u64, b: u64, state: RunState, events: Seq<TimedEvent<X>>)
    requires
        a <= b,
    ensures
        ({
            let within_a = run_through(state, happenings(WallClockLimit::Millis(a), events));
            let within_b = run_through(state, happenings(WallClockLimit::Millis(b), events));
            within_a == timed_out::<X>() || within_b == within_a
        }),
    decreases events.len(),
{
    let limit_a = WallClockLimit::Millis(a);
    let limit_b = WallClockLimit::Millis(b);
    if events.len() > 0 {
        let first = events[0].event;
        if has_elapsed(limit_b, events[0].nanos) {
            law_larger_limit_elapses_no_earlier(a, b, events[0].nanos);
        }
        if !has_elapsed(limit_a, events[0].nanos) && next_step(first) is Await {
            let next = next_step(first)->Await_0;
            lemma_larger_limit(a, b, next, events.skip(1));
            lemma_run_through_first(state, first, happenings(limit_a, events.skip(1)));
            lemma_run_through_first(state, first, happenings(limit_b, events.skip(1)));
        }
    }
}

} // verus!
