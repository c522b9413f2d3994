//! How the startup of a worker goes on and ends.
//!
//! The actions of a startup are carried out one after the other. Each is over with an event, and
//! the event decides whether the next action follows.

use vstd::prelude::*;

use crate::import_maps::ImportMapLoadError;
use crate::options::WorkerContextInitOpts;
use crate::startup::{startup_actions, StartupAction, StartupActionView};

verus! {

/// An action, as far as it matters to what can come of it.
#[derive(Clone, Copy, Debug, PartialEq, Eq, Structural)]
pub enum ActionKind {
    /// Loads the import map.
    ImportMap,
    /// Creates the module loader.
    ModuleLoader,
    /// Runs the bootstrap script.
    Script,
    /// Loads the main module.
    MainModule,
    /// Does something that cannot fail.
    Infallible,
}

impl<E, R> StartupActionView<E, R> {
    /// What can come of the action.
    pub open spec fn kind(self) -> ActionKind {
        match self {
            StartupActionView::LoadImportMap(_) => ActionKind::ImportMap,
            StartupActionView::CreateModuleLoader { .. } => ActionKind::ModuleLoader,
            StartupActionView::ExecuteScript(_) => ActionKind::Script,
            StartupActionView::LoadMainModule(_) => ActionKind::MainModule,
            _ => ActionKind::Infallible,
        }
    }
}

impl<E, R> StartupAction<E, R> {
    /// Tells what can come of the action.
    pub fn kind(&self) -> (kind: ActionKind)
        ensures
            kind == self@.kind(),
            kind is ImportMap <==> self is LoadImportMap,
            kind is ModuleLoader <==> self is CreateModuleLoader,
            kind is Script <==> self is ExecuteScript,
            kind is MainModule <==> self is LoadMainModule,
    {
        match self {
            StartupAction::LoadImportMap(_) => ActionKind::ImportMap,
            StartupAction::CreateModuleLoader { .. } => ActionKind::ModuleLoader,
            StartupAction::ExecuteScript(_) => ActionKind::Script,
            StartupAction::LoadMainModule(_) => ActionKind::MainModule,
            _ => ActionKind::Infallible,
        }
    }
}

/// What came of an action. `X` is the type of errors from outside.
pub enum StartupEvent<X> {
    /// The action has been carried out.
    Done,
    /// The import map could not be loaded.
    ImportMapFailed(ImportMapLoadError),
    /// The module loader could not be created.
    ModuleLoaderFailed(X),
    /// The bootstrap script failed.
    ScriptFailed(X),
    /// The main module has been loaded and has this id.
    MainModuleLoaded(usize),
    /// The main module could not be loaded.
    MainModuleFailed(X),
}

/// Why a startup has failed.
pub enum StartupError<X> {
    /// The import map could not be loaded.
    ImportMap(ImportMapLoadError),
    /// Something outside failed with this error.
    Outside(X),
}

/// Where an event leads to.
pub enum StartupStep<X> {
    /// The next action follows.
    Continue,
    /// The worker is up, and its main module has this id.
    Loaded(usize),
    /// The startup has failed. No other action follows.
    Failed(StartupError<X>),
    /// The runtime is broken, and the process gives up over this error.
    Panic(X),
}

/// The event can come of an action of the given kind.
pub open spec fn can_come_of<X>(kind: ActionKind, event: StartupEvent<X>) -> bool {
    match event {
        StartupEvent::Done => !(kind is MainModule),
        StartupEvent::ImportMapFailed(_) => kind is ImportMap,
        StartupEvent::ModuleLoaderFailed(_) => kind is ModuleLoader,
        StartupEvent::ScriptFailed(_) => kind is Script,
        StartupEvent::MainModuleLoaded(_) => kind is MainModule,
        StartupEvent::MainModuleFailed(_) => kind is MainModule,
    }
}

/// Where an event leads to. Errors come out as they are.
pub open spec fn step_after<X>(event: StartupEvent<X>) -> StartupStep<X> {
    match event {
        StartupEvent::Done => StartupStep::Continue,
        StartupEvent::ImportMapFailed(error) => StartupStep::Failed(StartupError::ImportMap(error)),
        StartupEvent::ModuleLoaderFailed(error) => StartupStep::Failed(StartupError::Outside(error)),
        StartupEvent::ScriptFailed(error) => StartupStep::Panic(error),
        StartupEvent::MainModuleLoaded(id) => StartupStep::Loaded(id),
        StartupEvent::MainModuleFailed(error) => StartupStep::Failed(StartupError::Outside(error)),
    }
}

/// Takes note of what came of an action.
pub fn startup_step<X>(kind: ActionKind, event: StartupEvent<X>) -> (step: StartupStep<X>)
    requires
        can_come_of(kind, event),
    ensures
        step == step_after(event),
        (match event {
            StartupEvent::Done => step is Continue,
            StartupEvent::ImportMapFailed(error) => step == StartupStep::<X>::Failed(
                StartupError::ImportMap(error),
            ),
            StartupEvent::ModuleLoaderFailed(error) => step == StartupStep::Failed(
                StartupError::Outside(error),
            ),
            StartupEvent::ScriptFailed(error) => step == StartupStep::Panic(error),
            StartupEvent::MainModuleLoaded(id) => step == StartupStep::<X>::Loaded(id),
            StartupEvent::MainModuleFailed(error) => step == StartupStep::Failed(
                StartupError::Outside(error),
            ),
        }),
        step is Loaded ==> kind is MainModule,
        step is Panic ==> kind is Script,
{
    match event {
        StartupEvent::Done => StartupStep::Continue,
        StartupEvent::ImportMapFailed(error) => StartupStep::Failed(StartupError::ImportMap(error)),
        StartupEvent::ModuleLoaderFailed(error) => StartupStep::Failed(StartupError::Outside(error)),
        StartupEvent::ScriptFailed(error) => StartupStep::Panic(error),
        StartupEvent::MainModuleLoaded(id) => StartupStep::Loaded(id),
        StartupEvent::MainModuleFailed(error) => StartupStep::Failed(StartupError::Outside(error)),
    }
}

/// The events can come of the actions, one after the other, up to the end of the startup: an action
/// is carried out only where the event before it leads on.
pub open spec fn is_startup_history<E, R, X>(
    actions: Seq<StartupActionView<E, R>>,
    events: Seq<StartupEvent<X>>,
) -> bool {
    &&& events.len() <= actions.len()
    &&& forall|i: int| 0 <= i < events.len() ==> can_come_of(actions[i].kind(), #[trigger] events[i])
    &&& forall|i: int|
        0 <= i < events.len() - 1 ==> step_after(#[trigger] events[i]) is Continue
}

/// What has become of a startup after the given events.
pub open spec fn startup_outcome<X>(events: Seq<StartupEvent<X>>) -> StartupStep<X> {
    if events.len() == 0 {
        StartupStep::Continue
    } else {
        step_after(events.last())
    }
}

/// A startup whose import map cannot be loaded fails with the error of the import map, as it is.
/// Then nothing has been done but to set up the extensions and to look for the import map: there is
/// no engine and no bootstrap script has run.
pub proof fn law_failed_import_map_fails_the_startup<P, E, R, X>(
    opts: WorkerContextInitOpts<P, E>,
    current_dir: Seq<char>,
    target: Seq<char>,
    receiver: Option<R>,
    sender: Option<E>,
    events: Seq<StartupEvent<X>>,
    error: ImportMapLoadError,
)
    requires
        is_startup_history(
            startup_actions(opts, current_dir, target, receiver, sender),
            events,
        ),
    ensures
        events.contains(StartupEvent::ImportMapFailed(error)) <==> startup_outcome(events)
            == StartupStep::<X>::Failed(StartupError::ImportMap(error)),
        events.contains(StartupEvent::ImportMapFailed(error)) ==> events.len() == 2 && forall|i: int|
            0 <= i < events.len() ==> {
                ||| (#[trigger] startup_actions(opts, current_dir, target, receiver, sender)[i])
                    is InitExtensions
                ||| startup_actions(opts, current_dir, target, receiver, sender)[i] is LoadImportMap
            },
{
    let failed = StartupEvent::<X>::ImportMapFailed(error);
    if events.contains(failed) {
        let i = events.index_of(failed);
        assert(can_come_of(
            startup_actions(opts, current_dir, target, receiver, sender)[i].kind(),
            events[i],
        ));
        assert(i == events.len() - 1);
    } else if events.len() > 0 {
        assert(events.contains(events.last()));
    }
}

/// A startup whose module loader cannot be created fails with that error, as it is, before there is
/// an engine.
pub proof fn law_failed_module_loader_fails_the_startup<P, E, R, X>(
    opts: WorkerContextInitOpts<P, E>,
    current_dir: Seq<char>,
    target: Seq<char>,
    receiver: Option<R>,
    sender: Option<E>,
    events: Seq<StartupEvent<X>>,
    error: X,
)
    requires
        is_startup_history(
            startup_actions(opts, current_dir, target, receiver, sender),
            events,
        ),
        events.contains(StartupEvent::ModuleLoaderFailed(error)),
    ensures
        startup_outcome(events) == StartupStep::Failed(StartupError::Outside(error)),
        events.len() == 3,
        forall|i: int|
            0 <= i < events.len() ==> !((#[trigger] startup_actions(
                opts,
                current_dir,
                target,
                receiver,
                sender,
            )[i]) is CreateEngine),
{
    let i = events.index_of(StartupEvent::ModuleLoaderFailed(error));
    assert(can_come_of(
        startup_actions(opts, current_dir, target, receiver, sender)[i].kind(),
        events[i],
    ));
    assert(i == events.len() - 1);
}

/// A startup whose main module cannot be loaded fails with that error, as it is. Everything else has
/// been done then.
pub proof fn law_failed_main_module_fails_the_startup<P, E, R, X>(
    opts: WorkerContextInitOpts<P, E>,
    current_dir: Seq<char>,
    target: Seq<char>,
    receiver: Option<R>,
    sender: Option<E>,
    events: Seq<StartupEvent<X>>,
    error: X,
)
    requires
        is_startup_history(
            startup_actions(opts, current_dir, target, receiver, sender),
            events,
        ),
        events.contains(StartupEvent::MainModuleFailed(error)),
    ensures
        startup_outcome(events) == StartupStep::Failed(StartupError::Outside(error)),
        events.len() == startup_actions(opts, current_dir, target, receiver, sender).len(),
{
    let i = events.index_of(StartupEvent::MainModuleFailed(error));
    assert(can_come_of(
        startup_actions(opts, current_dir, target, receiver, sender)[i].kind(),
        events[i],
    ));
    assert(i == events.len() - 1);
}

/// A worker is up exactly when every action has been carried out, and its main module has the id
/// that it was loaded with.
pub proof fn law_startup_succeeds_after_all_actions<P, E, R, X>(
    opts: WorkerContextInitOpts<P, E>,
    current_dir: Seq<char>,
    target: Seq<char>,
    receiver: Option<R>,
    sender: Option<E>,
    events: Seq<StartupEvent<X>>,
    id: usize,
)
    requires
        is_startup_history(
            startup_actions(opts, current_dir, target, receiver, sender),
            events,
        ),
    ensures
        startup_outcome(events) == StartupStep::<X>::Loaded(id) <==> {
            &&& events.len() == startup_actions(opts, current_dir, target, receiver, sender).len()
            &&& events.last() == StartupEvent::<X>::MainModuleLoaded(id)
        },
{
    let actions = startup_actions(opts, current_dir, target, receiver, sender);
    if events.len() > 0 {
        let last = events.len() - 1;
        assert(can_come_of(actions[last].kind(), events[last]));
    }
}

/// The only failure that the process gives up over is that of the bootstrap script.
pub proof fn law_only_the_script_is_given_up_over<P, E, R, X>(
    opts: WorkerContextInitOpts<P, E>,
    current_dir: Seq<char>,
    target: Seq<char>,
    receiver: Option<R>,
    sender: Option<E>,
    events: Seq<StartupEvent<X>>,
    error: X,
)
    requires
        is_startup_history(
            startup_actions(opts, current_dir, target, receiver, sender),
            events,
        ),
    ensures
        startup_outcome(events) == StartupStep::Panic(error) <==> events.contains(
            StartupEvent::ScriptFailed(error),
        ),
        events.contains(StartupEvent::ScriptFailed(error)) ==> events.len() == 6,
{
    let failed = StartupEvent::ScriptFailed(error);
    if events.contains(failed) {
        let i = events.index_of(failed);
        assert(can_come_of(
            startup_actions(opts, current_dir, target, receiver, sender)[i].kind(),
            events[i],
        ));
        assert(i == events.len() - 1);
    } else if events.len() > 0 {
        assert(events.contains(events.last()));
    }
}

/// Only an action that can fail in a certain way does, and only the main module ends a startup well.
pub proof fn law_events_come_of_their_actions<X>(
    kind: ActionKind,
    error: X,
    load_error: ImportMapLoadError,
    id: usize,
)
    ensures
        can_come_of(kind, StartupEvent::<X>::Done) <==> kind != ActionKind::MainModule,
        can_come_of(kind, StartupEvent::<X>::ImportMapFailed(load_error)) <==> kind
            == ActionKind::ImportMap,
        can_come_of(kind, StartupEvent::ModuleLoaderFailed(error)) <==> kind
            == ActionKind::ModuleLoader,
        can_come_of(kind, StartupEvent::ScriptFailed(error)) <==> kind == ActionKind::Script,
        can_come_of(kind, StartupEvent::<X>::MainModuleLoaded(id)) <==> kind
            == ActionKind::MainModule,
        can_come_of(kind, StartupEvent::MainModuleFailed(error)) <==> kind
            == ActionKind::MainModule,
{
}

/// Errors are kept apart on their way out: two startups that end alike ended for the same reason.
pub proof fn law_startup_errors_are_kept_apart<X>(a: StartupEvent<X>, b: StartupEvent<X>)
    requires
        step_after(a) == step_after(b),
    ensures
        a == b || (a matches StartupEvent::ModuleLoaderFailed(x)
            && b == StartupEvent::MainModuleFailed(x)) || (
        a matches StartupEvent::MainModuleFailed(x) && b == StartupEvent::ModuleLoaderFailed(x)),
{
}

/// The kind of an action is that of what it does.
pub proof fn law_kinds_of_actions<E, R>(action: StartupActionView<E, R>)
    ensures
        action.kind() == ActionKind::ImportMap <==> action is LoadImportMap,
        action.kind() == ActionKind::ModuleLoader <==> action is CreateModuleLoader,
        action.kind() == ActionKind::Script <==> action is ExecuteScript,
        action.kind() == ActionKind::MainModule <==> action is LoadMainModule,
{
}

} // verus!
