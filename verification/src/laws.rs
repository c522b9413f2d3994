//! What holds across the startup and the run of a worker.

use vstd::prelude::*;

use crate::deno_runtime::{wall_clock_limit, DenoRuntime, RunResource};
use crate::options::{
    is_clone, EventWorkerRuntimeOpts, UserWorkerRuntimeOpts, WorkerContextInitOpts,
    WorkerRuntimeOpts,
};
use crate::run::{
    is_execution, law_larger_limit_adds_no_timeout, law_unlimited_run_takes_its_time, run_outcome,
    run_through, timed_out, untimed, RunState, TimedEvent, WallClockLimit,
};
use crate::startup::{
    bootstrap_call, bytes_of_mib, can_start, event_receiver, has_countable_memory, heap_limits_of,
    is_located, json_object_text, main_module_url_of, startup_actions, startup_problem,
    worker_extensions, RuntimeExtension, RuntimeExtensionView, StartupAction, StartupActionView,
    WorkerContext,
};
use crate::text::bool_literal;
use crate::urls::{directory_url_text, is_absolute, joined_path};

verus! {

/// The stage of the startup that an action belongs to. Extensions and the module loader come
/// before the engine that is made of them, the bootstrap script runs in a fresh engine, the
/// operations get their resources after it, and the main module comes last.
pub open spec fn stage<E, R>(action: StartupActionView<E, R>) -> int {
    match action {
        StartupActionView::InitExtensions(_) => 0,
        StartupActionView::LoadImportMap(_) => 1,
        StartupActionView::CreateModuleLoader { .. } => 2,
        StartupActionView::SetEngineFlags(_) => 3,
        StartupActionView::CreateEngine { .. } => 4,
        StartupActionView::ExecuteScript(_) => 5,
        StartupActionView::PutEnvVars(_) => 6,
        StartupActionView::PutEventReceiver(_) => 7,
        StartupActionView::PutEventSender(_) => 8,
        StartupActionView::LoadMainModule(_) => 9,
    }
}

/// Every startup goes through its stages in order, and through none of them twice.
pub proof fn law_startup_goes_through_its_stages<P, E, R>(
    opts: WorkerContextInitOpts<P, E>,
    current_dir: Seq<char>,
    target: Seq<char>,
    receiver: Option<R>,
    sender: Option<E>,
)
    ensures
        ({
            let actions = startup_actions(opts, current_dir, target, receiver, sender);
            &&& forall|i: int, j: int|
                0 <= i < j < actions.len() ==> stage(#[trigger] actions[i]) < stage(
                    #[trigger] actions[j],
                )
            &&& forall|i: int| 0 <= i <= 6 ==> stage(#[trigger] actions[i]) == i
            &&& actions.len() > 7
            &&& actions.last() is LoadMainModule
        }),
{
}

/// An events worker, and no other, is handed the receiver of worker events. A worker is handed
/// a sender of worker events at startup exactly when its runtime gives one out later, and then
/// it is a user worker.
pub proof fn law_event_handles_go_where_they_belong<J, P, E: Clone, R>(
    opts: WorkerContextInitOpts<P, E>,
    current_dir: Seq<char>,
    target: Seq<char>,
    receiver: Option<R>,
    sender: Option<E>,
    runtime: DenoRuntime<J, P, E>,
)
    requires
        is_clone(opts.conf.events_sender(), sender),
        runtime.wf(),
        runtime.conf == opts.conf,
    ensures
        ({
            let actions = startup_actions(opts, current_dir, target, receiver, sender);
            &&& (exists|i: int|
                0 <= i < actions.len() && #[trigger] actions[i] is PutEventReceiver)
                <==> runtime.is_event_worker
            &&& (exists|i: int| 0 <= i < actions.len() && #[trigger] actions[i] is PutEventSender)
                <==> runtime.events_sender() is Some
            &&& runtime.events_sender() is Some ==> runtime.is_user_runtime
        }),
{
    let actions = startup_actions(opts, current_dir, target, receiver, sender);
    if opts.conf is EventsWorker {
        assert(actions[7] is PutEventReceiver);
    }
    if sender is Some {
        assert(actions[7] is PutEventSender);
    }
}

/// A worker has at most one of the two special kinds.
pub proof fn law_no_user_runtime_is_an_event_worker<J, P, E>(runtime: DenoRuntime<J, P, E>)
    requires
        runtime.wf(),
    ensures
        !(runtime.is_user_runtime && runtime.is_event_worker),
{
}

/// A runtime for a user's function, and no other, is limited in its memory and in its time.
pub proof fn law_only_user_runtimes_are_limited<J, P, E>(
    runtime: DenoRuntime<J, P, E>,
    limit_ms: u64,
)
    requires
        runtime.wf(),
    ensures
        heap_limits_of(runtime.conf) is Some <==> runtime.is_user_runtime,
        wall_clock_limit(runtime.is_user_runtime, limit_ms) == WallClockLimit::Millis(limit_ms)
            <==> runtime.is_user_runtime,
{
}

/// The limit that a main worker or an events worker is run with changes nothing: every limit
/// gives the outcome that the execution comes to by itself, however long it takes.
pub proof fn law_limits_change_nothing_for_other_workers<J, P, E, X>(
    runtime: DenoRuntime<J, P, E>,
    a: u64,
    b: u64,
    events: Seq<TimedEvent<X>>,
)
    requires
        !runtime.is_user_runtime,
        is_execution(RunState::EventLoop, events),
    ensures
        ({
            let outcome = run_outcome(wall_clock_limit(runtime.is_user_runtime, a), events);
            &&& outcome == run_outcome(wall_clock_limit(runtime.is_user_runtime, b), events)
            &&& outcome == run_through(RunState::EventLoop, untimed(events))
            &&& outcome != timed_out::<X>()
        }),
{
    law_unlimited_run_takes_its_time(events);
}

/// A user runtime that is run with a larger limit times out only where it would have timed out
/// with the smaller one, and otherwise comes to the same result.
pub proof fn law_larger_limits_add_no_timeout_for_users<J, P, E, X>(
    runtime: DenoRuntime<J, P, E>,
    a: u64,
    b: u64,
    events: Seq<TimedEvent<X>>,
)
    requires
        runtime.is_user_runtime,
        a <= b,
        is_execution(RunState::EventLoop, events),
    ensures
        ({
            let within_a = run_outcome(wall_clock_limit(runtime.is_user_runtime, a), events);
            let within_b = run_outcome(wall_clock_limit(runtime.is_user_runtime, b), events);
            &&& within_a != timed_out::<X>() ==> within_b == within_a
            &&& within_b == timed_out::<X>() ==> within_a == timed_out::<X>()
        }),
{
    law_larger_limit_adds_no_timeout(a, b, events);
}

/// The main worker, and no other, can send requests to the worker pool.
pub proof fn law_only_the_main_worker_reaches_the_pool<J, P, E, S>(
    runtime: DenoRuntime<J, P, E>,
    unix_stream_rx: S,
)
    requires
        runtime.wf(),
    ensures
        (exists|i: int|
            0 <= i < runtime.run_resources(unix_stream_rx).len() && #[trigger] runtime.run_resources(
                unix_stream_rx,
            )[i] is WorkerPoolSender) <==> runtime.conf is MainWorker,
        runtime.conf is MainWorker <==> !runtime.is_user_runtime && !runtime.is_event_worker,
{
    if runtime.conf is MainWorker {
        assert(runtime.run_resources(unix_stream_rx)[1] is WorkerPoolSender);
    }
}

/// The bootstrap script tells the kinds of workers apart.
pub proof fn law_bootstrap_scripts_differ(
    options: Seq<char>,
    user_a: bool,
    event_a: bool,
    user_b: bool,
    event_b: bool,
)
    requires
        bootstrap_call(options, user_a, event_a) == bootstrap_call(options, user_b, event_b),
    ensures
        user_a == user_b,
        event_a == event_b,
{
    reveal_strlit("true");
    reveal_strlit("false");
    let at = "globalThis.bootstrapSBEdge("@.len() + options.len() + ", "@.len();
    let script_a = bootstrap_call(options, user_a, event_a);
    let script_b = bootstrap_call(options, user_b, event_b);
    assert(script_a[at as int] == bool_literal(user_a)[0]);
    assert(script_b[at as int] == bool_literal(user_b)[0]);
    assert(user_a == user_b);
    let next = at + bool_literal(user_a).len() + ", "@.len();
    assert(script_a[next as int] == bool_literal(event_a)[0]);
    assert(script_b[next as int] == bool_literal(event_b)[0]);
}

/// Every worker, of whatever kind, is handed its environment variables, once and all of them: the
/// startup has exactly one action that hands variables over, and its map is that of the options.
pub proof fn law_every_worker_gets_its_environment<P, E, R>(
    opts: WorkerContextInitOpts<P, E>,
    current_dir: Seq<char>,
    target: Seq<char>,
    receiver: Option<R>,
    sender: Option<E>,
)
    ensures
        ({
            let actions = startup_actions(opts, current_dir, target, receiver, sender);
            &&& exists|i: int|
                0 <= i < actions.len() && #[trigger] actions[i] == StartupActionView::<
                    E,
                    R,
                >::PutEnvVars(opts.env_vars@)
            &&& forall|i: int, j: int|
                0 <= i < actions.len() && 0 <= j < actions.len() && #[trigger] actions[i] is PutEnvVars
                    && #[trigger] actions[j] is PutEnvVars ==> i == j
            &&& forall|i: int|
                0 <= i < actions.len() ==> (
                #[trigger] actions[i] matches StartupActionView::PutEnvVars(env_vars) ==> env_vars
                    == opts.env_vars@)
        }),
{
    let actions = startup_actions(opts, current_dir, target, receiver, sender);
    assert(actions[6] == StartupActionView::<E, R>::PutEnvVars(opts.env_vars@));
}

/// Every startup carries out what the options say: the import map that is configured, the module
/// cache that is asked for, and the main module of the service, which the core extension knows too.
pub proof fn law_startup_follows_the_options<P, E, R>(
    opts: WorkerContextInitOpts<P, E>,
    current_dir: Seq<char>,
    target: Seq<char>,
    receiver: Option<R>,
    sender: Option<E>,
)
    ensures
        ({
            let actions = startup_actions(opts, current_dir, target, receiver, sender);
            let url = directory_url_text(joined_path(current_dir, opts.service_path@))->0
                + "index.ts"@;
            &&& actions[0] == StartupActionView::<E, R>::InitExtensions(worker_extensions(url))
            &&& opts.import_map_path is None ==> actions[1] == StartupActionView::<
                E,
                R,
            >::LoadImportMap(None)
            &&& opts.import_map_path matches Some(path) ==> actions[1] == StartupActionView::<
                E,
                R,
            >::LoadImportMap(Some(path@))
            &&& actions[2] == (StartupActionView::<E, R>::CreateModuleLoader {
                no_module_cache: opts.no_module_cache,
            })
            &&& actions[3] == StartupActionView::<E, R>::SetEngineFlags(seq!["IGNORED"@])
            &&& actions.last() == StartupActionView::<E, R>::LoadMainModule(url)
        }),
{
}

/// The heap limits that a startup creates the engine with are those of the worker's memory, and the
/// script that it runs tells the engine what kind of worker it is.
pub proof fn law_engine_is_made_for_the_worker<P, E, R>(
    opts: WorkerContextInitOpts<P, E>,
    current_dir: Seq<char>,
    target: Seq<char>,
    receiver: Option<R>,
    sender: Option<E>,
)
    ensures
        ({
            let actions = startup_actions(opts, current_dir, target, receiver, sender);
            let call = "globalThis.bootstrapSBEdge("@ + json_object_text("target"@, target);
            &&& actions[4] matches StartupActionView::CreateEngine { heap_limits } && (
            match opts.conf {
                WorkerRuntimeOpts::UserWorker(user_opts) => {
                    &&& heap_limits is Some
                    &&& heap_limits->0.initial == 0
                    &&& user_opts.memory_limit_mb * 1048576 <= usize::MAX ==> heap_limits->0.max
                        == user_opts.memory_limit_mb * 1048576
                },
                _ => heap_limits is None,
            })
            &&& actions[5] == StartupActionView::<E, R>::ExecuteScript(
                match opts.conf {
                    WorkerRuntimeOpts::UserWorker(_) => call + ", "@ + "true"@ + ", "@ + "false"@
                        + ")"@,
                    WorkerRuntimeOpts::MainWorker(_) => call + ", "@ + "false"@ + ", "@ + "false"@
                        + ")"@,
                    WorkerRuntimeOpts::EventsWorker => call + ", "@ + "false"@ + ", "@ + "true"@
                        + ")"@,
                },
            )
        }),
{
}

/// What is handed over about events is what was given: the receiver of the options to an events
/// worker, and the sender to a user worker.
pub proof fn law_event_handles_are_those_given<P, E, R>(
    opts: WorkerContextInitOpts<P, E>,
    current_dir: Seq<char>,
    target: Seq<char>,
    receiver: Option<R>,
    sender: Option<E>,
)
    requires
        opts.conf is EventsWorker ==> receiver is Some,
    ensures
        ({
            let actions = startup_actions(opts, current_dir, target, receiver, sender);
            forall|i: int|
                0 <= i < actions.len() ==> {
                    &&& #[trigger] actions[i] matches StartupActionView::PutEventReceiver(rx)
                        ==> receiver == Some(rx)
                    &&& actions[i] matches StartupActionView::PutEventSender(tx) ==> sender == Some(
                        tx,
                    )
                }
        }),
{
}

/// The receiver that a startup gets is the one in the options.
pub proof fn law_event_receiver_is_that_of_the_options<R>(opts: EventWorkerRuntimeOpts<R>)
    ensures
        event_receiver(Some(opts)) == Some(opts.event_rx),
        event_receiver::<R>(None) == None::<R>,
{
}

/// A startup action is known by what it holds.
pub proof fn law_actions_are_known_by_what_they_hold<E, R>(action: StartupAction<E, R>)
    ensures
        (match action {
            StartupAction::InitExtensions(list) => {
                &&& action@ matches StartupActionView::InitExtensions(views)
                &&& views.len() == list@.len()
                &&& forall|i: int| 0 <= i < views.len() ==> #[trigger] views[i] == list@[i]@
            },
            StartupAction::LoadImportMap(Some(path)) => action@ == StartupActionView::<
                E,
                R,
            >::LoadImportMap(Some(path@)),
            StartupAction::LoadImportMap(None) => action@ == StartupActionView::<
                E,
                R,
            >::LoadImportMap(None),
            StartupAction::CreateModuleLoader { no_module_cache } => action@ == (StartupActionView::<
                E,
                R,
            >::CreateModuleLoader { no_module_cache }),
            StartupAction::SetEngineFlags(flags) => {
                &&& action@ matches StartupActionView::SetEngineFlags(views)
                &&& views.len() == flags@.len()
                &&& forall|i: int| 0 <= i < views.len() ==> #[trigger] views[i] == flags@[i]@
            },
            StartupAction::CreateEngine { heap_limits } => action@ == (StartupActionView::<
                E,
                R,
            >::CreateEngine { heap_limits }),
            StartupAction::ExecuteScript(script) => action@ == StartupActionView::<
                E,
                R,
            >::ExecuteScript(script@),
            StartupAction::PutEnvVars(env_vars) => action@ == StartupActionView::<E, R>::PutEnvVars(
                env_vars@,
            ),
            StartupAction::PutEventReceiver(receiver) => action@ == StartupActionView::<
                E,
                R,
            >::PutEventReceiver(receiver),
            StartupAction::PutEventSender(sender) => action@ == StartupActionView::<
                E,
                R,
            >::PutEventSender(sender),
            StartupAction::LoadMainModule(url) => action@ == StartupActionView::<
                E,
                R,
            >::LoadMainModule(url@),
        }),
{
}

/// A user worker may use exactly the memory that its limit says, in mebibytes, from nothing up.
pub proof fn law_memory_limit_is_the_heap_limit<P, E>(opts: UserWorkerRuntimeOpts<P, E>)
    requires
        opts.memory_limit_mb * 1048576 <= usize::MAX,
    ensures
        heap_limits_of(WorkerRuntimeOpts::<P, E>::UserWorker(opts)) matches Some(limits)
            && limits.initial == 0 && limits.max == opts.memory_limit_mb * 1048576,
{
}

/// More memory in the options is more memory in the heap: each mebibyte counts, at every limit.
pub proof fn law_heap_grows_with_the_memory_limit<P, E>(
    a: UserWorkerRuntimeOpts<P, E>,
    b: UserWorkerRuntimeOpts<P, E>,
)
    requires
        a.memory_limit_mb * 1048576 <= usize::MAX,
        b.memory_limit_mb * 1048576 <= usize::MAX,
    ensures
        ({
            let heap_a = heap_limits_of(WorkerRuntimeOpts::<P, E>::UserWorker(a))->0.max;
            let heap_b = heap_limits_of(WorkerRuntimeOpts::<P, E>::UserWorker(b))->0.max;
            &&& a.memory_limit_mb < b.memory_limit_mb <==> heap_a < heap_b
            &&& heap_b - heap_a == (b.memory_limit_mb - a.memory_limit_mb) * 1048576
        }),
{
}

/// A mebibyte is 1048576 bytes, and the memory of a worker can be told in bytes exactly when that
/// many bytes can be counted.
pub proof fn law_memory_is_counted_in_bytes<P, E>(conf: WorkerRuntimeOpts<P, E>, mib: u64)
    ensures
        bytes_of_mib(mib) == mib * 1048576,
        has_countable_memory(conf) <==> (conf matches WorkerRuntimeOpts::UserWorker(opts)
            ==> opts.memory_limit_mb * 1048576 <= u64::MAX),
{
}

/// Where an extension has its place among the extensions of a worker.
pub open spec fn place_of(extension: RuntimeExtensionView) -> int {
    match extension {
        RuntimeExtensionView::Permissions => 0,
        RuntimeExtensionView::WebIdl => 1,
        RuntimeExtensionView::Console => 2,
        RuntimeExtensionView::Url => 3,
        RuntimeExtensionView::Web => 4,
        RuntimeExtensionView::Fetch { .. } => 5,
        RuntimeExtensionView::WebSocket { .. } => 6,
        RuntimeExtensionView::Crypto { .. } => 7,
        RuntimeExtensionView::Net { .. } => 8,
        RuntimeExtensionView::Tls => 9,
        RuntimeExtensionView::Http => 10,
        RuntimeExtensionView::Io => 11,
        RuntimeExtensionView::Fs { .. } => 12,
        RuntimeExtensionView::Env => 13,
        RuntimeExtensionView::Os => 14,
        RuntimeExtensionView::UserWorkers => 15,
        RuntimeExtensionView::UserEventWorker => 16,
        RuntimeExtensionView::CoreMain => 17,
        RuntimeExtensionView::CoreNet => 18,
        RuntimeExtensionView::CoreHttp => 19,
        RuntimeExtensionView::CoreRuntime { .. } => 20,
    }
}

/// Every kind of extension is there, once, and in its place. No kind is left out, whichever it is,
/// and no two extensions are of one kind.
pub proof fn law_every_extension_is_there_once(
    main_module_url: Seq<char>,
    extension: RuntimeExtensionView,
)
    ensures
        ({
            let extensions = worker_extensions(main_module_url);
            &&& extensions.len() == 21
            &&& forall|i: int| 0 <= i < extensions.len() ==> place_of(#[trigger] extensions[i]) == i
            &&& 0 <= place_of(extension) < extensions.len()
            &&& place_of(extensions[place_of(extension)]) == place_of(extension)
            &&& forall|i: int, j: int|
                0 <= i < j < extensions.len() ==> place_of(#[trigger] extensions[i]) != place_of(
                    #[trigger] extensions[j],
                )
            &&& extensions[0] is Permissions && extensions[1] is WebIdl && extensions[2] is Console
            &&& extensions[3] is Url && extensions[4] is Web && extensions[5] is Fetch
            &&& extensions[6] is WebSocket && extensions[7] is Crypto && extensions[8] is Net
            &&& extensions[9] is Tls && extensions[10] is Http && extensions[11] is Io
            &&& extensions[12] is Fs && extensions[13] is Env && extensions[14] is Os
            &&& extensions[15] is UserWorkers && extensions[16] is UserEventWorker
            &&& extensions[17] is CoreMain && extensions[18] is CoreNet && extensions[19] is CoreHttp
            &&& extensions[20] is CoreRuntime
        }),
{
}

/// Nothing unstable is on, nothing is seeded, the runtime names itself alike wherever it talks to a
/// server, and only the core extension depends on the main module.
pub proof fn law_extensions_have_their_settings(a: Seq<char>, b: Seq<char>, i: int)
    requires
        0 <= i < worker_extensions(a).len(),
    ensures
        (match worker_extensions(a)[i] {
            RuntimeExtensionView::Fetch { user_agent } => user_agent == "supabase-edge-runtime"@,
            RuntimeExtensionView::WebSocket { user_agent } => user_agent == "supabase-edge-runtime"@,
            RuntimeExtensionView::Crypto { seed } => seed is None,
            RuntimeExtensionView::Net { unstable } => !unstable,
            RuntimeExtensionView::Fs { unstable } => !unstable,
            RuntimeExtensionView::CoreRuntime { main_module_url } => main_module_url == a,
            _ => worker_extensions(a)[i] == worker_extensions(b)[i],
        }),
        !(worker_extensions(a)[i] is CoreRuntime) ==> worker_extensions(a)[i]
            == worker_extensions(b)[i],
{
}

/// An extension is known by its kind and its settings.
pub proof fn law_extensions_are_known_by_their_settings(extension: RuntimeExtension)
    ensures
        (match extension {
            RuntimeExtension::Permissions => extension@ is Permissions,
            RuntimeExtension::WebIdl => extension@ is WebIdl,
            RuntimeExtension::Console => extension@ is Console,
            RuntimeExtension::Url => extension@ is Url,
            RuntimeExtension::Web => extension@ is Web,
            RuntimeExtension::Fetch { user_agent } => extension@ == (RuntimeExtensionView::Fetch {
                user_agent: user_agent@,
            }),
            RuntimeExtension::WebSocket { user_agent } => extension@
                == (RuntimeExtensionView::WebSocket { user_agent: user_agent@ }),
            RuntimeExtension::Crypto { seed } => extension@ == (RuntimeExtensionView::Crypto { seed }),
            RuntimeExtension::Net { unstable } => extension@ == (RuntimeExtensionView::Net {
                unstable,
            }),
            RuntimeExtension::Tls => extension@ is Tls,
            RuntimeExtension::Http => extension@ is Http,
            RuntimeExtension::Io => extension@ is Io,
            RuntimeExtension::Fs { unstable } => extension@ == (RuntimeExtensionView::Fs { unstable }),
            RuntimeExtension::Env => extension@ is Env,
            RuntimeExtension::Os => extension@ is Os,
            RuntimeExtension::UserWorkers => extension@ is UserWorkers,
            RuntimeExtension::UserEventWorker => extension@ is UserEventWorker,
            RuntimeExtension::CoreMain => extension@ is CoreMain,
            RuntimeExtension::CoreNet => extension@ is CoreNet,
            RuntimeExtension::CoreHttp => extension@ is CoreHttp,
            RuntimeExtension::CoreRuntime { main_module_url } => extension@
                == (RuntimeExtensionView::CoreRuntime { main_module_url: main_module_url@ }),
        }),
{
}

/// The main module is the file `index.ts` in the directory of the service, whatever characters the
/// two paths are made of. Services have one main module where they are one directory, and a working
/// directory counts wherever the service path is relative.
pub proof fn law_main_module_lies_in_the_service_directory(
    current_dir: Seq<char>,
    service_path: Seq<char>,
    other_dir: Seq<char>,
    other_path: Seq<char>,
)
    ensures
        main_module_url_of(current_dir, service_path) == directory_url_text(
            joined_path(current_dir, service_path),
        )->0 + "index.ts"@,
        is_absolute(service_path) ==> main_module_url_of(current_dir, service_path)
            == main_module_url_of(other_dir, service_path),
        directory_url_text(joined_path(current_dir, service_path))->0 == directory_url_text(
            joined_path(other_dir, other_path),
        )->0 <==> main_module_url_of(current_dir, service_path) == main_module_url_of(
            other_dir,
            other_path,
        ),
{
    let a = directory_url_text(joined_path(current_dir, service_path))->0;
    let b = directory_url_text(joined_path(other_dir, other_path))->0;
    if a + "index.ts"@ == b + "index.ts"@ {
        assert(a.len() == (a + "index.ts"@).len() - "index.ts"@.len());
        assert(a =~= (a + "index.ts"@).take(a.len() as int));
        assert(b =~= (b + "index.ts"@).take(b.len() as int));
    }
}

/// A worker can be brought up exactly when there is no problem, and each problem has its own cause.
pub proof fn law_startup_problems_have_their_causes<P, E, R>(
    opts: WorkerContextInitOpts<P, E>,
    event_manager_opts: Option<EventWorkerRuntimeOpts<R>>,
    current_dir: Seq<char>,
)
    ensures
        is_located(current_dir, opts.service_path@) <==> is_absolute(
            joined_path(current_dir, opts.service_path@),
        ),
        can_start(opts, event_manager_opts, current_dir) <==> startup_problem(
            opts,
            event_manager_opts,
            current_dir,
        ) is None,
        can_start(opts, event_manager_opts, current_dir) <==> {
            &&& is_absolute(current_dir) || is_absolute(opts.service_path@)
            &&& opts.conf matches WorkerRuntimeOpts::UserWorker(user_opts)
                ==> user_opts.memory_limit_mb * 1048576 <= u64::MAX
            &&& opts.conf is EventsWorker ==> event_manager_opts is Some
        },
{
    reveal_strlit("/");
}

/// The flags of a worker are those of its kind, before and after it is brought up.
pub proof fn law_flags_tell_the_kind<J, P, E>(
    context: WorkerContext<P, E>,
    runtime: DenoRuntime<J, P, E>,
)
    ensures
        context.wf() <==> {
            &&& context.is_user_runtime <==> context.conf is UserWorker
            &&& context.is_event_worker <==> context.conf is EventsWorker
        },
        runtime.wf() <==> {
            &&& runtime.is_user_runtime <==> runtime.conf is UserWorker
            &&& runtime.is_event_worker <==> runtime.conf is EventsWorker
        },
{
}

/// A runtime gives out the sender of its options where it runs a user's function, and none elsewhere.
pub proof fn law_runtime_sends_events_where_its_options_say<J, P, E>(runtime: DenoRuntime<J, P, E>)
    ensures
        (match runtime.conf {
            WorkerRuntimeOpts::UserWorker(opts) if runtime.is_user_runtime => runtime.events_sender()
                == opts.events_msg_tx,
            _ => runtime.events_sender() is None,
        }),
{
}

/// A run is handed the connections that it is to serve first, and the main worker is handed the
/// sender of its options; nothing else is handed over.
pub proof fn law_run_is_handed_its_resources<J, P, E, S>(
    runtime: DenoRuntime<J, P, E>,
    unix_stream_rx: S,
)
    requires
        runtime.wf(),
    ensures
        ({
            let resources = runtime.run_resources(unix_stream_rx);
            &&& resources[0] == RunResource::<S, P>::UnixStreamReceiver(unix_stream_rx)
            &&& runtime.conf matches WorkerRuntimeOpts::MainWorker(opts) ==> resources.len() == 2
                && resources[1] == RunResource::<S, P>::WorkerPoolSender(opts.worker_pool_tx)
            &&& !(runtime.conf is MainWorker) ==> resources.len() == 1
        }),
{
}

/// A user's function is limited by exactly the time that it is given, and other workers by none.
pub proof fn law_user_runs_are_limited_as_asked(is_user_runtime: bool, limit_ms: u64)
    ensures
        is_user_runtime ==> wall_clock_limit(is_user_runtime, limit_ms) == WallClockLimit::Millis(
            limit_ms,
        ),
        !is_user_runtime ==> wall_clock_limit(is_user_runtime, limit_ms)
            == WallClockLimit::Unlimited,
{
}

/// The bootstrap script is one call, with the options as they are and the two flags after them.
pub proof fn law_bootstrap_script_is_one_call(options: Seq<char>, user: bool, event: bool)
    ensures
        bootstrap_call(options, user, event) == "globalThis.bootstrapSBEdge("@ + options + ", "@ + (
        if user {
            "true"@
        } else {
            "false"@
        }) + ", "@ + (if event {
            "true"@
        } else {
            "false"@
        }) + ")"@,
{
}

} // verus!
