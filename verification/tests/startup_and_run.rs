use edge_runtime::deno_runtime::{DenoRuntime, RunResource};
use edge_runtime::import_maps::load_import_map;
use edge_runtime::options::{
    EventWorkerRuntimeOpts, MainWorkerRuntimeOpts, UserWorkerRuntimeOpts, WorkerContextInitOpts,
    WorkerRuntimeOpts,
};
use edge_runtime::run::{
    run_step, ModuleOutcome, RunError, RunEvent, RunState, RunStep, WallClockLimit,
};
use edge_runtime::startup::{
    bootstrap_script, find_startup_problem, heap_limits, list_extensions, main_module_url,
    mib_to_bytes, plan_startup, worker_bootstrap_script, HeapLimits, RuntimeExtension, Startup,
    StartupAction, StartupProblem,
};
use edge_runtime::startup_steps::{
    startup_step, ActionKind, StartupError, StartupEvent, StartupStep,
};
use std::collections::HashMap;
use std::time::Duration;
use tokio::sync::mpsc::{unbounded_channel, UnboundedSender};

type Conf = WorkerRuntimeOpts<UnboundedSender<u8>, UnboundedSender<String>>;

fn user(memory_limit_mb: u64, events_msg_tx: Option<UnboundedSender<String>>) -> Conf {
    WorkerRuntimeOpts::UserWorker(UserWorkerRuntimeOpts {
        memory_limit_mb,
        worker_timeout_ms: 1000,
        force_create: true,
        key: None,
        pool_msg_tx: None,
        events_msg_tx,
    })
}

fn main_worker() -> Conf {
    let (worker_pool_tx, _) = unbounded_channel::<u8>();
    WorkerRuntimeOpts::MainWorker(MainWorkerRuntimeOpts { worker_pool_tx })
}

fn start(conf: Conf) -> Startup<UnboundedSender<u8>, UnboundedSender<String>, &'static str> {
    let mut env_vars = HashMap::new();
    env_vars.insert("Supa_Test".to_string(), "Supa_Value".to_string());
    let opts = WorkerContextInitOpts {
        service_path: "./test_cases/main".to_string(),
        no_module_cache: true,
        import_map_path: Some("map.json".to_string()),
        env_vars,
        conf,
    };
    let events = EventWorkerRuntimeOpts { event_rx: "events" };
    plan_startup(opts, Some(events), "/srv", "x86_64-unknown-linux-gnu")
}

fn names<E, R>(actions: &[StartupAction<E, R>]) -> Vec<&'static str> {
    actions
        .iter()
        .map(|action| match action {
            StartupAction::InitExtensions(_) => "extensions",
            StartupAction::LoadImportMap(_) => "import map",
            StartupAction::CreateModuleLoader { .. } => "module loader",
            StartupAction::SetEngineFlags(_) => "flags",
            StartupAction::CreateEngine { .. } => "engine",
            StartupAction::ExecuteScript(_) => "script",
            StartupAction::PutEnvVars(_) => "env vars",
            StartupAction::PutEventReceiver(_) => "event receiver",
            StartupAction::PutEventSender(_) => "event sender",
            StartupAction::LoadMainModule(_) => "main module",
        })
        .collect()
}

const COMMON: [&str; 7] =
    ["extensions", "import map", "module loader", "flags", "engine", "script", "env vars"];

#[test]
fn main_worker_starts_in_order() {
    let startup = start(main_worker());
    let mut expected = COMMON.to_vec();
    expected.push("main module");
    assert_eq!(names(&startup.actions), expected);
    assert!(!startup.context.is_user_runtime);
    assert!(!startup.context.is_event_worker);
    assert_eq!(startup.context.env_vars.get("Supa_Test").map(String::as_str), Some("Supa_Value"));
    assert!(matches!(&startup.actions[1], StartupAction::LoadImportMap(Some(p)) if p == "map.json"));
    assert!(matches!(
        &startup.actions[2],
        StartupAction::CreateModuleLoader { no_module_cache: true }
    ));
    assert!(matches!(&startup.actions[3], StartupAction::SetEngineFlags(f) if f == &["IGNORED"]));
    assert!(matches!(&startup.actions[4], StartupAction::CreateEngine { heap_limits: None }));
    assert!(matches!(
        &startup.actions[5],
        StartupAction::ExecuteScript(s)
            if s == "globalThis.bootstrapSBEdge({\"target\":\"x86_64-unknown-linux-gnu\"}, false, false)"
    ));
    assert!(matches!(&startup.actions[6], StartupAction::PutEnvVars(v) if v.len() == 1));
    assert!(matches!(
        &startup.actions[7],
        StartupAction::LoadMainModule(u) if u == "file:///srv/test_cases/main/index.ts"
    ));
}

#[test]
fn user_worker_is_handed_its_event_sender() {
    let (tx, _rx) = unbounded_channel::<String>();
    let startup = start(user(5, Some(tx.clone())));
    let mut expected = COMMON.to_vec();
    expected.push("event sender");
    expected.push("main module");
    assert_eq!(names(&startup.actions), expected);
    assert!(startup.context.is_user_runtime);
    assert!(!startup.context.is_event_worker);
    assert!(matches!(
        &startup.actions[4],
        StartupAction::CreateEngine { heap_limits: Some(HeapLimits { initial: 0, max: 5242880 }) }
    ));
    assert!(matches!(&startup.actions[7], StartupAction::PutEventSender(s) if s.same_channel(&tx)));
    assert!(matches!(
        &startup.actions[5],
        StartupAction::ExecuteScript(s) if s.ends_with("}, true, false)")
    ));
    let runtime = DenoRuntime::new(startup.context, "engine", 7);
    assert!(runtime.event_sender().unwrap().same_channel(&tx));
}

#[test]
fn user_worker_without_a_sender_gives_none_out() {
    let startup = start(user(5, None));
    let mut expected = COMMON.to_vec();
    expected.push("main module");
    assert_eq!(names(&startup.actions), expected);
    assert!(DenoRuntime::new(startup.context, (), 0).event_sender().is_none());
}

#[test]
fn events_worker_is_handed_its_receiver() {
    let startup = start(WorkerRuntimeOpts::EventsWorker);
    let mut expected = COMMON.to_vec();
    expected.push("event receiver");
    expected.push("main module");
    assert_eq!(names(&startup.actions), expected);
    assert!(matches!(&startup.actions[7], StartupAction::PutEventReceiver("events")));
    assert!(matches!(
        &startup.actions[5],
        StartupAction::ExecuteScript(s) if s.ends_with("}, false, true)")
    ));
    let runtime = DenoRuntime::new(startup.context, (), 0);
    assert!(runtime.is_event_worker);
    assert!(!runtime.is_user_runtime);
    assert!(runtime.event_sender().is_none());
}

#[test]
fn sender_is_withheld_where_the_flag_says_so() {
    let (tx, _rx) = unbounded_channel::<String>();
    let mut runtime = DenoRuntime::new(start(user(5, Some(tx))).context, (), 0);
    runtime.is_user_runtime = false;
    assert!(runtime.event_sender().is_none());
    runtime.is_user_runtime = true;
    runtime.conf = WorkerRuntimeOpts::EventsWorker;
    assert!(runtime.event_sender().is_none());
}

#[test]
fn run_of_the_main_worker_reaches_the_pool() {
    let (worker_pool_tx, _rx) = unbounded_channel::<u8>();
    let pool = worker_pool_tx.clone();
    let conf = WorkerRuntimeOpts::MainWorker(MainWorkerRuntimeOpts { worker_pool_tx });
    let plan = DenoRuntime::new(start(conf).context, "engine", 3).run("streams", 1000);
    assert_eq!((plan.js_runtime, plan.main_module_id), ("engine", 3));
    assert_eq!(plan.limit, WallClockLimit::Unlimited);
    assert_eq!(plan.resources.len(), 2);
    assert!(matches!(&plan.resources[0], RunResource::UnixStreamReceiver("streams")));
    assert!(matches!(&plan.resources[1], RunResource::WorkerPoolSender(tx) if tx.same_channel(&pool)));
}

#[test]
fn run_of_a_user_worker_is_limited() {
    let plan = DenoRuntime::new(start(user(5, None)).context, (), 0).run((), 6_000_000);
    assert_eq!(plan.limit, WallClockLimit::Millis(6_000_000));
    assert_eq!(plan.resources.len(), 1);
    let plan = DenoRuntime::new(start(WorkerRuntimeOpts::EventsWorker).context, (), 0).run((), 1);
    assert_eq!(plan.limit, WallClockLimit::Unlimited);
    assert_eq!(plan.resources.len(), 1);
}

#[test]
fn limits_change_nothing_for_other_workers() {
    for limit_ms in [0, 1, u64::MAX] {
        let context = start(WorkerRuntimeOpts::EventsWorker).context;
        let plan = DenoRuntime::new(context, (), 0).run((), limit_ms);
        assert_eq!(plan.limit, WallClockLimit::Unlimited);
        let plan = DenoRuntime::new(start(main_worker()).context, (), 0).run((), limit_ms);
        assert_eq!(plan.limit, WallClockLimit::Unlimited);
    }
}

const LIMIT: WallClockLimit = WallClockLimit::Millis(1000);

/// Runs a worker whose event loop comes to rest after `loop_ms` and whose module then succeeds.
fn run_for(limit: WallClockLimit, loop_ms: u64) -> Result<(), String> {
    let work = async move {
        tokio::time::sleep(Duration::from_millis(loop_ms)).await;
        let rest = run_step::<&str>(limit, RunState::EventLoop, RunEvent::EventLoopReturned(Ok(())));
        assert!(matches!(rest, RunStep::Await(RunState::ModuleResult)));
        let done = RunEvent::ModuleSettled(ModuleOutcome::Succeeded);
        finish(run_step(limit, RunState::ModuleResult, done))
    };
    let runtime = tokio::runtime::Builder::new_current_thread().enable_time().build().unwrap();
    runtime.block_on(async move {
        match limit {
            WallClockLimit::Unlimited => work.await,
            WallClockLimit::Millis(millis) => {
                match tokio::time::timeout(Duration::from_millis(millis), work).await {
                    Ok(result) => result,
                    Err(_) => finish(run_step(limit, RunState::EventLoop, RunEvent::WallClockElapsed)),
                }
            }
        }
    })
}

#[test]
fn larger_limit_adds_no_timeout() {
    let reached = Err("wall clock duration reached".to_string());
    assert_eq!(run_for(WallClockLimit::Millis(10), 500), reached);
    assert_eq!(run_for(WallClockLimit::Millis(20), 500), reached);
    assert_eq!(run_for(WallClockLimit::Millis(5000), 50), Ok(()));
    assert_eq!(run_for(WallClockLimit::Millis(60_000), 50), Ok(()));
    assert_eq!(run_for(WallClockLimit::Unlimited, 50), Ok(()));
    assert_eq!(run_for(WallClockLimit::Millis(0), 100), reached);
}

fn finish(step: RunStep<&'static str>) -> Result<(), String> {
    match step {
        RunStep::Await(_) => panic!("the run goes on"),
        RunStep::Finished(Ok(())) => Ok(()),
        RunStep::Finished(Err(RunError::Message(text))) => Err(text),
        RunStep::Finished(Err(RunError::Module(error))) => Err(format!("module: {}", error)),
    }
}

#[test]
fn run_waits_for_the_loop_and_then_for_the_module() {
    let step = run_step::<&str>(LIMIT, RunState::EventLoop, RunEvent::EventLoopReturned(Ok(())));
    assert!(matches!(step, RunStep::Await(RunState::ModuleResult)));
    let done = RunEvent::ModuleSettled(ModuleOutcome::Succeeded);
    assert_eq!(finish(run_step(LIMIT, RunState::ModuleResult, done)), Ok(()));
}

#[test]
fn run_fails_with_the_message_of_its_cause() {
    let failed = RunEvent::EventLoopReturned(Err("execution terminated".to_string()));
    assert_eq!(
        finish(run_step(LIMIT, RunState::EventLoop, failed)),
        Err("event loop error: execution terminated".to_string())
    );
    let dropped = RunEvent::ModuleSettled(ModuleOutcome::SenderDropped);
    assert_eq!(
        finish(run_step(LIMIT, RunState::ModuleResult, dropped)),
        Err("mod result sender dropped".to_string())
    );
    let module = RunEvent::ModuleSettled(ModuleOutcome::Failed("TypeError"));
    assert_eq!(
        finish(run_step(LIMIT, RunState::ModuleResult, module)),
        Err("module: TypeError".to_string())
    );
    for state in [RunState::EventLoop, RunState::ModuleResult] {
        assert_eq!(
            finish(run_step(LIMIT, state, RunEvent::WallClockElapsed)),
            Err("wall clock duration reached".to_string())
        );
    }
}

#[test]
fn options_are_kept_whole() {
    let runtime = DenoRuntime::new(start(user(5, None)).context, (), 0);
    match runtime.conf {
        WorkerRuntimeOpts::UserWorker(opts) => {
            assert_eq!((opts.memory_limit_mb, opts.worker_timeout_ms), (5, 1000));
            assert!(opts.force_create && opts.key.is_none() && opts.pool_msg_tx.is_none());
        }
        _ => panic!("a user worker"),
    }
}

#[test]
fn startup_conditions_are_told_apart() {
    let problem = |conf: Conf, receiver: Option<&'static str>, dir: &str, path: &str| {
        let opts = WorkerContextInitOpts {
            service_path: path.to_string(),
            no_module_cache: false,
            import_map_path: None,
            env_vars: HashMap::new(),
            conf,
        };
        let events = receiver.map(|event_rx| EventWorkerRuntimeOpts { event_rx });
        find_startup_problem(&opts, &events, dir)
    };
    assert_eq!(problem(user(5, None), None, "/srv", "fn"), None);
    assert_eq!(problem(user(5, None), None, "srv", "/fn"), None);
    assert_eq!(problem(user(5, None), None, "srv", "fn"), Some(StartupProblem::RelativeDirectory));
    assert_eq!(problem(user(17_592_186_044_415, None), None, "/", ""), None);
    assert_eq!(
        problem(user(17_592_186_044_416, None), None, "/", ""),
        Some(StartupProblem::UncountableMemory)
    );
    let events = WorkerRuntimeOpts::EventsWorker;
    assert_eq!(problem(events, None, "/", ""), Some(StartupProblem::NoEventReceiver));
    assert_eq!(problem(WorkerRuntimeOpts::EventsWorker, Some("events"), "/", ""), None);
    assert_eq!(problem(main_worker(), None, "/", ""), None);
}

/// Carries a startup out as far as it goes. Actions of the kind `failing` fail.
fn carry_out(failing: Option<ActionKind>) -> (Vec<&'static str>, StartupStep<&'static str>) {
    let startup = start(main_worker());
    let all = names(&startup.actions);
    for (i, action) in startup.actions.iter().enumerate() {
        let kind = action.kind();
        let fails = Some(kind) == failing;
        let event = match kind {
            ActionKind::ImportMap if fails => {
                let uri = Some("data:%7B%7D".to_string());
                StartupEvent::ImportMapFailed(load_import_map(uri, None).err().unwrap())
            }
            ActionKind::ModuleLoader if fails => StartupEvent::ModuleLoaderFailed("loader"),
            ActionKind::Script if fails => StartupEvent::ScriptFailed("script"),
            ActionKind::MainModule if fails => StartupEvent::MainModuleFailed("module"),
            ActionKind::MainModule => StartupEvent::MainModuleLoaded(42),
            _ => StartupEvent::Done,
        };
        let step = startup_step(kind, event);
        if !matches!(step, StartupStep::Continue) {
            return (all[..=i].to_vec(), step);
        }
    }
    panic!("the last action ends the startup")
}

#[test]
fn failing_import_map_is_the_error_of_the_startup() {
    let (done, step) = carry_out(Some(ActionKind::ImportMap));
    assert_eq!(done, ["extensions", "import map"]);
    match step {
        StartupStep::Failed(StartupError::ImportMap(error)) => {
            assert_eq!(error.message(), "invalid import map base url");
        }
        _ => panic!("the startup fails"),
    }
}

#[test]
fn startup_ends_with_the_first_failure() {
    let (done, step) = carry_out(Some(ActionKind::ModuleLoader));
    assert_eq!(done, ["extensions", "import map", "module loader"]);
    assert!(matches!(step, StartupStep::Failed(StartupError::Outside("loader"))));
    let (done, step) = carry_out(Some(ActionKind::Script));
    assert_eq!(done.last(), Some(&"script"));
    assert!(matches!(step, StartupStep::Panic("script")));
    let (done, step) = carry_out(Some(ActionKind::MainModule));
    assert_eq!(done.last(), Some(&"main module"));
    assert!(matches!(step, StartupStep::Failed(StartupError::Outside("module"))));
}

#[test]
fn startup_succeeds_with_the_id_of_the_main_module() {
    let (done, step) = carry_out(None);
    assert_eq!(done.len(), 8);
    assert!(matches!(step, StartupStep::Loaded(42)));
}

#[test]
fn memory_is_counted_in_mebibytes() {
    assert_eq!(mib_to_bytes(0), 0);
    assert_eq!(mib_to_bytes(1), 1_048_576);
    assert_eq!(mib_to_bytes(17_592_186_044_415), 18_446_744_073_708_503_040);
    assert_eq!(heap_limits(&user(512, None)), Some(HeapLimits { initial: 0, max: 536_870_912 }));
    assert_eq!(heap_limits(&main_worker()), None);
}

#[test]
fn main_module_lies_in_the_service_directory() {
    assert_eq!(main_module_url("/srv", "/opt/my fn"), "file:///opt/my%20fn/index.ts");
    assert_eq!(main_module_url("/elsewhere", "/opt/my fn"), main_module_url("/srv", "/opt/my fn"));
    assert_eq!(main_module_url("/", "a/b/"), "file:///a/b/index.ts");
    assert_eq!(main_module_url("/", ""), "file:///index.ts");
    assert_eq!(main_module_url("/w", "./fn"), "file:///w/fn/index.ts");
    assert_eq!(main_module_url("/w", "fn/"), main_module_url("/w", "fn"));
    assert_eq!(main_module_url("relative", "/a/b"), "file:///a/b/index.ts");
    assert_eq!(main_module_url("/srv", "../c:"), "file:///srv/../c:/index.ts");
}

#[test]
fn bootstrap_script_holds_the_target_as_json() {
    assert_eq!(
        bootstrap_script("{}", false, true),
        "globalThis.bootstrapSBEdge({}, false, true)"
    );
    assert_eq!(
        worker_bootstrap_script("a\"b\\c\n", &user(1, None)),
        "globalThis.bootstrapSBEdge({\"target\":\"a\\\"b\\\\c\\n\"}, true, false)"
    );
}

#[test]
fn extensions_are_listed_in_order() {
    let extensions = list_extensions("file:///srv/index.ts");
    assert_eq!(extensions.len(), 21);
    assert!(matches!(extensions[0], RuntimeExtension::Permissions));
    assert!(matches!(
        &extensions[5],
        RuntimeExtension::Fetch { user_agent } if user_agent == "supabase-edge-runtime"
    ));
    assert!(matches!(
        &extensions[6],
        RuntimeExtension::WebSocket { user_agent } if user_agent == "supabase-edge-runtime"
    ));
    assert!(matches!(extensions[7], RuntimeExtension::Crypto { seed: None }));
    assert!(matches!(extensions[8], RuntimeExtension::Net { unstable: false }));
    assert!(matches!(extensions[12], RuntimeExtension::Fs { unstable: false }));
    assert!(matches!(
        &extensions[20],
        RuntimeExtension::CoreRuntime { main_module_url } if main_module_url == "file:///srv/index.ts"
    ));
}
