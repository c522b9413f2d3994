//! What has to be done, in order, to bring up the runtime of a worker.

use std::collections::HashMap;

use vstd::prelude::*;
use vstd::string::*;

use crate::options::{
    is_clone, EventWorkerRuntimeOpts, WorkerContextInitOpts, WorkerRuntimeOpts,
};
use crate::text::{bool_literal, bool_text, optional_text, starts_with, texts};
use crate::urls::{
    directory_url, directory_url_text, dotted, is_absolute, is_plain_directory, is_plain_file_name,
    join_directory_url, join_paths, joined_path,
};

verus! {

/// An extension of the script engine, with what it is set up with.
pub enum RuntimeExtension {
    Permissions,
    WebIdl,
    Console,
    Url,
    Web,
    Fetch { user_agent: String },
    WebSocket { user_agent: String },
    Crypto { seed: Option<u64> },
    Net { unstable: bool },
    Tls,
    Http,
    Io,
    Fs { unstable: bool },
    Env,
    Os,
    UserWorkers,
    UserEventWorker,
    CoreMain,
    CoreNet,
    CoreHttp,
    CoreRuntime { main_module_url: String },
}

/// An extension of the script engine, with its settings as text.
pub enum RuntimeExtensionView {
    Permissions,
    WebIdl,
    Console,
    Url,
    Web,
    Fetch { user_agent: Seq<char> },
    WebSocket { user_agent: Seq<char> },
    Crypto { seed: Option<u64> },
    Net { unstable: bool },
    Tls,
    Http,
    Io,
    Fs { unstable: bool },
    Env,
    Os,
    UserWorkers,
    UserEventWorker,
    CoreMain,
    CoreNet,
    CoreHttp,
    CoreRuntime { main_module_url: Seq<char> },
}

impl View for RuntimeExtension {
    type V = RuntimeExtensionView;

    open spec fn view(&self) -> RuntimeExtensionView {
        match self {
            RuntimeExtension::Permissions => RuntimeExtensionView::Permissions,
            RuntimeExtension::WebIdl => RuntimeExtensionView::WebIdl,
            RuntimeExtension::Console => RuntimeExtensionView::Console,
            RuntimeExtension::Url => RuntimeExtensionView::Url,
            RuntimeExtension::Web => RuntimeExtensionView::Web,
            RuntimeExtension::Fetch { user_agent } => RuntimeExtensionView::Fetch {
                user_agent: user_agent@,
            },
            RuntimeExtension::WebSocket { user_agent } => RuntimeExtensionView::WebSocket {
                user_agent: user_agent@,
            },
            RuntimeExtension::Crypto { seed } => RuntimeExtensionView::Crypto { seed: *seed },
            RuntimeExtension::Net { unstable } => RuntimeExtensionView::Net { unstable: *unstable },
            RuntimeExtension::Tls => RuntimeExtensionView::Tls,
            RuntimeExtension::Http => RuntimeExtensionView::Http,
            RuntimeExtension::Io => RuntimeExtensionView::Io,
            RuntimeExtension::Fs { unstable } => RuntimeExtensionView::Fs { unstable: *unstable },
            RuntimeExtension::Env => RuntimeExtensionView::Env,
            RuntimeExtension::Os => RuntimeExtensionView::Os,
            RuntimeExtension::UserWorkers => RuntimeExtensionView::UserWorkers,
            RuntimeExtension::UserEventWorker => RuntimeExtensionView::UserEventWorker,
            RuntimeExtension::CoreMain => RuntimeExtensionView::CoreMain,
            RuntimeExtension::CoreNet => RuntimeExtensionView::CoreNet,
            RuntimeExtension::CoreHttp => RuntimeExtensionView::CoreHttp,
            RuntimeExtension::CoreRuntime { main_module_url } => {
                RuntimeExtensionView::CoreRuntime { main_module_url: main_module_url@ }
            },
        }
    }
}

/// The extensions as they are known by their settings.
pub open spec fn extension_views(extensions: Seq<RuntimeExtension>) -> Seq<RuntimeExtensionView> {
    Seq::new(extensions.len(), |i: int| extensions[i]@)
}

/// How the runtime names itself to the servers that it talks to.
pub open spec fn user_agent() -> Seq<char> {
    "supabase-edge-runtime"@
}

/// The extensions of every worker, in the order in which they are set up. Unstable features
/// are off, and random numbers are not seeded.
pub open spec fn worker_extensions(main_module_url: Seq<char>) -> Seq<RuntimeExtensionView> {
    seq![
        RuntimeExtensionView::Permissions,
        RuntimeExtensionView::WebIdl,
        RuntimeExtensionView::Console,
        RuntimeExtensionView::Url,
        RuntimeExtensionView::Web,
        RuntimeExtensionView::Fetch { user_agent: user_agent() },
        RuntimeExtensionView::WebSocket { user_agent: user_agent() },
        RuntimeExtensionView::Crypto { seed: None },
        RuntimeExtensionView::Net { unstable: false },
        RuntimeExtensionView::Tls,
        RuntimeExtensionView::Http,
        RuntimeExtensionView::Io,
        RuntimeExtensionView::Fs { unstable: false },
        RuntimeExtensionView::Env,
        RuntimeExtensionView::Os,
        RuntimeExtensionView::UserWorkers,
        RuntimeExtensionView::UserEventWorker,
        RuntimeExtensionView::CoreMain,
        RuntimeExtensionView::CoreNet,
        RuntimeExtensionView::CoreHttp,
        RuntimeExtensionView::CoreRuntime { main_module_url },
    ]
}

/// Lists the extensions of a worker with the given main module.
pub fn list_extensions(main_module_url: &str) -> (extensions: Vec<RuntimeExtension>)
    ensures
        extension_views(extensions@) == worker_extensions(main_module_url@),
        extensions@.len() == 21,
        extensions@[0] is Permissions,
        extensions@[1] is WebIdl,
        extensions@[2] is Console,
        extensions@[3] is Url,
        extensions@[4] is Web,
        extensions@[5] matches RuntimeExtension::Fetch { user_agent } && user_agent@
            == "supabase-edge-runtime"@,
        extensions@[6] matches RuntimeExtension::WebSocket { user_agent } && user_agent@
            == "supabase-edge-runtime"@,
        extensions@[7] == (RuntimeExtension::Crypto { seed: None }),
        extensions@[8] == (RuntimeExtension::Net { unstable: false }),
        extensions@[9] is Tls,
        extensions@[10] is Http,
        extensions@[11] is Io,
        extensions@[12] == (RuntimeExtension::Fs { unstable: false }),
        extensions@[13] is Env,
        extensions@[14] is Os,
        extensions@[15] is UserWorkers,
        extensions@[16] is UserEventWorker,
        extensions@[17] is CoreMain,
        extensions@[18] is CoreNet,
        extensions@[19] is CoreHttp,
        extensions@[20] matches RuntimeExtension::CoreRuntime { main_module_url: url } && url@
            == main_module_url@,
{
    let extensions = vec![
        RuntimeExtension::Permissions,
        RuntimeExtension::WebIdl,
        RuntimeExtension::Console,
        RuntimeExtension::Url,
        RuntimeExtension::Web,
        RuntimeExtension::Fetch { user_agent: "supabase-edge-runtime".to_owned() },
        RuntimeExtension::WebSocket { user_agent: "supabase-edge-runtime".to_owned() },
        RuntimeExtension::Crypto { seed: None },
        RuntimeExtension::Net { unstable: false },
        RuntimeExtension::Tls,
        RuntimeExtension::Http,
        RuntimeExtension::Io,
        RuntimeExtension::Fs { unstable: false },
        RuntimeExtension::Env,
        RuntimeExtension::Os,
        RuntimeExtension::UserWorkers,
        RuntimeExtension::UserEventWorker,
        RuntimeExtension::CoreMain,
        RuntimeExtension::CoreNet,
        RuntimeExtension::CoreHttp,
        RuntimeExtension::CoreRuntime { main_module_url: main_module_url.to_owned() },
    ];
    assert(extension_views(extensions@) =~= worker_extensions(main_module_url@));
    extensions
}

/// A number of mebibytes, in bytes.
pub open spec fn bytes_of_mib(mib: u64) -> int {
    mib * 1048576
}

/// Converts mebibytes to bytes.
pub fn mib_to_bytes(mib: u64) -> (bytes: u64)
    requires
        bytes_of_mib(mib) <= u64::MAX,
    ensures
        bytes == bytes_of_mib(mib),
        bytes == mib * 1048576,
{
    mib * 1048576
}

/// The heap sizes of a script engine, in bytes.
#[derive(Clone, Copy, Debug, PartialEq, Eq, Structural)]
pub struct HeapLimits {
    pub initial: usize,
    pub max: usize,
}

/// The heap of a user worker grows from nothing up to the worker's memory limit; the heaps of
/// other workers are not limited.
pub open spec fn heap_limits_of<P, E>(conf: WorkerRuntimeOpts<P, E>) -> Option<HeapLimits> {
    match conf {
        WorkerRuntimeOpts::UserWorker(opts) => Some(
            HeapLimits { initial: 0, max: bytes_of_mib(opts.memory_limit_mb) as usize },
        ),
        _ => None,
    }
}

/// The memory limit of a worker, if it has one, can be told in bytes.
pub open spec fn has_countable_memory<P, E>(conf: WorkerRuntimeOpts<P, E>) -> bool {
    conf matches WorkerRuntimeOpts::UserWorker(opts) ==> bytes_of_mib(opts.memory_limit_mb)
        <= u64::MAX
}

/// Works out the heap limits of a worker.
pub fn heap_limits<P, E>(conf: &WorkerRuntimeOpts<P, E>) -> (limits: Option<HeapLimits>)
    requires
        has_countable_memory(*conf),
    ensures
        limits == heap_limits_of(*conf),
        (match conf {
            WorkerRuntimeOpts::UserWorker(opts) => {
                &&& limits is Some
                &&& limits->0.initial == 0
                &&& opts.memory_limit_mb * 1048576 <= usize::MAX ==> limits->0.max
                    == opts.memory_limit_mb * 1048576
            },
            WorkerRuntimeOpts::MainWorker(_) => limits is None,
            WorkerRuntimeOpts::EventsWorker => limits is None,
        }),
{
    match conf {
        WorkerRuntimeOpts::UserWorker(opts) => Some(
            HeapLimits {
                initial: mib_to_bytes(0) as usize,
                max: mib_to_bytes(opts.memory_limit_mb) as usize,
            },
        ),
        _ => None,
    }
}

/// Text that JSON holds as it is: without quotes, backslashes and control characters.
pub open spec fn is_plain_json_text(text: Seq<char>) -> bool {
    forall|i: int|
        0 <= i < text.len() ==> #[trigger] text[i] != '"' && text[i] != '\\' && text[i] as u32 >= 32
}

/// What `serde_json` writes for an object with one member, whose value is a string.
pub uninterp spec fn json_object_text(key: Seq<char>, value: Seq<char>) -> Seq<char>;

/// Calls `to_string` of `serde_json::Value` on an object with one member. Plain text is written
/// as it is, in quotes, and nothing is written between the tokens.
#[verifier::external_body]
pub(crate) fn write_json_object(key: &str, value: &str) -> (text: String)
    ensures
        text@ == json_object_text(key@, value@),
        is_plain_json_text(key@) && is_plain_json_text(value@) ==> text@ == "{\""@ + key@
            + "\":\""@ + value@ + "\"}"@,
{
    let mut members = serde_json::Map::new();
    members.insert(key.to_owned(), serde_json::Value::from(value));
    serde_json::Value::Object(members).to_string()
}

/// The script that sets up the globals of a worker, given the worker's options as a script
/// literal.
pub open spec fn bootstrap_call(
    options: Seq<char>,
    is_user_runtime: bool,
    is_event_worker: bool,
) -> Seq<char> {
    "globalThis.bootstrapSBEdge("@ + options + ", "@ + bool_literal(is_user_runtime) + ", "@
        + bool_literal(is_event_worker) + ")"@
}

/// Writes the script that sets up the globals of a worker.
pub fn bootstrap_script(options: &str, is_user_runtime: bool, is_event_worker: bool) -> (script:
    String)
    ensures
        script@ == bootstrap_call(options@, is_user_runtime, is_event_worker),
        script@ == "globalThis.bootstrapSBEdge("@ + options@ + ", "@ + (if is_user_runtime {
            "true"@
        } else {
            "false"@
        }) + ", "@ + (if is_event_worker {
            "true"@
        } else {
            "false"@
        }) + ")"@,
{
    let mut script = "globalThis.bootstrapSBEdge(".to_owned();
    script.append(options);
    script.append(", ");
    script.append(bool_text(is_user_runtime));
    script.append(", ");
    script.append(bool_text(is_event_worker));
    script.append(")");
    script
}

/// One thing to do on the way to a running worker.
pub enum StartupAction<E, R> {
    /// Set up the extensions of the engine.
    InitExtensions(Vec<RuntimeExtension>),
    /// Load the import map that is configured by this path.
    LoadImportMap(Option<String>),
    /// Create the module loader, around the import map.
    CreateModuleLoader { no_module_cache: bool },
    /// Set the flags of the engine's process.
    SetEngineFlags(Vec<String>),
    /// Create the engine, with the extensions and the module loader.
    CreateEngine { heap_limits: Option<HeapLimits> },
    /// Run a script that has to succeed.
    ExecuteScript(String),
    /// Hand the environment variables to the operations of the engine.
    PutEnvVars(HashMap<String, String>),
    /// Hand the receiver of worker events to the operations of the engine.
    PutEventReceiver(R),
    /// Hand the sender of worker events to the operations of the engine.
    PutEventSender(E),
    /// Load the module with this URL as the main module.
    LoadMainModule(String),
}

/// One thing to do on the way to a running worker, with its details as text.
pub enum StartupActionView<E, R> {
    InitExtensions(Seq<RuntimeExtensionView>),
    LoadImportMap(Option<Seq<char>>),
    CreateModuleLoader { no_module_cache: bool },
    SetEngineFlags(Seq<Seq<char>>),
    CreateEngine { heap_limits: Option<HeapLimits> },
    ExecuteScript(Seq<char>),
    PutEnvVars(Map<String, String>),
    PutEventReceiver(R),
    PutEventSender(E),
    LoadMainModule(Seq<char>),
}

impl<E, R> View for StartupAction<E, R> {
    type V = StartupActionView<E, R>;

    open spec fn view(&self) -> StartupActionView<E, R> {
        match self {
            StartupAction::InitExtensions(extensions) => StartupActionView::InitExtensions(
                extension_views(extensions@),
            ),
            StartupAction::LoadImportMap(path) => StartupActionView::LoadImportMap(
                optional_text(*path),
            ),
            StartupAction::CreateModuleLoader { no_module_cache } => {
                StartupActionView::CreateModuleLoader { no_module_cache: *no_module_cache }
            },
            StartupAction::SetEngineFlags(flags) => StartupActionView::SetEngineFlags(
                texts(flags@),
            ),
            StartupAction::CreateEngine { heap_limits } => StartupActionView::CreateEngine {
                heap_limits: *heap_limits,
            },
            StartupAction::ExecuteScript(script) => StartupActionView::ExecuteScript(script@),
            StartupAction::PutEnvVars(env_vars) => StartupActionView::PutEnvVars(env_vars@),
            StartupAction::PutEventReceiver(receiver) => StartupActionView::PutEventReceiver(
                *receiver,
            ),
            StartupAction::PutEventSender(sender) => StartupActionView::PutEventSender(*sender),
            StartupAction::LoadMainModule(url) => StartupActionView::LoadMainModule(url@),
        }
    }
}

/// The actions as they are known by their details.
pub open spec fn action_views<E, R>(actions: Seq<StartupAction<E, R>>) -> Seq<
    StartupActionView<E, R>,
> {
    Seq::new(actions.len(), |i: int| actions[i]@)
}

/// The URL of a service's main module: the file `index.ts` in the directory of the service.
pub open spec fn main_module_url_of(current_dir: Seq<char>, service_path: Seq<char>) -> Seq<char> {
    directory_url_text(joined_path(current_dir, service_path))->0 + "index.ts"@
}

/// The directory of the service can be located: it is an absolute path, or it is taken from one.
pub open spec fn is_located(current_dir: Seq<char>, service_path: Seq<char>) -> bool {
    is_absolute(current_dir) || is_absolute(service_path)
}

/// What is known of the URL of a service's main module, whatever the path of the service. An absolute
/// service path stands by itself, without the working directory. A slash at the end of the path
/// makes no difference, nor does `./` at its beginning.
pub open spec fn is_main_module_url(
    url: Seq<char>,
    current_dir: Seq<char>,
    service_path: Seq<char>,
) -> bool {
    &&& "file:///"@.is_prefix_of(url)
    &&& "/index.ts"@.is_suffix_of(url)
    &&& is_absolute(service_path) ==> url == directory_url_text(service_path)->0 + "index.ts"@
    &&& service_path.len() > 0 ==> url == main_module_url_of(current_dir, service_path + "/"@)
    &&& is_plain_directory(joined_path(current_dir, service_path)) ==> url == "file://"@
        + joined_path(current_dir, service_path) + "/index.ts"@
    &&& forall|path: Seq<char>|
        service_path == #[trigger] from_here(path) && !is_absolute(path) && is_plain_directory(
            joined_path(current_dir, path),
        ) ==> url == "file://"@ + joined_path(current_dir, path) + "/index.ts"@
}

/// A relative path that starts with `./`.
pub open spec fn from_here(path: Seq<char>) -> Seq<char> {
    "./"@ + path
}

proof fn lemma_trailing_slash(current_dir: Seq<char>, service_path: Seq<char>)
    requires
        service_path.len() > 0,
    ensures
        joined_path(current_dir, service_path + "/"@) == joined_path(current_dir, service_path)
            + "/"@,
{
    assert((service_path + "/"@)[0] == service_path[0]);
    assert(joined_path(current_dir, service_path + "/"@) =~= joined_path(current_dir, service_path)
        + "/"@);
}

/// A path without the slash that it ends in, if it does.
pub open spec fn without_slash(path: Seq<char>) -> Seq<char> {
    if path.last() == '/' {
        path.drop_last()
    } else {
        path
    }
}

/// A path that starts with `./`, taken from a directory, has a segment `.` in it.
pub proof fn lemma_from_here(current_dir: Seq<char>, path: Seq<char>)
    requires
        is_absolute(current_dir),
        !is_absolute(path),
    ensures
        joined_path(current_dir, from_here(path)) == dotted(without_slash(current_dir), path),
        joined_path(current_dir, path) == without_slash(current_dir) + "/"@ + path,
{
    reveal_strlit("./");
    reveal_strlit("/./");
    reveal_strlit("/");
    assert(from_here(path)[0] == '.');
    assert(joined_path(current_dir, from_here(path)) =~= dotted(without_slash(current_dir), path));
    assert(joined_path(current_dir, path) =~= without_slash(current_dir) + "/"@ + path);
}

/// Works out the URL of a service's main module.
pub fn main_module_url(current_dir: &str, service_path: &str) -> (url: String)
    requires
        is_located(current_dir@, service_path@),
    ensures
        url@ == main_module_url_of(current_dir@, service_path@),
        url@ == directory_url_text(joined_path(current_dir@, service_path@))->0 + "index.ts"@,
        is_main_module_url(url@, current_dir@, service_path@),
{
    let directory = join_paths(current_dir, service_path);
    let base = directory_url(directory.as_str());
    assert(is_plain_file_name("index.ts"@)) by {
        reveal_strlit("index.ts");
        assert("index.ts"@[0] != '.');
    }
    let url = join_directory_url(directory.as_str(), "index.ts");
    proof {
        reveal_strlit("index.ts");
        reveal_strlit("/index.ts");
        reveal_strlit("file:///");
        reveal_strlit("/");
        let text = base->0@;
        assert(url@.subrange(0, 8) =~= text.subrange(0, 8));
        assert(url@.subrange(url@.len() - 9, url@.len() as int) =~= "/index.ts"@);
        if service_path@.len() > 0 {
            lemma_trailing_slash(current_dir@, service_path@);
        }
        assert("/"@ + "index.ts"@ =~= "/index.ts"@);
        assert(is_plain_directory(directory@) ==> url@ =~= "file://"@ + directory@ + "/index.ts"@);
        assert forall|path: Seq<char>|
            service_path@ == #[trigger] from_here(path) && !is_absolute(path) && is_plain_directory(
                joined_path(current_dir@, path),
            ) implies url@ == "file://"@ + joined_path(current_dir@, path) + "/index.ts"@ by {
            reveal_strlit("./");
            assert(from_here(path)[0] == '.');
            lemma_from_here(current_dir@, path);
            assert(url@ =~= "file://"@ + joined_path(current_dir@, path) + "/index.ts"@);
        }
    }
    url
}

/// The script that sets up the globals of a worker built for `target`.
pub open spec fn worker_bootstrap<P, E>(target: Seq<char>, conf: WorkerRuntimeOpts<P, E>) -> Seq<
    char,
> {
    bootstrap_call(json_object_text("target"@, target), conf is UserWorker, conf is EventsWorker)
}

/// Writes the script that sets up the globals of a worker built for `target`.
pub fn worker_bootstrap_script<P, E>(target: &str, conf: &WorkerRuntimeOpts<P, E>) -> (script:
    String)
    ensures
        script@ == worker_bootstrap(target@, *conf),
        script@ == "globalThis.bootstrapSBEdge("@ + json_object_text("target"@, target@) + ", "@ + (
        if conf is UserWorker {
            "true"@
        } else {
            "false"@
        }) + ", "@ + (if conf is EventsWorker {
            "true"@
        } else {
            "false"@
        }) + ")"@,
        is_plain_json_text(target@) ==> script@ == bootstrap_call(
            "{\"target\":\""@ + target@ + "\"}"@,
            conf is UserWorker,
            conf is EventsWorker,
        ),
{
    let options = write_json_object("target", target);
    proof {
        reveal_strlit("target");
        reveal_strlit("{\"target\":\"");
        reveal_strlit("{\"");
        reveal_strlit("\":\"");
        assert("{\""@ + "target"@ + "\":\""@ =~= "{\"target\":\""@);
    }
    bootstrap_script(options.as_str(), conf.is_user_worker(), conf.is_events_worker())
}

/// What has to be done, in order, to bring up a worker. `receiver` is handed over to an events
/// worker and `sender` to a user worker that has one.
pub open spec fn startup_actions<P, E, R>(
    opts: WorkerContextInitOpts<P, E>,
    current_dir: Seq<char>,
    target: Seq<char>,
    receiver: Option<R>,
    sender: Option<E>,
) -> Seq<StartupActionView<E, R>> {
    let url = main_module_url_of(current_dir, opts.service_path@);
    seq![
        StartupActionView::InitExtensions(worker_extensions(url)),
        StartupActionView::LoadImportMap(optional_text(opts.import_map_path)),
        StartupActionView::CreateModuleLoader { no_module_cache: opts.no_module_cache },
        StartupActionView::SetEngineFlags(seq!["IGNORED"@]),
        StartupActionView::CreateEngine { heap_limits: heap_limits_of(opts.conf) },
        StartupActionView::ExecuteScript(worker_bootstrap(target, opts.conf)),
        StartupActionView::PutEnvVars(opts.env_vars@),
    ] + (if opts.conf is EventsWorker {
        seq![StartupActionView::PutEventReceiver(receiver->0)]
    } else {
        seq![]
    }) + (match sender {
        Some(tx) => seq![StartupActionView::PutEventSender(tx)],
        None => seq![],
    }) + seq![StartupActionView::LoadMainModule(url)]
}

/// What is kept of the options of a worker once it runs.
pub struct WorkerContext<P, E> {
    pub is_user_runtime: bool,
    pub is_event_worker: bool,
    pub env_vars: HashMap<String, String>,
    pub conf: WorkerRuntimeOpts<P, E>,
}

impl<P, E> WorkerContext<P, E> {
    /// The flags tell the kind of the worker.
    pub open spec fn wf(self) -> bool {
        &&& self.is_user_runtime == (self.conf is UserWorker)
        &&& self.is_event_worker == (self.conf is EventsWorker)
    }
}

/// How a worker is brought up.
pub struct Startup<P, E, R> {
    /// What has to be done, in order.
    pub actions: Vec<StartupAction<E, R>>,
    /// What is kept of the options.
    pub context: WorkerContext<P, E>,
}

/// A worker can be brought up: its service can be located, its memory can be told in bytes, and an
/// events worker has a receiver.
pub open spec fn can_start<P, E, R>(
    opts: WorkerContextInitOpts<P, E>,
    event_manager_opts: Option<EventWorkerRuntimeOpts<R>>,
    current_dir: Seq<char>,
) -> bool {
    &&& is_located(current_dir, opts.service_path@)
    &&& has_countable_memory(opts.conf)
    &&& opts.conf is EventsWorker ==> event_manager_opts is Some
}

/// Why a worker cannot be brought up.
#[derive(Clone, Copy, Debug, PartialEq, Eq, Structural)]
pub enum StartupProblem {
    /// The directory of the service cannot be located.
    RelativeDirectory,
    /// The memory limit cannot be told in bytes.
    UncountableMemory,
    /// An events worker has no receiver.
    NoEventReceiver,
}

/// The first reason why a worker cannot be brought up, if there is one.
pub open spec fn startup_problem<P, E, R>(
    opts: WorkerContextInitOpts<P, E>,
    event_manager_opts: Option<EventWorkerRuntimeOpts<R>>,
    current_dir: Seq<char>,
) -> Option<StartupProblem> {
    if !is_located(current_dir, opts.service_path@) {
        Some(StartupProblem::RelativeDirectory)
    } else if !has_countable_memory(opts.conf) {
        Some(StartupProblem::UncountableMemory)
    } else if opts.conf is EventsWorker && event_manager_opts is None {
        Some(StartupProblem::NoEventReceiver)
    } else {
        None
    }
}

/// Tells whether a worker can be brought up, and if not, why.
pub fn find_startup_problem<P, E, R>(
    opts: &WorkerContextInitOpts<P, E>,
    event_manager_opts: &Option<EventWorkerRuntimeOpts<R>>,
    current_dir: &str,
) -> (problem: Option<StartupProblem>)
    ensures
        problem == startup_problem(*opts, *event_manager_opts, current_dir@),
        problem is None <==> can_start(*opts, *event_manager_opts, current_dir@),
        problem == Some(StartupProblem::RelativeDirectory) <==> !is_absolute(current_dir@)
            && !is_absolute(opts.service_path@),
        problem == Some(StartupProblem::UncountableMemory) <==> (is_absolute(current_dir@)
            || is_absolute(opts.service_path@)) && (opts.conf matches WorkerRuntimeOpts::UserWorker(
            user_opts,
        ) && user_opts.memory_limit_mb * 1048576 > u64::MAX),
        problem == Some(StartupProblem::NoEventReceiver) <==> (is_absolute(current_dir@)
            || is_absolute(opts.service_path@)) && opts.conf is EventsWorker
            && event_manager_opts is None,
{
    if !starts_at_root(current_dir) && !starts_at_root(opts.service_path.as_str()) {
        return Some(StartupProblem::RelativeDirectory);
    }
    match &opts.conf {
        WorkerRuntimeOpts::UserWorker(user_opts) => {
            if user_opts.memory_limit_mb > u64::MAX / 1048576 {
                return Some(StartupProblem::UncountableMemory);
            }
        },
        WorkerRuntimeOpts::EventsWorker => {
            if event_manager_opts.is_none() {
                return Some(StartupProblem::NoEventReceiver);
            }
        },
        WorkerRuntimeOpts::MainWorker(_) => {},
    }
    None
}

fn starts_at_root(path: &str) -> (found: bool)
    ensures
        found == is_absolute(path@),
{
    proof {
        reveal_strlit("/");
        if is_absolute(path@) {
            assert("/"@ =~= path@.subrange(0, 1));
        }
        if "/"@.is_prefix_of(path@) {
            assert(path@[0] == "/"@[0]);
        }
    }
    starts_with(path, "/")
}

/// Plans the startup of a worker, for working directory `current_dir` and a runtime built for
/// `target`. An events worker needs `event_manager_opts`; other workers leave it unused.
pub fn plan_startup<P, E: Clone, R>(
    opts: WorkerContextInitOpts<P, E>,
    event_manager_opts: Option<EventWorkerRuntimeOpts<R>>,
    current_dir: &str,
    target: &str,
) -> (startup: Startup<P, E, R>)
    requires
        can_start(opts, event_manager_opts, current_dir@),
    ensures
        startup.context.wf(),
        startup.context.conf == opts.conf,
        startup.context.env_vars == opts.env_vars,
        startup.context.is_user_runtime == (opts.conf is UserWorker),
        startup.context.is_event_worker == (opts.conf is EventsWorker),
        startup.actions@.len() == 8 + (if opts.conf is EventsWorker {
            1int
        } else {
            0int
        }) + (match opts.conf {
            WorkerRuntimeOpts::UserWorker(user_opts) if user_opts.events_msg_tx is Some => 1int,
            _ => 0int,
        }),
        startup.actions@[0] matches StartupAction::InitExtensions(extensions) && extension_views(
            extensions@,
        ) == worker_extensions(
            directory_url_text(joined_path(current_dir@, opts.service_path@))->0 + "index.ts"@,
        ),
        startup.actions@[1] == StartupAction::<E, R>::LoadImportMap(opts.import_map_path),
        startup.actions@[2] == (StartupAction::<E, R>::CreateModuleLoader {
            no_module_cache: opts.no_module_cache,
        }),
        startup.actions@[3] matches StartupAction::SetEngineFlags(flags) && flags@.len() == 1
            && flags@[0]@ == "IGNORED"@,
        startup.actions@[4] matches StartupAction::CreateEngine { heap_limits } && (match opts.conf {
            WorkerRuntimeOpts::UserWorker(user_opts) => {
                &&& heap_limits is Some
                &&& heap_limits->0.initial == 0
                &&& user_opts.memory_limit_mb * 1048576 <= usize::MAX ==> heap_limits->0.max
                    == user_opts.memory_limit_mb * 1048576
            },
            _ => heap_limits is None,
        }),
        startup.actions@[5] matches StartupAction::ExecuteScript(script) && script@
            == "globalThis.bootstrapSBEdge("@ + json_object_text("target"@, target@) + ", "@ + (
        if opts.conf is UserWorker {
            "true"@
        } else {
            "false"@
        }) + ", "@ + (if opts.conf is EventsWorker {
            "true"@
        } else {
            "false"@
        }) + ")"@,
        startup.actions@[6] matches StartupAction::PutEnvVars(env_vars) && env_vars@
            == opts.env_vars@,
        forall|i: int|
            0 <= i < startup.actions@.len() && i != 6 ==> !(#[trigger] startup.actions@[i]
                is PutEnvVars),
        opts.conf is EventsWorker ==> startup.actions@[7] == StartupAction::<E, R>::PutEventReceiver(
            event_manager_opts->0.event_rx,
        ),
        opts.conf matches WorkerRuntimeOpts::UserWorker(user_opts) ==> (
        user_opts.events_msg_tx matches Some(tx) ==> (
        startup.actions@[7] matches StartupAction::PutEventSender(sender) && cloned::<E>(
            tx,
            sender,
        ))),
        startup.actions@.last() matches StartupAction::LoadMainModule(url) && url@
            == directory_url_text(joined_path(current_dir@, opts.service_path@))->0 + "index.ts"@,
        exists|sender: Option<E>|
            #[trigger] is_clone(opts.conf.events_sender(), sender) && action_views(startup.actions@)
                == startup_actions(
                opts,
                current_dir@,
                target@,
                event_receiver(event_manager_opts),
                sender,
            ),
        is_main_module_url(
            main_module_url_of(current_dir@, opts.service_path@),
            current_dir@,
            opts.service_path@,
        ),
        is_plain_json_text(target@) ==> worker_bootstrap(target@, opts.conf) == bootstrap_call(
            "{\"target\":\""@ + target@ + "\"}"@,
            opts.conf is UserWorker,
            opts.conf is EventsWorker,
        ),
{
    let is_user_runtime = opts.conf.is_user_worker();
    let is_event_worker = opts.conf.is_events_worker();
    let url = main_module_url(current_dir, opts.service_path.as_str());
    let limits = heap_limits(&opts.conf);
    let script = worker_bootstrap_script(target, &opts.conf);
    let sender = match &opts.conf {
        WorkerRuntimeOpts::UserWorker(user_opts) => user_opts.events_msg_tx.clone(),
        _ => None,
    };
    let ghost given = sender;

    let mut actions: Vec<StartupAction<E, R>> = Vec::new();
    actions.push(StartupAction::InitExtensions(list_extensions(url.as_str())));
    actions.push(StartupAction::LoadImportMap(opts.import_map_path));
    actions.push(StartupAction::CreateModuleLoader { no_module_cache: opts.no_module_cache });
    let flags = vec!["IGNORED".to_owned()];
    assert(texts(flags@) =~= seq!["IGNORED"@]);
    actions.push(StartupAction::SetEngineFlags(flags));
    actions.push(StartupAction::CreateEngine { heap_limits: limits });
    actions.push(StartupAction::ExecuteScript(script));
    actions.push(StartupAction::PutEnvVars(opts.env_vars.clone()));
    if is_event_worker {
        let event_opts = event_manager_opts.unwrap();
        actions.push(StartupAction::PutEventReceiver(event_opts.event_rx));
    }
    if let Some(tx) = sender {
        actions.push(StartupAction::PutEventSender(tx));
    }
    actions.push(StartupAction::LoadMainModule(url));
    proof {
        assert(is_clone(opts.conf.events_sender(), given));
        assert(action_views(actions@) =~= startup_actions(
            opts,
            current_dir@,
            target@,
            event_receiver(event_manager_opts),
            given,
        ));
    }
    Startup {
        actions,
        context: WorkerContext {
            is_user_runtime,
            is_event_worker,
            env_vars: opts.env_vars,
            conf: opts.conf,
        },
    }
}

/// The receiver that the options of an events worker hold.
pub open spec fn event_receiver<R>(opts: Option<EventWorkerRuntimeOpts<R>>) -> Option<R> {
    match opts {
        Some(event_opts) => Some(event_opts.event_rx),
        None => None,
    }
}

} // verus!
