//! The options that a worker is created with.
//!
//! Channel handles are carried through unread. Their types are parameters: `P` sends to the
//! worker pool, `E` sends worker events and `R` receives them.

use std::collections::HashMap;

use vstd::prelude::*;

verus! {

/// Options of a worker that runs a user's function.
pub struct UserWorkerRuntimeOpts<P, E> {
    /// How much memory the worker may use, in mebibytes.
    pub memory_limit_mb: u64,
    /// How long the worker may take, in milliseconds, in the eyes of the pool.
    pub worker_timeout_ms: u64,
    /// Whether the pool makes a new worker even where it has one.
    pub force_create: bool,
    /// What the pool knows the worker by.
    pub key: Option<u64>,
    /// Where the pool is reached.
    pub pool_msg_tx: Option<P>,
    /// Where the events of the worker go.
    pub events_msg_tx: Option<E>,
}

/// Options of the worker that dispatches requests.
pub struct MainWorkerRuntimeOpts<P> {
    /// Where requests for user workers go.
    pub worker_pool_tx: P,
}

/// The kind of a worker, with the options of that kind.
pub enum WorkerRuntimeOpts<P, E> {
    UserWorker(UserWorkerRuntimeOpts<P, E>),
    MainWorker(MainWorkerRuntimeOpts<P>),
    EventsWorker,
}

/// Options of the worker that handles events.
pub struct EventWorkerRuntimeOpts<R> {
    /// Where the events of the other workers arrive.
    pub event_rx: R,
}

/// Options of any worker.
pub struct WorkerContextInitOpts<P, E> {
    /// The directory of the service, from the working directory.
    pub service_path: String,
    /// Whether cached modules are passed over.
    pub no_module_cache: bool,
    /// The path of the import map, if there is one.
    pub import_map_path: Option<String>,
    /// The environment variables that the worker sees.
    pub env_vars: HashMap<String, String>,
    /// The kind of the worker.
    pub conf: WorkerRuntimeOpts<P, E>,
}

impl<P, E> WorkerRuntimeOpts<P, E> {
    /// Where the events of the worker go; only a user worker can have such a place.
    pub open spec fn events_sender(self) -> Option<E> {
        match self {
            WorkerRuntimeOpts::UserWorker(opts) => opts.events_msg_tx,
            _ => None,
        }
    }

    /// Tells whether the worker runs a user's function.
    pub fn is_user_worker(&self) -> (found: bool)
        ensures
            found == (self is UserWorker),
    {
        match self {
            WorkerRuntimeOpts::UserWorker(_) => true,
            _ => false,
        }
    }

    /// Tells whether the worker handles events.
    pub fn is_events_worker(&self) -> (found: bool)
        ensures
            found == (self is EventsWorker),
    {
        match self {
            WorkerRuntimeOpts::EventsWorker => true,
            _ => false,
        }
    }
}

/// `copy` holds a clone of what `original` holds.
pub open spec fn is_clone<E: Clone>(original: Option<E>, copy: Option<E>) -> bool {
    match (original, copy) {
        (Some(a), Some(b)) => cloned::<E>(a, b),
        (None, None) => true,
        _ => false,
    }
}

/// Events go where the options of a user worker say, and nowhere for other workers.
pub proof fn law_only_user_workers_send_events<P, E>(conf: WorkerRuntimeOpts<P, E>)
    ensures
        (match conf {
            WorkerRuntimeOpts::UserWorker(opts) => conf.events_sender() == opts.events_msg_tx,
            WorkerRuntimeOpts::MainWorker(_) => conf.events_sender() is None,
            WorkerRuntimeOpts::EventsWorker => conf.events_sender() is None,
        }),
{
}

/// A clone is there exactly when what it is a clone of is there.
pub proof fn law_clones_are_not_lost<E: Clone>(original: Option<E>, copy: Option<E>)
    requires
        is_clone(original, copy),
    ensures
        original is Some <==> copy is Some,
        original is Some ==> cloned::<E>(original->0, copy->0),
{
}

} // verus!
