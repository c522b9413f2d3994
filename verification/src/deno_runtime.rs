//! The runtime of one worker.

use std::collections::HashMap;

use vstd::prelude::*;

use crate::options::{is_clone, WorkerRuntimeOpts};
use crate::run::WallClockLimit;
use crate::startup::WorkerContext;

verus! {

/// A worker that has been brought up: its engine, of type `J`, with its main module, and what
/// is kept of its options.
pub struct DenoRuntime<J, P, E> {
    pub js_runtime: J,
    pub main_module_id: usize,
    pub is_user_runtime: bool,
    pub is_event_worker: bool,
    pub env_vars: HashMap<String, String>,
    pub conf: WorkerRuntimeOpts<P, E>,
}

/// What is handed to the operations of the engine for a run.
pub enum RunResource<S, P> {
    /// The receiver of connections to serve.
    UnixStreamReceiver(S),
    /// The sender of requests for user workers.
    WorkerPoolSender(P),
}

/// A run that can begin.
pub struct RunPlan<J, P, S> {
    pub js_runtime: J,
    pub main_module_id: usize,
    /// What is handed to the operations of the engine, in order.
    pub resources: Vec<RunResource<S, P>>,
    /// How long the run may take.
    pub limit: WallClockLimit,
}

/// A user's function may run as long as the limit says; other workers run without a limit.
pub open spec fn wall_clock_limit(is_user_runtime: bool, limit_ms: u64) -> WallClockLimit {
    if is_user_runtime {
        WallClockLimit::Millis(limit_ms)
    } else {
        WallClockLimit::Unlimited
    }
}

impl<J, P, E> DenoRuntime<J, P, E> {
    /// The flags tell the kind of the worker.
    pub open spec fn wf(self) -> bool {
        &&& self.is_user_runtime == (self.conf is UserWorker)
        &&& self.is_event_worker == (self.conf is EventsWorker)
    }

    /// A runtime whose startup has been carried out.
    pub fn new(context: WorkerContext<P, E>, js_runtime: J, main_module_id: usize) -> (runtime:
        Self)
        ensures
            runtime.js_runtime == js_runtime,
            runtime.main_module_id == main_module_id,
            runtime.is_user_runtime == context.is_user_runtime,
            runtime.is_event_worker == context.is_event_worker,
            runtime.env_vars == context.env_vars,
            runtime.conf == context.conf,
            context.wf() ==> runtime.wf(),
    {
        DenoRuntime {
            js_runtime,
            main_module_id,
            is_user_runtime: context.is_user_runtime,
            is_event_worker: context.is_event_worker,
            env_vars: context.env_vars,
            conf: context.conf,
        }
    }

    /// Where the events of the worker go, if it runs a user's function and has such a place.
    pub open spec fn events_sender(self) -> Option<E> {
        if self.is_user_runtime {
            self.conf.events_sender()
        } else {
            None
        }
    }

    /// A handle to where the events of the worker go.
    pub fn event_sender(&self) -> (sender: Option<E>) where E: Clone
        ensures
            is_clone(self.events_sender(), sender),
            (match self.conf {
                WorkerRuntimeOpts::UserWorker(opts) if self.is_user_runtime => match (
                    opts.events_msg_tx,
                    sender,
                ) {
                    (Some(tx), Some(handle)) => cloned::<E>(tx, handle),
                    (None, None) => true,
                    _ => false,
                },
                _ => sender is None,
            }),
    {
        if self.is_user_runtime {
            match &self.conf {
                WorkerRuntimeOpts::UserWorker(opts) => opts.events_msg_tx.clone(),
                _ => None,
            }
        } else {
            None
        }
    }

    /// What is handed to the operations of the engine for a run: the receiver of connections
    /// and, in the main worker, the sender of requests for user workers.
    pub open spec fn run_resources<S>(self, unix_stream_rx: S) -> Seq<RunResource<S, P>> {
        let streams = RunResource::UnixStreamReceiver(unix_stream_rx);
        match self.conf {
            WorkerRuntimeOpts::MainWorker(opts) if !self.is_user_runtime => seq![
                streams,
                RunResource::WorkerPoolSender(opts.worker_pool_tx),
            ],
            _ => seq![streams],
        }
    }

    /// Prepares the run of the worker.
    pub fn run<S>(self, unix_stream_rx: S, wall_clock_limit_ms: u64) -> (plan: RunPlan<J, P, S>)
        ensures
            plan.js_runtime == self.js_runtime,
            plan.main_module_id == self.main_module_id,
            plan.resources@ == self.run_resources(unix_stream_rx),
            plan.limit == wall_clock_limit(self.is_user_runtime, wall_clock_limit_ms),
            self.is_user_runtime ==> plan.limit == WallClockLimit::Millis(wall_clock_limit_ms),
            !self.is_user_runtime ==> plan.limit == WallClockLimit::Unlimited,
            plan.resources@.len() >= 1,
            plan.resources@[0] == RunResource::<S, P>::UnixStreamReceiver(unix_stream_rx),
            (match self.conf {
                WorkerRuntimeOpts::MainWorker(opts) if !self.is_user_runtime => {
                    &&& plan.resources@.len() == 2
                    &&& plan.resources@[1] == RunResource::<S, P>::WorkerPoolSender(
                        opts.worker_pool_tx,
                    )
                },
                _ => plan.resources@.len() == 1,
            }),
    {
        let mut resources: Vec<RunResource<S, P>> = Vec::new();
        resources.push(RunResource::UnixStreamReceiver(unix_stream_rx));
        if !self.is_user_runtime {
            if let WorkerRuntimeOpts::MainWorker(opts) = self.conf {
                resources.push(RunResource::WorkerPoolSender(opts.worker_pool_tx));
            }
        }
        let limit = if self.is_user_runtime {
            WallClockLimit::Millis(wall_clock_limit_ms)
        } else {
            WallClockLimit::Unlimited
        };
        RunPlan {
            js_runtime: self.js_runtime,
            main_module_id: self.main_module_id,
            resources,
            limit,
        }
    }
}

} // verus!
