//! The worker: one runtime on a thread of its own, reached by requests.
//!
//! The thread and its channels belong to the host. What is decided here is
//! when the thread stops serving, and what a caller is told once it has.

use vstd::prelude::*;
use crate::error::Error;
use crate::module_loader::{Capabilities, ModuleState};
use crate::runtime::{phase_after, Event, Phase, Runtime, RuntimeOptions, RuntimeView};
use crate::text::option_text;

verus! {

/// What a worker is configured with.
pub struct WorkerOptions {
    /// The export that a call without a function name invokes, if any.
    pub default_entrypoint: Option<String>,
    /// How long a load or a call may run, in milliseconds.
    pub timeout_ms: u64,
}

/// What a worker is: the value that its view gives.
pub struct WorkerView {
    /// Whether the thread of the worker has stopped serving.
    pub exited: bool,
    /// The runtime of the worker.
    pub runtime: RuntimeView,
}

/// Whether a worker has stopped serving once it has answered a request with
/// `result`: it stops for good when the request ran into the timeout, and a
/// worker that has stopped stays so.
pub open spec fn exited_after<T>(exited: bool, result: Result<T, Error>) -> bool {
    exited || (result matches Err(e) && e.is_fatal())
}

/// What the caller of a request is told: the result of the runtime, or that
/// the worker is unavailable if it had stopped serving before the request.
pub open spec fn answer<T>(exited: bool, result: Result<T, Error>) -> Result<T, Error> {
    if exited {
        Err(Error::WorkerUnavailable)
    } else {
        result
    }
}

/// What a caller makes of the channel on which it waits for a response:
/// the response if one arrived, and that the worker is unavailable if the
/// channel was closed instead.
pub open spec fn received<T>(response: Option<Result<T, Error>>) -> Result<T, Error> {
    match response {
        Some(result) => result,
        None => Err(Error::WorkerUnavailable),
    }
}

/// A runtime together with the state of the thread that owns it.
///
/// The runtime is reached only through the worker, one request at a time:
/// each request is answered before the next one is looked at.
pub struct Worker {
    runtime: Runtime,
    exited: bool,
}

impl View for Worker {
    type V = WorkerView;

    closed spec fn view(&self) -> WorkerView {
        WorkerView { exited: self.exited, runtime: self.runtime@ }
    }
}

impl Worker {
    /// A worker that serves, with a fresh runtime that has the given
    /// entrypoint and timeout and no capability to fetch imports.
    pub fn new(options: WorkerOptions) -> (r: Worker)
        ensures
            r@ == (WorkerView {
                exited: false,
                runtime: RuntimeView {
                    phase: phase_after(Phase::Uninitialized, Event::Initialized),
                    default_entrypoint: option_text(options.default_entrypoint),
                    timeout_ms: options.timeout_ms,
                    capabilities: Capabilities { fs_import: false, url_import: false },
                    modules: Map::<Seq<char>, ModuleState>::empty(),
                },
            }),
    {
        let runtime = Runtime::new(
            RuntimeOptions {
                default_entrypoint: options.default_entrypoint,
                timeout_ms: options.timeout_ms,
                capabilities: Capabilities { fs_import: false, url_import: false },
            },
        );
        Worker { runtime, exited: false }
    }

    /// Whether the worker still serves requests.
    pub fn is_available(&self) -> (r: bool)
        ensures
            r == !self@.exited,
    {
        !self.exited
    }

    /// The runtime of the worker.
    pub fn runtime(&self) -> (r: &Runtime)
        ensures
            r@ == self@.runtime,
    {
        &self.runtime
    }

    /// The runtime of the worker, to serve a request on it. Whatever the
    /// request does to the runtime, the worker goes on serving or not as
    /// before.
    pub fn runtime_mut(&mut self) -> (r: &mut Runtime)
        ensures
            r@ == old(self)@.runtime,
            final(self)@ == (WorkerView { exited: old(self)@.exited, runtime: final(r)@ }),
    {
        &mut self.runtime
    }

    /// Whether a request is taken: it is unless the worker has stopped
    /// serving.
    pub fn accept(&self) -> (r: Result<(), Error>)
        ensures
            r == answer(self@.exited, Ok::<(), Error>(())),
    {
        if self.exited {
            Err(Error::WorkerUnavailable)
        } else {
            Ok(())
        }
    }

    /// Answers a request that the runtime has served with `result`, and
    /// decides whether the worker goes on serving: it stops for good when
    /// the request ran into the timeout. A worker that had stopped before
    /// answers that it is unavailable.
    pub fn respond<T>(&mut self, result: Result<T, Error>) -> (r: Result<T, Error>)
        ensures
            r == answer(old(self)@.exited, result),
            final(self)@ == (WorkerView {
                exited: exited_after(old(self)@.exited, result),
                runtime: old(self)@.runtime,
            }),
    {
        if self.exited {
            return Err(Error::WorkerUnavailable);
        }
        match result {
            Ok(value) => Ok(value),
            Err(e) => {
                if e.fatal() {
                    self.exited = true;
                }
                Err(e)
            },
        }
    }

    /// Records that the thread of the worker has died. The worker serves no
    /// further request.
    pub fn abandon(&mut self)
        ensures
            final(self)@ == (WorkerView { exited: true, runtime: old(self)@.runtime }),
    {
        self.exited = true;
    }
}

/// What a caller makes of the channel on which it waited for a response:
/// the response if one arrived, and that the worker is unavailable if the
/// channel was closed instead.
pub fn receive<T>(response: Option<Result<T, Error>>) -> (r: Result<T, Error>)
    ensures
        r == received(response),
{
    match response {
        Some(result) => result,
        None => Err(Error::WorkerUnavailable),
    }
}

/// A worker that has stopped serving never serves again: whatever it is
/// asked and whatever the runtime would answer, the caller is told that the
/// worker is unavailable.
pub proof fn law_exited_worker_stays_unavailable<T>(result: Result<T, Error>)
    ensures
        exited_after(true, result),
        answer(true, result) == Err::<T, Error>(Error::WorkerUnavailable),
{
}

/// A timeout ends the worker: the request that ran into it is answered with
/// the timeout, and every request after it with the worker being
/// unavailable.
pub proof fn law_timeout_ends_worker<T, U>(later: Result<U, Error>)
    ensures
        answer(false, Err::<T, Error>(Error::Timeout)) == Err::<T, Error>(Error::Timeout),
        answer(exited_after(false, Err::<T, Error>(Error::Timeout)), later) == Err::<U, Error>(
            Error::WorkerUnavailable,
        ),
{
}

/// Only a timeout ends the worker: after any other answer it serves on.
pub proof fn law_worker_survives_other_errors<T>(result: Result<T, Error>)
    requires
        !(result matches Err(e) && e is Timeout),
    ensures
        !exited_after(false, result),
{
}

} // verus!
