//! The runtime: the life of one sandbox, from the moment its engine is
//! built to its disposal, and the decisions around each load and call.

use vstd::prelude::*;
use crate::error::{agrees, Error};
use crate::module::Module;
use crate::module_handle::{ModuleHandle, ModuleHandleView};
use crate::module_loader::{
    answers_begin, answers_finish, holds_handle, joined_location, resolve, table_after_begin,
    table_after_finish, Capabilities, Import, LoadOutcome, LoadStart, ModuleRegistry,
    ModuleState,
};
use crate::text::{contains_name, names_of, option_str, option_text};
use crate::value::Value;

verus! {

/// Where a runtime stands in its life.
#[derive(Debug, Clone, Copy, PartialEq, Eq, Structural)]
pub enum Phase {
    /// Configured, with no engine yet. A `Runtime` is never in this phase:
    /// `Runtime::new` is the step that leaves it.
    Uninitialized,
    /// The engine is built and the capabilities are installed: modules can
    /// be loaded and functions called.
    Ready,
    /// Disposed of, or stopped by a timeout. The engine is not touched again.
    Terminated,
}

/// What can happen to a runtime.
#[derive(Debug, Clone, Copy, PartialEq, Eq, Structural)]
pub enum Event {
    /// The engine was built and the capabilities were installed.
    Initialized,
    /// A load or a call ended, well or with an error that is not fatal.
    Completed,
    /// A load or a call ran past the deadline and the engine was interrupted.
    TimedOut,
    /// The host disposed of the runtime.
    Disposed,
}

/// The phase that follows `phase` when `event` happens. Nothing leads out
/// of `Terminated`; a timeout or a disposal leads into it from anywhere.
pub open spec fn phase_after(phase: Phase, event: Event) -> Phase {
    match (phase, event) {
        (Phase::Terminated, _) => Phase::Terminated,
        (_, Event::TimedOut) => Phase::Terminated,
        (_, Event::Disposed) => Phase::Terminated,
        (Phase::Uninitialized, Event::Initialized) => Phase::Ready,
        (p, _) => p,
    }
}

/// The event that the end of an operation is for the runtime: a timeout if
/// the operation failed with one, an ordinary completion otherwise.
pub open spec fn event_of<T>(result: Result<T, Error>) -> Event {
    match result {
        Err(e) => if e.is_fatal() {
            Event::TimedOut
        } else {
            Event::Completed
        },
        Ok(_) => Event::Completed,
    }
}

/// The engine platform of a process, which all runtimes of the process
/// share. It is initialized once, before the first runtime is built, and
/// never torn down.
pub struct Platform {
    initialized: bool,
}

impl Platform {
    /// Whether the platform has been initialized.
    pub closed spec fn initialized(self) -> bool {
        self.initialized
    }

    /// The platform of a process that has built no runtime yet.
    pub fn new() -> (r: Platform)
        ensures
            !r.initialized(),
    {
        Platform { initialized: false }
    }

    /// Whether the platform has been initialized.
    pub fn is_initialized(&self) -> (r: bool)
        ensures
            r == self.initialized(),
    {
        self.initialized
    }

    /// Claims the initialization for the runtime that is about to be built:
    /// the answer is `true` for the first runtime of the process, which is
    /// to initialize the platform, and `false` for every later one.
    pub fn claim(&mut self) -> (first: bool)
        ensures
            first == !old(self).initialized(),
            final(self).initialized(),
    {
        let first = !self.initialized;
        self.initialized = true;
        first
    }
}

/// What a runtime is configured with.
pub struct RuntimeOptions {
    /// The export that a call without a function name invokes, if any.
    pub default_entrypoint: Option<String>,
    /// How long a load or a call may run, in milliseconds.
    pub timeout_ms: u64,
    /// Which imports the runtime may fetch.
    pub capabilities: Capabilities,
}

impl Default for RuntimeOptions {
    /// No default entrypoint, the longest timeout that can be written, and
    /// no capability to fetch imports.
    fn default() -> (r: Self)
        ensures
            r.default_entrypoint is None,
            r.timeout_ms == u64::MAX,
            r.capabilities == (Capabilities { fs_import: false, url_import: false }),
    {
        RuntimeOptions {
            default_entrypoint: None,
            timeout_ms: u64::MAX,
            capabilities: Capabilities { fs_import: false, url_import: false },
        }
    }
}

/// What a runtime is: the value that its view gives.
pub struct RuntimeView {
    /// Where the runtime stands in its life.
    pub phase: Phase,
    /// The export that a call without a function name invokes, if any.
    pub default_entrypoint: Option<Seq<char>>,
    /// How long a load or a call may run, in milliseconds.
    pub timeout_ms: u64,
    /// Which imports the runtime may fetch.
    pub capabilities: Capabilities,
    /// The modules that the runtime holds, by specifier.
    pub modules: Map<Seq<char>, ModuleState>,
}

/// What the engine is asked to do for a call.
#[derive(Debug, Clone, PartialEq, Eq)]
pub struct Invocation {
    /// The reference of the module whose export is called.
    pub module_id: usize,
    /// The name of the export to call.
    pub function: String,
    /// How long the call may run, in milliseconds.
    pub timeout_ms: u64,
}

/// What an invocation is: the value that its view gives.
pub struct InvocationView {
    /// The reference of the module whose export is called.
    pub module_id: usize,
    /// The characters of the name of the export to call.
    pub function: Seq<char>,
    /// How long the call may run, in milliseconds.
    pub timeout_ms: u64,
}

impl View for Invocation {
    type V = InvocationView;

    open spec fn view(&self) -> InvocationView {
        InvocationView {
            module_id: self.module_id,
            function: self.function@,
            timeout_ms: self.timeout_ms,
        }
    }
}

/// What the engine reports when a call ends.
#[derive(Debug, Clone, PartialEq, Eq)]
pub enum CallOutcome {
    /// The function returned the given value.
    Returned(Value),
    /// The call failed with the given error.
    Failed(Error),
}

/// What the host does next while a call is suspended.
#[derive(Debug, Clone, Copy, PartialEq, Eq, Structural)]
pub enum Drive {
    /// The result of the call is there: the call ends with it.
    Finish,
    /// The result is not there and the deadline has not come: the pending
    /// tasks of the engine are driven on, for no longer than the time that
    /// remains.
    Pump {
        /// The time that remains until the deadline, in milliseconds.
        remaining_ms: u64,
    },
    /// The result is not there and the deadline has come: the engine is
    /// interrupted and the call ends with a timeout.
    Interrupt,
}

/// What the host does next for a call that may run for `timeout_ms` and
/// has run for `elapsed_ms`, `has_result` telling whether its result is
/// there.
pub open spec fn drive(timeout_ms: u64, elapsed_ms: u64, has_result: bool) -> Drive {
    if has_result {
        Drive::Finish
    } else if elapsed_ms >= timeout_ms {
        Drive::Interrupt
    } else {
        Drive::Pump { remaining_ms: (timeout_ms - elapsed_ms) as u64 }
    }
}

/// The export that a call invokes.
///
/// A call that names a function invokes that function. A call that names
/// none invokes the default entrypoint, if the runtime was configured with
/// one. Either way the module must export the function: where it does not,
/// or where neither a name nor a default is there, the entrypoint is
/// missing.
pub open spec fn entrypoint(
    exports: Seq<Seq<char>>,
    name: Option<Seq<char>>,
    default_entrypoint: Option<Seq<char>>,
) -> Result<Seq<char>, Error> {
    let chosen = match name {
        Some(n) => Some(n),
        None => default_entrypoint,
    };
    match chosen {
        Some(f) => if exports.contains(f) {
            Ok(f)
        } else {
            Err(Error::MissingEntrypoint)
        },
        None => Err(Error::MissingEntrypoint),
    }
}

/// What the runtime `rt` asks of the engine for a call through `handle`,
/// or the error with which it refuses the call.
///
/// A terminated runtime refuses every call. A handle that the runtime does
/// not hold names no module of it. Otherwise the entrypoint is chosen and
/// the engine is to call it within the timeout of the runtime.
pub open spec fn call_plan(rt: RuntimeView, handle: ModuleHandleView, name: Option<Seq<char>>) -> Result<
    InvocationView,
    Error,
> {
    if rt.phase is Terminated {
        Err(Error::Terminated)
    } else if !holds_handle(rt.modules, handle) {
        Err(Error::ModuleNotFound)
    } else {
        match entrypoint(handle.exports, name, rt.default_entrypoint) {
            Ok(function) => Ok(
                InvocationView { module_id: handle.module_id, function, timeout_ms: rt.timeout_ms },
            ),
            Err(e) => Err(e),
        }
    }
}

/// What the caller gets when an operation of the runtime `rt` ends with
/// `result`: the result itself, unless the runtime is terminated.
pub open spec fn settled<T>(rt: RuntimeView, result: Result<T, Error>) -> Result<T, Error> {
    if rt.phase is Terminated {
        Err(Error::Terminated)
    } else {
        result
    }
}

/// The result that the outcome of a call stands for.
pub open spec fn call_result(outcome: CallOutcome) -> Result<Value, Error> {
    match outcome {
        CallOutcome::Returned(value) => Ok(value),
        CallOutcome::Failed(e) => Err(e),
    }
}

/// The event that the end of a load is for the runtime: a timeout if the
/// load failed with one, an ordinary completion otherwise.
pub open spec fn load_event(outcome: LoadOutcome) -> Event {
    match outcome {
        LoadOutcome::Instantiated { .. } => Event::Completed,
        LoadOutcome::Failed(e) => event_of(Err::<(), Error>(e)),
    }
}

/// One sandbox: the phase of its life, its configuration and its modules.
pub struct Runtime {
    terminated: bool,
    default_entrypoint: Option<String>,
    timeout_ms: u64,
    modules: ModuleRegistry,
}

impl View for Runtime {
    type V = RuntimeView;

    closed spec fn view(&self) -> RuntimeView {
        RuntimeView {
            phase: if self.terminated {
                Phase::Terminated
            } else {
                Phase::Ready
            },
            default_entrypoint: option_text(self.default_entrypoint),
            timeout_ms: self.timeout_ms,
            capabilities: self.modules.capabilities(),
            modules: self.modules@,
        }
    }
}

/// Chooses the export that a call invokes: `name` if it is given, else
/// `default_entrypoint`, provided that `exports` holds it.
pub fn select_entrypoint(
    exports: &Vec<String>,
    name: Option<&str>,
    default_entrypoint: Option<&str>,
) -> (r: Result<String, Error>)
    ensures
        agrees(
            r,
            entrypoint(names_of(exports@), option_str(name), option_str(default_entrypoint)),
        ),
{
    let chosen = match name {
        Some(n) => Some(n),
        None => default_entrypoint,
    };
    match chosen {
        Some(f) => if contains_name(exports, f) {
            Ok(f.to_owned())
        } else {
            Err(Error::MissingEntrypoint)
        },
        None => Err(Error::MissingEntrypoint),
    }
}

impl Runtime {
    /// Builds a runtime from its options: the step from `Uninitialized` to
    /// `Ready`. The runtime holds no module yet.
    pub fn new(options: RuntimeOptions) -> (r: Runtime)
        ensures
            r@ == (RuntimeView {
                phase: phase_after(Phase::Uninitialized, Event::Initialized),
                default_entrypoint: option_text(options.default_entrypoint),
                timeout_ms: options.timeout_ms,
                capabilities: options.capabilities,
                modules: Map::<Seq<char>, ModuleState>::empty(),
            }),
    {
        Runtime {
            terminated: false,
            default_entrypoint: options.default_entrypoint,
            timeout_ms: options.timeout_ms,
            modules: ModuleRegistry::new(options.capabilities),
        }
    }

    /// A runtime is ready or terminated, never uninitialized.
    pub proof fn law_runtime_is_never_uninitialized(&self)
        ensures
            self@.phase is Ready || self@.phase is Terminated,
    {
    }

    /// Where the runtime stands in its life.
    pub fn phase(&self) -> (r: Phase)
        ensures
            r == self@.phase,
            !(r is Uninitialized),
    {
        if self.terminated {
            Phase::Terminated
        } else {
            Phase::Ready
        }
    }

    /// How long a load or a call may run, in milliseconds.
    pub fn timeout_ms(&self) -> (r: u64)
        ensures
            r == self@.timeout_ms,
    {
        self.timeout_ms
    }

    /// What the host does next for a call that has run for `elapsed_ms`
    /// milliseconds, `has_result` telling whether its result is there.
    pub fn next_step(&self, elapsed_ms: u64, has_result: bool) -> (r: Drive)
        ensures
            r == drive(self@.timeout_ms, elapsed_ms, has_result),
    {
        if has_result {
            Drive::Finish
        } else if elapsed_ms >= self.timeout_ms {
            Drive::Interrupt
        } else {
            Drive::Pump { remaining_ms: self.timeout_ms - elapsed_ms }
        }
    }

    /// The modules that the runtime holds.
    pub fn modules(&self) -> (r: &ModuleRegistry)
        ensures
            r@ == self@.modules,
            r.capabilities() == self@.capabilities,
    {
        &self.modules
    }

    /// Whether the runtime takes operations: it does until it is terminated.
    pub fn check_running(&self) -> (r: Result<(), Error>)
        ensures
            r == settled(self@, Ok::<(), Error>(())),
    {
        if self.terminated {
            Err(Error::Terminated)
        } else {
            Ok(())
        }
    }

    /// Disposes of the runtime. Its configuration and its modules stay as
    /// they are, and every later operation is refused.
    pub fn dispose(&mut self)
        ensures
            final(self)@ == (RuntimeView {
                phase: phase_after(old(self)@.phase, Event::Disposed),
                ..old(self)@
            }),
    {
        self.terminated = true;
    }

    /// How the import `specifier`, found in the module at the location
    /// `referrer`, is to be satisfied. A terminated runtime resolves
    /// nothing.
    pub fn resolve_import(&self, specifier: &str, referrer: &str) -> (r: Result<Import, Error>)
        ensures
            agrees(
                r,
                settled(
                    self@,
                    resolve(
                        self@.modules,
                        self@.capabilities,
                        specifier@,
                        joined_location(referrer@, specifier@),
                    ),
                ),
            ),
    {
        if self.terminated {
            return Err(Error::Terminated);
        }
        self.modules.resolve_import(specifier, referrer)
    }

    /// Begins the load of `module`, as the registry does. A terminated
    /// runtime begins nothing and is left as it was.
    pub fn begin_load(&mut self, module: &Module) -> (r: Result<LoadStart, Error>)
        ensures
            old(self)@.phase is Terminated ==> r == Err::<LoadStart, Error>(Error::Terminated)
                && final(self)@ == old(self)@,
            !(old(self)@.phase is Terminated) ==> r is Ok && answers_begin(
                old(self)@.modules,
                module@.specifier,
                r->Ok_0,
            ) && final(self)@ == (RuntimeView {
                modules: table_after_begin(old(self)@.modules, module@.specifier),
                ..old(self)@
            }),
    {
        if self.terminated {
            return Err(Error::Terminated);
        }
        Ok(self.modules.begin_load(module))
    }

    /// Ends the load of `specifier` with what the engine reported, as the
    /// registry does. A load that ran into the timeout terminates the
    /// runtime. A terminated runtime is left as it was.
    pub fn finish_load(&mut self, specifier: &str, outcome: LoadOutcome) -> (r: Result<
        ModuleHandle,
        Error,
    >)
        ensures
            old(self)@.phase is Terminated ==> r == Err::<ModuleHandle, Error>(Error::Terminated)
                && final(self)@ == old(self)@,
            !(old(self)@.phase is Terminated) ==> answers_finish(
                old(self)@.modules,
                specifier@,
                outcome,
                r,
            ) && final(self)@ == (RuntimeView {
                phase: phase_after(old(self)@.phase, load_event(outcome)),
                modules: table_after_finish(old(self)@.modules, specifier@, outcome),
                ..old(self)@
            }),
    {
        if self.terminated {
            return Err(Error::Terminated);
        }
        let fatal = match &outcome {
            LoadOutcome::Failed(e) => e.fatal(),
            _ => false,
        };
        let r = self.modules.finish_load(specifier, outcome);
        if fatal {
            self.terminated = true;
        }
        r
    }

    /// Takes the module registered under `specifier` out of the runtime and
    /// tells whether there was one. A terminated runtime is left as it was.
    pub fn discard(&mut self, specifier: &str) -> (r: Result<bool, Error>)
        ensures
            r == settled(old(self)@, Ok::<bool, Error>(old(self)@.modules.contains_key(specifier@))),
            old(self)@.phase is Terminated ==> final(self)@ == old(self)@,
            !(old(self)@.phase is Terminated) ==> final(self)@ == (RuntimeView {
                modules: old(self)@.modules.remove(specifier@),
                ..old(self)@
            }),
    {
        if self.terminated {
            return Err(Error::Terminated);
        }
        Ok(self.modules.discard(specifier))
    }

    /// Decides a call through `handle`: what the engine is asked to do, or
    /// the error with which the call is refused.
    pub fn begin_call(&self, handle: &ModuleHandle, name: Option<&str>) -> (r: Result<
        Invocation,
        Error,
    >)
        ensures
            agrees(r, call_plan(self@, handle@, option_str(name))),
    {
        if self.terminated {
            return Err(Error::Terminated);
        }
        if !self.modules.knows(handle) {
            return Err(Error::ModuleNotFound);
        }
        let default_entrypoint = match &self.default_entrypoint {
            Some(d) => Some(d.as_str()),
            None => None,
        };
        match select_entrypoint(handle.exports(), name, default_entrypoint) {
            Ok(function) => Ok(
                Invocation { module_id: handle.module_id(), function, timeout_ms: self.timeout_ms },
            ),
            Err(e) => Err(e),
        }
    }

    /// Ends a call with what the engine reported: the value that the
    /// function returned, or the error of the call. A call that ran into the
    /// timeout terminates the runtime. A terminated runtime is left as it
    /// was and gives no result.
    pub fn finish_call(&mut self, outcome: CallOutcome) -> (r: Result<Value, Error>)
        ensures
            r == settled(old(self)@, call_result(outcome)),
            final(self)@ == (RuntimeView {
                phase: phase_after(old(self)@.phase, event_of(call_result(outcome))),
                ..old(self)@
            }),
    {
        if self.terminated {
            return Err(Error::Terminated);
        }
        match outcome {
            CallOutcome::Returned(value) => Ok(value),
            CallOutcome::Failed(e) => {
                if e.fatal() {
                    self.terminated = true;
                }
                Err(e)
            },
        }
    }
}

/// Nothing leads out of `Terminated`: whatever happens to a terminated
/// runtime, it stays terminated.
pub proof fn law_terminated_is_final(event: Event)
    ensures
        phase_after(Phase::Terminated, event) == Phase::Terminated,
{
}

/// A runtime is terminated by a timeout or a disposal and by nothing else:
/// any other end of an operation leaves a ready runtime ready.
pub proof fn law_only_timeout_and_disposal_terminate(event: Event)
    ensures
        phase_after(Phase::Ready, event) is Terminated <==> event is TimedOut || event is Disposed,
        !(phase_after(Phase::Ready, event) is Terminated) ==> phase_after(Phase::Ready, event)
            is Ready,
{
}

/// A timeout is the end of the runtime: the call that ran into it fails
/// with `Timeout`, and from then on every call is refused and every
/// operation answered with `Terminated`, whatever the engine would report.
pub proof fn law_timeout_terminates(
    rt: RuntimeView,
    handle: ModuleHandleView,
    name: Option<Seq<char>>,
    later: CallOutcome,
)
    requires
        rt.phase is Ready,
    ensures
        settled(rt, call_result(CallOutcome::Failed(Error::Timeout))) == Err::<Value, Error>(
            Error::Timeout,
        ),
        ({
            let after = RuntimeView {
                phase: phase_after(
                    rt.phase,
                    event_of(call_result(CallOutcome::Failed(Error::Timeout))),
                ),
                ..rt
            };
            &&& after.phase is Terminated
            &&& call_plan(after, handle, name) == Err::<InvocationView, Error>(Error::Terminated)
            &&& settled(after, call_result(later)) == Err::<Value, Error>(Error::Terminated)
            &&& phase_after(after.phase, event_of(call_result(later))) is Terminated
        }),
{
}

/// The deadline bounds a call: a call without a result is never driven on
/// at or past the deadline but interrupted, and before the deadline it is
/// driven for no longer than until the deadline.
pub proof fn law_deadline_bounds_the_call(timeout_ms: u64, elapsed_ms: u64)
    ensures
        elapsed_ms >= timeout_ms ==> drive(timeout_ms, elapsed_ms, false) is Interrupt,
        elapsed_ms < timeout_ms ==> drive(timeout_ms, elapsed_ms, false) == (Drive::Pump {
            remaining_ms: (timeout_ms - elapsed_ms) as u64,
        }) && elapsed_ms + (timeout_ms - elapsed_ms) == timeout_ms,
{
}

/// The entrypoint falls back to the default: a call that names no function
/// invokes the default entrypoint if the module exports it, and finds the
/// entrypoint missing if the module does not export it or no default is
/// configured.
pub proof fn law_entrypoint_falls_back_to_default(
    exports: Seq<Seq<char>>,
    default_entrypoint: Seq<char>,
)
    ensures
        exports.contains(default_entrypoint) ==> entrypoint(
            exports,
            None,
            Some(default_entrypoint),
        ) == Ok::<Seq<char>, Error>(default_entrypoint),
        !exports.contains(default_entrypoint) ==> entrypoint(
            exports,
            None,
            Some(default_entrypoint),
        ) == Err::<Seq<char>, Error>(Error::MissingEntrypoint),
        entrypoint(exports, None, None) == Err::<Seq<char>, Error>(Error::MissingEntrypoint),
{
}

/// A function that is named is the one that is called: the default
/// entrypoint plays no part in a call that names a function.
pub proof fn law_named_function_ignores_default(
    exports: Seq<Seq<char>>,
    name: Seq<char>,
    one: Option<Seq<char>>,
    other: Option<Seq<char>>,
)
    ensures
        entrypoint(exports, Some(name), one) == entrypoint(exports, Some(name), other),
{
}

/// A value is handed on as it is: what the engine returns from a call on a
/// running runtime is what the caller gets, character for character.
pub proof fn law_value_is_handed_on_unchanged(rt: RuntimeView, value: Value)
    requires
        !(rt.phase is Terminated),
    ensures
        settled(rt, call_result(CallOutcome::Returned(value))) == Ok::<Value, Error>(value),
        phase_after(rt.phase, event_of(call_result(CallOutcome::Returned(value)))) == rt.phase,
{
}

} // verus!
