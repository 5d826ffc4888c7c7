use rustyscript::module::{Dialect, Module, ModuleKind};
use rustyscript::module_handle::ModuleHandle;
use rustyscript::module_loader::{Capabilities, Import, LoadOutcome, LoadStart, Resolution};
use rustyscript::runtime::{
    select_entrypoint, CallOutcome, Drive, Invocation, Phase, Platform, Runtime, RuntimeOptions,
};
use rustyscript::value::Value;
use rustyscript::Error;

fn options(default_entrypoint: Option<&str>) -> RuntimeOptions {
    RuntimeOptions {
        default_entrypoint: default_entrypoint.map(|s| s.to_string()),
        timeout_ms: 50,
        capabilities: Capabilities { fs_import: false, url_import: false },
    }
}

fn module(specifier: &str) -> Module {
    Module::new(specifier, "export const run = () => 2;", Dialect::Native, ModuleKind::Text)
}

fn load(runtime: &mut Runtime, specifier: &str, module_id: usize, exports: &[&str]) -> ModuleHandle {
    assert_eq!(runtime.begin_load(&module(specifier)), Ok(LoadStart::Started));
    let outcome = LoadOutcome::Instantiated {
        module_id,
        exports: exports.iter().map(|s| s.to_string()).collect(),
    };
    runtime.finish_load(specifier, outcome).unwrap()
}

fn names(list: &[&str]) -> Vec<String> {
    list.iter().map(|s| s.to_string()).collect()
}

#[test]
fn default_options() {
    let options = RuntimeOptions::default();
    assert_eq!(options.default_entrypoint, None);
    assert_eq!(options.timeout_ms, u64::MAX);
    assert_eq!(options.capabilities, Capabilities { fs_import: false, url_import: false });
}

#[test]
fn new_runtime_is_ready_and_empty() {
    let runtime = Runtime::new(options(Some("run")));
    assert_eq!(runtime.phase(), Phase::Ready);
    assert_eq!(runtime.timeout_ms(), 50);
    assert_eq!(runtime.check_running(), Ok(()));
    assert_eq!(runtime.modules().handle("test.js"), None);
}

#[test]
fn runtime_keeps_its_capabilities() {
    let runtime = Runtime::new(RuntimeOptions {
        default_entrypoint: None,
        timeout_ms: 1000,
        capabilities: Capabilities { fs_import: true, url_import: false },
    });
    assert_eq!(
        runtime.resolve_import("./a.js", "file:///app/main.js"),
        Ok(Import { target: "file:///app/a.js".to_string(), resolution: Resolution::ReadFile })
    );
    assert_eq!(
        runtime.resolve_import("https://example.com/a.js", "file:///app/main.js"),
        Err(Error::PermissionDenied)
    );
    assert_eq!(runtime.resolve_import("a.js", "file:///app/main.js"), Err(Error::ModuleNotFound));
}

#[test]
fn entrypoint_falls_back_to_the_default() {
    let mut runtime = Runtime::new(options(Some("run")));
    let handle = load(&mut runtime, "test.js", 1, &["run", "getValue"]);
    assert_eq!(
        runtime.begin_call(&handle, None),
        Ok(Invocation { module_id: 1, function: "run".to_string(), timeout_ms: 50 })
    );
}

#[test]
fn module_without_the_default_entrypoint_misses_it() {
    let mut runtime = Runtime::new(options(Some("run")));
    let handle = load(&mut runtime, "test.js", 1, &["load", "getValue"]);
    assert_eq!(runtime.begin_call(&handle, None), Err(Error::MissingEntrypoint));
    assert_eq!(runtime.phase(), Phase::Ready);
}

#[test]
fn call_without_name_or_default_misses_the_entrypoint() {
    let mut runtime = Runtime::new(options(None));
    let handle = load(&mut runtime, "test.js", 1, &["run"]);
    assert_eq!(runtime.begin_call(&handle, None), Err(Error::MissingEntrypoint));
}

#[test]
fn named_function_is_called_whatever_the_default() {
    let mut runtime = Runtime::new(options(Some("run")));
    let handle = load(&mut runtime, "test.js", 7, &["run", "getValue"]);
    assert_eq!(
        runtime.begin_call(&handle, Some("getValue")),
        Ok(Invocation { module_id: 7, function: "getValue".to_string(), timeout_ms: 50 })
    );
    assert_eq!(runtime.begin_call(&handle, Some("setValue")), Err(Error::MissingEntrypoint));
}

#[test]
fn select_entrypoint_follows_the_policy() {
    let exports = names(&["run", "stop"]);
    assert_eq!(select_entrypoint(&exports, Some("stop"), Some("run")), Ok("stop".to_string()));
    assert_eq!(select_entrypoint(&exports, Some("stop"), None), Ok("stop".to_string()));
    assert_eq!(select_entrypoint(&exports, None, Some("run")), Ok("run".to_string()));
    assert_eq!(select_entrypoint(&exports, None, None), Err(Error::MissingEntrypoint));
    assert_eq!(select_entrypoint(&exports, None, Some("main")), Err(Error::MissingEntrypoint));
    assert_eq!(select_entrypoint(&exports, Some("main"), Some("run")), Err(Error::MissingEntrypoint));
    assert_eq!(select_entrypoint(&names(&[]), None, Some("run")), Err(Error::MissingEntrypoint));
}

#[test]
fn call_through_a_foreign_handle_finds_no_module() {
    let mut one = Runtime::new(options(Some("run")));
    let other = Runtime::new(options(Some("run")));
    let handle = load(&mut one, "test.js", 1, &["run"]);
    assert_eq!(other.begin_call(&handle, None), Err(Error::ModuleNotFound));
    assert!(one.begin_call(&handle, None).is_ok());
}

#[test]
fn call_returns_the_value_of_the_engine() {
    let mut runtime = Runtime::new(options(None));
    let value = Value::parse("{\"total\":5}").unwrap();
    assert_eq!(runtime.finish_call(CallOutcome::Returned(value.clone())), Ok(value));
    assert_eq!(runtime.phase(), Phase::Ready);
}

#[test]
fn guest_exception_is_handed_on_and_is_not_fatal() {
    let mut runtime = Runtime::new(options(None));
    let thrown = Error::GuestException("Error: boom\n    at run (test.js:1:7)".to_string());
    assert_eq!(runtime.finish_call(CallOutcome::Failed(thrown.clone())), Err(thrown));
    assert_eq!(runtime.phase(), Phase::Ready);
    assert_eq!(
        runtime.finish_call(CallOutcome::Failed(Error::ArityOrTypeMismatch)),
        Err(Error::ArityOrTypeMismatch)
    );
    assert_eq!(
        runtime.finish_call(CallOutcome::Failed(Error::SerializationError)),
        Err(Error::SerializationError)
    );
    assert_eq!(runtime.phase(), Phase::Ready);
}

#[test]
fn timeout_terminates_the_runtime() {
    let mut runtime = Runtime::new(options(Some("run")));
    let handle = load(&mut runtime, "loop.js", 1, &["run"]);
    assert!(runtime.begin_call(&handle, None).is_ok());
    assert_eq!(runtime.finish_call(CallOutcome::Failed(Error::Timeout)), Err(Error::Timeout));
    assert_eq!(runtime.phase(), Phase::Terminated);
    assert_eq!(runtime.check_running(), Err(Error::Terminated));
    assert_eq!(runtime.begin_call(&handle, None), Err(Error::Terminated));
    assert_eq!(runtime.begin_call(&handle, Some("run")), Err(Error::Terminated));
    assert_eq!(runtime.begin_load(&module("other.js")), Err(Error::Terminated));
    assert_eq!(
        runtime.finish_load("other.js", LoadOutcome::Failed(Error::ModuleNotFound)),
        Err(Error::Terminated)
    );
    assert_eq!(runtime.resolve_import("loop.js", "main.js"), Err(Error::Terminated));
    assert_eq!(runtime.discard("loop.js"), Err(Error::Terminated));
    let value = Value::parse("1").unwrap();
    assert_eq!(runtime.finish_call(CallOutcome::Returned(value)), Err(Error::Terminated));
    assert_eq!(runtime.phase(), Phase::Terminated);
}

#[test]
fn timeout_during_a_load_terminates_the_runtime() {
    let mut runtime = Runtime::new(options(None));
    assert_eq!(runtime.begin_load(&module("loop.js")), Ok(LoadStart::Started));
    assert_eq!(runtime.finish_load("loop.js", LoadOutcome::Failed(Error::Timeout)), Err(Error::Timeout));
    assert_eq!(runtime.phase(), Phase::Terminated);
    assert_eq!(runtime.modules().handle("loop.js"), None);
    assert_eq!(runtime.begin_load(&module("loop.js")), Err(Error::Terminated));
}

#[test]
fn failed_load_leaves_the_runtime_ready() {
    let mut runtime = Runtime::new(options(None));
    assert_eq!(runtime.begin_load(&module("main.js")), Ok(LoadStart::Started));
    assert_eq!(runtime.resolve_import("./missing.js", "main.js"), Err(Error::ModuleNotFound));
    assert_eq!(
        runtime.finish_load("main.js", LoadOutcome::Failed(Error::ModuleNotFound)),
        Err(Error::ModuleNotFound)
    );
    assert_eq!(runtime.phase(), Phase::Ready);
    assert_eq!(runtime.modules().handle("main.js"), None);
    assert_eq!(runtime.begin_load(&module("main.js")), Ok(LoadStart::Started));
}

#[test]
fn loading_twice_in_one_runtime_gives_the_same_handle() {
    let mut runtime = Runtime::new(options(None));
    let first = load(&mut runtime, "counter.js", 3, &["increment", "count"]);
    assert_eq!(runtime.begin_load(&module("counter.js")), Ok(LoadStart::Existing(first.clone())));
    assert_eq!(runtime.modules().handle("counter.js"), Some(first));
}

#[test]
fn dispose_terminates_the_runtime() {
    let mut runtime = Runtime::new(options(Some("run")));
    let handle = load(&mut runtime, "test.js", 1, &["run"]);
    runtime.dispose();
    assert_eq!(runtime.phase(), Phase::Terminated);
    assert_eq!(runtime.timeout_ms(), 50);
    assert!(runtime.modules().knows(&handle));
    assert_eq!(runtime.begin_call(&handle, None), Err(Error::Terminated));
    runtime.dispose();
    assert_eq!(runtime.phase(), Phase::Terminated);
}

#[test]
fn evaluating_an_expression_loads_reads_and_discards() {
    let mut runtime = Runtime::new(options(None));
    let module = Module::expression("5 + 5");
    assert_eq!(runtime.begin_load(&module), Ok(LoadStart::Started));
    let outcome = LoadOutcome::Instantiated { module_id: 1, exports: names(&["default"]) };
    let handle = runtime.finish_load(module.specifier(), outcome).unwrap();
    assert!(handle.has_export("default"));
    let result = runtime.finish_call(CallOutcome::Returned(Value::parse("10").unwrap()));
    assert_eq!(result.unwrap().as_str(), "10");
    assert_eq!(runtime.discard(module.specifier()), Ok(true));
    assert_eq!(runtime.begin_load(&Module::expression("1")), Ok(LoadStart::Started));
}

#[test]
fn fatal_is_the_timeout_alone() {
    assert!(Error::Timeout.fatal());
    assert!(!Error::ModuleNotFound.fatal());
    assert!(!Error::CompileError("x".to_string()).fatal());
    assert!(!Error::GuestException("x".to_string()).fatal());
    assert!(!Error::PermissionDenied.fatal());
    assert!(!Error::MissingEntrypoint.fatal());
    assert!(!Error::ArityOrTypeMismatch.fatal());
    assert!(!Error::SerializationError.fatal());
    assert!(!Error::Terminated.fatal());
    assert!(!Error::WorkerUnavailable.fatal());
}

#[test]
fn suspended_call_is_driven_until_the_deadline() {
    let runtime = Runtime::new(options(None));
    assert_eq!(runtime.next_step(0, false), Drive::Pump { remaining_ms: 50 });
    assert_eq!(runtime.next_step(20, false), Drive::Pump { remaining_ms: 30 });
    assert_eq!(runtime.next_step(49, false), Drive::Pump { remaining_ms: 1 });
    assert_eq!(runtime.next_step(50, false), Drive::Interrupt);
    assert_eq!(runtime.next_step(51, false), Drive::Interrupt);
    assert_eq!(runtime.next_step(u64::MAX, false), Drive::Interrupt);
}

#[test]
fn call_with_a_result_finishes_whatever_the_time() {
    let runtime = Runtime::new(options(None));
    assert_eq!(runtime.next_step(0, true), Drive::Finish);
    assert_eq!(runtime.next_step(50, true), Drive::Finish);
    assert_eq!(runtime.next_step(5000, true), Drive::Finish);
}

#[test]
fn extreme_timeouts() {
    let mut never = options(None);
    never.timeout_ms = 0;
    assert_eq!(Runtime::new(never).next_step(0, false), Drive::Interrupt);
    let always = Runtime::new(RuntimeOptions::default());
    assert_eq!(always.next_step(0, false), Drive::Pump { remaining_ms: u64::MAX });
    assert_eq!(always.next_step(u64::MAX - 1, false), Drive::Pump { remaining_ms: 1 });
    assert_eq!(always.next_step(u64::MAX, false), Drive::Interrupt);
}

#[test]
fn platform_is_initialized_by_the_first_runtime_alone() {
    let mut platform = Platform::new();
    assert!(!platform.is_initialized());
    assert!(platform.claim());
    assert!(platform.is_initialized());
    assert!(!platform.claim());
    assert!(!platform.claim());
    assert!(platform.is_initialized());
}
