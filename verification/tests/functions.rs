use rustyscript::functions::{FunctionTable, HostFunction};
use rustyscript::runtime::{Runtime, RuntimeOptions};
use rustyscript::value::{FunctionArguments, Value};
use rustyscript::Error;

type SyncFn = fn(&FunctionArguments) -> Result<Value, Error>;
type AsyncFn = fn(u32) -> u32;

fn number(arguments: &FunctionArguments, index: usize) -> Result<i64, Error> {
    let value = arguments.get(index).ok_or(Error::ArityOrTypeMismatch)?;
    value.as_str().parse::<i64>().map_err(|_| Error::ArityOrTypeMismatch)
}

fn add(arguments: &FunctionArguments) -> Result<Value, Error> {
    let sum = number(arguments, 0)? + number(arguments, 1)?;
    Value::parse(&format!("{}", sum))
}

fn zero(_arguments: &FunctionArguments) -> Result<Value, Error> {
    Value::parse("0")
}

fn later(x: u32) -> u32 {
    x + 1
}

fn call(table: &FunctionTable<SyncFn, AsyncFn>, name: &str, arguments: &FunctionArguments) -> Result<Value, Error> {
    match table.lookup(name) {
        Some(HostFunction::Sync(f)) => f(arguments),
        _ => Err(Error::MissingEntrypoint),
    }
}

#[test]
fn new_table_is_empty() {
    let table: FunctionTable<SyncFn, AsyncFn> = FunctionTable::new();
    assert!(table.lookup("add").is_none());
    assert!(!table.is_registered("add"));
    assert!(!table.is_registered(""));
}

#[test]
fn registered_add_sums_its_arguments() {
    let runtime = Runtime::new(RuntimeOptions::default());
    let mut table: FunctionTable<SyncFn, AsyncFn> = FunctionTable::new();
    assert_eq!(table.register(&runtime, "add", HostFunction::Sync(add)), Ok(()));
    assert!(table.is_registered("add"));
    let mut arguments = FunctionArguments::new();
    assert_eq!(arguments.push_text("2"), Ok(()));
    assert_eq!(arguments.push_text("3"), Ok(()));
    assert_eq!(call(&table, "add", &arguments).unwrap().as_str(), "5");
}

#[test]
fn registration_keeps_the_kind() {
    let runtime = Runtime::new(RuntimeOptions::default());
    let mut table: FunctionTable<SyncFn, AsyncFn> = FunctionTable::new();
    assert_eq!(table.register(&runtime, "now", HostFunction::Sync(zero)), Ok(()));
    assert_eq!(table.register(&runtime, "soon", HostFunction::Async(later)), Ok(()));
    assert!(matches!(table.lookup("now"), Some(HostFunction::Sync(_))));
    match table.lookup("soon") {
        Some(HostFunction::Async(f)) => assert_eq!(f(1), 2),
        _ => panic!("registered as asynchronous"),
    }
    assert!(table.lookup("never").is_none());
}

#[test]
fn later_registration_replaces_the_earlier() {
    let runtime = Runtime::new(RuntimeOptions::default());
    let mut table: FunctionTable<SyncFn, AsyncFn> = FunctionTable::new();
    assert_eq!(table.register(&runtime, "f", HostFunction::Sync(zero)), Ok(()));
    assert_eq!(table.register(&runtime, "g", HostFunction::Sync(zero)), Ok(()));
    assert_eq!(table.register(&runtime, "f", HostFunction::Sync(add)), Ok(()));
    let mut arguments = FunctionArguments::new();
    assert_eq!(arguments.push_text("20"), Ok(()));
    assert_eq!(arguments.push_text("22"), Ok(()));
    assert_eq!(call(&table, "f", &arguments).unwrap().as_str(), "42");
    assert_eq!(call(&table, "g", &arguments).unwrap().as_str(), "0");
    assert_eq!(table.register(&runtime, "f", HostFunction::Async(later)), Ok(()));
    assert!(matches!(table.lookup("f"), Some(HostFunction::Async(_))));
}

#[test]
fn terminated_runtime_takes_no_function() {
    let mut runtime = Runtime::new(RuntimeOptions::default());
    let mut table: FunctionTable<SyncFn, AsyncFn> = FunctionTable::new();
    assert_eq!(table.register(&runtime, "kept", HostFunction::Sync(zero)), Ok(()));
    runtime.dispose();
    assert_eq!(table.register(&runtime, "add", HostFunction::Sync(add)), Err(Error::Terminated));
    assert!(!table.is_registered("add"));
    assert!(table.is_registered("kept"));
}

#[test]
fn tables_of_two_runtimes_are_apart() {
    let runtime = Runtime::new(RuntimeOptions::default());
    let mut one: FunctionTable<SyncFn, AsyncFn> = FunctionTable::new();
    let mut other: FunctionTable<SyncFn, AsyncFn> = FunctionTable::new();
    assert_eq!(one.register(&runtime, "set", HostFunction::Sync(add)), Ok(()));
    assert!(!other.is_registered("set"));
    assert_eq!(other.register(&runtime, "set", HostFunction::Sync(zero)), Ok(()));
    let mut arguments = FunctionArguments::new();
    assert_eq!(arguments.push_text("1"), Ok(()));
    assert_eq!(arguments.push_text("1"), Ok(()));
    assert_eq!(call(&one, "set", &arguments).unwrap().as_str(), "2");
    assert_eq!(call(&other, "set", &arguments).unwrap().as_str(), "0");
}
