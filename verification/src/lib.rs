//! The orchestration layer of a script sandbox: the decisions that a host
//! makes around an engine that it does not control.
//!
//! The engine, its threads and its clock stay outside this library. Each
//! operation is split at the engine: one function decides what the engine is
//! asked to do, another takes what the engine answered and decides what the
//! caller gets and which state the sandbox is left in.
//!
//! - [`module_loader`] holds the modules of a runtime and resolves imports.
//! - [`runtime`] follows the life of a runtime and decides loads and calls.
//! - [`functions`] holds the functions of the host that guest code can call.
//! - [`value`] holds the values that cross between host and guest.
//! - [`worker`] decides when a runtime on a thread of its own stops serving.
//! - [`ext`] lists the extensions that grant a capability to guest code.

pub mod error;
pub mod ext;
pub mod functions;
pub mod module;
pub mod module_handle;
pub mod module_loader;
pub mod runtime;
pub mod specifier;
pub mod text;
pub mod value;
pub mod worker;

pub use error::Error;
pub use module::Module;
pub use module_handle::ModuleHandle;
pub use runtime::{Runtime, RuntimeOptions};
pub use value::{FunctionArguments, Value};
pub use worker::Worker;
