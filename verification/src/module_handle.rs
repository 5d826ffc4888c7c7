//! The handle that a runtime gives for a module that it has instantiated.

use vstd::prelude::*;
use crate::text::{contains_name, names_of};

verus! {

/// What a handle is: the value that its view gives.
pub struct ModuleHandleView {
    /// The characters of the specifier of the module.
    pub specifier: Seq<char>,
    /// The reference that the engine gave for the instantiated module.
    pub module_id: usize,
    /// The names that the module exports, in the order the engine gave them.
    pub exports: Seq<Seq<char>>,
}

/// The result of registering a module in a runtime: the reference that the
/// engine gave for it and the names that the module exports.
///
/// A handle belongs to the runtime that made it. Another runtime does not
/// know it, and refuses a call through it.
#[derive(Debug, Clone, PartialEq, Eq)]
pub struct ModuleHandle {
    specifier: String,
    module_id: usize,
    exports: Vec<String>,
}

impl View for ModuleHandle {
    type V = ModuleHandleView;

    closed spec fn view(&self) -> ModuleHandleView {
        ModuleHandleView {
            specifier: self.specifier@,
            module_id: self.module_id,
            exports: names_of(self.exports@),
        }
    }
}

impl ModuleHandle {
    /// The handle for the module `specifier`, which the engine instantiated
    /// under `module_id` with the exports `exports`.
    pub fn new(specifier: &str, module_id: usize, exports: Vec<String>) -> (r: ModuleHandle)
        ensures
            r@ == (ModuleHandleView {
                specifier: specifier@,
                module_id,
                exports: names_of(exports@),
            }),
    {
        ModuleHandle { specifier: specifier.to_owned(), module_id, exports }
    }

    /// The specifier of the module.
    pub fn specifier(&self) -> (r: &str)
        ensures
            r@ == self@.specifier,
    {
        self.specifier.as_str()
    }

    /// The reference that the engine gave for the module.
    pub fn module_id(&self) -> (r: usize)
        ensures
            r == self@.module_id,
    {
        self.module_id
    }

    /// The names that the module exports.
    pub fn exports(&self) -> (r: &Vec<String>)
        ensures
            names_of(r@) == self@.exports,
    {
        &self.exports
    }

    /// Whether the module exports `name`.
    pub fn has_export(&self, name: &str) -> (r: bool)
        ensures
            r == self@.exports.contains(name@),
    {
        contains_name(&self.exports, name)
    }
}

} // verus!
