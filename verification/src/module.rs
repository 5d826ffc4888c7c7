//! A script module as the host hands it over.

use vstd::prelude::*;
use vstd::string::*;

verus! {

/// The dialect in which the source of a module is written.
#[derive(Debug, Clone, Copy, PartialEq, Eq, Structural)]
pub enum Dialect {
    /// The dialect that the engine runs as it is.
    Native,
    /// The typed dialect, which is transpiled before the engine sees it.
    Transpiled,
}

/// Where the source of a module came from.
#[derive(Debug, Clone, Copy, PartialEq, Eq, Structural)]
pub enum ModuleKind {
    /// Text that the host supplied together with a specifier.
    Text,
    /// A file that the host read from the filesystem.
    File,
}

/// What a module is: the value that its view gives.
pub struct ModuleView {
    /// The characters of the specifier.
    pub specifier: Seq<char>,
    /// The characters of the source.
    pub source: Seq<char>,
    /// The dialect of the source.
    pub dialect: Dialect,
    /// Where the source came from.
    pub kind: ModuleKind,
}

/// A module: its identity, its source, the dialect of the source and where
/// it came from. Nothing of it changes after it was made.
#[derive(Debug, Clone, PartialEq, Eq)]
pub struct Module {
    specifier: String,
    source: String,
    dialect: Dialect,
    kind: ModuleKind,
}

impl View for Module {
    type V = ModuleView;

    closed spec fn view(&self) -> ModuleView {
        ModuleView {
            specifier: self.specifier@,
            source: self.source@,
            dialect: self.dialect,
            kind: self.kind,
        }
    }
}

/// The specifier of the module that holds an expression to evaluate.
pub open spec fn expression_specifier() -> Seq<char> {
    "<expression>"@
}

/// The source of the module that holds `expression`: the expression as the
/// default export.
pub open spec fn expression_source(expression: Seq<char>) -> Seq<char> {
    "export default ("@ + expression + ");"@
}

impl Module {
    /// The module that holds `expression` as its default export, written in
    /// the dialect of the engine. Evaluating the expression is loading this
    /// module, reading its default export and discarding the module.
    pub fn expression(expression: &str) -> (r: Module)
        ensures
            r@ == (ModuleView {
                specifier: expression_specifier(),
                source: expression_source(expression@),
                dialect: Dialect::Native,
                kind: ModuleKind::Text,
            }),
    {
        let source = String::from_str("export default (").concat(expression).concat(");");
        Module {
            specifier: String::from_str("<expression>"),
            source,
            dialect: Dialect::Native,
            kind: ModuleKind::Text,
        }
    }

    /// A module with the given identity, source, dialect and origin.
    pub fn new(specifier: &str, source: &str, dialect: Dialect, kind: ModuleKind) -> (r: Module)
        ensures
            r@ == (ModuleView { specifier: specifier@, source: source@, dialect, kind }),
    {
        Module { specifier: specifier.to_owned(), source: source.to_owned(), dialect, kind }
    }

    /// The specifier under which the module is registered and imported.
    pub fn specifier(&self) -> (r: &str)
        ensures
            r@ == self@.specifier,
    {
        self.specifier.as_str()
    }

    /// The source text.
    pub fn source(&self) -> (r: &str)
        ensures
            r@ == self@.source,
    {
        self.source.as_str()
    }

    /// The dialect of the source.
    pub fn dialect(&self) -> (r: Dialect)
        ensures
            r == self@.dialect,
    {
        self.dialect
    }

    /// Where the source came from.
    pub fn kind(&self) -> (r: ModuleKind)
        ensures
            r == self@.kind,
    {
        self.kind
    }

    /// Whether the source must be transpiled before the engine compiles it.
    pub fn needs_transpiling(&self) -> (r: bool)
        ensures
            r == (self@.dialect == Dialect::Transpiled),
    {
        match self.dialect {
            Dialect::Transpiled => true,
            Dialect::Native => false,
        }
    }
}

} // verus!
