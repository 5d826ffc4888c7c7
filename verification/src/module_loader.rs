//! The module registry: which modules a runtime holds, how an import is
//! resolved against them, and how a load begins and ends.

use vstd::prelude::*;
use crate::error::{agrees, Error};
use crate::module::Module;
use crate::module_handle::{ModuleHandle, ModuleHandleView};
use crate::specifier::{classify, kind_of, SpecifierKind};
use crate::text::{copy_names, names_of, option_text, same_names, str_equal};

verus! {

/// The capabilities that decide which imports a runtime may fetch.
#[derive(Debug, Clone, Copy, PartialEq, Eq, Structural)]
pub struct Capabilities {
    /// Whether imports may be read from the filesystem.
    pub fs_import: bool,
    /// Whether imports may be fetched from the network.
    pub url_import: bool,
}

/// What a registry holds for one specifier.
pub enum ModuleState {
    /// The load has begun and has not ended.
    Loading,
    /// The module is instantiated.
    Ready {
        /// The reference that the engine gave for the module.
        module_id: usize,
        /// The names that the module exports.
        exports: Seq<Seq<char>>,
    },
}

/// How an import is to be satisfied.
#[derive(Debug, Clone, Copy, PartialEq, Eq, Structural)]
pub enum Resolution {
    /// By the instantiated module that is registered under the specifier.
    Registered,
    /// By the module registered under the specifier whose load has not
    /// ended: the import closes a cycle and sees the bindings made so far.
    InProgress,
    /// By a module that is first to be read from the filesystem.
    ReadFile,
    /// By a module that is first to be fetched from the network.
    FetchUrl,
}

/// An import that can be satisfied: what it names and how.
#[derive(Debug, Clone, PartialEq, Eq)]
pub struct Import {
    /// The target of the import: a registered name or a location.
    pub target: String,
    /// How the import is to be satisfied.
    pub resolution: Resolution,
}

/// What an import is: the value that its view gives.
pub struct ImportView {
    /// The characters of the target.
    pub target: Seq<char>,
    /// How the import is to be satisfied.
    pub resolution: Resolution,
}

impl View for Import {
    type V = ImportView;

    open spec fn view(&self) -> ImportView {
        ImportView { target: self.target@, resolution: self.resolution }
    }
}

/// What the registry answers when a load begins.
#[derive(Debug, Clone, PartialEq, Eq)]
pub enum LoadStart {
    /// The module is already instantiated: here is its handle, and the
    /// engine is not to compile it again.
    Existing(ModuleHandle),
    /// A load of the module is under way, and no second one begins.
    InProgress,
    /// The load has begun: the engine is to compile and instantiate.
    Started,
}

/// What the caller of a load gets before the engine is asked, `start`
/// being the answer of the registry: the handle of a module that is
/// instantiated, nothing yet if the engine is to load the module, and that
/// the module is not found if its load is under way.
pub open spec fn early_answer(start: LoadStart) -> Result<Option<ModuleHandle>, Error> {
    match start {
        LoadStart::Existing(handle) => Ok(Some(handle)),
        LoadStart::Started => Ok(None),
        LoadStart::InProgress => Err(Error::ModuleNotFound),
    }
}

impl LoadStart {
    /// What the caller of the load gets before the engine is asked: the
    /// handle of a module that is instantiated, and `None` if the engine is
    /// to load the module. A load that is under way cannot be waited for by
    /// a caller on the thread that runs it: such a caller is told that the
    /// module is not found.
    pub fn answer(self) -> (r: Result<Option<ModuleHandle>, Error>)
        ensures
            r == early_answer(self),
    {
        match self {
            LoadStart::Existing(handle) => Ok(Some(handle)),
            LoadStart::Started => Ok(None),
            LoadStart::InProgress => Err(Error::ModuleNotFound),
        }
    }
}

/// What the engine reports when a load ends.
#[derive(Debug, Clone, PartialEq, Eq)]
pub enum LoadOutcome {
    /// The module was compiled and instantiated.
    Instantiated {
        /// The reference that the engine gave for the module.
        module_id: usize,
        /// The names that the module exports.
        exports: Vec<String>,
    },
    /// The load failed with the given error.
    Failed(Error),
}

/// The location that `url::Url::join` gives for `specifier` against the
/// location `base`, both as text; `None` where the base is no URL or the
/// join fails.
pub uninterp spec fn joined_location(base: Seq<char>, specifier: Seq<char>) -> Option<Seq<char>>;

/// Joins `specifier` to the location `base`: parses the base with
/// `url::Url::parse` and resolves the specifier against it with
/// `url::Url::join`. The claim is that the result depends on the two texts
/// alone; both calls return an error, never a panic, for text that they
/// reject.
#[verifier::external_body]
fn join_location(base: &str, specifier: &str) -> (r: Option<String>)
    ensures
        option_text(r) == joined_location(base@, specifier@),
{
    let base = url::Url::parse(base).ok()?;
    base.join(specifier).ok().map(String::from)
}

/// The target that an import names: the specifier joined to the location of
/// the importing module where the specifier is relative, the specifier
/// itself where it is not. A relative specifier that could not be joined
/// has no target.
pub open spec fn import_target(specifier: Seq<char>, location: Option<Seq<char>>) -> Option<
    Seq<char>,
> {
    if kind_of(specifier) is Relative {
        location
    } else {
        Some(specifier)
    }
}

/// How the target `target` is satisfied by a registry that holds `table`
/// and has the capabilities `capabilities`.
///
/// A registered target is satisfied by what is registered, whatever its
/// kind. One that is not registered can be fetched if it is a location in
/// the filesystem or on the network and the matching capability is there;
/// without the capability it is refused, and any other target is not found.
pub open spec fn resolve_target(
    table: Map<Seq<char>, ModuleState>,
    capabilities: Capabilities,
    target: Seq<char>,
) -> Result<Resolution, Error> {
    if table.contains_key(target) {
        if table[target] is Loading {
            Ok(Resolution::InProgress)
        } else {
            Ok(Resolution::Registered)
        }
    } else {
        match kind_of(target) {
            SpecifierKind::File => if capabilities.fs_import {
                Ok(Resolution::ReadFile)
            } else {
                Err(Error::PermissionDenied)
            },
            SpecifierKind::Network => if capabilities.url_import {
                Ok(Resolution::FetchUrl)
            } else {
                Err(Error::PermissionDenied)
            },
            SpecifierKind::Relative | SpecifierKind::Bare => Err(Error::ModuleNotFound),
        }
    }
}

/// What the import `specifier` names and how it is satisfied, `location`
/// being the specifier joined to the location of the importing module, if
/// it could be joined. An import without a target is not found.
pub open spec fn resolve(
    table: Map<Seq<char>, ModuleState>,
    capabilities: Capabilities,
    specifier: Seq<char>,
    location: Option<Seq<char>>,
) -> Result<ImportView, Error> {
    match import_target(specifier, location) {
        Some(target) => match resolve_target(table, capabilities, target) {
            Ok(resolution) => Ok(ImportView { target, resolution }),
            Err(e) => Err(e),
        },
        None => Err(Error::ModuleNotFound),
    }
}

/// The table after a load of `specifier` has begun: a specifier that is not
/// registered is entered as loading, and nothing else changes.
pub open spec fn table_after_begin(
    table: Map<Seq<char>, ModuleState>,
    specifier: Seq<char>,
) -> Map<Seq<char>, ModuleState> {
    if table.contains_key(specifier) {
        table
    } else {
        table.insert(specifier, ModuleState::Loading)
    }
}

/// Whether `answer` is what the registry answers when a load of `specifier`
/// begins on `table`.
pub open spec fn answers_begin(
    table: Map<Seq<char>, ModuleState>,
    specifier: Seq<char>,
    answer: LoadStart,
) -> bool {
    if table.contains_key(specifier) {
        match table[specifier] {
            ModuleState::Loading => answer is InProgress,
            ModuleState::Ready { module_id, exports } => answer matches LoadStart::Existing(h)
                && h@ == (ModuleHandleView { specifier, module_id, exports }),
        }
    } else {
        answer is Started
    }
}

/// Whether a load of `specifier` is under way in `table`.
pub open spec fn is_loading(table: Map<Seq<char>, ModuleState>, specifier: Seq<char>) -> bool {
    table.contains_key(specifier) && table[specifier] is Loading
}

/// The table after the load of `specifier` has ended with `outcome`: a
/// module that was instantiated is entered as ready, one that failed is
/// taken out, and where no load of the specifier was under way nothing
/// changes.
pub open spec fn table_after_finish(
    table: Map<Seq<char>, ModuleState>,
    specifier: Seq<char>,
    outcome: LoadOutcome,
) -> Map<Seq<char>, ModuleState> {
    if is_loading(table, specifier) {
        match outcome {
            LoadOutcome::Instantiated { module_id, exports } => table.insert(
                specifier,
                ModuleState::Ready { module_id, exports: names_of(exports@) },
            ),
            LoadOutcome::Failed(_) => table.remove(specifier),
        }
    } else {
        table
    }
}

/// Whether `answer` is what the registry answers when the load of
/// `specifier` ends with `outcome` on `table`.
pub open spec fn answers_finish(
    table: Map<Seq<char>, ModuleState>,
    specifier: Seq<char>,
    outcome: LoadOutcome,
    answer: Result<ModuleHandle, Error>,
) -> bool {
    if is_loading(table, specifier) {
        match outcome {
            LoadOutcome::Instantiated { module_id, exports } => answer matches Ok(h) && h@ == (
            ModuleHandleView { specifier, module_id, exports: names_of(exports@) }),
            LoadOutcome::Failed(e) => answer == Err::<ModuleHandle, Error>(e),
        }
    } else {
        answer == Err::<ModuleHandle, Error>(Error::ModuleNotFound)
    }
}

/// Whether `table` holds, as instantiated, the module that `handle` speaks
/// of: the same specifier, the same reference and the same exports.
pub open spec fn holds_handle(table: Map<Seq<char>, ModuleState>, handle: ModuleHandleView) -> bool {
    table.contains_key(handle.specifier) && table[handle.specifier] == (ModuleState::Ready {
        module_id: handle.module_id,
        exports: handle.exports,
    })
}

enum Status {
    Loading,
    Ready,
}

struct Entry {
    specifier: String,
    module_id: usize,
    exports: Vec<String>,
    status: Status,
}

impl Entry {
    spec fn state(self) -> ModuleState {
        if self.status is Loading {
            ModuleState::Loading
        } else {
            ModuleState::Ready { module_id: self.module_id, exports: names_of(self.exports@) }
        }
    }
}

spec fn entry_at(entries: Seq<Entry>, i: int, s: Seq<char>) -> bool {
    0 <= i < entries.len() && entries[i].specifier@ == s
}

spec fn slot_of(entries: Seq<Entry>, s: Seq<char>) -> int {
    choose|i: int| entry_at(entries, i, s)
}

spec fn unique(entries: Seq<Entry>) -> bool {
    forall|i: int, j: int, s: Seq<char>|
        #![trigger entry_at(entries, i, s), entry_at(entries, j, s)]
        entry_at(entries, i, s) && entry_at(entries, j, s) ==> i == j
}

spec fn table_of(entries: Seq<Entry>) -> Map<Seq<char>, ModuleState> {
    Map::new(
        |s: Seq<char>| exists|i: int| entry_at(entries, i, s),
        |s: Seq<char>| entries[slot_of(entries, s)].state(),
    )
}

proof fn lemma_found(entries: Seq<Entry>, i: int, s: Seq<char>)
    requires
        unique(entries),
        entry_at(entries, i, s),
    ensures
        table_of(entries).contains_key(s),
        table_of(entries)[s] == entries[i].state(),
{
    assert(entry_at(entries, slot_of(entries, s), s));
}

proof fn lemma_absent(entries: Seq<Entry>, s: Seq<char>)
    requires
        forall|i: int| !entry_at(entries, i, s),
    ensures
        !table_of(entries).contains_key(s),
{
}

/// Two lists of entries hold the same table apart from the specifier `s`
/// if each entry under another specifier occurs in both.
proof fn lemma_same_elsewhere(before: Seq<Entry>, after: Seq<Entry>, s: Seq<char>)
    requires
        unique(before),
        unique(after),
        forall|i: int, t: Seq<char>|
            t != s && #[trigger] entry_at(before, i, t) ==> exists|j: int|
                entry_at(after, j, t) && after[j] == before[i],
        forall|j: int, t: Seq<char>|
            t != s && #[trigger] entry_at(after, j, t) ==> exists|i: int|
                entry_at(before, i, t) && after[j] == before[i],
    ensures
        forall|t: Seq<char>|
            t != s ==> (table_of(after).contains_key(t) <==> table_of(before).contains_key(t)),
        forall|t: Seq<char>|
            t != s && table_of(before).contains_key(t) ==> table_of(after)[t] == table_of(
                before,
            )[t],
{
    assert forall|t: Seq<char>| t != s && table_of(before).contains_key(t) implies table_of(
        after,
    ).contains_key(t) && table_of(after)[t] == table_of(before)[t] by {
        let i = slot_of(before, t);
        assert(entry_at(before, i, t));
        let j = choose|j: int| entry_at(after, j, t) && after[j] == before[i];
        lemma_found(before, i, t);
        lemma_found(after, j, t);
    }
    assert forall|t: Seq<char>| t != s && table_of(after).contains_key(t) implies table_of(
        before,
    ).contains_key(t) by {
        let j = slot_of(after, t);
        assert(entry_at(after, j, t));
        let i = choose|i: int| entry_at(before, i, t) && after[j] == before[i];
        lemma_found(before, i, t);
    }
}

proof fn lemma_push(entries: Seq<Entry>, e: Entry)
    requires
        unique(entries),
        forall|i: int| !entry_at(entries, i, e.specifier@),
    ensures
        unique(entries.push(e)),
        table_of(entries.push(e)) == table_of(entries).insert(e.specifier@, e.state()),
{
    let after = entries.push(e);
    let s = e.specifier@;
    let n = entries.len() as int;
    assert(entry_at(after, n, s));
    assert forall|i: int, t: Seq<char>| i != n implies (entry_at(after, i, t) <==> entry_at(
        entries,
        i,
        t,
    )) by {}
    assert(unique(after)) by {
        assert forall|i: int, j: int, t: Seq<char>|
            #![trigger entry_at(after, i, t), entry_at(after, j, t)]
            entry_at(after, i, t) && entry_at(after, j, t) implies i == j by {
            if i != n && j != n {
                assert(entry_at(entries, i, t) && entry_at(entries, j, t));
            } else if i == n && j != n {
                assert(entry_at(entries, j, s));
            } else if j == n && i != n {
                assert(entry_at(entries, i, s));
            }
        }
    }
    lemma_found(after, n, s);
    assert forall|i: int, t: Seq<char>| t != s && #[trigger] entry_at(entries, i, t) implies exists|
        j: int,
    |
        entry_at(after, j, t) && after[j] == entries[i] by {
        assert(entry_at(after, i, t));
    }
    assert forall|j: int, t: Seq<char>| t != s && #[trigger] entry_at(after, j, t) implies exists|
        i: int,
    |
        entry_at(entries, i, t) && after[j] == entries[i] by {
        assert(entry_at(entries, j, t));
    }
    lemma_same_elsewhere(entries, after, s);
    lemma_absent(entries, s);
    assert(table_of(after) =~= table_of(entries).insert(s, e.state()));
}

proof fn lemma_update(entries: Seq<Entry>, k: int, e: Entry)
    requires
        unique(entries),
        0 <= k < entries.len(),
        e.specifier@ == entries[k].specifier@,
    ensures
        unique(entries.update(k, e)),
        table_of(entries.update(k, e)) == table_of(entries).insert(e.specifier@, e.state()),
{
    let after = entries.update(k, e);
    let s = e.specifier@;
    assert forall|i: int, t: Seq<char>| entry_at(after, i, t) <==> entry_at(entries, i, t) by {}
    assert(unique(after)) by {
        assert forall|i: int, j: int, t: Seq<char>|
            #![trigger entry_at(after, i, t), entry_at(after, j, t)]
            entry_at(after, i, t) && entry_at(after, j, t) implies i == j by {
            assert(entry_at(entries, i, t) && entry_at(entries, j, t));
        }
    }
    assert(entry_at(after, k, s));
    assert(entry_at(entries, k, s));
    lemma_found(after, k, s);
    assert forall|i: int, t: Seq<char>| t != s && #[trigger] entry_at(entries, i, t) implies exists|
        j: int,
    |
        entry_at(after, j, t) && after[j] == entries[i] by {
        assert(entry_at(after, i, t));
    }
    assert forall|j: int, t: Seq<char>| t != s && #[trigger] entry_at(after, j, t) implies exists|
        i: int,
    |
        entry_at(entries, i, t) && after[j] == entries[i] by {
        assert(entry_at(entries, j, t));
    }
    lemma_same_elsewhere(entries, after, s);
    assert(table_of(after) =~= table_of(entries).insert(s, e.state()));
}

proof fn lemma_remove(entries: Seq<Entry>, k: int)
    requires
        unique(entries),
        0 <= k < entries.len(),
    ensures
        unique(entries.remove(k)),
        table_of(entries.remove(k)) == table_of(entries).remove(entries[k].specifier@),
{
    let after = entries.remove(k);
    let s = entries[k].specifier@;
    assert(entry_at(entries, k, s));
    assert forall|j: int, t: Seq<char>| entry_at(after, j, t) implies entry_at(
        entries,
        if j < k {
            j
        } else {
            j + 1
        },
        t,
    ) by {}
    assert(unique(after)) by {
        assert forall|i: int, j: int, t: Seq<char>|
            #![trigger entry_at(after, i, t), entry_at(after, j, t)]
            entry_at(after, i, t) && entry_at(after, j, t) implies i == j by {
            let a = if i < k { i } else { i + 1 };
            let b = if j < k { j } else { j + 1 };
            assert(entry_at(entries, a, t) && entry_at(entries, b, t));
        }
    }
    assert forall|j: int| !entry_at(after, j, s) by {
        if entry_at(after, j, s) {
            let b = if j < k { j } else { j + 1 };
            assert(entry_at(entries, b, s));
        }
    }
    lemma_absent(after, s);
    assert forall|i: int, t: Seq<char>| t != s && #[trigger] entry_at(entries, i, t) implies exists|
        j: int,
    |
        entry_at(after, j, t) && after[j] == entries[i] by {
        let j = if i < k { i } else { i - 1 };
        assert(entry_at(after, j, t));
    }
    assert forall|j: int, t: Seq<char>| t != s && #[trigger] entry_at(after, j, t) implies exists|
        i: int,
    |
        entry_at(entries, i, t) && after[j] == entries[i] by {
        let i = if j < k { j } else { j + 1 };
        assert(entry_at(entries, i, t));
    }
    lemma_same_elsewhere(entries, after, s);
    assert(table_of(after) =~= table_of(entries).remove(s));
}

/// The modules of one runtime, by specifier.
///
/// Each specifier is registered at most once. An entry is made when a load
/// begins and is taken out again if the load fails, so that a module is
/// either registered whole or not at all.
pub struct ModuleRegistry {
    entries: Vec<Entry>,
    capabilities: Capabilities,
}

impl View for ModuleRegistry {
    type V = Map<Seq<char>, ModuleState>;

    closed spec fn view(&self) -> Map<Seq<char>, ModuleState> {
        table_of(self.entries@)
    }
}

impl ModuleRegistry {
    #[verifier::type_invariant]
    spec fn well_formed(self) -> bool {
        unique(self.entries@)
    }

    /// The capabilities that the registry was made with.
    pub closed spec fn capabilities(self) -> Capabilities {
        self.capabilities
    }

    /// A registry that holds no module.
    pub fn new(capabilities: Capabilities) -> (r: ModuleRegistry)
        ensures
            r@ == Map::<Seq<char>, ModuleState>::empty(),
            r.capabilities() == capabilities,
    {
        let r = ModuleRegistry { entries: Vec::new(), capabilities };
        assert(r@ =~= Map::<Seq<char>, ModuleState>::empty());
        r
    }

    fn find(&self, specifier: &str) -> (r: Option<usize>)
        ensures
            match r {
                Some(i) => entry_at(self.entries@, i as int, specifier@),
                None => forall|i: int| !entry_at(self.entries@, i, specifier@),
            },
    {
        let mut i: usize = 0;
        while i < self.entries.len()
            invariant
                i <= self.entries.len(),
                forall|j: int| 0 <= j < i ==> !entry_at(self.entries@, j, specifier@),
            decreases self.entries.len() - i,
        {
            if str_equal(self.entries[i].specifier.as_str(), specifier) {
                return Some(i);
            }
            i += 1;
        }
        None
    }

    /// What the import `specifier`, found in the module at the location
    /// `referrer`, names and how it is to be satisfied. A relative specifier
    /// is joined to the location of the importing module and the joined
    /// location is looked up; any other specifier is looked up as it is
    /// written.
    pub fn resolve_import(&self, specifier: &str, referrer: &str) -> (r: Result<Import, Error>)
        ensures
            agrees(
                r,
                resolve(
                    self@,
                    self.capabilities(),
                    specifier@,
                    joined_location(referrer@, specifier@),
                ),
            ),
    {
        match classify(specifier) {
            SpecifierKind::Relative => self.resolve_import_at(
                specifier,
                join_location(referrer, specifier),
            ),
            _ => self.resolve_import_at(specifier, None),
        }
    }

    /// What the import `specifier` names and how it is to be satisfied,
    /// given the location that joining it to the location of the importing
    /// module gave, or `None` if it could not be joined. The location is
    /// looked at only where the specifier is relative.
    pub fn resolve_import_at(&self, specifier: &str, location: Option<String>) -> (r: Result<
        Import,
        Error,
    >)
        ensures
            agrees(r, resolve(self@, self.capabilities(), specifier@, option_text(location))),
    {
        let target = match classify(specifier) {
            SpecifierKind::Relative => location,
            _ => Some(specifier.to_owned()),
        };
        match target {
            Some(target) => match self.resolve_located(target.as_str()) {
                Ok(resolution) => Ok(Import { target, resolution }),
                Err(e) => Err(e),
            },
            None => Err(Error::ModuleNotFound),
        }
    }

    /// How the import of `target`, a name or a location that needs no
    /// joining, is to be satisfied.
    pub fn resolve_located(&self, target: &str) -> (r: Result<Resolution, Error>)
        ensures
            r == resolve_target(self@, self.capabilities(), target@),
    {
        proof {
            use_type_invariant(self);
        }
        match self.find(target) {
            Some(i) => {
                proof {
                    lemma_found(self.entries@, i as int, target@);
                }
                match self.entries[i].status {
                    Status::Loading => Ok(Resolution::InProgress),
                    Status::Ready => Ok(Resolution::Registered),
                }
            },
            None => {
                proof {
                    lemma_absent(self.entries@, target@);
                }
                match classify(target) {
                    SpecifierKind::File => if self.capabilities.fs_import {
                        Ok(Resolution::ReadFile)
                    } else {
                        Err(Error::PermissionDenied)
                    },
                    SpecifierKind::Network => if self.capabilities.url_import {
                        Ok(Resolution::FetchUrl)
                    } else {
                        Err(Error::PermissionDenied)
                    },
                    _ => Err(Error::ModuleNotFound),
                }
            },
        }
    }

    /// The handle of the module registered under `specifier`, if it is
    /// instantiated.
    pub fn handle(&self, specifier: &str) -> (r: Option<ModuleHandle>)
        ensures
            match r {
                Some(h) => holds_handle(self@, h@) && h@.specifier == specifier@,
                None => !self@.contains_key(specifier@) || self@[specifier@] is Loading,
            },
    {
        proof {
            use_type_invariant(self);
        }
        match self.find(specifier) {
            Some(i) => {
                proof {
                    lemma_found(self.entries@, i as int, specifier@);
                }
                match self.entries[i].status {
                    Status::Loading => None,
                    Status::Ready => Some(
                        ModuleHandle::new(
                            specifier,
                            self.entries[i].module_id,
                            copy_names(&self.entries[i].exports),
                        ),
                    ),
                }
            },
            None => {
                proof {
                    lemma_absent(self.entries@, specifier@);
                }
                None
            },
        }
    }

    /// Whether the registry holds, as instantiated, the module that `handle`
    /// speaks of. A handle that another registry gave is not known here
    /// unless this one holds the same module under the same reference.
    pub fn knows(&self, handle: &ModuleHandle) -> (r: bool)
        ensures
            r == holds_handle(self@, handle@),
    {
        proof {
            use_type_invariant(self);
        }
        match self.find(handle.specifier()) {
            Some(i) => {
                proof {
                    lemma_found(self.entries@, i as int, handle@.specifier);
                }
                match self.entries[i].status {
                    Status::Loading => false,
                    Status::Ready => self.entries[i].module_id == handle.module_id()
                        && same_names(&self.entries[i].exports, handle.exports()),
                }
            },
            None => {
                proof {
                    lemma_absent(self.entries@, handle@.specifier);
                }
                false
            },
        }
    }

    /// Begins the load of `module`.
    ///
    /// A module that is registered is not loaded again: the answer is its
    /// handle, or that its load is under way, and the registry is left as it
    /// was. Otherwise the module is entered as loading and the engine is to
    /// compile and instantiate it.
    pub fn begin_load(&mut self, module: &Module) -> (r: LoadStart)
        ensures
            final(self)@ == table_after_begin(old(self)@, module@.specifier),
            answers_begin(old(self)@, module@.specifier, r),
            final(self).capabilities() == old(self).capabilities(),
    {
        proof {
            use_type_invariant(&*self);
        }
        match self.find(module.specifier()) {
            Some(i) => {
                proof {
                    lemma_found(self.entries@, i as int, module@.specifier);
                }
                match self.entries[i].status {
                    Status::Loading => LoadStart::InProgress,
                    Status::Ready => LoadStart::Existing(
                        ModuleHandle::new(
                            module.specifier(),
                            self.entries[i].module_id,
                            copy_names(&self.entries[i].exports),
                        ),
                    ),
                }
            },
            None => {
                let entry = Entry {
                    specifier: module.specifier().to_owned(),
                    module_id: 0,
                    exports: Vec::new(),
                    status: Status::Loading,
                };
                proof {
                    lemma_absent(self.entries@, module@.specifier);
                    lemma_push(self.entries@, entry);
                }
                let mut entries: Vec<Entry> = Vec::new();
                core::mem::swap(&mut self.entries, &mut entries);
                entries.push(entry);
                core::mem::swap(&mut self.entries, &mut entries);
                LoadStart::Started
            },
        }
    }

    /// Takes the module registered under `specifier` out of the registry,
    /// whatever its state, and tells whether there was one. A later load of
    /// the specifier compiles the module anew.
    pub fn discard(&mut self, specifier: &str) -> (r: bool)
        ensures
            r == old(self)@.contains_key(specifier@),
            final(self)@ == old(self)@.remove(specifier@),
            final(self).capabilities() == old(self).capabilities(),
    {
        proof {
            use_type_invariant(&*self);
        }
        match self.find(specifier) {
            Some(i) => {
                proof {
                    lemma_found(self.entries@, i as int, specifier@);
                    lemma_remove(self.entries@, i as int);
                }
                let mut entries: Vec<Entry> = Vec::new();
                core::mem::swap(&mut self.entries, &mut entries);
                let _ = entries.remove(i);
                core::mem::swap(&mut self.entries, &mut entries);
                true
            },
            None => {
                proof {
                    lemma_absent(self.entries@, specifier@);
                    assert(self@.remove(specifier@) =~= self@);
                }
                false
            },
        }
    }

    /// Ends the load of `specifier` with what the engine reported.
    ///
    /// A module that was instantiated becomes ready and its handle is
    /// returned. A load that failed leaves no trace: the entry made when it
    /// began is taken out and the error is handed on. Where no load of the
    /// specifier is under way, the registry is left as it was and the module
    /// is reported as not found.
    pub fn finish_load(&mut self, specifier: &str, outcome: LoadOutcome) -> (r: Result<
        ModuleHandle,
        Error,
    >)
        ensures
            final(self)@ == table_after_finish(old(self)@, specifier@, outcome),
            answers_finish(old(self)@, specifier@, outcome, r),
            final(self).capabilities() == old(self).capabilities(),
    {
        proof {
            use_type_invariant(&*self);
        }
        match self.find(specifier) {
            Some(i) => {
                proof {
                    lemma_found(self.entries@, i as int, specifier@);
                }
                match self.entries[i].status {
                    Status::Ready => Err(Error::ModuleNotFound),
                    Status::Loading => match outcome {
                        LoadOutcome::Instantiated { module_id, exports } => {
                            let handle = ModuleHandle::new(
                                specifier,
                                module_id,
                                copy_names(&exports),
                            );
                            let entry = Entry {
                                specifier: specifier.to_owned(),
                                module_id,
                                exports,
                                status: Status::Ready,
                            };
                            proof {
                                lemma_update(self.entries@, i as int, entry);
                            }
                            let mut entries: Vec<Entry> = Vec::new();
                            core::mem::swap(&mut self.entries, &mut entries);
                            entries.set(i, entry);
                            core::mem::swap(&mut self.entries, &mut entries);
                            Ok(handle)
                        },
                        LoadOutcome::Failed(e) => {
                            proof {
                                lemma_remove(self.entries@, i as int);
                            }
                            let mut entries: Vec<Entry> = Vec::new();
                            core::mem::swap(&mut self.entries, &mut entries);
                            let _ = entries.remove(i);
                            core::mem::swap(&mut self.entries, &mut entries);
                            Err(e)
                        },
                    },
                }
            },
            None => {
                proof {
                    lemma_absent(self.entries@, specifier@);
                }
                Err(Error::ModuleNotFound)
            },
        }
    }
}

/// A module that is registered is not loaded again: beginning its load
/// changes nothing and never tells the engine to compile.
pub proof fn law_registered_module_is_not_loaded_again(
    table: Map<Seq<char>, ModuleState>,
    specifier: Seq<char>,
    answer: LoadStart,
)
    requires
        table.contains_key(specifier),
        answers_begin(table, specifier, answer),
    ensures
        table_after_begin(table, specifier) == table,
        !(answer is Started),
{
}

/// Loading a module that is instantiated gives the same handle every time:
/// two loads of its specifier, one after the other, leave the registry as
/// it was and answer with equal handles.
pub proof fn law_loads_of_a_registered_module_agree(
    table: Map<Seq<char>, ModuleState>,
    specifier: Seq<char>,
    first: LoadStart,
    second: LoadStart,
)
    requires
        table.contains_key(specifier),
        table[specifier] is Ready,
        answers_begin(table, specifier, first),
        answers_begin(table_after_begin(table, specifier), specifier, second),
    ensures
        first is Existing,
        second is Existing,
        first->Existing_0@ == second->Existing_0@,
        holds_handle(table, first->Existing_0@),
        table_after_begin(table_after_begin(table, specifier), specifier) == table,
{
}

/// Loading the same specifier twice gives the same module: once a load has
/// ended well, a second load of the specifier leaves the registry as it is
/// and answers with a handle that equals the first one, so that both speak
/// of one instantiation.
pub proof fn law_second_load_gives_the_same_handle(
    table: Map<Seq<char>, ModuleState>,
    specifier: Seq<char>,
    outcome: LoadOutcome,
    first: Result<ModuleHandle, Error>,
    second: LoadStart,
)
    requires
        !table.contains_key(specifier),
        outcome is Instantiated,
        answers_finish(table_after_begin(table, specifier), specifier, outcome, first),
        answers_begin(
            table_after_finish(table_after_begin(table, specifier), specifier, outcome),
            specifier,
            second,
        ),
    ensures
        first is Ok,
        second is Existing,
        first->Ok_0@ == second->Existing_0@,
        table_after_begin(
            table_after_finish(table_after_begin(table, specifier), specifier, outcome),
            specifier,
        ) == table_after_finish(table_after_begin(table, specifier), specifier, outcome),
{
}

/// A load that fails leaves no trace: the registry is again what it was
/// before the load began, and the caller gets the error that ended the load.
pub proof fn law_failed_load_leaves_no_trace(
    table: Map<Seq<char>, ModuleState>,
    specifier: Seq<char>,
    error: Error,
    answer: Result<ModuleHandle, Error>,
)
    requires
        !table.contains_key(specifier),
        answers_finish(
            table_after_begin(table, specifier),
            specifier,
            LoadOutcome::Failed(error),
            answer,
        ),
    ensures
        table_after_finish(
            table_after_begin(table, specifier),
            specifier,
            LoadOutcome::Failed(error),
        ) == table,
        answer == Err::<ModuleHandle, Error>(error),
{
    assert(table.insert(specifier, ModuleState::Loading).remove(specifier) =~= table);
}

/// An import that names nothing is not found: a target that is neither
/// registered nor a location in the filesystem or on the network cannot be
/// resolved, whatever the capabilities, and neither can a relative
/// specifier that could not be joined.
pub proof fn law_unknown_import_is_not_found(
    table: Map<Seq<char>, ModuleState>,
    capabilities: Capabilities,
    specifier: Seq<char>,
    location: Option<Seq<char>>,
)
    requires
        match import_target(specifier, location) {
            Some(target) => !table.contains_key(target) && !(kind_of(target) is File) && !(kind_of(
                target,
            ) is Network),
            None => true,
        },
    ensures
        resolve(table, capabilities, specifier, location) == Err::<ImportView, Error>(
            Error::ModuleNotFound,
        ),
{
}

/// Without the capability nothing is fetched: an import of a location in
/// the filesystem or on the network that is not registered is refused
/// unless the registry has the capability for it.
pub proof fn law_fetch_needs_capability(
    table: Map<Seq<char>, ModuleState>,
    capabilities: Capabilities,
    target: Seq<char>,
)
    requires
        !table.contains_key(target),
    ensures
        kind_of(target) is File && !capabilities.fs_import ==> resolve_target(
            table,
            capabilities,
            target,
        ) == Err::<Resolution, Error>(Error::PermissionDenied),
        kind_of(target) is Network && !capabilities.url_import ==> resolve_target(
            table,
            capabilities,
            target,
        ) == Err::<Resolution, Error>(Error::PermissionDenied),
        resolve_target(table, capabilities, target) is Ok ==> (kind_of(target) is File
            && capabilities.fs_import) || (kind_of(target) is Network && capabilities.url_import),
{
}

} // verus!
