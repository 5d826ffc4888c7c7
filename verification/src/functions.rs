//! The function bridge from guest to host: the functions of the host that
//! guest code can call, by name.

use vstd::prelude::*;
use crate::error::Error;
use crate::runtime::{settled, Runtime};
use crate::text::str_equal;

verus! {

/// A function of the host that guest code can call. Which of the two it is
/// is settled when the function is registered.
///
/// `S` and `A` are the types of the host's synchronous and asynchronous
/// callables. The library stores a callable and hands it back; it never
/// calls one.
pub enum HostFunction<S, A> {
    /// A function that returns its value at once.
    Sync(S),
    /// A function whose value arrives later: the guest gets a promise.
    Async(A),
}

struct Registration<S, A> {
    name: String,
    function: HostFunction<S, A>,
}

spec fn table_of<S, A>(entries: Seq<Registration<S, A>>) -> Map<Seq<char>, HostFunction<S, A>>
    decreases entries.len(),
{
    if entries.len() == 0 {
        Map::empty()
    } else {
        table_of(entries.drop_last()).insert(entries.last().name@, entries.last().function)
    }
}

proof fn lemma_latest<S, A>(entries: Seq<Registration<S, A>>, i: int, name: Seq<char>)
    requires
        0 <= i < entries.len(),
        entries[i].name@ == name,
        forall|j: int| i < j < entries.len() ==> entries[j].name@ != name,
    ensures
        table_of(entries).contains_key(name),
        table_of(entries)[name] == entries[i].function,
    decreases entries.len(),
{
    if i < entries.len() - 1 {
        lemma_latest(entries.drop_last(), i, name);
    }
}

proof fn lemma_absent<S, A>(entries: Seq<Registration<S, A>>, name: Seq<char>)
    requires
        forall|j: int| 0 <= j < entries.len() ==> entries[j].name@ != name,
    ensures
        !table_of(entries).contains_key(name),
    decreases entries.len(),
{
    if entries.len() > 0 {
        lemma_absent(entries.drop_last(), name);
    }
}

proof fn lemma_replace<S, A>(entries: Seq<Registration<S, A>>, i: int, e: Registration<S, A>)
    requires
        0 <= i < entries.len(),
        entries[i].name@ == e.name@,
        forall|j: int| i < j < entries.len() ==> entries[j].name@ != e.name@,
    ensures
        table_of(entries.update(i, e)) == table_of(entries).insert(e.name@, e.function),
    decreases entries.len(),
{
    let after = entries.update(i, e);
    if i == entries.len() - 1 {
        assert(after.drop_last() =~= entries.drop_last());
    } else {
        assert(after.drop_last() =~= entries.drop_last().update(i, e));
        lemma_replace(entries.drop_last(), i, e);
    }
    assert(table_of(after) =~= table_of(entries).insert(e.name@, e.function));
}

/// The functions that a host has registered with one runtime, by name.
pub struct FunctionTable<S, A> {
    entries: Vec<Registration<S, A>>,
}

impl<S, A> View for FunctionTable<S, A> {
    type V = Map<Seq<char>, HostFunction<S, A>>;

    closed spec fn view(&self) -> Map<Seq<char>, HostFunction<S, A>> {
        table_of(self.entries@)
    }
}

impl<S, A> FunctionTable<S, A> {
    /// A table without functions.
    pub fn new() -> (r: FunctionTable<S, A>)
        ensures
            r@ == Map::<Seq<char>, HostFunction<S, A>>::empty(),
    {
        FunctionTable { entries: Vec::new() }
    }

    /// Registers `function` under `name` with the runtime `runtime`. A
    /// function that was registered under the name before is replaced. A
    /// terminated runtime takes no function, and the table is left as it
    /// was.
    pub fn register(&mut self, runtime: &Runtime, name: &str, function: HostFunction<S, A>) -> (r:
        Result<(), Error>)
        ensures
            r == settled(runtime@, Ok::<(), Error>(())),
            r is Ok ==> final(self)@ == old(self)@.insert(name@, function),
            r is Err ==> final(self)@ == old(self)@,
    {
        match runtime.check_running() {
            Ok(()) => {
                let registration = Registration { name: name.to_owned(), function };
                match self.position(name) {
                    Some(i) => {
                        proof {
                            lemma_replace(self.entries@, i as int, registration);
                        }
                        self.entries.set(i, registration);
                    },
                    None => {
                        self.entries.push(registration);
                        assert(self.entries@.drop_last() =~= old(self).entries@);
                    },
                }
                Ok(())
            },
            Err(e) => Err(e),
        }
    }

    fn position(&self, name: &str) -> (r: Option<usize>)
        ensures
            match r {
                Some(i) => i < self.entries@.len() && self.entries@[i as int].name@ == name@
                    && forall|j: int|
                    i < j < self.entries@.len() ==> self.entries@[j].name@ != name@,
                None => forall|j: int|
                    0 <= j < self.entries@.len() ==> self.entries@[j].name@ != name@,
            },
    {
        let mut i: usize = self.entries.len();
        while i > 0
            invariant
                i <= self.entries.len(),
                forall|j: int| i <= j < self.entries@.len() ==> self.entries@[j].name@ != name@,
            decreases i,
        {
            i -= 1;
            if str_equal(self.entries[i].name.as_str(), name) {
                return Some(i);
            }
        }
        None
    }

    /// The function registered under `name`, if there is one.
    pub fn lookup(&self, name: &str) -> (r: Option<&HostFunction<S, A>>)
        ensures
            match r {
                Some(f) => self@.contains_key(name@) && self@[name@] == *f,
                None => !self@.contains_key(name@),
            },
    {
        match self.position(name) {
            Some(i) => {
                proof {
                    lemma_latest(self.entries@, i as int, name@);
                }
                Some(&self.entries[i].function)
            },
            None => {
                proof {
                    lemma_absent(self.entries@, name@);
                }
                None
            },
        }
    }

    /// Whether a function is registered under `name`.
    pub fn is_registered(&self, name: &str) -> (r: bool)
        ensures
            r == self@.contains_key(name@),
    {
        self.lookup(name).is_some()
    }
}

} // verus!
