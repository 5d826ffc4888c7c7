//! The value bridge: the text in which values cross between host and guest.

use vstd::prelude::*;
use crate::error::{agrees, Error};

verus! {

/// Whether `serde_json::from_str` accepts `text` as one complete
/// `serde_json::Value`.
pub uninterp spec fn is_json(text: Seq<char>) -> bool;

/// Asks `serde_json::from_str`, at the type `serde_json::Value`, whether it
/// accepts `text`. The claim is that the answer depends on the characters
/// of the text alone: the parser reads nothing else, and gives an error,
/// never a panic, for text that it rejects or that nests too deep.
#[verifier::external_body]
fn json_accepts(text: &str) -> (accepted: bool)
    ensures
        accepted == is_json(text@),
{
    serde_json::from_str::<serde_json::Value>(text).is_ok()
}

/// A value in the boundary format, held as its text.
#[derive(Debug, PartialEq, Eq)]
pub struct Value {
    text: String,
}

impl View for Value {
    type V = Seq<char>;

    closed spec fn view(&self) -> Seq<char> {
        self.text@
    }
}

impl Clone for Value {
    /// A value with the same text.
    fn clone(&self) -> (r: Self)
        ensures
            r@ == self@,
    {
        Value { text: self.text.clone() }
    }
}

/// What reading `text` as a value gives, `accepted` being what the parser
/// said of the text: the text if the parser accepted it, a serialization
/// error if it did not.
pub open spec fn read_as(text: Seq<char>, accepted: bool) -> Result<Seq<char>, Error> {
    if accepted {
        Ok(text)
    } else {
        Err(Error::SerializationError)
    }
}

impl Value {
    /// The value that holds `text`, given what the parser said of it: the
    /// value if the parser accepted the text, a serialization error if it
    /// did not. The verdict is taken on trust.
    pub fn checked(text: String, accepted: bool) -> (r: Result<Value, Error>)
        ensures
            agrees(r, read_as(text@, accepted)),
    {
        if accepted {
            Ok(Value { text })
        } else {
            Err(Error::SerializationError)
        }
    }

    /// Reads `text` as a value of the boundary format. Text that is not
    /// well formed cannot cross the boundary and gives a serialization
    /// error.
    pub fn parse(text: &str) -> (r: Result<Value, Error>)
        ensures
            agrees(r, read_as(text@, is_json(text@))),
    {
        let accepted = json_accepts(text);
        Value::checked(text.to_owned(), accepted)
    }

    /// The text of the value.
    pub fn as_str(&self) -> (r: &str)
        ensures
            r@ == self@,
    {
        self.text.as_str()
    }
}

/// The values in `values`, each by its text.
pub open spec fn texts_of(values: Seq<Value>) -> Seq<Seq<char>> {
    values.map_values(|v: Value| v@)
}

/// The arguments of one call, in the order in which the function takes
/// them.
#[derive(Debug, Clone, PartialEq, Eq)]
pub struct FunctionArguments {
    values: Vec<Value>,
}

impl View for FunctionArguments {
    type V = Seq<Seq<char>>;

    closed spec fn view(&self) -> Seq<Seq<char>> {
        texts_of(self.values@)
    }
}

impl FunctionArguments {
    /// No arguments.
    pub fn new() -> (r: FunctionArguments)
        ensures
            r@ == Seq::<Seq<char>>::empty(),
    {
        let r = FunctionArguments { values: Vec::new() };
        assert(r@ =~= Seq::<Seq<char>>::empty());
        r
    }

    /// Adds `value` behind the arguments that are there.
    pub fn push(&mut self, value: Value)
        ensures
            final(self)@ == old(self)@.push(value@),
    {
        self.values.push(value);
        assert(self@ =~= old(self)@.push(value@));
    }

    /// Reads `text` as a value and adds it behind the arguments that are
    /// there. Text that is not well formed is not added and gives a
    /// serialization error.
    pub fn push_text(&mut self, text: &str) -> (r: Result<(), Error>)
        ensures
            is_json(text@) ==> r is Ok && final(self)@ == old(self)@.push(text@),
            !is_json(text@) ==> r == Err::<(), Error>(Error::SerializationError) && final(self)@
                == old(self)@,
    {
        match Value::parse(text) {
            Ok(value) => {
                self.push(value);
                Ok(())
            },
            Err(e) => Err(e),
        }
    }

    /// How many arguments there are.
    pub fn len(&self) -> (r: usize)
        ensures
            r == self@.len(),
    {
        self.values.len()
    }

    /// The argument at position `index`, counted from zero, if there is one.
    pub fn get(&self, index: usize) -> (r: Option<&Value>)
        ensures
            index < self@.len() ==> r is Some && r->Some_0@ == self@[index as int],
            index >= self@.len() ==> r is None,
    {
        if index < self.values.len() {
            Some(&self.values[index])
        } else {
            None
        }
    }
}

} // verus!
