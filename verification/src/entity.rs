//! What the provider answers, as far as the updater reads it.

use vstd::prelude::*;
use vstd::utf8::*;

verus! {

/// The result of a query that should find one thing: the thing where it
/// found exactly one, else the number of things it found.
#[derive(Debug, PartialEq, Eq)]
pub enum OneOrLen<T> {
    One(T),
    Len(usize),
}

impl<T> OneOrLen<T> {
    /// Sums up the things that a query found.
    pub fn from_items(items: Vec<T>) -> (out: OneOrLen<T>)
        ensures
            items@.len() == 1 ==> out == OneOrLen::One(items@[0]),
            items@.len() != 1 ==> out == OneOrLen::<T>::Len(items@.len() as usize),
    {
        let found: usize = items.len();
        if found != 1 {
            return OneOrLen::Len(found);
        }
        let mut items = items;
        match items.pop() {
            Some(only) => OneOrLen::One(only),
            None => OneOrLen::Len(0),
        }
    }
}

/// The provider's answer to a change of a record.
#[derive(Clone, Copy, Debug, PartialEq, Eq, Structural)]
pub struct PatchResponse {
    /// Whether the record was changed.
    pub success: bool,
}

/// Bytes that a configuration gives as a text or as a list of numbers.
#[derive(Debug, PartialEq, Eq, PartialOrd, Ord)]
pub struct StrOrBytes(pub Vec<u8>);

impl StrOrBytes {
    /// The bytes of a text.
    pub fn from_text(text: &str) -> (out: StrOrBytes)
        ensures
            out.0@ == encode_utf8(text@),
    {
        let mut bytes: Vec<u8> = Vec::new();
        bytes.extend_from_slice(text.as_bytes());
        StrOrBytes(bytes)
    }

    /// The bytes as they are.
    pub fn as_bytes(&self) -> (bytes: &[u8])
        ensures
            bytes@ == self.0@,
    {
        self.0.as_slice()
    }
}

/// The updater has lost its manager.
#[derive(Clone, Copy, Debug, PartialEq, Eq, Structural)]
pub struct UpdateError;

impl UpdateError {
    /// The text that the error shows.
    pub fn message(&self) -> (text: &'static str)
        ensures
            text@ == "updater disconnected from update manager"@,
    {
        "updater disconnected from update manager"
    }
}

/// The sign that the record is to be looked at.
#[derive(Clone, Copy, Debug, PartialEq, Eq, Structural)]
pub struct UpdateDns;

} // verus!
