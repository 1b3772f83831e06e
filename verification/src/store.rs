//! What the command layer sees of the key-value store.
//!
//! The store itself lives outside this crate. A command names the key it
//! needs, the caller asks the store, and hands the answer back as a
//! [`Lookup`].

use vstd::prelude::*;

verus! {

/// The store's answer to a request for the value under one key.
#[derive(Clone, Debug, PartialEq, Eq)]
pub enum Lookup {
    /// The key is present, with these bytes as its value.
    Found(Vec<u8>),
    /// The key is absent.
    Missing,
    /// The store could not answer; the text says why.
    Failed(String),
}

/// The mathematical value of a [`Lookup`].
pub enum LookupView {
    Found(Seq<u8>),
    Missing,
    Failed(Seq<char>),
}

impl View for Lookup {
    type V = LookupView;

    open spec fn view(&self) -> LookupView {
        match self {
            Lookup::Found(value) => LookupView::Found(value@),
            Lookup::Missing => LookupView::Missing,
            Lookup::Failed(reason) => LookupView::Failed(reason@),
        }
    }
}

/// The answer of a working store with the given contents to a request for
/// `key`.
pub open spec fn answer(contents: Map<Seq<char>, Seq<u8>>, key: Seq<char>) -> LookupView {
    if contents.contains_key(key) {
        LookupView::Found(contents[key])
    } else {
        LookupView::Missing
    }
}

} // verus!
