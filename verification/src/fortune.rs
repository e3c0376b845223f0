//! The fortune record and its mathematical model.

use vstd::prelude::*;

verus! {

/// What a fortune is, mathematically: an id and a message, each a sequence of
/// characters.
pub struct FortuneView {
    pub id: Seq<char>,
    pub message: Seq<char>,
}

/// A single id and message record. A later record with the same id replaces an
/// earlier one wherever records are collected.
#[derive(Debug, PartialEq, Eq)]
pub struct Fortune {
    pub id: String,
    pub message: String,
}

impl View for Fortune {
    type V = FortuneView;

    open spec fn view(&self) -> FortuneView {
        FortuneView { id: self.id@, message: self.message@ }
    }
}

impl Clone for Fortune {
    fn clone(&self) -> (copy: Self)
        ensures
            copy == *self,
    {
        Fortune { id: self.id.clone(), message: self.message.clone() }
    }
}

/// The models of a sequence of fortunes, in the same order.
pub open spec fn views(fortunes: Seq<Fortune>) -> Seq<FortuneView> {
    fortunes.map_values(|f: Fortune| f@)
}

/// The model of a fortune that may be missing.
pub open spec fn view_of(fortune: Option<Fortune>) -> Option<FortuneView> {
    match fortune {
        Some(f) => Some(f@),
        None => None,
    }
}

/// The model of a text that may be missing.
pub open spec fn text_of(text: Option<String>) -> Option<Seq<char>> {
    match text {
        Some(t) => Some(t@),
        None => None,
    }
}

impl Fortune {
    /// Builds a fortune from an id and a message.
    pub fn new(id: &str, message: &str) -> (fortune: Fortune)
        ensures
            fortune@.id == id@,
            fortune@.message == message@,
    {
        Fortune { id: id.to_owned(), message: message.to_owned() }
    }
}

} // verus!
