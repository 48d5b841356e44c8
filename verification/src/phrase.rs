//! Recovery phrases.

use vstd::prelude::*;

verus! {

/// A recovery phrase. It cannot be printed, and nothing that holds one can: whoever
/// wants its words has to ask for them.
pub struct Phrase {
    text: String,
}

impl View for Phrase {
    type V = Seq<char>;

    closed spec fn view(&self) -> Seq<char> {
        self.text@
    }
}

/// The words of a phrase, where there is one.
pub open spec fn opt_phrase(o: Option<Phrase>) -> Option<Seq<char>> {
    match o {
        Some(p) => Some(p@),
        None => None,
    }
}

impl Phrase {
    pub fn new(text: String) -> (r: Phrase)
        ensures
            r@ == text@,
    {
        Phrase { text }
    }

    /// The words of the phrase.
    pub fn expose(&self) -> (r: &str)
        ensures
            r@ == self@,
    {
        self.text.as_str()
    }
}

} // verus!
