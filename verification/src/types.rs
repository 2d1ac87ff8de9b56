//! Text that is compared without regard to case.

use vstd::prelude::*;
use crate::text::{eq_ignore_case, fold};

verus! {

/// A text whose case does not count: two such texts are the same if they
/// differ in the case of ASCII letters only.
#[derive(Clone, Debug)]
pub struct CiText(pub String);

impl View for CiText {
    type V = Seq<char>;

    open spec fn view(&self) -> Seq<char> {
        self.0@
    }
}

impl CiText {
    /// Wraps a text.
    pub fn from(string: String) -> (text: Self)
        ensures
            text@ == string@,
    {
        Self(string)
    }

    /// The text as it was written.
    pub fn as_str(&self) -> (text: &str)
        ensures
            text@ == self@,
    {
        self.0.as_str()
    }

    /// Tells whether this text and another are the same but for case.
    pub fn matches(&self, other: &str) -> (same: bool)
        ensures
            same == (fold(self@) == fold(other@)),
    {
        eq_ignore_case(self.0.as_str(), other)
    }
}

} // verus!
