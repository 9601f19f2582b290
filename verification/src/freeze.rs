//! An immutable string for the text held in components.

use vstd::prelude::*;

verus! {

/// An immutable string. Cloning copies the text.
#[derive(Debug, PartialEq, Eq, Hash)]
pub struct FrozenStr {
    str: String,
}

impl View for FrozenStr {
    type V = Seq<char>;

    closed spec fn view(&self) -> Seq<char> {
        self.str@
    }
}

impl Clone for FrozenStr {
    fn clone(&self) -> (copy: Self)
        ensures
            copy@ == self@,
    {
        FrozenStr { str: self.str.clone() }
    }
}

impl FrozenStr {
    /// Freezes a copy of `text`.
    pub fn new(text: &str) -> (frozen: Self)
        ensures
            frozen@ == text@,
    {
        FrozenStr { str: text.to_owned() }
    }

    /// Freezes `text` itself.
    pub fn from_string(text: String) -> (frozen: Self)
        ensures
            frozen@ == text@,
    {
        FrozenStr { str: text }
    }

    /// The text.
    pub fn as_str(&self) -> (text: &str)
        ensures
            text@ == self@,
    {
        self.str.as_str()
    }

    /// An owned copy of the text.
    pub fn to_string(&self) -> (text: String)
        ensures
            text@ == self@,
    {
        self.str.clone()
    }
}

} // verus!
