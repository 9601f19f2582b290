//! Entity identifiers.

use vstd::prelude::*;

verus! {

/// The 128-bit identifier of an entity.
#[derive(Clone, Copy, Debug, PartialEq, Eq, Hash, Structural)]
pub struct Uuid {
    pub bits: u128,
}

/// The text that the `uuid` crate writes for the identifier `bits` in its
/// hyphenated lowercase form.
pub uninterp spec fn uuid_text(bits: u128) -> Seq<char>;

/// The identifier that the `uuid` crate reads from `text`, if it reads one.
pub uninterp spec fn uuid_parse(text: Seq<char>) -> Option<u128>;

/// Calls `uuid::Uuid::from_u128`, and `to_string` on what `hyphenated`
/// makes of it. The result is named, not described: it is the crate's
/// hyphenated lowercase text of the value.
#[verifier::external_body]
fn hyphenated_text(bits: u128) -> (text: String)
    ensures
        text@ == uuid_text(bits),
{
    uuid::Uuid::from_u128(bits).hyphenated().to_string()
}

/// Calls `uuid::Uuid::parse_str` and, where it succeeds, `as_u128` on the
/// identifier. A text that the crate refuses gives `None`.
#[verifier::external_body]
fn parse_text(text: &str) -> (bits: Option<u128>)
    ensures
        bits == uuid_parse(text@),
{
    match uuid::Uuid::parse_str(text) {
        Ok(id) => Some(id.as_u128()),
        Err(_) => None,
    }
}

impl Uuid {
    /// The identifier with the given bits.
    pub fn from_u128(bits: u128) -> (id: Uuid)
        ensures
            id.bits == bits,
    {
        Uuid { bits }
    }

    /// The identifier written with hyphens, in lowercase.
    pub fn to_string(&self) -> (text: String)
        ensures
            text@ == uuid_text(self.bits),
    {
        hyphenated_text(self.bits)
    }

    /// Reads an identifier from text, in any form that the `uuid` crate
    /// accepts.
    pub fn parse_str(text: &str) -> (id: Option<Uuid>)
        ensures
            match id {
                Some(id) => uuid_parse(text@) == Some(id.bits),
                None => uuid_parse(text@) is None,
            },
    {
        match parse_text(text) {
            Some(bits) => Some(Uuid { bits }),
            None => None,
        }
    }
}

} // verus!
