//! The ways in which reading and writing a component can fail.

use vstd::prelude::*;

verus! {

/// Why a wire value is not a component.
#[derive(Clone, Copy, Debug, PartialEq, Eq, Hash)]
pub enum DecodeError {
    /// The text is not in the format at all.
    InvalidText,
    /// A color is neither a known name nor `#` followed by six hex digits.
    MalformedColor,
    /// The `action` of a click event is not one of the five known ones.
    UnknownClickAction,
    /// The `value` of a click event has the wrong shape for its action.
    ClickValueTypeMismatch,
    /// The `action` of a hover event is not one of the three known ones.
    UnknownHoverAction,
    /// The content of a hover event has the wrong shape for its action, or,
    /// where it is a compact record, fails to parse as one.
    HoverValueTypeMismatch,
    /// A component given as an array has no element.
    EmptyComponentArray,
    /// A required key is absent. A component without any of the keys that
    /// tell its kind is reported as missing `text`.
    MissingField(&'static str),
    /// More than one of the keys that tell a component's kind is present.
    AmbiguousKind,
    /// A value has a shape that its place does not admit.
    UnexpectedType,
}

/// Why a component could not be written out.
#[derive(Clone, Copy, Debug, PartialEq, Eq, Hash)]
pub enum EncodeError {
    /// The compact-record encoder refused an item or entity payload.
    CompactRecord,
    /// The document writer refused the value.
    Document,
    /// The value holds a number that is not kept, or an object with a key
    /// twice.
    NotWritable,
}

} // verus!
