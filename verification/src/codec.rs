//! The two text forms of a wire value: the document (JSON), written and read
//! by `serde_json`, and the compact record (SNBT), written and read by
//! `fastsnbt`.
//!
//! Neither text form is described here. Each is named by a specification
//! function without a body, and the functions below say of their results no
//! more than that they are what the outside codec gives for the value or the
//! text at hand.
//!
//! Values go to the writers as [`Serial`] values and come from the readers
//! as `serde_json::Value`s. Both keep the members of an object in order:
//! the first holds them in an `indexmap::IndexMap`, and `serde_json` is built
//! with `preserve_order`.

use vstd::prelude::*;
use crate::error::{DecodeError, EncodeError};
use crate::strings::str_eq;
use crate::wire::{distinct_keys, items_view, members_view, Wire, WireView};

verus! {

/// The text that `serde_json::to_string` writes for a value, if it writes
/// one.
pub uninterp spec fn document_text(value: WireView) -> Option<Seq<char>>;

/// The value that `serde_json::from_str` reads from a text, if it reads one.
pub uninterp spec fn document_value(text: Seq<char>) -> Option<WireView>;

/// The text that `fastsnbt::to_string` writes for a value, if it writes
/// one.
pub uninterp spec fn compact_text(value: WireView) -> Option<Seq<char>>;

/// The value that `fastsnbt::from_str` reads from a text, if it reads one.
pub uninterp spec fn compact_value(text: Seq<char>) -> Option<WireView>;

/// A value in the form in which a serde serializer takes it: a boxed
/// `erased_serde::Serialize`, which is a unit, a `bool`, an integer, a
/// `String`, a `Vec` of such boxes, or an `indexmap::IndexMap` from `String`
/// to such boxes. The field is hidden from the verifier, to which a trait
/// object of an outside trait cannot be declared.
#[verifier::external_body]
pub struct Serial {
    inner: Box<dyn erased_serde::Serialize>,
}

/// The wire value that a [`Serial`] holds.
pub uninterp spec fn serial_model(serial: Serial) -> WireView;

/// `serde_json::Value`, of which nothing is known but what [`open_value`]
/// tells.
#[verifier::external_type_specification]
#[verifier::external_body]
pub struct ExJsonValue(serde_json::Value);

/// `serde_json::Error`, of which nothing is known.
#[verifier::external_type_specification]
#[verifier::external_body]
pub struct ExJsonError(serde_json::Error);

/// `fastsnbt::error::Error`, of which nothing is known.
#[verifier::external_type_specification]
#[verifier::external_body]
pub struct ExCompactError(fastsnbt::error::Error);

/// The wire value that a `serde_json::Value` holds. A number that
/// `as_i64` does not give stands for [`WireView::Real`].
pub uninterp spec fn value_model(value: serde_json::Value) -> WireView;

/// The outermost layer of a `serde_json::Value`, with its parts moved out.
pub enum Shape {
    Null,
    Bool(bool),
    /// What `as_i64` gives for the number.
    Number(Option<i64>),
    Str(String),
    Array(Vec<serde_json::Value>),
    /// The keys and the values of the members, in the order of the map.
    Object(Vec<String>, Vec<serde_json::Value>),
}

/// The wire value that a [`Shape`] stands for.
pub open spec fn shape_model(shape: Shape) -> WireView {
    match shape {
        Shape::Null => WireView::Null,
        Shape::Bool(b) => WireView::Bool(b),
        Shape::Number(Some(n)) => WireView::Int(n as int),
        Shape::Number(None) => WireView::Real,
        Shape::Str(s) => WireView::Str(s@),
        Shape::Array(items) => WireView::Array(
            Seq::new(items.len() as nat, |i: int| value_model(items[i])),
        ),
        Shape::Object(keys, values) => WireView::Object(
            Seq::new(keys.len() as nat, |i: int| (keys[i]@, value_model(values[i]))),
        ),
    }
}

/// The unit value, which a document writes as `null`.
#[verifier::external_body]
fn serial_null() -> (serial: Serial)
    ensures
        serial_model(serial) == WireView::Null,
{
    Serial { inner: Box::new(()) }
}

/// A `bool`, boxed as it is.
#[verifier::external_body]
fn serial_bool(value: bool) -> (serial: Serial)
    ensures
        serial_model(serial) == WireView::Bool(value),
{
    Serial { inner: Box::new(value) }
}

/// An `i32`, boxed as it is.
#[verifier::external_body]
fn serial_i32(value: i32) -> (serial: Serial)
    ensures
        serial_model(serial) == WireView::Int(value as int),
{
    Serial { inner: Box::new(value) }
}

/// A `u32`, boxed as it is. Only for numbers that `i32` does not hold, so
/// that a number has one form.
#[verifier::external_body]
fn serial_u32(value: u32) -> (serial: Serial)
    requires
        value > i32::MAX,
    ensures
        serial_model(serial) == WireView::Int(value as int),
{
    Serial { inner: Box::new(value) }
}

/// An `i64`, boxed as it is. Only for numbers that neither `i32` nor `u32`
/// holds, so that a number has one form.
#[verifier::external_body]
fn serial_i64(value: i64) -> (serial: Serial)
    requires
        value < i32::MIN || value > u32::MAX,
    ensures
        serial_model(serial) == WireView::Int(value as int),
{
    Serial { inner: Box::new(value) }
}

/// An owned copy of a string, boxed.
#[verifier::external_body]
fn serial_str(value: &str) -> (serial: Serial)
    ensures
        serial_model(serial) == WireView::Str(value@),
{
    Serial { inner: Box::new(value.to_owned()) }
}

/// A vector of the boxed values, boxed: a serde sequence of the items in
/// order.
#[verifier::external_body]
fn serial_list(items: Vec<Serial>) -> (serial: Serial)
    ensures
        serial_model(serial) == WireView::Array(
            Seq::new(items.len() as nat, |i: int| serial_model(items[i])),
        ),
{
    let boxes: Vec<Box<dyn erased_serde::Serialize>> = items.into_iter().map(|s| s.inner).collect();
    Serial { inner: Box::new(boxes) }
}

/// An `indexmap::IndexMap` filled with the keys and values in order, boxed:
/// a serde map of the members in that order. The keys differ, so none
/// replaces another.
#[verifier::external_body]
fn serial_map(keys: Vec<String>, values: Vec<Serial>) -> (serial: Serial)
    requires
        keys.len() == values.len(),
        forall|i: int, j: int| 0 <= i < j < keys.len() ==> keys[i]@ != keys[j]@,
    ensures
        serial_model(serial) == WireView::Object(
            Seq::new(keys.len() as nat, |i: int| (keys[i]@, serial_model(values[i]))),
        ),
{
    let map: indexmap::IndexMap<String, Box<dyn erased_serde::Serialize>> =
        keys.into_iter().zip(values.into_iter().map(|s| s.inner)).collect();
    Serial { inner: Box::new(map) }
}

/// Calls `serde_json::to_string`. What comes back, a text or the refusal,
/// is what [`document_text`] names for the value held.
#[verifier::external_body]
fn write_document(serial: &Serial) -> (written: Result<String, serde_json::Error>)
    ensures
        match written {
            Ok(text) => document_text(serial_model(*serial)) == Some(text@),
            Err(_) => document_text(serial_model(*serial)) is None,
        },
{
    serde_json::to_string(&serial.inner)
}

/// Calls `fastsnbt::to_string`. What comes back, a text or the refusal, is
/// what [`compact_text`] names for the value held.
#[verifier::external_body]
fn write_compact(serial: &Serial) -> (written: Result<String, fastsnbt::error::Error>)
    ensures
        match written {
            Ok(text) => compact_text(serial_model(*serial)) == Some(text@),
            Err(_) => compact_text(serial_model(*serial)) is None,
        },
{
    fastsnbt::to_string(&serial.inner)
}

/// Calls `serde_json::from_str` for a `serde_json::Value`. What comes back,
/// a value or the refusal, is what [`document_value`] names for the text.
#[verifier::external_body]
fn read_document(text: &str) -> (read: Result<serde_json::Value, serde_json::Error>)
    ensures
        match read {
            Ok(value) => document_value(text@) == Some(value_model(value)),
            Err(_) => document_value(text@) is None,
        },
{
    serde_json::from_str::<serde_json::Value>(text)
}

/// Calls `fastsnbt::from_str` for a `serde_json::Value`. What comes back, a
/// value or the refusal, is what [`compact_value`] names for the text.
#[verifier::external_body]
fn read_compact(text: &str) -> (read: Result<serde_json::Value, fastsnbt::error::Error>)
    ensures
        match read {
            Ok(value) => compact_value(text@) == Some(value_model(value)),
            Err(_) => compact_value(text@) is None,
        },
{
    fastsnbt::from_str::<serde_json::Value>(text)
}

/// Takes a `serde_json::Value` apart by its variant, one arm each. A number
/// goes through `as_i64`; the members of an object are handed out as their
/// keys and their values, in the order in which the map walks them.
#[verifier::external_body]
fn open_value(value: serde_json::Value) -> (shape: Shape)
    ensures
        shape_model(shape) == value_model(value),
        shape matches Shape::Object(keys, values) ==> keys.len() == values.len(),
{
    match value {
        serde_json::Value::Null => Shape::Null,
        serde_json::Value::Bool(b) => Shape::Bool(b),
        serde_json::Value::Number(n) => Shape::Number(n.as_i64()),
        serde_json::Value::String(s) => Shape::Str(s),
        serde_json::Value::Array(items) => Shape::Array(items),
        serde_json::Value::Object(map) => {
            let (keys, values) = map.into_iter().unzip();
            Shape::Object(keys, values)
        },
    }
}

/// Whether no key of `members` occurs twice.
fn has_distinct_keys(members: &Vec<(String, Wire)>) -> (yes: bool)
    ensures
        yes == distinct_keys(members_view(members@)),
{
    let mut j: usize = 0;
    while j < members.len()
        invariant
            j <= members.len(),
            forall|a: int, b: int|
                0 <= a < b < j ==> (#[trigger] members_view(members@)[a]).0 != (
                #[trigger] members_view(members@)[b]).0,
        decreases members.len() - j,
    {
        let mut i: usize = 0;
        while i < j
            invariant
                i <= j < members.len(),
                forall|a: int|
                    0 <= a < i ==> (#[trigger] members_view(members@)[a]).0 != members_view(
                        members@,
                    )[j as int].0,
            decreases j - i,
        {
            if str_eq(members[i].0.as_str(), members[j].0.as_str()) {
                assert(members_view(members@)[i as int].0 == members_view(members@)[j as int].0);
                return false;
            }
            i += 1;
        }
        j += 1;
    }
    true
}

impl Wire {
    /// Whether the value can be written out as text: it holds no
    /// [`Wire::Real`], and no object in it has a key twice.
    pub fn is_writable(&self) -> (yes: bool)
        ensures
            yes == self@.writable(),
        decreases self,
    {
        match self {
            Wire::Real => false,
            Wire::Array(items) => {
                let mut i: usize = 0;
                while i < items.len()
                    invariant
                        i <= items.len(),
                        *self == Wire::Array(*items),
                        forall|j: int| 0 <= j < i ==> (#[trigger] self@->Array_0[j]).writable(),
                    decreases items.len() - i,
                {
                    assert(decreases_to!(*self => self->Array_0));
                    assert(self@->Array_0 == items_view(items@));
                    if !items[i].is_writable() {
                        assert(self@->Array_0 == items_view(items@));
                        assert(!self@->Array_0[i as int].writable());
                        return false;
                    }
                    i += 1;
                }
                true
            },
            Wire::Object(members) => {
                if !has_distinct_keys(members) {
                    return false;
                }
                let mut i: usize = 0;
                while i < members.len()
                    invariant
                        i <= members.len(),
                        *self == Wire::Object(*members),
                        forall|j: int| 0 <= j < i ==> (#[trigger] self@->Object_0[j]).1.writable(),
                    decreases members.len() - i,
                {
                    assert(decreases_to!(*self => self->Object_0));
                    assert(decreases_to!(members[i as int] => members[i as int].1));
                    assert(self@->Object_0 == members_view(members@));
                    if !members[i].1.is_writable() {
                        assert(self@->Object_0 == members_view(members@));
                        assert(!self@->Object_0[i as int].1.writable());
                        return false;
                    }
                    i += 1;
                }
                true
            },
            _ => true,
        }
    }
}

/// Puts a wire value into the form in which a serializer takes it.
fn serial_of(value: &Wire) -> (serial: Serial)
    requires
        value@.writable(),
    ensures
        serial_model(serial) == value@,
    decreases value,
{
    match value {
        Wire::Null => serial_null(),
        Wire::Bool(b) => serial_bool(*b),
        Wire::Int(n) => {
            let n: i64 = *n;
            if -2147483648 <= n && n <= 2147483647 {
                serial_i32(n as i32)
            } else if 0 <= n && n <= 4294967295 {
                serial_u32(n as u32)
            } else {
                serial_i64(n)
            }
        },
        Wire::Real => unreached(),
        Wire::Str(s) => serial_str(s.as_str()),
        Wire::Array(items) => {
            let mut parts: Vec<Serial> = Vec::new();
            let mut i: usize = 0;
            while i < items.len()
                invariant
                    i <= items.len(),
                    *value == Wire::Array(*items),
                    value@.writable(),
                    parts.len() == i,
                    forall|j: int| 0 <= j < i ==> serial_model(#[trigger] parts[j]) == items[j]@,
                decreases items.len() - i,
            {
                assert(decreases_to!(*value => value->Array_0));
                assert(value@->Array_0[i as int].writable());
                parts.push(serial_of(&items[i]));
                i += 1;
            }
            let serial = serial_list(parts);
            assert(serial_model(serial)->Array_0 =~= items_view(items@));
            serial
        },
        Wire::Object(members) => {
            let mut keys: Vec<String> = Vec::new();
            let mut parts: Vec<Serial> = Vec::new();
            let mut i: usize = 0;
            while i < members.len()
                invariant
                    i <= members.len(),
                    *value == Wire::Object(*members),
                    value@.writable(),
                    keys.len() == i,
                    parts.len() == i,
                    forall|j: int| 0 <= j < i ==> (#[trigger] keys[j])@ == members[j].0@,
                    forall|j: int| 0 <= j < i ==> serial_model(#[trigger] parts[j]) == members[j].1@,
                decreases members.len() - i,
            {
                assert(decreases_to!(*value => value->Object_0));
                assert(decreases_to!(members[i as int] => members[i as int].1));
                assert(value@->Object_0 == members_view(members@));
                assert(value@->Object_0[i as int].1.writable());
                keys.push(members[i].0.clone());
                parts.push(serial_of(&members[i].1));
                i += 1;
            }
            assert forall|a: int, b: int| 0 <= a < b < keys.len() implies keys[a]@ != keys[b]@ by {
                assert(value@->Object_0 == members_view(members@));
                assert(value@->Object_0[a].0 != value@->Object_0[b].0);
            }
            let serial = serial_map(keys, parts);
            assert(serial_model(serial)->Object_0 =~= members_view(members@));
            serial
        },
    }
}

/// Turns the items of `reversed` round, so that the last comes first.
fn turned(reversed: Vec<Wire>) -> (items: Vec<Wire>)
    ensures
        items.len() == reversed.len(),
        forall|i: int| 0 <= i < items.len() ==> #[trigger] items[i] == reversed[reversed.len() - 1 - i],
{
    let mut reversed = reversed;
    let ghost all = reversed@;
    let mut items: Vec<Wire> = Vec::new();
    while reversed.len() > 0
        invariant
            reversed.len() + items.len() == all.len(),
            reversed@ == all.subrange(0, reversed.len() as int),
            forall|i: int| 0 <= i < items.len() ==> #[trigger] items[i] == all[all.len() - 1 - i],
        decreases reversed.len(),
    {
        let item = reversed.pop().unwrap();
        items.push(item);
    }
    items
}

/// Copies a value that a codec has read into a wire value.
fn wire_of(value: serde_json::Value) -> (wire: Wire)
    ensures
        wire@ == value_model(value),
    decreases value_model(value),
{
    match open_value(value) {
        Shape::Null => Wire::Null,
        Shape::Bool(b) => Wire::Bool(b),
        Shape::Number(Some(n)) => Wire::Int(n),
        Shape::Number(None) => Wire::Real,
        Shape::Str(s) => Wire::Str(s),
        Shape::Array(items) => {
            let mut items = items;
            let ghost all = items@;
            let ghost models = Seq::new(all.len(), |i: int| value_model(all[i]));
            let mut reversed: Vec<Wire> = Vec::new();
            while items.len() > 0
                invariant
                    items.len() + reversed.len() == all.len(),
                    items@ == all.subrange(0, items.len() as int),
                    value_model(value) == WireView::Array(models),
                    models.len() == all.len(),
                    forall|i: int| 0 <= i < all.len() ==> #[trigger] models[i] == value_model(all[i]),
                    forall|i: int|
                        0 <= i < reversed.len() ==> (#[trigger] reversed[i])@ == models[all.len() - 1
                            - i],
                decreases items.len(),
            {
                let ghost at = items.len() - 1;
                let item = items.pop().unwrap();
                assert(item == all[at]);
                assert(decreases_to!(value_model(value) => value_model(value)->Array_0));
                assert(decreases_to!(models => models[at]));
                reversed.push(wire_of(item));
            }
            let wires = turned(reversed);
            assert(items_view(wires@) =~= models);
            Wire::Array(wires)
        },
        Shape::Object(keys, values) => {
            let mut keys = keys;
            let mut values = values;
            let ghost all_keys = keys@;
            let ghost all = values@;
            let ghost models = Seq::new(all.len(), |i: int| (all_keys[i]@, value_model(all[i])));
            let mut reversed: Vec<(String, Wire)> = Vec::new();
            while values.len() > 0
                invariant
                    keys.len() == values.len(),
                    all_keys.len() == all.len(),
                    values.len() + reversed.len() == all.len(),
                    values@ == all.subrange(0, values.len() as int),
                    keys@ == all_keys.subrange(0, keys.len() as int),
                    value_model(value) == WireView::Object(models),
                    models.len() == all.len(),
                    forall|i: int|
                        0 <= i < all.len() ==> #[trigger] models[i] == (all_keys[i]@, value_model(all[i])),
                    forall|i: int|
                        0 <= i < reversed.len() ==> ((#[trigger] reversed[i]).0@, reversed[i].1@)
                            == models[all.len() - 1 - i],
                decreases values.len(),
            {
                let ghost at = values.len() - 1;
                let item = values.pop().unwrap();
                let key = keys.pop().unwrap();
                assert(item == all[at]);
                assert(key == all_keys[at]);
                assert(decreases_to!(value_model(value) => value_model(value)->Object_0));
                assert(decreases_to!(models => models[at]));
                assert(decreases_to!(models[at] => models[at].1));
                reversed.push((key, wire_of(item)));
            }
            let mut members: Vec<(String, Wire)> = Vec::new();
            let ghost back = reversed@;
            while reversed.len() > 0
                invariant
                    reversed.len() + members.len() == back.len(),
                    reversed@ == back.subrange(0, reversed.len() as int),
                    forall|i: int|
                        0 <= i < members.len() ==> #[trigger] members[i] == back[back.len() - 1 - i],
                decreases reversed.len(),
            {
                let member = reversed.pop().unwrap();
                members.push(member);
            }
            assert(members_view(members@) =~= models);
            Wire::Object(members)
        },
    }
}

/// What becomes of a document writer's answer: the text, or the one error
/// that stands for any refusal.
pub fn document_outcome(written: Result<String, serde_json::Error>) -> (outcome: Result<
    String,
    EncodeError,
>)
    ensures
        match written {
            Ok(text) => outcome == Ok::<String, EncodeError>(text),
            Err(_) => outcome == Err::<String, EncodeError>(EncodeError::Document),
        },
{
    match written {
        Ok(text) => Ok(text),
        Err(_) => Err(EncodeError::Document),
    }
}

/// What becomes of a compact-record writer's answer: the text, or the one
/// error that stands for any refusal.
pub fn compact_outcome(written: Result<String, fastsnbt::error::Error>) -> (outcome: Result<
    String,
    EncodeError,
>)
    ensures
        match written {
            Ok(text) => outcome == Ok::<String, EncodeError>(text),
            Err(_) => outcome == Err::<String, EncodeError>(EncodeError::CompactRecord),
        },
{
    match written {
        Ok(text) => Ok(text),
        Err(_) => Err(EncodeError::CompactRecord),
    }
}

/// Writes a writable value as a compact record: the text that the
/// compact-record writer gives for it, or `CompactRecord` where it gives
/// none.
pub(crate) fn compact_string(value: &Wire) -> (written: Result<String, EncodeError>)
    requires
        value@.writable(),
    ensures
        match written {
            Ok(text) => compact_text(value@) == Some(text@),
            Err(e) => e == EncodeError::CompactRecord && compact_text(value@) is None,
        },
{
    let serial = serial_of(value);
    compact_outcome(write_compact(&serial))
}

/// Writes a writable value as a document: the text that the document
/// writer gives for it, or `Document` where it gives none.
pub(crate) fn document_string(value: &Wire) -> (written: Result<String, EncodeError>)
    requires
        value@.writable(),
    ensures
        match written {
            Ok(text) => document_text(value@) == Some(text@),
            Err(e) => e == EncodeError::Document && document_text(value@) is None,
        },
{
    let serial = serial_of(value);
    document_outcome(write_document(&serial))
}

impl Wire {
    /// Writes the value as a document. A value that is not writable is
    /// refused before the writer is asked. A writable value gives the text
    /// that the document writer gives for it, and `Document` exactly where
    /// the writer gives none.
    pub fn to_json_string(&self) -> (written: Result<String, EncodeError>)
        ensures
            match written {
                Ok(text) => self@.writable() && document_text(self@) == Some(text@),
                Err(e) => if self@.writable() {
                    e == EncodeError::Document && document_text(self@) is None
                } else {
                    e == EncodeError::NotWritable
                },
            },
    {
        if !self.is_writable() {
            return Err(EncodeError::NotWritable);
        }
        document_string(self)
    }

    /// Writes the value as a compact record. A value that is not writable
    /// is refused before the writer is asked. A writable value gives the
    /// text that the compact-record writer gives for it, and
    /// `CompactRecord` exactly where the writer gives none.
    pub fn to_compact_string(&self) -> (written: Result<String, EncodeError>)
        ensures
            match written {
                Ok(text) => self@.writable() && compact_text(self@) == Some(text@),
                Err(e) => if self@.writable() {
                    e == EncodeError::CompactRecord && compact_text(self@) is None
                } else {
                    e == EncodeError::NotWritable
                },
            },
    {
        if !self.is_writable() {
            return Err(EncodeError::NotWritable);
        }
        compact_string(self)
    }

    /// Reads a document.
    pub fn from_json_str(text: &str) -> (read: Result<Wire, DecodeError>)
        ensures
            match read {
                Ok(value) => document_value(text@) == Some(value@),
                Err(e) => document_value(text@) is None && e == DecodeError::InvalidText,
            },
    {
        match read_document(text) {
            Ok(value) => Ok(wire_of(value)),
            Err(_) => Err(DecodeError::InvalidText),
        }
    }

    /// Reads a compact record.
    pub fn from_compact_str(text: &str) -> (read: Result<Wire, DecodeError>)
        ensures
            match read {
                Ok(value) => compact_value(text@) == Some(value@),
                Err(e) => compact_value(text@) is None && e == DecodeError::InvalidText,
            },
    {
        match read_compact(text) {
            Ok(value) => Ok(wire_of(value)),
            Err(_) => Err(DecodeError::InvalidText),
        }
    }
}

} // verus!

