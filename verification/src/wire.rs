//! The wire value: the tree that a component is rendered to and parsed from.
//!
//! A wire value has the shape of a JSON document. Objects keep their members
//! in order, and a key is looked up by its first occurrence.

use vstd::prelude::*;
use vstd::string::*;
use crate::strings::str_eq;

verus! {

/// A wire value as executable data.
#[derive(Debug, PartialEq, Eq, Hash)]
pub enum Wire {
    Null,
    Bool(bool),
    /// A whole number.
    Int(i64),
    /// Any other number: one with a fraction or an exponent, or a whole number
    /// that `i64` cannot hold. Its value is not kept, since no part of a
    /// component admits one.
    Real,
    Str(String),
    Array(Vec<Wire>),
    Object(Vec<(String, Wire)>),
}

/// The mathematical value that a [`Wire`] stands for.
pub enum WireView {
    Null,
    Bool(bool),
    Int(int),
    Real,
    Str(Seq<char>),
    Array(Seq<WireView>),
    Object(Seq<(Seq<char>, WireView)>),
}

/// The members of an object: keys with their values, in order.
pub type Members = Seq<(Seq<char>, WireView)>;

impl View for Wire {
    type V = WireView;

    open spec fn view(&self) -> WireView
        decreases self,
    {
        match self {
            Wire::Null => WireView::Null,
            Wire::Bool(b) => WireView::Bool(*b),
            Wire::Int(n) => WireView::Int(*n as int),
            Wire::Real => WireView::Real,
            Wire::Str(s) => WireView::Str(s@),
            Wire::Array(items) => WireView::Array(items_view(items@)),
            Wire::Object(members) => WireView::Object(members_view(members@)),
        }
    }
}

/// The views of a run of wire values, element by element.
pub open spec fn items_view(items: Seq<Wire>) -> Seq<WireView>
    decreases items,
{
    Seq::new(
        items.len(),
        |i: int|
            if 0 <= i < items.len() {
                items[i].view()
            } else {
                WireView::Null
            },
    )
}

/// The views of a run of members, element by element.
pub open spec fn members_view(members: Seq<(String, Wire)>) -> Members
    decreases members,
{
    Seq::new(
        members.len(),
        |i: int|
            if 0 <= i < members.len() {
                (members[i].0@, members[i].1.view())
            } else {
                (Seq::empty(), WireView::Null)
            },
    )
}

/// The view of an optional wire value.
pub open spec fn option_view(value: Option<Wire>) -> Option<WireView> {
    match value {
        Some(value) => Some(value@),
        None => None,
    }
}

/// The value of the first member of `members` whose key is `key`.
pub open spec fn lookup(members: Members, key: Seq<char>) -> Option<WireView>
    decreases members.len(),
{
    if members.len() == 0 {
        None
    } else if members[0].0 == key {
        Some(members[0].1)
    } else {
        lookup(members.drop_first(), key)
    }
}

/// Whether no key occurs twice in `members`.
pub open spec fn distinct_keys(members: Members) -> bool {
    forall|i: int, j: int|
        0 <= i < j < members.len() ==> (#[trigger] members[i]).0 != (#[trigger] members[j]).0
}

impl WireView {
    /// The member `key` of an object; `None` for a missing key and for
    /// anything but an object.
    pub open spec fn get(self, key: Seq<char>) -> Option<WireView> {
        match self {
            WireView::Object(members) => lookup(members, key),
            _ => None,
        }
    }

    /// The length of the longest string that is a value anywhere in this
    /// value. Keys do not count.
    pub open spec fn longest(self) -> nat
        decreases self,
    {
        match self {
            WireView::Str(text) => text.len(),
            WireView::Array(items) => longest_item_upto(items, items.len() as int),
            WireView::Object(members) => longest_member_upto(members, members.len() as int),
            _ => 0,
        }
    }

    /// Whether the value can be written out as text: it holds no
    /// [`WireView::Real`], and no object in it has a key twice.
    pub open spec fn writable(self) -> bool
        decreases self,
    {
        match self {
            WireView::Real => false,
            WireView::Array(items) => forall|i: int|
                0 <= i < items.len() ==> (#[trigger] items[i]).writable(),
            WireView::Object(members) => distinct_keys(members) && forall|i: int|
                0 <= i < members.len() ==> (#[trigger] members[i]).1.writable(),
            _ => true,
        }
    }
}

/// The length of the longest string among the first `count` items.
pub open spec fn longest_item_upto(items: Seq<WireView>, count: int) -> nat
    decreases items, count,
{
    if count <= 0 || count > items.len() {
        0
    } else {
        let rest = longest_item_upto(items, count - 1);
        let last = items[count - 1].longest();
        if last > rest {
            last
        } else {
            rest
        }
    }
}

/// The length of the longest string among the values of the first `count`
/// members.
pub open spec fn longest_member_upto(members: Members, count: int) -> nat
    decreases members, count,
{
    if count <= 0 || count > members.len() {
        0
    } else {
        let rest = longest_member_upto(members, count - 1);
        let last = members[count - 1].1.longest();
        if last > rest {
            last
        } else {
            rest
        }
    }
}

/// No item holds a longer string than the items together.
pub proof fn lemma_longest_item(items: Seq<WireView>, count: int, i: int)
    requires
        0 <= i < count <= items.len(),
    ensures
        items[i].longest() <= longest_item_upto(items, count),
    decreases count,
{
    if i < count - 1 {
        lemma_longest_item(items, count - 1, i);
    }
}

/// No member holds a longer string than the members together.
pub proof fn lemma_longest_member(members: Members, count: int, i: int)
    requires
        0 <= i < count <= members.len(),
    ensures
        members[i].1.longest() <= longest_member_upto(members, count),
    decreases count,
{
    if i < count - 1 {
        lemma_longest_member(members, count - 1, i);
    }
}

/// A key that `lookup` finds belongs to some member.
pub proof fn lemma_lookup_member(members: Members, key: Seq<char>)
    ensures
        lookup(members, key) matches Some(v) ==> exists|i: int|
            0 <= i < members.len() && members[i] == (key, v),
    decreases members.len(),
{
    if members.len() > 0 && members[0].0 != key {
        lemma_lookup_member(members.drop_first(), key);
        if let Some(v) = lookup(members, key) {
            let i = choose|i: int|
                0 <= i < members.drop_first().len() && members.drop_first()[i] == (key, v);
            assert(members[i + 1] == (key, v));
        }
    }
}

/// What `get` returns is a proper part of the value it was taken from, and
/// holds no longer string than that value.
pub broadcast proof fn lemma_get_decreases(w: WireView, key: Seq<char>)
    ensures
        (#[trigger] w.get(key)) matches Some(v) ==> decreases_to!(w => v) && v.longest()
            <= w.longest(),
{
    if let WireView::Object(members) = w {
        lemma_lookup_member(members, key);
        if let Some(v) = lookup(members, key) {
            let i = choose|i: int| 0 <= i < members.len() && members[i] == (key, v);
            assert(decreases_to!(members => members[i]));
            assert(decreases_to!(members[i] => members[i].1));
            lemma_longest_member(members, members.len() as int, i);
        }
    }
}

/// An item of an array is a proper part of the array, and holds no longer
/// string than the array.
pub broadcast proof fn lemma_item_decreases(w: WireView, i: int)
    requires
        w is Array,
        0 <= i < w->Array_0.len(),
    ensures
        decreases_to!(w => #[trigger] w->Array_0[i]),
        w->Array_0[i].longest() <= w.longest(),
{
    lemma_longest_item(w->Array_0, w->Array_0.len() as int, i);
}

/// Looking a key up in two runs of members, one after the other.
pub proof fn lemma_lookup_concat(a: Members, b: Members, key: Seq<char>)
    ensures
        lookup(a + b, key) == match lookup(a, key) {
            Some(v) => Some(v),
            None => lookup(b, key),
        },
    decreases a.len(),
{
    if a.len() == 0 {
        assert(a + b =~= b);
    } else {
        assert((a + b).drop_first() =~= a.drop_first() + b);
        if a[0].0 != key {
            lemma_lookup_concat(a.drop_first(), b, key);
        }
    }
}

/// A key that is absent from every member is not found.
pub proof fn lemma_lookup_absent(members: Members, key: Seq<char>)
    requires
        forall|i: int| 0 <= i < members.len() ==> (#[trigger] members[i]).0 != key,
    ensures
        lookup(members, key) is None,
    decreases members.len(),
{
    if members.len() > 0 {
        let rest = members.drop_first();
        assert forall|i: int| 0 <= i < rest.len() implies (#[trigger] rest[i]).0 != key by {
            assert(rest[i] == members[i + 1]);
        }
        lemma_lookup_absent(rest, key);
    }
}

/// The first member with the key is the one that `lookup` returns.
pub proof fn lemma_lookup_first(members: Members, key: Seq<char>, at: int)
    requires
        0 <= at < members.len(),
        members[at].0 == key,
        forall|i: int| 0 <= i < at ==> (#[trigger] members[i]).0 != key,
    ensures
        lookup(members, key) == Some(members[at].1),
    decreases members.len(),
{
    if at > 0 {
        let rest = members.drop_first();
        assert(members[0].0 != key);
        assert forall|i: int| 0 <= i < at - 1 implies (#[trigger] rest[i]).0 != key by {
            assert(rest[i] == members[i + 1]);
        }
        lemma_lookup_first(rest, key, at - 1);
    }
}

impl Clone for Wire {
    fn clone(&self) -> (copy: Self)
        ensures
            copy@ == self@,
        decreases self,
    {
        match self {
            Wire::Null => Wire::Null,
            Wire::Bool(b) => Wire::Bool(*b),
            Wire::Int(n) => Wire::Int(*n),
            Wire::Real => Wire::Real,
            Wire::Str(s) => Wire::Str(s.clone()),
            Wire::Array(items) => {
                let mut copies: Vec<Wire> = Vec::new();
                let mut i: usize = 0;
                while i < items.len()
                    invariant
                        i <= items.len(),
                        *self == Wire::Array(*items),
                        copies.len() == i,
                        forall|j: int| 0 <= j < i ==> (#[trigger] copies[j])@ == items[j]@,
                    decreases items.len() - i,
                {
                    assert(decreases_to!(*self => self->Array_0));
                    copies.push(items[i].clone());
                    i += 1;
                }
                assert(items_view(copies@) =~= items_view(items@));
                Wire::Array(copies)
            },
            Wire::Object(members) => {
                let mut copies: Vec<(String, Wire)> = Vec::new();
                let mut i: usize = 0;
                while i < members.len()
                    invariant
                        i <= members.len(),
                        *self == Wire::Object(*members),
                        copies.len() == i,
                        forall|j: int|
                            0 <= j < i ==> (#[trigger] copies[j]).0@ == members[j].0@ && copies[j].1@
                                == members[j].1@,
                    decreases members.len() - i,
                {
                    assert(decreases_to!(*self => self->Object_0));
                    assert(decreases_to!(members[i as int] => members[i as int].1));
                    copies.push((members[i].0.clone(), members[i].1.clone()));
                    i += 1;
                }
                assert(members_view(copies@) =~= members_view(members@));
                Wire::Object(copies)
            },
        }
    }
}

impl Wire {
    /// The length of the longest string that is a value anywhere in this
    /// value, counted in characters.
    pub fn longest(&self) -> (length: usize)
        ensures
            length == self@.longest(),
        decreases self,
    {
        match self {
            Wire::Str(text) => text.as_str().unicode_len(),
            Wire::Array(items) => {
                let mut best: usize = 0;
                let mut i: usize = 0;
                while i < items.len()
                    invariant
                        i <= items.len(),
                        *self == Wire::Array(*items),
                        best == longest_item_upto(items_view(items@), i as int),
                    decreases items.len() - i,
                {
                    assert(decreases_to!(*self => self->Array_0));
                    let length = items[i].longest();
                    if length > best {
                        best = length;
                    }
                    i += 1;
                }
                best
            },
            Wire::Object(members) => {
                let mut best: usize = 0;
                let mut i: usize = 0;
                while i < members.len()
                    invariant
                        i <= members.len(),
                        *self == Wire::Object(*members),
                        best == longest_member_upto(members_view(members@), i as int),
                    decreases members.len() - i,
                {
                    assert(decreases_to!(*self => self->Object_0));
                    assert(decreases_to!(members[i as int] => members[i as int].1));
                    let length = members[i].1.longest();
                    if length > best {
                        best = length;
                    }
                    i += 1;
                }
                best
            },
            _ => 0,
        }
    }

    /// The member `key` of an object, by its first occurrence.
    pub fn get(&self, key: &str) -> (found: Option<&Wire>)
        ensures
            match found {
                Some(value) => self@.get(key@) == Some(value@),
                None => self@.get(key@) is None,
            },
    {
        match self {
            Wire::Object(members) => {
                let mut i: usize = 0;
                while i < members.len()
                    invariant
                        i <= members.len(),
                        self@ == WireView::Object(members_view(members@)),
                        forall|j: int| 0 <= j < i ==> (#[trigger] members_view(members@)[j]).0 != key@,
                    decreases members.len() - i,
                {
                    if str_eq(members[i].0.as_str(), key) {
                        proof {
                            lemma_lookup_first(members_view(members@), key@, i as int);
                        }
                        return Some(&members[i].1);
                    }
                    i += 1;
                }
                proof {
                    lemma_lookup_absent(members_view(members@), key@);
                }
                None
            },
            _ => None,
        }
    }
}

} // verus!
