//! Every wire value that the encoder makes can be written out as text: it
//! holds no number whose value is not kept, and no object in it has a key
//! twice. The members of an object are written in a fixed order of their
//! keys, which is what keeps the keys apart.

use vstd::prelude::*;
use crate::color::color_token;
use crate::component::{ChatView, KindView, ScoreView};
use crate::encode::{
    chat_wire, chats_wire, click_wire, entity_wire, event_members, extra_member, flag,
    format_members, hover_content, hover_wire, item_wire, kind_members, member, score_wire,
    shown_click, shown_color, shown_font, shown_insertion, string, style_members, text_members,
};
use crate::ident::uuid_text;
use crate::keys::{
    key_rank, lemma_keys, lemma_ranked_concat, lemma_ranked_distinct, lemma_ranked_widen, ranked,
};
use crate::style::{ClickView, EntityView, HoverView, ItemView, StyleView};
use crate::wire::{Members, WireView};

verus! {

/// Whether the members come in rising order of their keys' places, within
/// the bounds, and every value among them can be written out.
pub open spec fn tidy(members: Members, low: int, high: int) -> bool {
    &&& ranked(members, low, high)
    &&& forall|i: int| 0 <= i < members.len() ==> (#[trigger] members[i]).1.writable()
}

/// One member, or none, is tidy at the place of its key.
pub proof fn lemma_tidy_member(key: Seq<char>, value: Option<WireView>, rank: int)
    requires
        key_rank(key) == rank,
        value matches Some(v) ==> v.writable(),
    ensures
        tidy(member(key, value), rank, rank + 1),
{
}

/// Two tidy runs, the second above the first, make one tidy run.
pub proof fn lemma_tidy_concat(a: Members, b: Members, low: int, mid: int, high: int)
    requires
        low <= mid <= high,
        tidy(a, low, mid),
        tidy(b, mid, high),
    ensures
        tidy(a + b, low, high),
{
    lemma_ranked_concat(a, b, low, mid, high);
    let both = a + b;
    assert forall|i: int| 0 <= i < both.len() implies (#[trigger] both[i]).1.writable() by {
        if i < a.len() {
            assert(both[i] == a[i]);
        } else {
            assert(both[i] == b[i - a.len()]);
        }
    }
}

/// An object of tidy members can be written out.
pub proof fn lemma_tidy_object(members: Members, low: int, high: int)
    requires
        tidy(members, low, high),
    ensures
        WireView::Object(members).writable(),
{
    lemma_ranked_distinct(members, low, high);
    let w = WireView::Object(members);
    assert(w->Object_0 == members);
}

/// The wire value of a click event can be written out.
pub proof fn lemma_click_wire_writable(click: ClickView)
    ensures
        click_wire(click).writable(),
{
    lemma_keys();
    let members = click_wire(click)->Object_0;
    assert(tidy(members, 0, 8));
    lemma_tidy_object(members, 0, 8);
}

/// The wire value of a score can be written out.
pub proof fn lemma_score_wire_writable(score: ScoreView)
    ensures
        score_wire(score).writable(),
{
    lemma_keys();
    let head = seq![
        ("name"@, WireView::Str(score.name)),
        ("objective"@, WireView::Str(score.objective)),
    ];
    let tail = string("value"@, score.value);
    assert(tidy(head, 1, 3));
    lemma_tidy_member(
        "value"@,
        match score.value {
            Some(value) => Some(WireView::Str(value)),
            None => None,
        },
        7,
    );
    lemma_tidy_concat(head, tail, 1, 7, 8);
    lemma_tidy_object(head + tail, 1, 8);
}

/// The record of an item can be written out.
pub proof fn lemma_item_wire_writable(item: ItemView)
    ensures
        item_wire(item).writable(),
{
    lemma_keys();
    let id = seq![("id"@, WireView::Str(item.id))];
    let count = member(
        "Count"@,
        match item.count {
            Some(count) => Some(WireView::Int(count as int)),
            None => None,
        },
    );
    let tag = string("tag"@, item.tag);
    assert(tidy(id, 4, 5));
    assert(tidy(count, 5, 6));
    assert(tidy(tag, 6, 7));
    lemma_tidy_concat(id, count, 4, 5, 6);
    lemma_tidy_concat(id + count, tag, 4, 6, 7);
    lemma_tidy_object(id + count + tag, 4, 7);
}

/// The record of an entity can be written out if the wire value of its name
/// can.
pub proof fn lemma_entity_wire_writable(entity: EntityView, name: Option<WireView>)
    requires
        name matches Some(n) ==> n.writable(),
    ensures
        entity_wire(entity, name).writable(),
{
    lemma_keys();
    let a = member("name"@, name);
    let b = string("type"@, entity.kind);
    let c = string(
        "id"@,
        match entity.id {
            Some(id) => Some(uuid_text(id)),
            None => None,
        },
    );
    assert(tidy(a, 1, 2));
    assert(tidy(b, 3, 4));
    lemma_ranked_widen(b, 3, 4, 2, 4);
    assert(tidy(c, 4, 5));
    lemma_tidy_concat(a, b, 1, 2, 4);
    lemma_tidy_concat(a + b, c, 1, 4, 5);
    lemma_tidy_object(a + b + c, 1, 5);
}

/// The wire value of a hover event can be written out if that of what it
/// shows can.
pub proof fn lemma_hover_wire_writable(hover: HoverView, content: WireView, version: int)
    requires
        content.writable(),
    ensures
        hover_wire(hover, content, version).writable(),
{
    lemma_keys();
    let members = hover_wire(hover, content, version)->Object_0;
    assert(tidy(members, 0, 9));
    lemma_tidy_object(members, 0, 9);
}

/// The members of a kind are tidy if the wire values handed in can be
/// written out.
pub proof fn lemma_kind_members_tidy(kind: KindView, with: Seq<WireView>, sep: Option<WireView>)
    requires
        forall|i: int| 0 <= i < with.len() ==> (#[trigger] with[i]).writable(),
        sep matches Some(s) ==> s.writable(),
    ensures
        tidy(kind_members(kind, with, sep), 0, 2),
{
    lemma_keys();
    match kind {
        KindView::Text(text) => {},
        KindView::Translation(translation) => {
            let head = seq![("translate"@, WireView::Str(translation.key))];
            let args = if with.len() > 0 {
                Some(WireView::Array(with))
            } else {
                None
            };
            assert(tidy(head, 0, 1));
            if with.len() > 0 {
                assert(WireView::Array(with)->Array_0 == with);
                assert(WireView::Array(with).writable());
            }
            lemma_tidy_member("with"@, args, 1);
            lemma_tidy_concat(head, member("with"@, args), 0, 1, 2);
        },
        KindView::Score(score) => {
            lemma_score_wire_writable(score);
        },
        KindView::Selector(selector) => {
            let head = seq![("selector"@, WireView::Str(selector.selector))];
            assert(tidy(head, 0, 1));
            lemma_tidy_member("separator"@, sep, 1);
            lemma_tidy_concat(head, member("separator"@, sep), 0, 1, 2);
        },
        KindView::Keybind(keybind) => {},
    }
}

/// The members of a style are tidy if the wire value of its hover event can
/// be written out.
pub proof fn lemma_style_members_tidy(style: StyleView, version: int, hover: Option<WireView>)
    requires
        hover matches Some(h) ==> h.writable(),
    ensures
        tidy(format_members(style), 10, 15),
        tidy(text_members(style, version), 15, 18),
        tidy(event_members(style, version, hover), 18, 20),
        tidy(style_members(style, version, hover), 10, 20),
{
    lemma_keys();
    assert(tidy(format_members(style), 10, 15)) by {
        let f0 = flag("bold"@, style.bold);
        let f1 = flag("italic"@, style.italic);
        let f2 = flag("underlined"@, style.underlined);
        let f3 = flag("strikethrough"@, style.strikethrough);
        let f4 = flag("obfuscated"@, style.obfuscated);
        assert(tidy(f0, 10, 11));
        assert(tidy(f1, 11, 12));
        assert(tidy(f2, 12, 13));
        assert(tidy(f3, 13, 14));
        assert(tidy(f4, 14, 15));
        lemma_tidy_concat(f0, f1, 10, 11, 12);
        lemma_tidy_concat(f0 + f1, f2, 10, 12, 13);
        lemma_tidy_concat(f0 + f1 + f2, f3, 10, 13, 14);
        lemma_tidy_concat(f0 + f1 + f2 + f3, f4, 10, 14, 15);
    }
    assert(tidy(text_members(style, version), 15, 18)) by {
        let f5 = string(
            "color"@,
            match shown_color(style.color, version) {
                Some(color) => Some(color_token(color)),
                None => None,
            },
        );
        let f6 = string("insertion"@, shown_insertion(style.insertion, version));
        let f7 = string("font"@, shown_font(style.font, version));
        assert(tidy(f5, 15, 16));
        assert(tidy(f6, 16, 17));
        assert(tidy(f7, 17, 18));
        lemma_tidy_concat(f5, f6, 15, 16, 17);
        lemma_tidy_concat(f5 + f6, f7, 15, 17, 18);
    }
    assert(tidy(event_members(style, version, hover), 18, 20)) by {
        let click = match shown_click(style.click_event, version) {
            Some(click) => Some(click_wire(click)),
            None => None,
        };
        if let Some(c) = shown_click(style.click_event, version) {
            lemma_click_wire_writable(c);
        }
        lemma_tidy_member("clickEvent"@, click, 18);
        lemma_tidy_member("hoverEvent"@, hover, 19);
        lemma_tidy_concat(member("clickEvent"@, click), member("hoverEvent"@, hover), 18, 19, 20);
    }
    lemma_tidy_concat(format_members(style), text_members(style, version), 10, 15, 18);
    lemma_tidy_concat(
        format_members(style) + text_members(style, version),
        event_members(style, version, hover),
        10,
        18,
        20,
    );
}

/// The wire value of a component can be written out: it holds no number
/// that is not kept, and no object in it has a key twice.
pub proof fn lemma_chat_wire_writable(chat: ChatView, version: int)
    ensures
        chat_wire(chat, version).writable(),
    decreases chat,
{
    let with = match chat.kind {
        KindView::Translation(translation) => chats_wire(translation.with, version),
        _ => Seq::empty(),
    };
    let sep = match chat.kind {
        KindView::Selector(selector) => match selector.sep {
            Some(sep) => Some(chat_wire(*sep, version)),
            None => None,
        },
        _ => None,
    };
    let hover = match chat.style.hover_event {
        Some(hover) => Some(hover_wire(hover, hover_content(hover, version), version)),
        None => None,
    };
    let extra = chats_wire(chat.children, version);
    match chat.kind {
        KindView::Translation(translation) => {
            lemma_chats_wire_writable(translation.with, version);
        },
        KindView::Selector(selector) => {
            if let Some(sep) = selector.sep {
                lemma_chat_wire_writable(*sep, version);
            }
        },
        _ => {},
    }
    if let Some(h) = chat.style.hover_event {
        lemma_hover_content_writable(h, version);
        lemma_hover_wire_writable(h, hover_content(h, version), version);
    }
    lemma_chats_wire_writable(chat.children, version);
    lemma_keys();
    let k = kind_members(chat.kind, with, sep);
    let s = style_members(chat.style, version, hover);
    let e = extra_member(extra);
    lemma_kind_members_tidy(chat.kind, with, sep);
    lemma_style_members_tidy(chat.style, version, hover);
    if extra.len() > 0 {
        assert(WireView::Array(extra)->Array_0 == extra);
        assert(WireView::Array(extra).writable());
    }
    lemma_tidy_member(
        "extra"@,
        if extra.len() > 0 {
            Some(WireView::Array(extra))
        } else {
            None
        },
        20,
    );
    lemma_ranked_widen(s, 10, 20, 2, 20);
    lemma_tidy_concat(k, s, 0, 2, 20);
    lemma_tidy_concat(k + s, e, 0, 20, 21);
    lemma_tidy_object(k + s + e, 0, 21);
}

/// The wire values of a run of components can all be written out.
pub proof fn lemma_chats_wire_writable(chats: Seq<ChatView>, version: int)
    ensures
        forall|i: int|
            0 <= i < chats.len() ==> (#[trigger] chats_wire(chats, version)[i]).writable(),
        chats_wire(chats, version).len() == chats.len(),
    decreases chats,
{
    assert forall|i: int| 0 <= i < chats.len() implies (#[trigger] chats_wire(
        chats,
        version,
    )[i]).writable() by {
        lemma_chat_wire_writable(chats[i], version);
    }
}

/// The wire value of what a hover event shows can be written out.
pub proof fn lemma_hover_content_writable(hover: HoverView, version: int)
    ensures
        hover_content(hover, version).writable(),
    decreases hover,
{
    match hover {
        HoverView::ShowText(text) => {
            lemma_chat_wire_writable(*text, version);
        },
        HoverView::ShowItem(item) => {
            lemma_item_wire_writable(item);
        },
        HoverView::ShowEntity(entity) => {
            let name = match entity.name {
                Some(name) => Some(chat_wire(*name, version)),
                None => None,
            };
            if let Some(n) = entity.name {
                lemma_chat_wire_writable(*n, version);
            }
            lemma_entity_wire_writable(entity, name);
        },
    }
}

} // verus!
