//! What holds between writing and reading.
//!
//! The main law is the round trip: reading the wire value of a component
//! gives the component as the version could carry it. The parts that a
//! version cannot carry are dropped by [`project_chat`], and nothing else
//! is changed.

use vstd::prelude::*;
use crate::codec::{compact_text, compact_value, document_text, document_value};
use crate::color::{color_token, lemma_color_round_trip, ColorView};
use crate::component::{ChatView, KindView, ScoreView};
use crate::decode::{
    text_chat, entity_id, hover_parts, kind_count, present, record_of, record_text, wire_chat, wire_chats,
    wire_click, wire_click_field, wire_color, wire_extra, wire_flag, wire_hover, wire_hover_field,
    wire_item, wire_kind, wire_score, wire_style, wire_text,
};
use crate::encode::{
    chat_wire, chats_wire, click_action, click_value, click_wire, compact_str, content_key,
    entity_wire,
    event_members, extra_member, flag, format_members, hover_action, hover_content, hover_wire,
    is_compact, item_wire, kind_members, member, name_wire, score_wire, sep_wire, shown_click,
    shown_color, shown_font, shown_insertion, string, style_hover_wire, style_members,
    text_members, with_wire,
};
use crate::error::DecodeError;
use crate::ident::{uuid_parse, uuid_text};
use crate::project::{project_chat, project_chats, project_hover};
use crate::keys::{lemma_action_sigs, lemma_keys};

use crate::style::{ClickView, EntityView, HoverView, ItemView, StyleView};
use crate::version::supports_structured_hover;
use crate::wire::{lemma_lookup_absent, lemma_lookup_concat, lemma_lookup_first, lookup, WireView};

verus! {

/// The first of two findings that is one.
pub open spec fn or_else(a: Option<WireView>, b: Option<WireView>) -> Option<WireView> {
    match a {
        Some(_) => a,
        None => b,
    }
}

/// What looking `key` up in the member `at`, if it is there, gives.
pub open spec fn pick(at: Seq<char>, value: Option<WireView>, key: Seq<char>) -> Option<WireView> {
    if key == at {
        value
    } else {
        None
    }
}

/// A boolean as a wire value, where there is one.
pub open spec fn bool_wire(value: Option<bool>) -> Option<WireView> {
    match value {
        Some(value) => Some(WireView::Bool(value)),
        None => None,
    }
}

/// A string as a wire value, where there is one.
pub open spec fn str_wire(value: Option<Seq<char>>) -> Option<WireView> {
    match value {
        Some(value) => Some(WireView::Str(value)),
        None => None,
    }
}

/// Looking a key up in one member, or in none.
pub proof fn lemma_lookup_member_at(at: Seq<char>, value: Option<WireView>, key: Seq<char>)
    ensures
        lookup(member(at, value), key) == pick(at, value, key),
{
    let members = member(at, value);
    if value is Some {
        if key == at {
            lemma_lookup_first(members, key, 0);
        } else {
            lemma_lookup_absent(members, key);
        }
    }
}

/// Looking a key up in a run of one member.
pub proof fn lemma_lookup_one(at: Seq<char>, value: WireView, key: Seq<char>)
    ensures
        lookup(seq![(at, value)], key) == pick(at, Some(value), key),
{
    let one = seq![(at, value)];
    if key == at {
        lemma_lookup_first(one, key, 0);
    } else {
        lemma_lookup_absent(one, key);
    }
}

/// Looking a key up in a run of two members with different keys.
pub proof fn lemma_lookup_two(
    first: Seq<char>,
    a: WireView,
    second: Seq<char>,
    b: WireView,
    key: Seq<char>,
)
    requires
        first != second,
    ensures
        lookup(seq![(first, a), (second, b)], key) == or_else(
            pick(first, Some(a), key),
            pick(second, Some(b), key),
        ),
{
    let two = seq![(first, a), (second, b)];
    if key == first {
        lemma_lookup_first(two, key, 0);
    } else if key == second {
        lemma_lookup_first(two, key, 1);
    } else {
        lemma_lookup_absent(two, key);
    }
}

/// Reading the wire value of a click event gives the event.
pub proof fn lemma_click_round_trip(click: ClickView)
    ensures
        wire_click(click_wire(click)) == Ok::<ClickView, DecodeError>(click),
{
    lemma_keys();
    lemma_action_sigs();
    let action = WireView::Str(click_action(click));
    let value = click_value(click);
    lemma_lookup_two("action"@, action, "value"@, value, "action"@);
    lemma_lookup_two("action"@, action, "value"@, value, "value"@);
}

/// What looking a key up in the record of an item gives.
pub proof fn lemma_item_lookup(item: ItemView, key: Seq<char>)
    ensures
        item_wire(item).get(key) == or_else(
            or_else(
                pick("id"@, Some(WireView::Str(item.id)), key),
                pick(
                    "Count"@,
                    match item.count {
                        Some(count) => Some(WireView::Int(count as int)),
                        None => None,
                    },
                    key,
                ),
            ),
            pick("tag"@, str_wire(item.tag), key),
        ),
{
    let id = seq![("id"@, WireView::Str(item.id))];
    let count = match item.count {
        Some(count) => Some(WireView::Int(count as int)),
        None => None,
    };
    lemma_lookup_one("id"@, WireView::Str(item.id), key);
    lemma_lookup_member_at("Count"@, count, key);
    lemma_lookup_member_at("tag"@, str_wire(item.tag), key);
    lemma_lookup_concat(id, member("Count"@, count), key);
    lemma_lookup_concat(id + member("Count"@, count), string("tag"@, item.tag), key);
}

/// Reading the record of an item gives the item.
pub proof fn lemma_item_round_trip(item: ItemView)
    ensures
        wire_item(item_wire(item)) == Some(item),
{
    lemma_keys();
    lemma_item_lookup(item, "id"@);
    lemma_item_lookup(item, "Count"@);
    lemma_item_lookup(item, "tag"@);
}

/// What looking a key up in the wire value of a score gives.
pub proof fn lemma_score_lookup(score: ScoreView, key: Seq<char>)
    ensures
        score_wire(score).get(key) == or_else(
            or_else(
                pick("name"@, Some(WireView::Str(score.name)), key),
                pick("objective"@, Some(WireView::Str(score.objective)), key),
            ),
            pick("value"@, str_wire(score.value), key),
        ),
{
    lemma_keys();
    let head = seq![
        ("name"@, WireView::Str(score.name)),
        ("objective"@, WireView::Str(score.objective)),
    ];
    lemma_lookup_two(
        "name"@,
        WireView::Str(score.name),
        "objective"@,
        WireView::Str(score.objective),
        key,
    );
    lemma_lookup_member_at("value"@, str_wire(score.value), key);
    lemma_lookup_concat(head, string("value"@, score.value), key);
}

/// Reading the wire value of a score gives the score.
pub proof fn lemma_score_round_trip(score: ScoreView)
    ensures
        wire_score(score_wire(score)) == Ok::<ScoreView, DecodeError>(score),
{
    lemma_keys();
    lemma_score_lookup(score, "name"@);
    lemma_score_lookup(score, "objective"@);
    lemma_score_lookup(score, "value"@);
}

/// What looking a key up in the record of an entity gives.
pub proof fn lemma_entity_lookup(entity: EntityView, name: Option<WireView>, key: Seq<char>)
    ensures
        entity_wire(entity, name).get(key) == or_else(
            or_else(pick("name"@, name, key), pick("type"@, str_wire(entity.kind), key)),
            pick(
                "id"@,
                str_wire(
                    match entity.id {
                        Some(id) => Some(uuid_text(id)),
                        None => None,
                    },
                ),
                key,
            ),
        ),
{
    let id = match entity.id {
        Some(id) => Some(uuid_text(id)),
        None => None,
    };
    lemma_lookup_member_at("name"@, name, key);
    lemma_lookup_member_at("type"@, str_wire(entity.kind), key);
    lemma_lookup_member_at("id"@, str_wire(id), key);
    lemma_lookup_concat(member("name"@, name), string("type"@, entity.kind), key);
    lemma_lookup_concat(
        member("name"@, name) + string("type"@, entity.kind),
        string("id"@, id),
        key,
    );
}

/// Whether the compact-record codec reads back the record that it wrote,
/// from a text that is longer than any string in the record.
pub open spec fn record_returns(record: WireView) -> bool {
    &&& compact_text(record) matches Some(text)
    &&& compact_value(text) == Some(record)
    &&& record.longest() < text.len()
}

/// Whether the `uuid` crate reads back the identifier that it wrote.
pub open spec fn id_returns(id: Option<u128>) -> bool {
    id matches Some(id) ==> uuid_parse(uuid_text(id)) == Some(id)
}

impl ChatView {
    /// Whether the outside codecs read back what they write for this
    /// component at `version`: every entity identifier in it, and, before
    /// the structured form, the compact record of every item and entity
    /// that a hover event in it shows.
    pub open spec fn faithful(self, version: int) -> bool
        decreases self,
    {
        &&& match self.kind {
            KindView::Translation(translation) => forall|i: int|
                0 <= i < translation.with.len() ==> (#[trigger] translation.with[i]).faithful(
                    version,
                ),
            KindView::Selector(selector) => selector.sep matches Some(sep) ==> sep.faithful(version),
            _ => true,
        }
        &&& self.style.hover_event matches Some(hover) ==> hover.faithful(version)
        &&& forall|i: int|
            0 <= i < self.children.len() ==> (#[trigger] self.children[i]).faithful(version)
    }
}

impl HoverView {
    /// Whether the outside codecs read back what they write for this hover
    /// event at `version`.
    pub open spec fn faithful(self, version: int) -> bool
        decreases self,
    {
        match self {
            HoverView::ShowText(text) => text.faithful(version),
            HoverView::ShowItem(item) => supports_structured_hover(version) || record_returns(
                item_wire(item),
            ),
            HoverView::ShowEntity(entity) => {
                &&& id_returns(entity.id)
                &&& entity.name matches Some(name) ==> name.faithful(version)
                &&& supports_structured_hover(version) || record_returns(
                    entity_wire(entity, name_wire(entity, version)),
                )
            },
        }
    }
}

/// What looking a key up in the wire value of a hover event gives.
pub proof fn lemma_hover_lookup(hover: HoverView, content: WireView, version: int, key: Seq<char>)
    ensures
        hover_wire(hover, content, version).get(key) == or_else(
            pick("action"@, Some(WireView::Str(hover_action(hover))), key),
            pick(
                content_key(version),
                Some(
                    if is_compact(hover, version) {
                        WireView::Str(compact_str(content))
                    } else {
                        content
                    },
                ),
                key,
            ),
        ),
{
    lemma_keys();
    lemma_lookup_two(
        "action"@,
        WireView::Str(hover_action(hover)),
        content_key(version),
        if is_compact(hover, version) {
            WireView::Str(compact_str(content))
        } else {
            content
        },
        key,
    );
}

/// Reading the wire value of a hover event gives the event, given that
/// reading what it shows gives that.
pub proof fn lemma_hover_reads(hover: HoverView, version: int)
    requires
        hover.faithful(version),
        hover matches HoverView::ShowText(text) ==> wire_chat(chat_wire(*text, version)) == Ok::<
            ChatView,
            DecodeError,
        >(project_chat(*text, version)),
        hover matches HoverView::ShowEntity(entity) ==> (entity.name matches Some(name)
            ==> wire_chat(chat_wire(*name, version)) == Ok::<ChatView, DecodeError>(
            project_chat(*name, version),
        )),
    ensures
        wire_hover(hover_wire(hover, hover_content(hover, version), version)) == Ok::<
            HoverView,
            DecodeError,
        >(project_hover(hover, version)),
{
    lemma_keys();
    lemma_action_sigs();
    let content = hover_content(hover, version);
    let w = hover_wire(hover, content, version);
    lemma_hover_lookup(hover, content, version, "action"@);
    lemma_hover_lookup(hover, content, version, "contents"@);
    lemma_hover_lookup(hover, content, version, "value"@);
    let older = !supports_structured_hover(version);
    let payload = if is_compact(hover, version) {
        WireView::Str(compact_str(content))
    } else {
        content
    };
    assert(hover_parts(w) == Some((older, payload)));
    assert(w.get("action"@) == Some(WireView::Str(hover_action(hover))));
    match hover {
        HoverView::ShowText(text) => {},
        HoverView::ShowItem(item) => {
            lemma_item_round_trip(item);
            assert(record_of(older, payload) == Some(content));
        },
        HoverView::ShowEntity(entity) => {
            let name = name_wire(entity, version);
            lemma_entity_lookup(entity, name, "name"@);
            lemma_entity_lookup(entity, name, "type"@);
            lemma_entity_lookup(entity, name, "id"@);
            assert(record_of(older, payload) == Some(content));
            assert(content is Object);
            assert(record_text(content, "type"@) == Some(entity.kind));
            assert(entity_id(content) == Some(entity.id));
        },
    }
}

/// What looking a key up among the five formats of a style gives.
pub open spec fn format_lookup(style: StyleView, key: Seq<char>) -> Option<WireView> {
    if key == "bold"@ {
        bool_wire(style.bold)
    } else if key == "italic"@ {
        bool_wire(style.italic)
    } else if key == "underlined"@ {
        bool_wire(style.underlined)
    } else if key == "strikethrough"@ {
        bool_wire(style.strikethrough)
    } else if key == "obfuscated"@ {
        bool_wire(style.obfuscated)
    } else {
        None
    }
}

/// What looking a key up among color, insertion and font of a style gives.
pub open spec fn text_lookup(style: StyleView, version: int, key: Seq<char>) -> Option<WireView> {
    if key == "color"@ {
        str_wire(
            match shown_color(style.color, version) {
                Some(color) => Some(color_token(color)),
                None => None,
            },
        )
    } else if key == "insertion"@ {
        str_wire(shown_insertion(style.insertion, version))
    } else if key == "font"@ {
        str_wire(shown_font(style.font, version))
    } else {
        None
    }
}

/// What looking a key up among the two events of a style gives.
pub open spec fn event_lookup(
    style: StyleView,
    version: int,
    hover: Option<WireView>,
    key: Seq<char>,
) -> Option<WireView> {
    if key == "clickEvent"@ {
        match shown_click(style.click_event, version) {
            Some(click) => Some(click_wire(click)),
            None => None,
        }
    } else if key == "hoverEvent"@ {
        hover
    } else {
        None
    }
}

/// What looking a key up among the members of a kind gives.
pub open spec fn kind_lookup(
    kind: KindView,
    with: Seq<WireView>,
    sep: Option<WireView>,
    key: Seq<char>,
) -> Option<WireView> {
    match kind {
        KindView::Text(text) => pick("text"@, Some(WireView::Str(text)), key),
        KindView::Translation(translation) => or_else(
            pick("translate"@, Some(WireView::Str(translation.key)), key),
            pick(
                "with"@,
                if with.len() > 0 {
                    Some(WireView::Array(with))
                } else {
                    None
                },
                key,
            ),
        ),
        KindView::Score(score) => pick("score"@, Some(score_wire(score)), key),
        KindView::Selector(selector) => or_else(
            pick("selector"@, Some(WireView::Str(selector.selector)), key),
            pick("separator"@, sep, key),
        ),
        KindView::Keybind(keybind) => pick("keybind"@, Some(WireView::Str(keybind)), key),
    }
}

/// Looking a key up among the five formats of a style.
pub proof fn lemma_format_lookup(style: StyleView, key: Seq<char>)
    ensures
        lookup(format_members(style), key) == format_lookup(style, key),
{
    lemma_keys();
    let f0 = flag("bold"@, style.bold);
    let f1 = flag("italic"@, style.italic);
    let f2 = flag("underlined"@, style.underlined);
    let f3 = flag("strikethrough"@, style.strikethrough);
    let f4 = flag("obfuscated"@, style.obfuscated);
    lemma_lookup_member_at("bold"@, bool_wire(style.bold), key);
    lemma_lookup_member_at("italic"@, bool_wire(style.italic), key);
    lemma_lookup_member_at("underlined"@, bool_wire(style.underlined), key);
    lemma_lookup_member_at("strikethrough"@, bool_wire(style.strikethrough), key);
    lemma_lookup_member_at("obfuscated"@, bool_wire(style.obfuscated), key);
    lemma_lookup_concat(f0, f1, key);
    lemma_lookup_concat(f0 + f1, f2, key);
    lemma_lookup_concat(f0 + f1 + f2, f3, key);
    lemma_lookup_concat(f0 + f1 + f2 + f3, f4, key);
}

/// Looking a key up among color, insertion and font of a style.
pub proof fn lemma_text_lookup(style: StyleView, version: int, key: Seq<char>)
    ensures
        lookup(text_members(style, version), key) == text_lookup(style, version, key),
{
    lemma_keys();
    let color = match shown_color(style.color, version) {
        Some(color) => Some(color_token(color)),
        None => None,
    };
    let f0 = string("color"@, color);
    let f1 = string("insertion"@, shown_insertion(style.insertion, version));
    let f2 = string("font"@, shown_font(style.font, version));
    lemma_lookup_member_at("color"@, str_wire(color), key);
    lemma_lookup_member_at("insertion"@, str_wire(shown_insertion(style.insertion, version)), key);
    lemma_lookup_member_at("font"@, str_wire(shown_font(style.font, version)), key);
    lemma_lookup_concat(f0, f1, key);
    lemma_lookup_concat(f0 + f1, f2, key);
}

/// Looking a key up among the two events of a style.
pub proof fn lemma_event_lookup(
    style: StyleView,
    version: int,
    hover: Option<WireView>,
    key: Seq<char>,
)
    ensures
        lookup(event_members(style, version, hover), key) == event_lookup(
            style,
            version,
            hover,
            key,
        ),
{
    lemma_keys();
    let click = match shown_click(style.click_event, version) {
        Some(click) => Some(click_wire(click)),
        None => None,
    };
    lemma_lookup_member_at("clickEvent"@, click, key);
    lemma_lookup_member_at("hoverEvent"@, hover, key);
    lemma_lookup_concat(member("clickEvent"@, click), member("hoverEvent"@, hover), key);
}

/// Looking a key up among the members of a kind.
pub proof fn lemma_kind_lookup(
    kind: KindView,
    with: Seq<WireView>,
    sep: Option<WireView>,
    key: Seq<char>,
)
    ensures
        lookup(kind_members(kind, with, sep), key) == kind_lookup(kind, with, sep, key),
{
    lemma_keys();
    match kind {
        KindView::Text(text) => {
            lemma_lookup_one("text"@, WireView::Str(text), key);
        },
        KindView::Translation(translation) => {
            let args = if with.len() > 0 {
                Some(WireView::Array(with))
            } else {
                None
            };
            lemma_lookup_one("translate"@, WireView::Str(translation.key), key);
            lemma_lookup_member_at("with"@, args, key);
            lemma_lookup_concat(
                seq![("translate"@, WireView::Str(translation.key))],
                member("with"@, args),
                key,
            );
        },
        KindView::Score(score) => {
            lemma_lookup_one("score"@, score_wire(score), key);
        },
        KindView::Selector(selector) => {
            lemma_lookup_one("selector"@, WireView::Str(selector.selector), key);
            lemma_lookup_member_at("separator"@, sep, key);
            lemma_lookup_concat(
                seq![("selector"@, WireView::Str(selector.selector))],
                member("separator"@, sep),
                key,
            );
        },
        KindView::Keybind(keybind) => {
            lemma_lookup_one("keybind"@, WireView::Str(keybind), key);
        },
    }
}

/// What looking a key up in the wire value of a component gives: the
/// members of the kind come first, then those of the style, then `extra`.
pub open spec fn chat_lookup(chat: ChatView, version: int, key: Seq<char>) -> Option<WireView> {
    or_else(
        or_else(
            kind_lookup(
                chat.kind,
                with_wire(chat.kind, version),
                sep_wire(chat.kind, version),
                key,
            ),
            or_else(
                or_else(format_lookup(chat.style, key), text_lookup(chat.style, version, key)),
                event_lookup(chat.style, version, style_hover_wire(chat.style, version), key),
            ),
        ),
        pick(
            "extra"@,
            if chat.children.len() > 0 {
                Some(WireView::Array(chats_wire(chat.children, version)))
            } else {
                None
            },
            key,
        ),
    )
}

/// Looking a key up in the wire value of a component.
pub proof fn lemma_chat_lookup(chat: ChatView, version: int, key: Seq<char>)
    ensures
        chat_wire(chat, version).get(key) == chat_lookup(chat, version, key),
{
    let with = with_wire(chat.kind, version);
    let sep = sep_wire(chat.kind, version);
    let hover = style_hover_wire(chat.style, version);
    let extra = chats_wire(chat.children, version);
    let k = kind_members(chat.kind, with, sep);
    let f = format_members(chat.style);
    let t = text_members(chat.style, version);
    let e = event_members(chat.style, version, hover);
    let s = style_members(chat.style, version, hover);
    let x = extra_member(extra);
    lemma_kind_lookup(chat.kind, with, sep, key);
    lemma_format_lookup(chat.style, key);
    lemma_text_lookup(chat.style, version, key);
    lemma_event_lookup(chat.style, version, hover, key);
    lemma_lookup_member_at(
        "extra"@,
        if extra.len() > 0 {
            Some(WireView::Array(extra))
        } else {
            None
        },
        key,
    );
    lemma_lookup_concat(f, t, key);
    lemma_lookup_concat(f + t, e, key);
    lemma_lookup_concat(k, s, key);
    lemma_lookup_concat(k + s, x, key);
    assert(chat_wire(chat, version) == WireView::Object(k + s + x));
}

/// Reading the kind back from the wire value of a component, given that
/// reading the components that the kind holds gives them back.
pub proof fn lemma_kind_reads(chat: ChatView, version: int)
    requires
        chat.kind matches KindView::Translation(translation) ==> wire_chats(
            WireView::Array(chats_wire(translation.with, version)),
        ) == Ok::<Seq<ChatView>, DecodeError>(project_chats(translation.with, version)),
        chat.kind matches KindView::Selector(selector) ==> (selector.sep matches Some(sep)
            ==> wire_chat(chat_wire(*sep, version)) == Ok::<ChatView, DecodeError>(
            project_chat(*sep, version),
        )),
    ensures
        wire_kind(chat_wire(chat, version)) == Ok::<KindView, DecodeError>(
            project_chat(chat, version).kind,
        ),
{
    lemma_keys();
    let w = chat_wire(chat, version);
    lemma_chat_lookup(chat, version, "text"@);
    lemma_chat_lookup(chat, version, "translate"@);
    lemma_chat_lookup(chat, version, "score"@);
    lemma_chat_lookup(chat, version, "selector"@);
    lemma_chat_lookup(chat, version, "keybind"@);
    lemma_chat_lookup(chat, version, "with"@);
    lemma_chat_lookup(chat, version, "separator"@);
    match chat.kind {
        KindView::Text(text) => {
            assert(kind_count(w) == 1);
        },
        KindView::Translation(translation) => {
            assert(kind_count(w) == 1);
            if translation.with.len() == 0 {
                assert(project_chats(translation.with, version) =~= Seq::empty());
            }
        },
        KindView::Score(score) => {
            assert(kind_count(w) == 1);
            lemma_score_round_trip(score);
        },
        KindView::Selector(selector) => {
            assert(kind_count(w) == 1);
        },
        KindView::Keybind(keybind) => {
            assert(kind_count(w) == 1);
        },
    }
}

/// Reading the style back from the wire value of a component, given that
/// reading its hover event gives that back.
pub proof fn lemma_style_reads(chat: ChatView, version: int)
    requires
        chat.style.color matches Some(color) ==> color.wf(),
        chat.style.hover_event matches Some(hover) ==> wire_hover(
            hover_wire(hover, hover_content(hover, version), version),
        ) == Ok::<HoverView, DecodeError>(project_hover(hover, version)),
    ensures
        wire_style(
            chat_wire(chat, version),
            wire_hover_field(chat_wire(chat, version)),
        ) == Ok::<StyleView, DecodeError>(project_chat(chat, version).style),
{
    lemma_keys();
    let w = chat_wire(chat, version);
    let style = chat.style;
    lemma_chat_lookup(chat, version, "bold"@);
    lemma_chat_lookup(chat, version, "italic"@);
    lemma_chat_lookup(chat, version, "underlined"@);
    lemma_chat_lookup(chat, version, "strikethrough"@);
    lemma_chat_lookup(chat, version, "obfuscated"@);
    lemma_chat_lookup(chat, version, "color"@);
    lemma_chat_lookup(chat, version, "insertion"@);
    lemma_chat_lookup(chat, version, "font"@);
    lemma_chat_lookup(chat, version, "clickEvent"@);
    lemma_chat_lookup(chat, version, "hoverEvent"@);
    assert(wire_flag(w, "bold"@) == Ok::<Option<bool>, DecodeError>(style.bold));
    assert(wire_flag(w, "italic"@) == Ok::<Option<bool>, DecodeError>(style.italic));
    assert(wire_flag(w, "underlined"@) == Ok::<Option<bool>, DecodeError>(style.underlined));
    assert(wire_flag(w, "strikethrough"@) == Ok::<Option<bool>, DecodeError>(style.strikethrough));
    assert(wire_flag(w, "obfuscated"@) == Ok::<Option<bool>, DecodeError>(style.obfuscated));
    assert(wire_color(w) == Ok::<Option<ColorView>, DecodeError>(
        shown_color(style.color, version),
    )) by {
        if let Some(color) = shown_color(style.color, version) {
            lemma_color_round_trip(color);
        }
    }
    assert(wire_text(w, "insertion"@) == Ok::<Option<Seq<char>>, DecodeError>(
        shown_insertion(style.insertion, version),
    ));
    assert(wire_text(w, "font"@) == Ok::<Option<Seq<char>>, DecodeError>(
        shown_font(style.font, version),
    ));
    assert(wire_click_field(w) == Ok::<Option<ClickView>, DecodeError>(
        shown_click(style.click_event, version),
    )) by {
        if let Some(click) = shown_click(style.click_event, version) {
            lemma_click_round_trip(click);
        }
    }
    assert(wire_hover_field(w) == Ok::<Option<HoverView>, DecodeError>(
        match style.hover_event {
            Some(hover) => Some(project_hover(hover, version)),
            None => None,
        },
    ));
}

/// Reading the children back from the wire value of a component, given
/// that reading each of them gives it back.
pub proof fn lemma_extra_reads(chat: ChatView, version: int)
    requires
        wire_chats(WireView::Array(chats_wire(chat.children, version))) == Ok::<
            Seq<ChatView>,
            DecodeError,
        >(project_chats(chat.children, version)),
    ensures
        wire_extra(chat_wire(chat, version)) == Ok::<Seq<ChatView>, DecodeError>(
            project_chat(chat, version).children,
        ),
{
    lemma_keys();
    lemma_chat_lookup(chat, version, "extra"@);
    if chat.children.len() == 0 {
        assert(project_chats(chat.children, version) =~= Seq::empty());
    }
}

/// The round trip: reading the wire value of a well-formed component gives
/// the component as the version carries it, wherever the outside codecs
/// read back what they write for it.
///
/// For a version that has the structured form of hover events, the one
/// outside codec involved is the reading of entity identifiers. Before
/// that form, the compact record of every item and entity shown is
/// involved too.
pub proof fn lemma_round_trip(chat: ChatView, version: int)
    requires
        chat.wf(),
    ensures
        chat.faithful(version) ==> wire_chat(chat_wire(chat, version)) == Ok::<
            ChatView,
            DecodeError,
        >(project_chat(chat, version)),
    decreases chat,
{
    if chat.faithful(version) {
        assert(chat.kind.wf());
        assert(chat.style.wf());
        match chat.kind {
            KindView::Translation(translation) => {
                lemma_chats_round_trip(translation.with, version);
            },
            KindView::Selector(selector) => {
                if let Some(sep) = selector.sep {
                    lemma_round_trip(*sep, version);
                }
            },
            _ => {},
        }
        if let Some(hover) = chat.style.hover_event {
            lemma_hover_round_trip(hover, version);
        }
        lemma_chats_round_trip(chat.children, version);
        lemma_kind_reads(chat, version);
        lemma_style_reads(chat, version);
        lemma_extra_reads(chat, version);
        assert(chat_wire(chat, version) is Object);
    }
}

/// The round trip for a run of components.
pub proof fn lemma_chats_round_trip(chats: Seq<ChatView>, version: int)
    requires
        forall|i: int| 0 <= i < chats.len() ==> (#[trigger] chats[i]).wf(),
        forall|i: int| 0 <= i < chats.len() ==> (#[trigger] chats[i]).faithful(version),
    ensures
        wire_chats(WireView::Array(chats_wire(chats, version))) == Ok::<Seq<ChatView>, DecodeError>(
            project_chats(chats, version),
        ),
    decreases chats,
{
    let wires = chats_wire(chats, version);
    let w = WireView::Array(wires);
    assert forall|i: int| 0 <= i < wires.len() implies wire_chat(#[trigger] wires[i]) == Ok::<
        ChatView,
        DecodeError,
    >(project_chat(chats[i], version)) by {
        lemma_round_trip(chats[i], version);
    }
    assert(w->Array_0 == wires);
    assert(wire_chats(w) is Ok);
    assert(wire_chats(w)->Ok_0 =~= project_chats(chats, version));
}

/// The round trip for a hover event.
pub proof fn lemma_hover_round_trip(hover: HoverView, version: int)
    requires
        hover.wf(),
        hover.faithful(version),
    ensures
        wire_hover(hover_wire(hover, hover_content(hover, version), version)) == Ok::<
            HoverView,
            DecodeError,
        >(project_hover(hover, version)),
    decreases hover,
{
    match hover {
        HoverView::ShowText(text) => {
            lemma_round_trip(*text, version);
        },
        HoverView::ShowItem(_) => {},
        HoverView::ShowEntity(entity) => {
            if let Some(name) = entity.name {
                lemma_round_trip(*name, version);
            }
        },
    }
    lemma_hover_reads(hover, version);
}

/// Reading looks at an object only through what `get` finds in it: two
/// objects in which every key finds the same read the same. So the order
/// of the members of an object does not matter where no key comes twice.
pub proof fn lemma_reading_by_members(a: WireView, b: WireView)
    requires
        a is Object,
        b is Object,
        forall|key: Seq<char>| #[trigger] a.get(key) == b.get(key),
    ensures
        wire_chat(a) == wire_chat(b),
        wire_hover(a) == wire_hover(b),
        wire_click(a) == wire_click(b),
        wire_item(a) == wire_item(b),
        wire_score(a) == wire_score(b),
{
    assert(hover_parts(a) == hover_parts(b));
    assert(wire_hover(a) == wire_hover(b));
    assert(kind_count(a) == kind_count(b));
    assert(wire_kind(a) == wire_kind(b));
    assert(present(a, "hoverEvent"@) == present(b, "hoverEvent"@));
    assert(wire_hover_field(a) == wire_hover_field(b));
    assert(wire_extra(a) == wire_extra(b));
    assert(wire_flag(a, "bold"@) == wire_flag(b, "bold"@));
    assert(wire_flag(a, "italic"@) == wire_flag(b, "italic"@));
    assert(wire_flag(a, "underlined"@) == wire_flag(b, "underlined"@));
    assert(wire_flag(a, "strikethrough"@) == wire_flag(b, "strikethrough"@));
    assert(wire_flag(a, "obfuscated"@) == wire_flag(b, "obfuscated"@));
    assert(wire_color(a) == wire_color(b));
    assert(wire_text(a, "insertion"@) == wire_text(b, "insertion"@));
    assert(wire_text(a, "font"@) == wire_text(b, "font"@));
    assert(wire_click_field(a) == wire_click_field(b));
    assert(wire_style(a, wire_hover_field(a)) == wire_style(b, wire_hover_field(b)));
}

/// A hover event reads the same whether its action comes before what it
/// shows or after.
pub proof fn lemma_hover_order(action: WireView, key: Seq<char>, content: WireView)
    requires
        key == "value"@ || key == "contents"@,
    ensures
        wire_hover(WireView::Object(seq![("action"@, action), (key, content)])) == wire_hover(
            WireView::Object(seq![(key, content), ("action"@, action)]),
        ),
{
    lemma_keys();
    let a = WireView::Object(seq![("action"@, action), (key, content)]);
    let b = WireView::Object(seq![(key, content), ("action"@, action)]);
    assert forall|k: Seq<char>| #[trigger] a.get(k) == b.get(k) by {
        lemma_lookup_two("action"@, action, key, content, k);
        lemma_lookup_two(key, content, "action"@, action, k);
    }
    lemma_reading_by_members(a, b);
}

/// A member of a style is written exactly where its value is present and
/// the version carries it: the five formats always; a custom color and a
/// font from 1.16 on; an insertion from 1.8 on; a copy to the clipboard
/// from 1.15 on; a hover event always.
pub proof fn lemma_style_gates(style: StyleView, version: int, hover: Option<WireView>)
    ensures
        lookup(style_members(style, version, hover), "bold"@) is Some <==> style.bold is Some,
        lookup(style_members(style, version, hover), "italic"@) is Some <==> style.italic is Some,
        lookup(style_members(style, version, hover), "underlined"@) is Some
            <==> style.underlined is Some,
        lookup(style_members(style, version, hover), "strikethrough"@) is Some
            <==> style.strikethrough is Some,
        lookup(style_members(style, version, hover), "obfuscated"@) is Some
            <==> style.obfuscated is Some,
        lookup(style_members(style, version, hover), "color"@) is Some <==> (
        style.color matches Some(color) && (color is Custom ==> version >= 713)),
        lookup(style_members(style, version, hover), "insertion"@) is Some <==> (
        style.insertion is Some && version >= 5),
        lookup(style_members(style, version, hover), "font"@) is Some <==> (style.font is Some
            && version >= 713),
        lookup(style_members(style, version, hover), "clickEvent"@) is Some <==> (
        style.click_event matches Some(click) && (click is CopyToClipBoard ==> version >= 558)),
        lookup(style_members(style, version, hover), "hoverEvent"@) is Some <==> hover is Some,
{
    lemma_keys();
    lemma_style_lookup(style, version, hover, "bold"@);
    lemma_style_lookup(style, version, hover, "italic"@);
    lemma_style_lookup(style, version, hover, "underlined"@);
    lemma_style_lookup(style, version, hover, "strikethrough"@);
    lemma_style_lookup(style, version, hover, "obfuscated"@);
    lemma_style_lookup(style, version, hover, "color"@);
    lemma_style_lookup(style, version, hover, "insertion"@);
    lemma_style_lookup(style, version, hover, "font"@);
    lemma_style_lookup(style, version, hover, "clickEvent"@);
    lemma_style_lookup(style, version, hover, "hoverEvent"@);
}

/// Looking a key up among the members of a style.
pub proof fn lemma_style_lookup(
    style: StyleView,
    version: int,
    hover: Option<WireView>,
    key: Seq<char>,
)
    ensures
        lookup(style_members(style, version, hover), key) == or_else(
            or_else(format_lookup(style, key), text_lookup(style, version, key)),
            event_lookup(style, version, hover, key),
        ),
{
    let f = format_members(style);
    let t = text_members(style, version);
    let e = event_members(style, version, hover);
    lemma_format_lookup(style, key);
    lemma_text_lookup(style, version, key);
    lemma_event_lookup(style, version, hover, key);
    lemma_lookup_concat(f, t, key);
    lemma_lookup_concat(f + t, e, key);
}

/// What reading gives is well-formed: a custom color in it holds `#` and six
/// hex digits, at any depth.
pub proof fn lemma_read_is_well_formed(w: WireView)
    ensures
        wire_chat(w) matches Ok(chat) ==> chat.wf(),
    decreases w.longest(), w, 3nat,
{
    broadcast use {crate::wire::lemma_get_decreases, crate::wire::lemma_item_decreases};

    if let Ok(chat) = wire_chat(w) {
        match w {
            WireView::Str(text) => {
                assert(chat.style.wf());
                assert(chat.kind.wf());
            },
            WireView::Array(items) => {
                lemma_read_all_well_formed(w);
                let chats = wire_chats(w)->Ok_0;
                assert(chats[0].wf());
                assert(chat.kind.wf());
                assert(chat.style.wf());
                if chats.len() > 1 {
                    assert forall|i: int| 0 <= i < chat.children.len() implies (
                    #[trigger] chat.children[i]).wf() by {
                        assert(chat.children[i] == chats[i + 1]);
                    }
                } else {
                    assert(chat == chats[0]);
                }
            },
            WireView::Object(_) => {
                lemma_read_kind_well_formed(w);
                lemma_read_style_well_formed(w);
                lemma_read_extra_well_formed(w);
            },
            _ => {},
        }
    }
}

/// The components that reading an array gives are well-formed.
pub proof fn lemma_read_all_well_formed(w: WireView)
    ensures
        wire_chats(w) matches Ok(chats) ==> forall|i: int|
            0 <= i < chats.len() ==> (#[trigger] chats[i]).wf(),
    decreases w.longest(), w, 1nat,
{
    broadcast use {crate::wire::lemma_get_decreases, crate::wire::lemma_item_decreases};

    if let Ok(chats) = wire_chats(w) {
        let items = w->Array_0;
        assert forall|i: int| 0 <= i < chats.len() implies (#[trigger] chats[i]).wf() by {
            assert(items[i] == w->Array_0[i]);
            lemma_read_is_well_formed(items[i]);
            assert(wire_chat(items[i]) is Ok);
        }
    }
}

/// The kind that reading an object gives is well-formed.
pub proof fn lemma_read_kind_well_formed(w: WireView)
    ensures
        wire_kind(w) matches Ok(kind) ==> kind.wf(),
    decreases w.longest(), w, 2nat,
{
    broadcast use {crate::wire::lemma_get_decreases, crate::wire::lemma_item_decreases};

    if let Ok(kind) = wire_kind(w) {
        match kind {
            KindView::Translation(translation) => {
                if let Some(with) = w.get("with"@) {
                    lemma_read_all_well_formed(with);
                }
            },
            KindView::Selector(selector) => {
                if let Some(sep) = present(w, "separator"@) {
                    lemma_read_is_well_formed(sep);
                }
            },
            _ => {},
        }
    }
}

/// The style that reading an object gives is well-formed.
pub proof fn lemma_read_style_well_formed(w: WireView)
    ensures
        wire_style(w, wire_hover_field(w)) matches Ok(style) ==> style.wf(),
    decreases w.longest(), w, 2nat,
{
    broadcast use {crate::wire::lemma_get_decreases, crate::wire::lemma_item_decreases};

    if let Ok(style) = wire_style(w, wire_hover_field(w)) {
        if let Some(hover) = present(w, "hoverEvent"@) {
            lemma_read_hover_well_formed(hover);
        }
    }
}

/// The hover event that reading gives is well-formed.
pub proof fn lemma_read_hover_well_formed(w: WireView)
    ensures
        wire_hover(w) matches Ok(hover) ==> hover.wf(),
    decreases w.longest(), w, 0nat,
{
    broadcast use {crate::wire::lemma_get_decreases, crate::wire::lemma_item_decreases};

    if let Ok(hover) = wire_hover(w) {
        let (older, content) = hover_parts(w)->Some_0;
        match hover {
            HoverView::ShowText(text) => {
                lemma_read_is_well_formed(content);
            },
            HoverView::ShowItem(_) => {},
            HoverView::ShowEntity(entity) => {
                let record = record_of(older, content)->Some_0;
                if let Some(name) = record.get("name"@) {
                    lemma_read_is_well_formed(name);
                }
            },
        }
    }
}

/// The children that reading an object gives are well-formed.
pub proof fn lemma_read_extra_well_formed(w: WireView)
    ensures
        wire_extra(w) matches Ok(children) ==> forall|i: int|
            0 <= i < children.len() ==> (#[trigger] children[i]).wf(),
    decreases w.longest(), w, 2nat,
{
    broadcast use {crate::wire::lemma_get_decreases, crate::wire::lemma_item_decreases};

    if let Some(extra) = w.get("extra"@) {
        lemma_read_all_well_formed(extra);
    }
}

/// Writing depends on a component only through what the version carries
/// of it: the component and its projection have the same wire value.
pub proof fn lemma_wire_of_projection(chat: ChatView, version: int)
    ensures
        chat_wire(project_chat(chat, version), version) == chat_wire(chat, version),
    decreases chat,
{
    let projected = project_chat(chat, version);
    match chat.kind {
        KindView::Translation(translation) => {
            lemma_wires_of_projection(translation.with, version);
        },
        KindView::Selector(selector) => {
            if let Some(sep) = selector.sep {
                lemma_wire_of_projection(*sep, version);
            }
        },
        _ => {},
    }
    if let Some(hover) = chat.style.hover_event {
        lemma_hover_of_projection(hover, version);
    }
    lemma_wires_of_projection(chat.children, version);
    assert(with_wire(projected.kind, version) == with_wire(chat.kind, version));
    assert(sep_wire(projected.kind, version) == sep_wire(chat.kind, version));
    assert(kind_members(
        projected.kind,
        with_wire(projected.kind, version),
        sep_wire(projected.kind, version),
    ) == kind_members(chat.kind, with_wire(chat.kind, version), sep_wire(chat.kind, version)));
    assert(style_hover_wire(projected.style, version) == style_hover_wire(chat.style, version));
    assert(format_members(projected.style) == format_members(chat.style));
    assert(text_members(projected.style, version) == text_members(chat.style, version));
    assert(event_members(
        projected.style,
        version,
        style_hover_wire(projected.style, version),
    ) == event_members(chat.style, version, style_hover_wire(chat.style, version)));
}

/// The wire values of a run of components and of their projections are the
/// same.
pub proof fn lemma_wires_of_projection(chats: Seq<ChatView>, version: int)
    ensures
        chats_wire(project_chats(chats, version), version) == chats_wire(chats, version),
    decreases chats,
{
    assert forall|i: int| 0 <= i < chats.len() implies chat_wire(
        #[trigger] project_chats(chats, version)[i],
        version,
    ) == chat_wire(chats[i], version) by {
        lemma_wire_of_projection(chats[i], version);
    }
    assert(chats_wire(project_chats(chats, version), version) =~= chats_wire(chats, version));
}

/// The wire values of a hover event and of its projection are the same.
pub proof fn lemma_hover_of_projection(hover: HoverView, version: int)
    ensures
        hover_content(project_hover(hover, version), version) == hover_content(hover, version),
        hover_wire(
            project_hover(hover, version),
            hover_content(project_hover(hover, version), version),
            version,
        ) == hover_wire(hover, hover_content(hover, version), version),
    decreases hover,
{
    match hover {
        HoverView::ShowText(text) => {
            lemma_wire_of_projection(*text, version);
        },
        HoverView::ShowItem(_) => {},
        HoverView::ShowEntity(entity) => {
            if let Some(name) = entity.name {
                lemma_wire_of_projection(*name, version);
            }
        },
    }
}

/// Projecting twice is projecting once.
pub proof fn lemma_projection_is_idempotent(chat: ChatView, version: int)
    ensures
        project_chat(project_chat(chat, version), version) == project_chat(chat, version),
    decreases chat,
{
    let once = project_chat(chat, version);
    match chat.kind {
        KindView::Translation(translation) => {
            lemma_projections_are_idempotent(translation.with, version);
        },
        KindView::Selector(selector) => {
            if let Some(sep) = selector.sep {
                lemma_projection_is_idempotent(*sep, version);
            }
        },
        _ => {},
    }
    if let Some(hover) = chat.style.hover_event {
        lemma_hover_projection_is_idempotent(hover, version);
    }
    lemma_projections_are_idempotent(chat.children, version);
    assert(project_chat(once, version).kind == once.kind);
    assert(project_chat(once, version).style == once.style);
}

/// Projecting a run of components twice is projecting it once.
pub proof fn lemma_projections_are_idempotent(chats: Seq<ChatView>, version: int)
    ensures
        project_chats(project_chats(chats, version), version) == project_chats(chats, version),
    decreases chats,
{
    assert forall|i: int| 0 <= i < chats.len() implies project_chat(
        #[trigger] project_chats(chats, version)[i],
        version,
    ) == project_chat(chats[i], version) by {
        lemma_projection_is_idempotent(chats[i], version);
    }
    assert(project_chats(project_chats(chats, version), version) =~= project_chats(chats, version));
}

/// Projecting a hover event twice is projecting it once.
pub proof fn lemma_hover_projection_is_idempotent(hover: HoverView, version: int)
    ensures
        project_hover(project_hover(hover, version), version) == project_hover(hover, version),
    decreases hover,
{
    match hover {
        HoverView::ShowText(text) => {
            lemma_projection_is_idempotent(*text, version);
        },
        HoverView::ShowItem(_) => {},
        HoverView::ShowEntity(entity) => {
            if let Some(name) = entity.name {
                lemma_projection_is_idempotent(*name, version);
            }
        },
    }
}

/// A version that knows every part of a style carries a component as it
/// is.
pub proof fn lemma_projection_keeps_all(chat: ChatView, version: int)
    requires
        version >= 713,
    ensures
        project_chat(chat, version) == chat,
    decreases chat,
{
    match chat.kind {
        KindView::Translation(translation) => {
            lemma_projections_keep_all(translation.with, version);
        },
        KindView::Selector(selector) => {
            if let Some(sep) = selector.sep {
                lemma_projection_keeps_all(*sep, version);
            }
        },
        _ => {},
    }
    if let Some(hover) = chat.style.hover_event {
        match hover {
            HoverView::ShowText(text) => {
                lemma_projection_keeps_all(*text, version);
            },
            HoverView::ShowItem(_) => {},
            HoverView::ShowEntity(entity) => {
                if let Some(name) = entity.name {
                    lemma_projection_keeps_all(*name, version);
                }
            },
        }
        assert(project_hover(hover, version) == hover);
    }
    lemma_projections_keep_all(chat.children, version);
    assert(project_chat(chat, version).kind == chat.kind);
    assert(project_chat(chat, version).style == chat.style);
}

/// A version that knows every part of a style carries a run of components
/// as it is.
pub proof fn lemma_projections_keep_all(chats: Seq<ChatView>, version: int)
    requires
        version >= 713,
    ensures
        project_chats(chats, version) == chats,
    decreases chats,
{
    assert forall|i: int| 0 <= i < chats.len() implies #[trigger] project_chats(chats, version)[i]
        == chats[i] by {
        lemma_projection_keeps_all(chats[i], version);
    }
    assert(project_chats(chats, version) =~= chats);
}

/// A component of which no part is written as a compact record can be
/// encoded: success is owed wherever the compact-record writer is not
/// asked.
pub proof fn lemma_compact_free_encodable(chat: ChatView, version: int)
    requires
        chat.compact_free(version),
    ensures
        chat.encodable(version),
    decreases chat,
{
    match chat.kind {
        KindView::Translation(translation) => {
            assert forall|i: int| 0 <= i < translation.with.len() implies (
            #[trigger] translation.with[i]).encodable(version) by {
                lemma_compact_free_encodable(translation.with[i], version);
            }
        },
        KindView::Selector(selector) => {
            if let Some(sep) = selector.sep {
                lemma_compact_free_encodable(*sep, version);
            }
        },
        _ => {},
    }
    assert(chat.kind.encodable(version));
    if let Some(hover) = chat.style.hover_event {
        lemma_hover_compact_free_encodable(hover, version);
    }
    assert forall|i: int| 0 <= i < chat.children.len() implies (
    #[trigger] chat.children[i]).encodable(version) by {
        lemma_compact_free_encodable(chat.children[i], version);
    }
}

/// A hover event of which no part is written as a compact record can be
/// encoded.
pub proof fn lemma_hover_compact_free_encodable(hover: HoverView, version: int)
    requires
        hover.compact_free(version),
    ensures
        hover.encodable(version),
    decreases hover,
{
    match hover {
        HoverView::ShowText(text) => {
            lemma_compact_free_encodable(*text, version);
        },
        HoverView::ShowItem(_) => {},
        HoverView::ShowEntity(entity) => {
            if let Some(name) = entity.name {
                lemma_compact_free_encodable(*name, version);
            }
        },
    }
}

/// A component for which the outside codecs read back what they write can
/// be encoded.
pub proof fn lemma_faithful_encodable(chat: ChatView, version: int)
    requires
        chat.faithful(version),
    ensures
        chat.encodable(version),
    decreases chat,
{
    match chat.kind {
        KindView::Translation(translation) => {
            assert forall|i: int| 0 <= i < translation.with.len() implies (
            #[trigger] translation.with[i]).encodable(version) by {
                lemma_faithful_encodable(translation.with[i], version);
            }
        },
        KindView::Selector(selector) => {
            if let Some(sep) = selector.sep {
                lemma_faithful_encodable(*sep, version);
            }
        },
        _ => {},
    }
    assert(chat.kind.encodable(version));
    if let Some(hover) = chat.style.hover_event {
        assert(hover.faithful(version));
        match hover {
            HoverView::ShowText(text) => {
                lemma_faithful_encodable(*text, version);
            },
            HoverView::ShowItem(_) => {},
            HoverView::ShowEntity(entity) => {
                if let Some(name) = entity.name {
                    lemma_faithful_encodable(*name, version);
                }
            },
        }
        assert(hover.encodable(version));
    }
    assert forall|i: int| 0 <= i < chat.children.len() implies (
    #[trigger] chat.children[i]).encodable(version) by {
        lemma_faithful_encodable(chat.children[i], version);
    }
}

impl ChatView {
    /// Whether no hover event in the component, at any depth, shows an
    /// entity with an identifier.
    pub open spec fn id_free(self) -> bool
        decreases self,
    {
        &&& match self.kind {
            KindView::Translation(translation) => forall|i: int|
                0 <= i < translation.with.len() ==> (#[trigger] translation.with[i]).id_free(),
            KindView::Selector(selector) => selector.sep matches Some(sep) ==> sep.id_free(),
            _ => true,
        }
        &&& self.style.hover_event matches Some(hover) ==> hover.id_free()
        &&& forall|i: int| 0 <= i < self.children.len() ==> (#[trigger] self.children[i]).id_free()
    }
}

impl HoverView {
    /// Whether the event shows no entity with an identifier, at any depth.
    pub open spec fn id_free(self) -> bool
        decreases self,
    {
        match self {
            HoverView::ShowText(text) => text.id_free(),
            HoverView::ShowItem(_) => true,
            HoverView::ShowEntity(entity) => entity.id is None && (entity.name matches Some(name)
                ==> name.id_free()),
        }
    }
}

/// Where neither outside codec is asked, nothing is assumed of them: a
/// component without entity identifiers, of which no part is written as a
/// compact record, is one for which the codecs read back what they write.
pub proof fn lemma_faithful_without_codecs(chat: ChatView, version: int)
    requires
        chat.compact_free(version),
        chat.id_free(),
    ensures
        chat.faithful(version),
    decreases chat,
{
    match chat.kind {
        KindView::Translation(translation) => {
            assert forall|i: int| 0 <= i < translation.with.len() implies (
            #[trigger] translation.with[i]).faithful(version) by {
                lemma_faithful_without_codecs(translation.with[i], version);
            }
        },
        KindView::Selector(selector) => {
            if let Some(sep) = selector.sep {
                lemma_faithful_without_codecs(*sep, version);
            }
        },
        _ => {},
    }
    if let Some(hover) = chat.style.hover_event {
        assert(hover.compact_free(version));
        assert(hover.id_free());
        match hover {
            HoverView::ShowText(text) => {
                lemma_faithful_without_codecs(*text, version);
            },
            HoverView::ShowItem(_) => {},
            HoverView::ShowEntity(entity) => {
                if let Some(name) = entity.name {
                    lemma_faithful_without_codecs(*name, version);
                }
            },
        }
        assert(hover.faithful(version));
    }
    assert forall|i: int| 0 <= i < chat.children.len() implies (
    #[trigger] chat.children[i]).faithful(version) by {
        lemma_faithful_without_codecs(chat.children[i], version);
    }
}

/// The round trip without any premise on the outside codecs: reading the
/// wire value of a well-formed component without entity identifiers, of
/// which no part is written as a compact record, gives the component as
/// the version carries it.
pub proof fn lemma_round_trip_without_codecs(chat: ChatView, version: int)
    requires
        chat.wf(),
        chat.compact_free(version),
        chat.id_free(),
    ensures
        chat.encodable(version),
        wire_chat(chat_wire(chat, version)) == Ok::<ChatView, DecodeError>(
            project_chat(chat, version),
        ),
{
    lemma_compact_free_encodable(chat, version);
    lemma_faithful_without_codecs(chat, version);
    lemma_round_trip(chat, version);
}

/// Whether the document codec reads back the value that it wrote.
pub open spec fn document_returns(value: WireView) -> bool {
    document_text(value) matches Some(text) && document_value(text) == Some(value)
}

/// The round trip through text: where the outside codecs read back what
/// they write for a well-formed component, the component can be written as
/// JSON text for the version, and reading that text gives the component as
/// the version carries it.
pub proof fn lemma_text_round_trip(chat: ChatView, version: int)
    requires
        chat.wf(),
    ensures
        chat.faithful(version) && document_returns(chat_wire(chat, version)) ==> chat.encodable(
            version,
        ) && (document_text(chat_wire(chat, version)) matches Some(text) && text_chat(text) == Ok::<
            ChatView,
            DecodeError,
        >(project_chat(chat, version))),
{
    if chat.faithful(version) {
        lemma_faithful_encodable(chat, version);
        lemma_round_trip(chat, version);
    }
}

} // verus!
