//! Rendering a component to its wire value for a protocol version.
//!
//! The wire value of a component is one object: the members of its kind,
//! then those of its style, then its children under `extra`. A member is
//! written only where its value is present and the version carries it; no
//! member is ever written with an empty value in place of an absent one.

use vstd::prelude::*;
use vstd::string::*;
use vstd::utf8::encode_utf8;
use crate::codec::{compact_string, compact_text, document_string, document_text};
use crate::color::{color_token, ColorView, TextColor};
use crate::component::{
    chats_view, Chat, ChatView, ComponentKind, KindView, ScoreComponent, ScoreView,
};
use crate::error::EncodeError;
use crate::freeze::FrozenStr;
use crate::ident::uuid_text;
use crate::strings::owned;
use crate::writable::{
    lemma_chat_wire_writable, lemma_entity_wire_writable, lemma_item_wire_writable,
};
use crate::style::{
    ClickEvent, ClickView, EntityTooltip, EntityView, HoverEvent, HoverView, ItemStack, ItemView,
    Style, StyleView,
};
use crate::version::{
    supports_clipboard_click, supports_custom_color, supports_font, supports_insertion,
    supports_structured_hover, VersionPolicy,
};
use crate::wire::{items_view, members_view, option_view, Members, Wire, WireView};

verus! {

/// The member `key` with `value`, if there is a value.
pub open spec fn member(key: Seq<char>, value: Option<WireView>) -> Members {
    match value {
        Some(value) => seq![(key, value)],
        None => Seq::empty(),
    }
}

/// The member `key` with a boolean, if there is one.
pub open spec fn flag(key: Seq<char>, value: Option<bool>) -> Members {
    member(
        key,
        match value {
            Some(value) => Some(WireView::Bool(value)),
            None => None,
        },
    )
}

/// The member `key` with a string, if there is one.
pub open spec fn string(key: Seq<char>, value: Option<Seq<char>>) -> Members {
    member(
        key,
        match value {
            Some(value) => Some(WireView::Str(value)),
            None => None,
        },
    )
}

/// The color that `version` carries: a custom color only where it is
/// supported, any other color always.
pub open spec fn shown_color(color: Option<ColorView>, version: int) -> Option<ColorView> {
    match color {
        Some(ColorView::Custom(_)) if !supports_custom_color(version) => None,
        _ => color,
    }
}

/// The insertion that `version` carries.
pub open spec fn shown_insertion(insertion: Option<Seq<char>>, version: int) -> Option<Seq<char>> {
    if supports_insertion(version) {
        insertion
    } else {
        None
    }
}

/// The font that `version` carries.
pub open spec fn shown_font(font: Option<Seq<char>>, version: int) -> Option<Seq<char>> {
    if supports_font(version) {
        font
    } else {
        None
    }
}

/// The click event that `version` carries: a copy to the clipboard only
/// where it is supported, any other event always.
pub open spec fn shown_click(click: Option<ClickView>, version: int) -> Option<ClickView> {
    match click {
        Some(ClickView::CopyToClipBoard(_)) if !supports_clipboard_click(version) => None,
        _ => click,
    }
}

/// The `action` token of a click event.
pub open spec fn click_action(click: ClickView) -> Seq<char> {
    match click {
        ClickView::OpenUrl(_) => "open_url"@,
        ClickView::RunCommand(_) => "run_command"@,
        ClickView::SuggestCommand(_) => "suggest_command"@,
        ClickView::ChangePage(_) => "change_page"@,
        ClickView::CopyToClipBoard(_) => "copy_to_clipboard"@,
    }
}

/// The `value` of a click event: a page as a number, anything else as a
/// string.
pub open spec fn click_value(click: ClickView) -> WireView {
    match click {
        ClickView::OpenUrl(url) => WireView::Str(url),
        ClickView::RunCommand(cmd) => WireView::Str(cmd),
        ClickView::SuggestCommand(cmd) => WireView::Str(cmd),
        ClickView::ChangePage(page) => WireView::Int(page as int),
        ClickView::CopyToClipBoard(text) => WireView::Str(text),
    }
}

/// The wire value of a click event.
pub open spec fn click_wire(click: ClickView) -> WireView {
    WireView::Object(
        seq![("action"@, WireView::Str(click_action(click))), ("value"@, click_value(click))],
    )
}

/// The record of an item: `id`, then `Count` and `tag` where present.
pub open spec fn item_wire(item: ItemView) -> WireView {
    WireView::Object(
        seq![("id"@, WireView::Str(item.id))] + member(
            "Count"@,
            match item.count {
                Some(count) => Some(WireView::Int(count as int)),
                None => None,
            },
        ) + string("tag"@, item.tag),
    )
}

/// The record of an entity, given the wire value of its name: `name`,
/// `type` and `id`, each where present.
pub open spec fn entity_wire(entity: EntityView, name: Option<WireView>) -> WireView {
    WireView::Object(
        member("name"@, name) + string("type"@, entity.kind) + string(
            "id"@,
            match entity.id {
                Some(id) => Some(uuid_text(id)),
                None => None,
            },
        ),
    )
}

/// The `action` token of a hover event.
pub open spec fn hover_action(hover: HoverView) -> Seq<char> {
    match hover {
        HoverView::ShowText(_) => "show_text"@,
        HoverView::ShowItem(_) => "show_item"@,
        HoverView::ShowEntity(_) => "show_entity"@,
    }
}

/// The key under which a hover event carries what it shows.
pub open spec fn content_key(version: int) -> Seq<char> {
    if supports_structured_hover(version) {
        "contents"@
    } else {
        "value"@
    }
}

/// Whether a hover event carries what it shows as a compact record: an
/// item or an entity, for a version before the structured form.
pub open spec fn is_compact(hover: HoverView, version: int) -> bool {
    !(hover is ShowText) && !supports_structured_hover(version)
}

/// The text of the compact record of a value. Where the compact-record
/// writer gives none, which is where encoding fails, this is the empty
/// text.
pub open spec fn compact_str(record: WireView) -> Seq<char> {
    match compact_text(record) {
        Some(text) => text,
        None => Seq::empty(),
    }
}

/// The wire value of a hover event, given the wire value of what it shows:
/// the `action`, then the content under the key of the version. The record
/// of an item or an entity goes in as it is where the version has the
/// structured form, and as the text of its compact record before.
pub open spec fn hover_wire(hover: HoverView, content: WireView, version: int) -> WireView {
    WireView::Object(
        seq![
            ("action"@, WireView::Str(hover_action(hover))),
            (
                content_key(version),
                if is_compact(hover, version) {
                    WireView::Str(compact_str(content))
                } else {
                    content
                },
            ),
        ],
    )
}

/// The wire value of a score.
pub open spec fn score_wire(score: ScoreView) -> WireView {
    WireView::Object(
        seq![("name"@, WireView::Str(score.name)), ("objective"@, WireView::Str(score.objective))]
            + string("value"@, score.value),
    )
}

/// The members of a kind, given the wire values of the components it
/// holds: the arguments of a translation, the separator of a selector.
pub open spec fn kind_members(kind: KindView, with: Seq<WireView>, sep: Option<WireView>) -> Members {
    match kind {
        KindView::Text(text) => seq![("text"@, WireView::Str(text))],
        KindView::Translation(translation) => seq![("translate"@, WireView::Str(translation.key))]
            + member(
            "with"@,
            if with.len() > 0 {
                Some(WireView::Array(with))
            } else {
                None
            },
        ),
        KindView::Score(score) => seq![("score"@, score_wire(score))],
        KindView::Selector(selector) => seq![("selector"@, WireView::Str(selector.selector))]
            + member("separator"@, sep),
        KindView::Keybind(keybind) => seq![("keybind"@, WireView::Str(keybind))],
    }
}

/// The members of a style for its five formats: bold, italic, underlined,
/// strikethrough and obfuscated, each where present.
pub open spec fn format_members(style: StyleView) -> Members {
    flag("bold"@, style.bold) + flag("italic"@, style.italic) + flag("underlined"@, style.underlined)
        + flag("strikethrough"@, style.strikethrough) + flag("obfuscated"@, style.obfuscated)
}

/// The members of a style for its color, insertion and font, each where
/// present and where the version carries it.
pub open spec fn text_members(style: StyleView, version: int) -> Members {
    string(
        "color"@,
        match shown_color(style.color, version) {
            Some(color) => Some(color_token(color)),
            None => None,
        },
    ) + string("insertion"@, shown_insertion(style.insertion, version)) + string(
        "font"@,
        shown_font(style.font, version),
    )
}

/// The members of a style for its click event, where present and where the
/// version carries it, and for its hover event, given its wire value.
pub open spec fn event_members(style: StyleView, version: int, hover: Option<WireView>) -> Members {
    member(
        "clickEvent"@,
        match shown_click(style.click_event, version) {
            Some(click) => Some(click_wire(click)),
            None => None,
        },
    ) + member("hoverEvent"@, hover)
}

/// The members of a style for a version, given the wire value of its hover
/// event: formats, then color, insertion and font, then the two events.
pub open spec fn style_members(style: StyleView, version: int, hover: Option<WireView>) -> Members {
    format_members(style) + text_members(style, version) + event_members(style, version, hover)
}

/// The member `extra` with the children, if there are any.
pub open spec fn extra_member(children: Seq<WireView>) -> Members {
    member(
        "extra"@,
        if children.len() > 0 {
            Some(WireView::Array(children))
        } else {
            None
        },
    )
}

/// The wire value of a component for a version.
pub open spec fn chat_wire(chat: ChatView, version: int) -> WireView
    decreases chat,
{
    WireView::Object(
        kind_members(
            chat.kind,
            match chat.kind {
                KindView::Translation(translation) => chats_wire(translation.with, version),
                _ => Seq::empty(),
            },
            match chat.kind {
                KindView::Selector(selector) => match selector.sep {
                    Some(sep) => Some(chat_wire(*sep, version)),
                    None => None,
                },
                _ => None,
            },
        ) + style_members(
            chat.style,
            version,
            match chat.style.hover_event {
                Some(hover) => Some(hover_wire(hover, hover_content(hover, version), version)),
                None => None,
            },
        ) + extra_member(chats_wire(chat.children, version)),
    )
}

/// The wire values of a run of components, element by element.
pub open spec fn chats_wire(chats: Seq<ChatView>, version: int) -> Seq<WireView>
    decreases chats,
{
    Seq::new(
        chats.len(),
        |i: int|
            if 0 <= i < chats.len() {
                chat_wire(chats[i], version)
            } else {
                WireView::Null
            },
    )
}

/// The wire value of what a hover event shows: a component, or the record
/// of an item or an entity.
pub open spec fn hover_content(hover: HoverView, version: int) -> WireView
    decreases hover,
{
    match hover {
        HoverView::ShowText(text) => chat_wire(*text, version),
        HoverView::ShowItem(item) => item_wire(item),
        HoverView::ShowEntity(entity) => entity_wire(
            entity,
            match entity.name {
                Some(name) => Some(chat_wire(*name, version)),
                None => None,
            },
        ),
    }
}

/// The wire value of the name of an entity, where it has one.
pub open spec fn name_wire(entity: EntityView, version: int) -> Option<WireView> {
    match entity.name {
        Some(name) => Some(chat_wire(*name, version)),
        None => None,
    }
}

/// The wire values of the components that a kind holds as arguments.
pub open spec fn with_wire(kind: KindView, version: int) -> Seq<WireView> {
    match kind {
        KindView::Translation(translation) => chats_wire(translation.with, version),
        _ => Seq::empty(),
    }
}

/// The wire value of the separator that a kind holds, where it has one.
pub open spec fn sep_wire(kind: KindView, version: int) -> Option<WireView> {
    match kind {
        KindView::Selector(selector) => match selector.sep {
            Some(sep) => Some(chat_wire(*sep, version)),
            None => None,
        },
        _ => None,
    }
}

/// The wire value of the hover event of a style, where it has one.
pub open spec fn style_hover_wire(style: StyleView, version: int) -> Option<WireView> {
    match style.hover_event {
        Some(hover) => Some(hover_wire(hover, hover_content(hover, version), version)),
        None => None,
    }
}

impl ChatView {
    /// Whether the component can be encoded for `version`: the
    /// compact-record writer gives a text for every record that is written
    /// as one, which are the items and entities that hover events show
    /// before the structured form.
    pub open spec fn encodable(self, version: int) -> bool
        decreases self,
    {
        &&& self.kind.encodable(version)
        &&& self.style.hover_event matches Some(hover) ==> hover.encodable(version)
        &&& forall|i: int|
            0 <= i < self.children.len() ==> (#[trigger] self.children[i]).encodable(version)
    }

    /// Whether no part of the component is written as a compact record for
    /// `version`: no hover event anywhere in it shows an item or an entity,
    /// or the version has the structured form.
    pub open spec fn compact_free(self, version: int) -> bool
        decreases self,
    {
        &&& match self.kind {
            KindView::Translation(translation) => forall|i: int|
                0 <= i < translation.with.len() ==> (#[trigger] translation.with[i]).compact_free(
                    version,
                ),
            KindView::Selector(selector) => selector.sep matches Some(sep) ==> sep.compact_free(
                version,
            ),
            _ => true,
        }
        &&& self.style.hover_event matches Some(hover) ==> hover.compact_free(version)
        &&& forall|i: int|
            0 <= i < self.children.len() ==> (#[trigger] self.children[i]).compact_free(version)
    }
}

impl KindView {
    /// Whether the components that the kind holds can be encoded for
    /// `version`.
    pub open spec fn encodable(self, version: int) -> bool
        decreases self,
    {
        match self {
            KindView::Translation(translation) => forall|i: int|
                0 <= i < translation.with.len() ==> (#[trigger] translation.with[i]).encodable(
                    version,
                ),
            KindView::Selector(selector) => selector.sep matches Some(sep) ==> sep.encodable(version),
            _ => true,
        }
    }
}

impl HoverView {
    /// Whether the event can be encoded for `version`: what it shows can,
    /// and before the structured form the compact-record writer gives a
    /// text for the record of the item or entity.
    pub open spec fn encodable(self, version: int) -> bool
        decreases self,
    {
        match self {
            HoverView::ShowText(text) => text.encodable(version),
            HoverView::ShowItem(item) => supports_structured_hover(version) || compact_text(
                item_wire(item),
            ) is Some,
            HoverView::ShowEntity(entity) => {
                &&& entity.name matches Some(name) ==> name.encodable(version)
                &&& supports_structured_hover(version) || compact_text(
                    entity_wire(entity, name_wire(entity, version)),
                ) is Some
            },
        }
    }

    /// Whether no part of the event is written as a compact record for
    /// `version`.
    pub open spec fn compact_free(self, version: int) -> bool
        decreases self,
    {
        match self {
            HoverView::ShowText(text) => text.compact_free(version),
            HoverView::ShowItem(_) => supports_structured_hover(version),
            HoverView::ShowEntity(entity) => supports_structured_hover(version) && (
            entity.name matches Some(name) ==> name.compact_free(version)),
        }
    }
}

/// Appends the member `key` with `value`.
fn put(members: &mut Vec<(String, Wire)>, key: &str, value: Wire)
    ensures
        members_view(final(members)@) == members_view(old(members)@) + member(
            key@,
            Some(value@),
        ),
{
    members.push((owned(key), value));
    assert(members_view(members@) =~= members_view(old(members)@) + member(key@, Some(value@)));
}

/// Appends the member `key` with a boolean, if there is one.
fn put_flag(members: &mut Vec<(String, Wire)>, key: &str, value: Option<bool>)
    ensures
        members_view(final(members)@) == members_view(old(members)@) + flag(key@, value),
{
    match value {
        Some(value) => put(members, key, Wire::Bool(value)),
        None => {
            assert(members_view(members@) =~= members_view(members@) + flag(key@, value));
        },
    }
}

/// Appends the member `key` with a string, if there is one.
fn put_string(members: &mut Vec<(String, Wire)>, key: &str, value: Option<String>)
    ensures
        members_view(final(members)@) == members_view(old(members)@) + string(
            key@,
            match value {
                Some(value) => Some(value@),
                None => None,
            },
        ),
{
    match value {
        Some(value) => put(members, key, Wire::Str(value)),
        None => {
            assert(members_view(members@) =~= members_view(members@) + Seq::empty());
        },
    }
}

/// Appends the member `key` with `value`, if there is a value.
fn put_member(members: &mut Vec<(String, Wire)>, key: &str, value: Option<Wire>)
    ensures
        members_view(final(members)@) == members_view(old(members)@) + member(
            key@,
            option_view(value),
        ),
{
    match value {
        Some(value) => put(members, key, value),
        None => {
            assert(members_view(members@) =~= members_view(members@) + Seq::empty());
        },
    }
}

/// An owned copy of an optional string.
fn copied(text: &Option<FrozenStr>) -> (copy: Option<String>)
    ensures
        match copy {
            Some(copy) => *text matches Some(t) && copy@ == t@,
            None => *text is None,
        },
{
    match text {
        Some(text) => Some(text.to_string()),
        None => None,
    }
}

impl ClickEvent {
    /// The wire value of the event: its `action` and its `value`.
    pub fn encode(&self) -> (wire: Wire)
        ensures
            wire@ == click_wire(self@),
    {
        let mut members: Vec<(String, Wire)> = Vec::new();
        assert(members_view(members@) =~= Seq::empty());
        match self {
            ClickEvent::OpenUrl(url) => {
                put(&mut members, "action", Wire::Str(owned("open_url")));
                put(&mut members, "value", Wire::Str(url.to_string()));
            },
            ClickEvent::RunCommand(cmd) => {
                put(&mut members, "action", Wire::Str(owned("run_command")));
                put(&mut members, "value", Wire::Str(cmd.to_string()));
            },
            ClickEvent::SuggestCommand(cmd) => {
                put(&mut members, "action", Wire::Str(owned("suggest_command")));
                put(&mut members, "value", Wire::Str(cmd.to_string()));
            },
            ClickEvent::ChangePage(page) => {
                put(&mut members, "action", Wire::Str(owned("change_page")));
                put(&mut members, "value", Wire::Int(*page as i64));
            },
            ClickEvent::CopyToClipBoard(text) => {
                put(&mut members, "action", Wire::Str(owned("copy_to_clipboard")));
                put(&mut members, "value", Wire::Str(text.to_string()));
            },
        }
        assert(members_view(members@) =~= click_wire(self@)->Object_0);
        Wire::Object(members)
    }
}

impl ItemStack {
    /// The record of the item: `id`, then `Count` and `tag` where present.
    pub fn encode(&self) -> (wire: Wire)
        ensures
            wire@ == item_wire(self@),
    {
        let mut members: Vec<(String, Wire)> = Vec::new();
        assert(members_view(members@) =~= Seq::empty());
        put(&mut members, "id", Wire::Str(self.id.to_string()));
        put_member(
            &mut members,
            "Count",
            match self.count {
                Some(count) => Some(Wire::Int(count as i64)),
                None => None,
            },
        );
        put_string(&mut members, "tag", copied(&self.tag));
        assert(members_view(members@) =~= item_wire(self@)->Object_0);
        Wire::Object(members)
    }
}

impl ScoreComponent {
    /// The wire value of the score: `name`, `objective`, and `value` where
    /// present.
    pub fn encode(&self) -> (wire: Wire)
        ensures
            wire@ == score_wire(self@),
    {
        let mut members: Vec<(String, Wire)> = Vec::new();
        assert(members_view(members@) =~= Seq::empty());
        put(&mut members, "name", Wire::Str(self.name.to_string()));
        put(&mut members, "objective", Wire::Str(self.objective.to_string()));
        put_string(&mut members, "value", copied(&self.value));
        assert(members_view(members@) =~= score_wire(self@)->Object_0);
        Wire::Object(members)
    }
}

/// The wire values of a run of components for a version, in order.
fn encode_all(chats: &Vec<Chat>, version: i32) -> (encoded: Result<Vec<Wire>, EncodeError>)
    ensures
        match encoded {
            Ok(wires) => items_view(wires@) == chats_wire(chats_view(chats@), version as int)
                && forall|i: int|
                0 <= i < chats.len() ==> (#[trigger] chats[i])@.encodable(version as int),
            Err(e) => e == EncodeError::CompactRecord && exists|i: int|
                0 <= i < chats.len() && !(#[trigger] chats[i])@.encodable(version as int),
        },
    decreases chats,
{
    let mut wires: Vec<Wire> = Vec::new();
    let mut i: usize = 0;
    while i < chats.len()
        invariant
            i <= chats.len(),
            wires.len() == i,
            forall|j: int| 0 <= j < i ==> (#[trigger] wires[j])@ == chat_wire(chats[j]@, version as int),
            forall|j: int| 0 <= j < i ==> (#[trigger] chats[j])@.encodable(version as int),
        decreases chats.len() - i,
    {
        match chats[i].encode(version) {
            Ok(wire) => wires.push(wire),
            Err(e) => {
                return Err(e);
            },
        }
        i += 1;
    }
    assert(items_view(wires@) =~= chats_wire(chats_view(chats@), version as int));
    Ok(wires)
}

impl EntityTooltip {
    /// The record of the entity for a version: `name`, `type` and `id`,
    /// each where present.
    ///
    /// Writing fails exactly where the name cannot be encoded.
    pub fn encode(&self, version: i32) -> (encoded: Result<Wire, EncodeError>)
        ensures
            match encoded {
                Ok(wire) => wire@ == entity_wire(self@, name_wire(self@, version as int)) && (
                self@.name matches Some(name) ==> name.encodable(version as int)),
                Err(e) => e == EncodeError::CompactRecord && (self@.name matches Some(name)
                    && !name.encodable(version as int)),
            },
        decreases self,
    {
        let mut members: Vec<(String, Wire)> = Vec::new();
        assert(members_view(members@) =~= Seq::empty());
        let name = match &self.name {
            Some(name) => match name.encode(version) {
                Ok(wire) => Some(wire),
                Err(e) => {
                    return Err(e);
                },
            },
            None => None,
        };
        put_member(&mut members, "name", name);
        put_string(&mut members, "type", copied(&self.kind));
        put_string(
            &mut members,
            "id",
            match &self.id {
                Some(id) => Some(id.to_string()),
                None => None,
            },
        );
        assert(members_view(members@) =~= entity_wire(
            self@,
            name_wire(self@, version as int),
        )->Object_0);
        Ok(Wire::Object(members))
    }
}

/// The content of a hover event in the form that the version asks for: a
/// record as it is, or as the text of its compact record.
fn payload(record: Wire, version: i32) -> (content: Result<Wire, EncodeError>)
    requires
        record@.writable(),
    ensures
        match content {
            Ok(content) => if supports_structured_hover(version as int) {
                content@ == record@
            } else {
                compact_text(record@) is Some && content@ == WireView::Str(compact_str(record@))
            },
            Err(e) => e == EncodeError::CompactRecord && !supports_structured_hover(version as int)
                && compact_text(record@) is None,
        },
{
    if VersionPolicy::of(version).structured_hover {
        Ok(record)
    } else {
        match compact_string(&record) {
            Ok(text) => Ok(Wire::Str(text)),
            Err(e) => Err(e),
        }
    }
}

impl HoverEvent {
    /// The wire value of the event for a version: the `action`, then what
    /// is shown, under `contents` from 1.16 on and under `value` before. An
    /// item or an entity is a record from 1.16 on, and the text of its
    /// compact record before.
    ///
    /// Writing fails exactly where the compact-record writer gives no
    /// text for a record, which can happen only before 1.16 and only for an
    /// item or an entity, here or further down.
    pub fn encode(&self, version: i32) -> (encoded: Result<Wire, EncodeError>)
        ensures
            match encoded {
                Ok(wire) => self@.encodable(version as int) && wire@ == hover_wire(
                    self@,
                    hover_content(self@, version as int),
                    version as int,
                ),
                Err(e) => e == EncodeError::CompactRecord && !self@.encodable(version as int),
            },
        decreases self,
    {
        let mut members: Vec<(String, Wire)> = Vec::new();
        assert(members_view(members@) =~= Seq::empty());
        let structured = VersionPolicy::of(version).structured_hover;
        let key = if structured {
            "contents"
        } else {
            "value"
        };
        match self {
            HoverEvent::ShowText(text) => {
                let content = match text.encode(version) {
                    Ok(wire) => wire,
                    Err(e) => {
                        return Err(e);
                    },
                };
                put(&mut members, "action", Wire::Str(owned("show_text")));
                put(&mut members, key, content);
            },
            HoverEvent::ShowItem(item) => {
                let record = item.encode();
                proof {
                    lemma_item_wire_writable(item@);
                }
                let content = match payload(record, version) {
                    Ok(wire) => wire,
                    Err(e) => {
                        return Err(e);
                    },
                };
                put(&mut members, "action", Wire::Str(owned("show_item")));
                put(&mut members, key, content);
            },
            HoverEvent::ShowEntity(entity) => {
                let record = match entity.encode(version) {
                    Ok(wire) => wire,
                    Err(e) => {
                        return Err(e);
                    },
                };
                proof {
                    if let Some(name) = entity@.name {
                        lemma_chat_wire_writable(*name, version as int);
                    }
                    lemma_entity_wire_writable(entity@, name_wire(entity@, version as int));
                }
                let content = match payload(record, version) {
                    Ok(wire) => wire,
                    Err(e) => {
                        return Err(e);
                    },
                };
                put(&mut members, "action", Wire::Str(owned("show_entity")));
                put(&mut members, key, content);
            },
        }
        assert(members_view(members@) =~= hover_wire(
            self@,
            hover_content(self@, version as int),
            version as int,
        )->Object_0);
        Ok(Wire::Object(members))
    }
}

/// Appends the members of a style for its five formats.
fn put_formats(members: &mut Vec<(String, Wire)>, style: &Style)
    ensures
        members_view(final(members)@) == members_view(old(members)@) + format_members(style@),
{
    let ghost before = members_view(members@);
    let ghost sv = style@;
    put_flag(members, "bold", style.bold);
    put_flag(members, "italic", style.italic);
    put_flag(members, "underlined", style.underlined);
    put_flag(members, "strikethrough", style.strikethrough);
    put_flag(members, "obfuscated", style.obfuscated);
    assert(members_view(members@) =~= before + format_members(sv));
}

/// Appends the members of a style for its color, insertion and font.
fn put_texts(members: &mut Vec<(String, Wire)>, style: &Style, version: i32)
    ensures
        members_view(final(members)@) == members_view(old(members)@) + text_members(
            style@,
            version as int,
        ),
{
    let policy = VersionPolicy::of(version);
    let ghost before = members_view(members@);
    let ghost sv = style@;
    let color = match &style.color {
        Some(TextColor::Custom(text)) => if policy.custom_color {
            Some(text.to_string())
        } else {
            None
        },
        Some(color) => Some(color.to_string()),
        None => None,
    };
    put_string(members, "color", color);
    let insertion = if policy.insertion {
        copied(&style.insertion)
    } else {
        None
    };
    put_string(members, "insertion", insertion);
    let font = if policy.font {
        copied(&style.font)
    } else {
        None
    };
    put_string(members, "font", font);
    assert(members_view(members@) =~= before + text_members(sv, version as int));
}

/// Appends the members of a style for its two events, given the wire value
/// of the hover event.
fn put_events(
    members: &mut Vec<(String, Wire)>,
    style: &Style,
    version: i32,
    hover: Option<Wire>,
)
    ensures
        members_view(final(members)@) == members_view(old(members)@) + event_members(
            style@,
            version as int,
            option_view(hover),
        ),
{
    let policy = VersionPolicy::of(version);
    let ghost before = members_view(members@);
    let ghost sv = style@;
    let ghost hv = option_view(hover);
    let click = match &style.click_event {
        Some(ClickEvent::CopyToClipBoard(text)) => if policy.clipboard_click {
            Some(ClickEvent::CopyToClipBoard(text.clone()).encode())
        } else {
            None
        },
        Some(click) => Some(click.encode()),
        None => None,
    };
    put_member(members, "clickEvent", click);
    put_member(members, "hoverEvent", hover);
    assert(members_view(members@) =~= before + event_members(sv, version as int, hv));
}

/// Appends the members of a style for a version.
fn put_style(members: &mut Vec<(String, Wire)>, style: &Style, version: i32) -> (done: Result<
    (),
    EncodeError,
>)
    ensures
        match done {
            Ok(_) => members_view(final(members)@) == members_view(old(members)@) + style_members(
                style@,
                version as int,
                style_hover_wire(style@, version as int),
            ) && (style@.hover_event matches Some(hover) ==> hover.encodable(version as int)),
            Err(e) => e == EncodeError::CompactRecord && (style@.hover_event matches Some(hover)
                && !hover.encodable(version as int)),
        },
    decreases style,
{
    let hover = match &style.hover_event {
        Some(hover) => match hover.encode(version) {
            Ok(wire) => Some(wire),
            Err(e) => {
                return Err(e);
            },
        },
        None => None,
    };
    let ghost before = members_view(members@);
    put_formats(members, style);
    put_texts(members, style, version);
    put_events(members, style, version, hover);
    assert(members_view(members@) =~= before + style_members(
        style@,
        version as int,
        style_hover_wire(style@, version as int),
    ));
    Ok(())
}

/// Appends the members of a kind for a version.
fn put_kind(members: &mut Vec<(String, Wire)>, kind: &ComponentKind, version: i32) -> (done: Result<
    (),
    EncodeError,
>)
    ensures
        match done {
            Ok(_) => members_view(final(members)@) == members_view(old(members)@) + kind_members(
                kind@,
                with_wire(kind@, version as int),
                sep_wire(kind@, version as int),
            ) && kind@.encodable(version as int),
            Err(e) => e == EncodeError::CompactRecord && !kind@.encodable(version as int),
        },
    decreases kind,
{
    let ghost before = members_view(members@);
    match kind {
        ComponentKind::Text(text) => {
            put(members, "text", Wire::Str(text.text.to_string()));
        },
        ComponentKind::Translation(translation) => {
            let with = match encode_all(&translation.with, version) {
                Ok(wires) => wires,
                Err(e) => {
                    proof {
                        let i = choose|i: int|
                            0 <= i < translation.with.len() && !(#[trigger] translation.with[i])@.encodable(
                                version as int,
                            );
                        assert(kind@->Translation_0.with[i] == translation.with[i]@);
                    }
                    return Err(e);
                },
            };
            put(members, "translate", Wire::Str(translation.key.to_string()));
            put_member(
                members,
                "with",
                if with.len() > 0 {
                    Some(Wire::Array(with))
                } else {
                    None
                },
            );
        },
        ComponentKind::Score(score) => {
            put(members, "score", score.encode());
        },
        ComponentKind::Selector(selector) => {
            let sep = match &selector.sep {
                Some(sep) => match sep.encode(version) {
                    Ok(wire) => Some(wire),
                    Err(e) => {
                        return Err(e);
                    },
                },
                None => None,
            };
            put(members, "selector", Wire::Str(selector.selector.to_string()));
            put_member(members, "separator", sep);
        },
        ComponentKind::Keybind(keybind) => {
            put(members, "keybind", Wire::Str(keybind.keybind.to_string()));
        },
    }
    assert(members_view(members@) =~= before + kind_members(
        kind@,
        with_wire(kind@, version as int),
        sep_wire(kind@, version as int),
    ));
    Ok(())
}

impl Style {
    /// The wire value of the style alone for a version: an object of the
    /// members that are present and that the version carries.
    ///
    /// Writing fails exactly where the hover event cannot be encoded.
    pub fn encode(&self, version: i32) -> (encoded: Result<Wire, EncodeError>)
        ensures
            match encoded {
                Ok(wire) => wire@ == WireView::Object(
                    style_members(self@, version as int, style_hover_wire(self@, version as int)),
                ) && (self@.hover_event matches Some(hover) ==> hover.encodable(version as int)),
                Err(e) => e == EncodeError::CompactRecord && (self@.hover_event matches Some(hover)
                    && !hover.encodable(version as int)),
            },
    {
        let mut members: Vec<(String, Wire)> = Vec::new();
        assert(members_view(members@) =~= Seq::empty());
        match put_style(&mut members, self, version) {
            Ok(_) => {
                assert(members_view(members@) =~= style_members(
                    self@,
                    version as int,
                    style_hover_wire(self@, version as int),
                ));
                Ok(Wire::Object(members))
            },
            Err(e) => Err(e),
        }
    }
}

impl Chat {
    /// The wire value of the component for a version: the members of its
    /// kind, then those of its style, then its children under `extra`, each
    /// part rendered for the same version.
    ///
    /// Writing fails exactly where the compact-record writer gives no
    /// text for a record, which can happen only before 1.16 and only where
    /// a hover event in the component shows an item or an entity.
    pub fn encode(&self, version: i32) -> (encoded: Result<Wire, EncodeError>)
        ensures
            match encoded {
                Ok(wire) => self@.encodable(version as int) && wire@ == chat_wire(
                    self@,
                    version as int,
                ),
                Err(e) => e == EncodeError::CompactRecord && !self@.encodable(version as int),
            },
        decreases self,
    {
        let mut members: Vec<(String, Wire)> = Vec::new();
        assert(members_view(members@) =~= Seq::empty());
        match put_kind(&mut members, &self.kind, version) {
            Ok(_) => {},
            Err(e) => {
                return Err(e);
            },
        }
        match put_style(&mut members, &self.style, version) {
            Ok(_) => {},
            Err(e) => {
                return Err(e);
            },
        }
        let extra = match encode_all(&self.children, version) {
            Ok(wires) => wires,
            Err(e) => {
                proof {
                    let i = choose|i: int|
                        0 <= i < self.children.len() && !(#[trigger] self.children[i])@.encodable(
                            version as int,
                        );
                    assert(self@.children[i] == self.children[i]@);
                }
                return Err(e);
            },
        };
        put_member(
            &mut members,
            "extra",
            if extra.len() > 0 {
                Some(Wire::Array(extra))
            } else {
                None
            },
        );
        assert(members_view(members@) =~= chat_wire(self@, version as int)->Object_0);
        Ok(Wire::Object(members))
    }
}

impl Chat {
    /// The component as a JSON string for a version.
    ///
    /// Parts of a style that the version does not know are left out, and
    /// hover events take the form of the version. The text is the one that
    /// the document writer gives for the component's wire value.
    ///
    /// Writing fails with `CompactRecord` exactly where the component
    /// cannot be encoded for the version, which can happen only before 1.16
    /// and only where a hover event in the component shows an item or an
    /// entity. Where it can be encoded, writing fails with `Document`
    /// exactly where the document writer gives no text for the wire value.
    pub fn serialize_str(&self, version: i32) -> (written: Result<String, EncodeError>)
        ensures
            match written {
                Ok(text) => self@.encodable(version as int) && document_text(
                    chat_wire(self@, version as int),
                ) == Some(text@),
                Err(e) => if self@.encodable(version as int) {
                    e == EncodeError::Document && document_text(
                        chat_wire(self@, version as int),
                    ) is None
                } else {
                    e == EncodeError::CompactRecord
                },
            },
    {
        let wire = match self.encode(version) {
            Ok(wire) => wire,
            Err(e) => {
                return Err(e);
            },
        };
        proof {
            lemma_chat_wire_writable(self@, version as int);
        }
        document_string(&wire)
    }

    /// The component as the bytes of its JSON string for a version. It
    /// fails where [`Chat::serialize_str`] fails, with the same error.
    pub fn serialize_vec(&self, version: i32) -> (written: Result<Vec<u8>, EncodeError>)
        ensures
            match written {
                Ok(bytes) => self@.encodable(version as int) && (document_text(
                    chat_wire(self@, version as int),
                ) matches Some(text) && bytes@ == encode_utf8(text)),
                Err(e) => if self@.encodable(version as int) {
                    e == EncodeError::Document && document_text(
                        chat_wire(self@, version as int),
                    ) is None
                } else {
                    e == EncodeError::CompactRecord
                },
            },
    {
        match self.serialize_str(version) {
            Ok(text) => Ok(text.as_str().as_bytes_vec()),
            Err(e) => Err(e),
        }
    }
}

} // verus!
