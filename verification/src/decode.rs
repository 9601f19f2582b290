//! Reading a component from a wire value.
//!
//! Reading goes by the shape of what is there, never by a version: a bare
//! string is literal text, an array is a component followed by its
//! children, and an object is a component with its kind, style and
//! children. Errors are final for the part being read; the first one in
//! reading order is the one reported.

use vstd::prelude::*;
use vstd::string::*;
use crate::codec::{compact_value, document_value};
use crate::color::{token_color, ColorView, TextColor};
use crate::component::{
    Chat, ChatView, ComponentKind, KeybindComponent, KindView, ScoreComponent, ScoreView,
    SelectorComponent, SelectorView, TextComponent, TranslationComponent, TranslationView,
};
use crate::error::DecodeError;
use crate::freeze::FrozenStr;
use crate::ident::{uuid_parse, Uuid};
use crate::style::{
    ClickEvent, ClickView, EntityTooltip, EntityView, HoverEvent, HoverView, ItemStack, ItemView,
    Style, StyleView,
};
use crate::strings::str_eq;
use crate::wire::{lemma_get_decreases, lemma_item_decreases, Wire, WireView};

verus! {

broadcast use {lemma_get_decreases, lemma_item_decreases};

/// The member `key` of `w` where it is there and not `null`: for a member
/// that may be left out, `null` counts as left out.
pub open spec fn present(w: WireView, key: Seq<char>) -> Option<WireView> {
    match w.get(key) {
        Some(WireView::Null) => None,
        found => found,
    }
}

/// The optional boolean under `key`.
pub open spec fn wire_flag(w: WireView, key: Seq<char>) -> Result<Option<bool>, DecodeError> {
    match present(w, key) {
        None => Ok(None),
        Some(WireView::Bool(b)) => Ok(Some(b)),
        Some(_) => Err(DecodeError::UnexpectedType),
    }
}

/// The optional string under `key`.
pub open spec fn wire_text(w: WireView, key: Seq<char>) -> Result<Option<Seq<char>>, DecodeError> {
    match present(w, key) {
        None => Ok(None),
        Some(WireView::Str(text)) => Ok(Some(text)),
        Some(_) => Err(DecodeError::UnexpectedType),
    }
}

/// The string that has to be under `key`.
pub open spec fn wire_name(w: WireView, key: &'static str) -> Result<Seq<char>, DecodeError> {
    match w.get(key@) {
        None => Err(DecodeError::MissingField(key)),
        Some(WireView::Str(text)) => Ok(text),
        Some(_) => Err(DecodeError::UnexpectedType),
    }
}

/// The optional color under `color`: a string that is a color's token.
pub open spec fn wire_color(w: WireView) -> Result<Option<ColorView>, DecodeError> {
    match present(w, "color"@) {
        None => Ok(None),
        Some(WireView::Str(token)) => match token_color(token) {
            Some(color) => Ok(Some(color)),
            None => Err(DecodeError::MalformedColor),
        },
        Some(_) => Err(DecodeError::UnexpectedType),
    }
}

/// The click event of an action token and a value: `change_page` takes a
/// whole number that fits `u32`, the four other known actions take a
/// string.
pub open spec fn click_of(action: Seq<char>, value: WireView) -> Result<ClickView, DecodeError> {
    if action == "change_page"@ {
        match value {
            WireView::Int(page) if 0 <= page <= u32::MAX => Ok(ClickView::ChangePage(page as u32)),
            _ => Err(DecodeError::ClickValueTypeMismatch),
        }
    } else if action == "open_url"@ {
        match value {
            WireView::Str(text) => Ok(ClickView::OpenUrl(text)),
            _ => Err(DecodeError::ClickValueTypeMismatch),
        }
    } else if action == "run_command"@ {
        match value {
            WireView::Str(text) => Ok(ClickView::RunCommand(text)),
            _ => Err(DecodeError::ClickValueTypeMismatch),
        }
    } else if action == "suggest_command"@ {
        match value {
            WireView::Str(text) => Ok(ClickView::SuggestCommand(text)),
            _ => Err(DecodeError::ClickValueTypeMismatch),
        }
    } else if action == "copy_to_clipboard"@ {
        match value {
            WireView::Str(text) => Ok(ClickView::CopyToClipBoard(text)),
            _ => Err(DecodeError::ClickValueTypeMismatch),
        }
    } else {
        Err(DecodeError::UnknownClickAction)
    }
}

/// The click event that a wire value holds: `action` and `value` both have
/// to be there, in whichever order. An action that is no string is an
/// unknown one.
pub open spec fn wire_click(w: WireView) -> Result<ClickView, DecodeError> {
    match w.get("action"@) {
        None => Err(DecodeError::MissingField("action")),
        Some(action) => match w.get("value"@) {
            None => Err(DecodeError::MissingField("value")),
            Some(value) => match action {
                WireView::Str(action) => click_of(action, value),
                _ => Err(DecodeError::UnknownClickAction),
            },
        },
    }
}

/// The optional click event under `clickEvent`.
pub open spec fn wire_click_field(w: WireView) -> Result<Option<ClickView>, DecodeError> {
    match present(w, "clickEvent"@) {
        None => Ok(None),
        Some(click) => match wire_click(click) {
            Ok(click) => Ok(Some(click)),
            Err(e) => Err(e),
        },
    }
}

/// The optional count of an item: a whole number that fits `i32`. The outer
/// `None` says that what is there is no count.
pub open spec fn item_count(record: WireView) -> Option<Option<i32>> {
    match record.get("Count"@) {
        None => Some(None),
        Some(WireView::Int(count)) if i32::MIN <= count <= i32::MAX => Some(Some(count as i32)),
        Some(_) => None,
    }
}

/// The optional string under `key` of a record. The outer `None` says that
/// what is there is no string.
pub open spec fn record_text(record: WireView, key: Seq<char>) -> Option<Option<Seq<char>>> {
    match record.get(key) {
        None => Some(None),
        Some(WireView::Str(text)) => Some(Some(text)),
        Some(_) => None,
    }
}

/// The item that a record holds, if it holds one: `id` has to be a string,
/// `Count` and `tag` may be left out.
pub open spec fn wire_item(record: WireView) -> Option<ItemView> {
    match (record.get("id"@), item_count(record), record_text(record, "tag"@)) {
        (Some(WireView::Str(id)), Some(count), Some(tag)) => Some(ItemView { id, count, tag }),
        _ => None,
    }
}

/// The optional identifier of an entity: a string that reads as one. The
/// outer `None` says that what is there is no identifier.
pub open spec fn entity_id(record: WireView) -> Option<Option<u128>> {
    match record.get("id"@) {
        None => Some(None),
        Some(WireView::Str(text)) => match uuid_parse(text) {
            Some(id) => Some(Some(id)),
            None => None,
        },
        Some(_) => None,
    }
}

/// The entity that a record holds, if it holds one, given what reading its
/// name gave: the record has to be an object; `name`, `type` and `id` may
/// each be left out.
pub open spec fn wire_entity(record: WireView, name: Option<Result<ChatView, DecodeError>>) -> Option<
    EntityView,
> {
    if !(record is Object) {
        None
    } else {
        match (name, record_text(record, "type"@), entity_id(record)) {
            (None, Some(kind), Some(id)) => Some(EntityView { name: None, kind, id }),
            (Some(Ok(name)), Some(kind), Some(id)) => Some(
                EntityView { name: Some(Box::new(name)), kind, id },
            ),
            _ => None,
        }
    }
}

/// What a hover event carries and in which form: under `contents` as it
/// is, or under `value` in the older form, where an item or an entity is
/// the text of a compact record. Where both keys are there, `contents`
/// counts.
pub open spec fn hover_parts(w: WireView) -> Option<(bool, WireView)> {
    match w.get("contents"@) {
        Some(content) => Some((false, content)),
        None => match w.get("value"@) {
            Some(content) => Some((true, content)),
            None => None,
        },
    }
}

/// The record of an item or an entity in the content of a hover event. In
/// the older form the content has to be a string that the compact-record
/// codec reads, and every string in what it reads has to be shorter than
/// that text.
pub open spec fn record_of(older: bool, content: WireView) -> Option<WireView> {
    if older {
        match content {
            WireView::Str(text) => match compact_value(text) {
                Some(record) if record.longest() < text.len() => Some(record),
                _ => None,
            },
            _ => None,
        }
    } else {
        Some(content)
    }
}

/// The hover event that a wire value holds. The form is told by the keys
/// that are there, and the two keys may come in either order.
pub open spec fn wire_hover(w: WireView) -> Result<HoverView, DecodeError>
    decreases w.longest(), w, 0nat,
{
    match w.get("action"@) {
        None => Err(DecodeError::MissingField("action")),
        Some(action) => match hover_parts(w) {
            None => Err(DecodeError::MissingField("contents")),
            Some((older, content)) => if action == WireView::Str("show_text"@) {
                match wire_chat(content) {
                    Ok(text) => Ok(HoverView::ShowText(Box::new(text))),
                    Err(_) => Err(DecodeError::HoverValueTypeMismatch),
                }
            } else if action == WireView::Str("show_item"@) {
                match record_of(older, content) {
                    Some(record) => match wire_item(record) {
                        Some(item) => Ok(HoverView::ShowItem(item)),
                        None => Err(DecodeError::HoverValueTypeMismatch),
                    },
                    None => Err(DecodeError::HoverValueTypeMismatch),
                }
            } else if action == WireView::Str("show_entity"@) {
                match record_of(older, content) {
                    Some(record) => match wire_entity(
                        record,
                        match record.get("name"@) {
                            Some(name) => Some(wire_chat(name)),
                            None => None,
                        },
                    ) {
                        Some(entity) => Ok(HoverView::ShowEntity(entity)),
                        None => Err(DecodeError::HoverValueTypeMismatch),
                    },
                    None => Err(DecodeError::HoverValueTypeMismatch),
                }
            } else {
                Err(DecodeError::UnknownHoverAction)
            },
        },
    }
}

/// The score that a wire value holds: `name` and `objective` have to be
/// there, `value` may be left out.
pub open spec fn wire_score(w: WireView) -> Result<ScoreView, DecodeError> {
    match wire_name(w, "name") {
        Err(e) => Err(e),
        Ok(name) => match wire_name(w, "objective") {
            Err(e) => Err(e),
            Ok(objective) => match wire_text(w, "value"@) {
                Err(e) => Err(e),
                Ok(value) => Ok(ScoreView { name, objective, value }),
            },
        },
    }
}

/// How many of the five keys that tell a component's kind are there.
pub open spec fn kind_count(w: WireView) -> nat {
    (if w.get("text"@) is Some {
        1nat
    } else {
        0nat
    }) + (if w.get("translate"@) is Some {
        1nat
    } else {
        0nat
    }) + (if w.get("score"@) is Some {
        1nat
    } else {
        0nat
    }) + (if w.get("selector"@) is Some {
        1nat
    } else {
        0nat
    }) + (if w.get("keybind"@) is Some {
        1nat
    } else {
        0nat
    })
}

/// The kind of the component that an object holds. Exactly one of `text`,
/// `translate`, `score`, `selector` and `keybind` has to be there.
pub open spec fn wire_kind(w: WireView) -> Result<KindView, DecodeError>
    decreases w.longest(), w, 0nat,
{
    if kind_count(w) == 0 {
        Err(DecodeError::MissingField("text"))
    } else if kind_count(w) > 1 {
        Err(DecodeError::AmbiguousKind)
    } else if w.get("text"@) is Some {
        match wire_name(w, "text") {
            Ok(text) => Ok(KindView::Text(text)),
            Err(e) => Err(e),
        }
    } else if w.get("translate"@) is Some {
        match wire_name(w, "translate") {
            Err(e) => Err(e),
            Ok(key) => match w.get("with"@) {
                None => Ok(KindView::Translation(TranslationView { key, with: Seq::empty() })),
                Some(with) => match wire_chats(with) {
                    Ok(with) => Ok(KindView::Translation(TranslationView { key, with })),
                    Err(e) => Err(e),
                },
            },
        }
    } else if w.get("score"@) is Some {
        match wire_score(w.get("score"@)->Some_0) {
            Ok(score) => Ok(KindView::Score(score)),
            Err(e) => Err(e),
        }
    } else if w.get("selector"@) is Some {
        match wire_name(w, "selector") {
            Err(e) => Err(e),
            Ok(selector) => match present(w, "separator"@) {
                None => Ok(KindView::Selector(SelectorView { selector, sep: None })),
                Some(sep) => match wire_chat(sep) {
                    Ok(sep) => Ok(
                        KindView::Selector(SelectorView { selector, sep: Some(Box::new(sep)) }),
                    ),
                    Err(e) => Err(e),
                },
            },
        }
    } else {
        match wire_name(w, "keybind") {
            Ok(keybind) => Ok(KindView::Keybind(keybind)),
            Err(e) => Err(e),
        }
    }
}

/// The optional hover event under `hoverEvent`.
pub open spec fn wire_hover_field(w: WireView) -> Result<Option<HoverView>, DecodeError>
    decreases w.longest(), w, 1nat,
{
    match present(w, "hoverEvent"@) {
        None => Ok(None),
        Some(hover) => match wire_hover(hover) {
            Ok(hover) => Ok(Some(hover)),
            Err(e) => Err(e),
        },
    }
}

/// The style that an object holds, given what reading its hover event
/// gave. Any member may be left out; members that are no part of a style
/// are not looked at. The members are read in the order in which they are
/// written, and the first error is reported.
pub open spec fn wire_style(w: WireView, hover: Result<Option<HoverView>, DecodeError>) -> Result<
    StyleView,
    DecodeError,
> {
    let bold = wire_flag(w, "bold"@);
    let italic = wire_flag(w, "italic"@);
    let underlined = wire_flag(w, "underlined"@);
    let strikethrough = wire_flag(w, "strikethrough"@);
    let obfuscated = wire_flag(w, "obfuscated"@);
    let color = wire_color(w);
    let insertion = wire_text(w, "insertion"@);
    let font = wire_text(w, "font"@);
    let click = wire_click_field(w);
    if bold is Err {
        Err(bold->Err_0)
    } else if italic is Err {
        Err(italic->Err_0)
    } else if underlined is Err {
        Err(underlined->Err_0)
    } else if strikethrough is Err {
        Err(strikethrough->Err_0)
    } else if obfuscated is Err {
        Err(obfuscated->Err_0)
    } else if color is Err {
        Err(color->Err_0)
    } else if insertion is Err {
        Err(insertion->Err_0)
    } else if font is Err {
        Err(font->Err_0)
    } else if click is Err {
        Err(click->Err_0)
    } else if hover is Err {
        Err(hover->Err_0)
    } else {
        Ok(
            StyleView {
                bold: bold->Ok_0,
                italic: italic->Ok_0,
                underlined: underlined->Ok_0,
                strikethrough: strikethrough->Ok_0,
                obfuscated: obfuscated->Ok_0,
                color: color->Ok_0,
                insertion: insertion->Ok_0,
                font: font->Ok_0,
                click_event: click->Ok_0,
                hover_event: hover->Ok_0,
            },
        )
    }
}

/// The components that an array holds, in order: all of them if every
/// item reads as one, and otherwise the error of the first item that does
/// not. Anything but an array is refused.
pub open spec fn wire_chats(w: WireView) -> Result<Seq<ChatView>, DecodeError>
    decreases w.longest(), w, 1nat,
{
    match w {
        WireView::Array(items) => if forall|i: int|
            0 <= i < items.len() ==> wire_chat(#[trigger] items[i]) is Ok {
            Ok(
                Seq::new(
                    items.len(),
                    |i: int|
                        if 0 <= i < items.len() {
                            wire_chat(items[i])->Ok_0
                        } else {
                            ChatView::text(Seq::empty())
                        },
                ),
            )
        } else {
            let bad = first_bad(w);
            if 0 <= bad < items.len() {
                Err(wire_chat(items[bad])->Err_0)
            } else {
                Err(DecodeError::UnexpectedType)
            }
        },
        _ => Err(DecodeError::UnexpectedType),
    }
}

/// The place of the first item of an array that does not read as a
/// component.
pub open spec fn first_bad(w: WireView) -> int
    decreases w.longest(), w, 0nat,
{
    match w {
        WireView::Array(items) => choose|i: int|
            0 <= i < items.len() && wire_chat(#[trigger] items[i]) is Err && forall|j: int|
                0 <= j < i ==> wire_chat(#[trigger] items[j]) is Ok,
        _ => 0,
    }
}

/// The children of a component: the array under `extra`, or none where it
/// is left out.
pub open spec fn wire_extra(w: WireView) -> Result<Seq<ChatView>, DecodeError>
    decreases w.longest(), w, 1nat,
{
    match w.get("extra"@) {
        None => Ok(Seq::empty()),
        Some(extra) => wire_chats(extra),
    }
}

/// The component of an array of components: the first, with the others as
/// its children in place of any it had.
pub open spec fn first_with_rest(chats: Seq<ChatView>) -> Result<ChatView, DecodeError> {
    if chats.len() == 0 {
        Err(DecodeError::EmptyComponentArray)
    } else if chats.len() == 1 {
        Ok(chats[0])
    } else {
        Ok(
            ChatView {
                kind: chats[0].kind,
                style: chats[0].style,
                children: chats.subrange(1, chats.len() as int),
            },
        )
    }
}

/// The component that a wire value holds.
///
/// A string is literal text without style or children. An array is its
/// first item with the other items as children, and must not be empty. An
/// object is read member by member: the kind, the style, the children.
/// Anything else is refused.
pub open spec fn wire_chat(w: WireView) -> Result<ChatView, DecodeError>
    decreases w.longest(), w, 2nat,
{
    match w {
        WireView::Str(text) => Ok(ChatView::text(text)),
        WireView::Array(_) => match wire_chats(w) {
            Ok(chats) => first_with_rest(chats),
            Err(e) => Err(e),
        },
        WireView::Object(_) => match wire_kind(w) {
            Err(e) => Err(e),
            Ok(kind) => match wire_style(w, wire_hover_field(w)) {
                Err(e) => Err(e),
                Ok(style) => match wire_extra(w) {
                    Err(e) => Err(e),
                    Ok(children) => Ok(ChatView { kind, style, children }),
                },
            },
        },
        _ => Err(DecodeError::UnexpectedType),
    }
}

/// Whether what was read is what the specification gives: the same
/// value, by its view, or the same error.
pub open spec fn reads_as<T: View>(read: Result<T, DecodeError>, spec: Result<T::V, DecodeError>) -> bool {
    match read {
        Ok(value) => spec == Ok::<T::V, DecodeError>(value@),
        Err(e) => spec == Err::<T::V, DecodeError>(e),
    }
}

/// Whether what was found is what the specification gives, by its view.
pub open spec fn finds_as<T: View>(found: Option<T>, spec: Option<T::V>) -> bool {
    match found {
        Some(value) => spec == Some(value@),
        None => spec is None,
    }
}

/// The member `key` where it is there and not `null`.
fn get_present<'a>(w: &'a Wire, key: &str) -> (found: Option<&'a Wire>)
    ensures
        match found {
            Some(value) => present(w@, key@) == Some(value@),
            None => present(w@, key@) is None,
        },
{
    match w.get(key) {
        Some(Wire::Null) => None,
        found => found,
    }
}

/// The optional boolean under `key`.
fn read_flag(w: &Wire, key: &str) -> (read: Result<Option<bool>, DecodeError>)
    ensures
        read == wire_flag(w@, key@),
{
    match get_present(w, key) {
        None => Ok(None),
        Some(Wire::Bool(b)) => Ok(Some(*b)),
        Some(_) => Err(DecodeError::UnexpectedType),
    }
}

/// The optional string under `key`.
fn read_text(w: &Wire, key: &str) -> (read: Result<Option<FrozenStr>, DecodeError>)
    ensures
        match read {
            Ok(text) => wire_text(w@, key@) == Ok::<Option<Seq<char>>, DecodeError>(
                crate::style::text_view(text),
            ),
            Err(e) => wire_text(w@, key@) == Err::<Option<Seq<char>>, DecodeError>(e),
        },
{
    match get_present(w, key) {
        None => Ok(None),
        Some(Wire::Str(text)) => Ok(Some(FrozenStr::new(text.as_str()))),
        Some(_) => Err(DecodeError::UnexpectedType),
    }
}

/// The string that has to be under `key`.
fn read_name(w: &Wire, key: &'static str) -> (read: Result<FrozenStr, DecodeError>)
    ensures
        reads_as(read, wire_name(w@, key)),
{
    match w.get(key) {
        None => Err(DecodeError::MissingField(key)),
        Some(Wire::Str(text)) => Ok(FrozenStr::new(text.as_str())),
        Some(_) => Err(DecodeError::UnexpectedType),
    }
}

/// The optional color under `color`.
fn read_color(w: &Wire) -> (read: Result<Option<TextColor>, DecodeError>)
    ensures
        match read {
            Ok(color) => wire_color(w@) == Ok::<Option<ColorView>, DecodeError>(
                crate::style::color_view(color),
            ),
            Err(e) => wire_color(w@) == Err::<Option<ColorView>, DecodeError>(e),
        },
{
    match get_present(w, "color") {
        None => Ok(None),
        Some(Wire::Str(token)) => match TextColor::try_from(token.as_str()) {
            Ok(color) => Ok(Some(color)),
            Err(e) => Err(e),
        },
        Some(_) => Err(DecodeError::UnexpectedType),
    }
}

/// The value of a click event as it was found: a string, a page number, or
/// something that is neither.
#[derive(Debug, PartialEq, Eq, Hash)]
pub enum ClickEventType {
    String(FrozenStr),
    U32(u32),
    /// Neither a string nor a whole number that fits `u32`.
    Other,
}

/// The two members of a click event as they were found.
#[derive(Debug, PartialEq, Eq, Hash)]
pub struct ClickEventData {
    pub action: FrozenStr,
    pub value: ClickEventType,
}

/// Why the two members of a click event make no click event.
#[derive(Debug, PartialEq, Eq, Hash)]
pub enum ClickEventDeserializeErr {
    /// The action, which is none of the five known ones.
    WrongKey(FrozenStr),
    /// The action, whose value has the wrong shape for it.
    NoValueFound(FrozenStr),
}

impl ClickEventType {
    /// The wire value that was found. What is neither a string nor a page
    /// number stands here as `null`, which no action takes.
    pub open spec fn wire(self) -> WireView {
        match self {
            ClickEventType::String(text) => WireView::Str(text@),
            ClickEventType::U32(page) => WireView::Int(page as int),
            ClickEventType::Other => WireView::Null,
        }
    }
}

impl ClickEventDeserializeErr {
    /// The message of the error.
    pub fn to_string(&self) -> (message: String)
        ensures
            message@ == match self {
                ClickEventDeserializeErr::WrongKey(action) => action@ + " is not a valid action!"@,
                ClickEventDeserializeErr::NoValueFound(action) => "No value found for "@ + action@,
            },
    {
        match self {
            ClickEventDeserializeErr::WrongKey(action) => action.to_string().concat(
                " is not a valid action!",
            ),
            ClickEventDeserializeErr::NoValueFound(action) => "No value found for ".to_owned().concat(
                action.as_str(),
            ),
        }
    }

    /// The decoding error that this error is reported as.
    pub fn to_decode_error(&self) -> (error: DecodeError)
        ensures
            error == match self {
                ClickEventDeserializeErr::WrongKey(_) => DecodeError::UnknownClickAction,
                ClickEventDeserializeErr::NoValueFound(_) => DecodeError::ClickValueTypeMismatch,
            },
    {
        match self {
            ClickEventDeserializeErr::WrongKey(_) => DecodeError::UnknownClickAction,
            ClickEventDeserializeErr::NoValueFound(_) => DecodeError::ClickValueTypeMismatch,
        }
    }
}

impl ClickEvent {
    /// The click event of an action and its value. `change_page` takes a
    /// page number and the four other known actions take a string; with
    /// any other value they give `NoValueFound`. An action that is none of
    /// the five gives `WrongKey`, whatever its value.
    pub fn try_from(data: ClickEventData) -> (made: Result<ClickEvent, ClickEventDeserializeErr>)
        ensures
            match made {
                Ok(click) => click_of(data.action@, data.value.wire()) == Ok::<
                    ClickView,
                    DecodeError,
                >(click@),
                Err(ClickEventDeserializeErr::WrongKey(action)) => action@ == data.action@
                    && click_of(data.action@, data.value.wire()) == Err::<ClickView, DecodeError>(
                    DecodeError::UnknownClickAction,
                ),
                Err(ClickEventDeserializeErr::NoValueFound(action)) => action@ == data.action@
                    && click_of(data.action@, data.value.wire()) == Err::<ClickView, DecodeError>(
                    DecodeError::ClickValueTypeMismatch,
                ),
            },
    {
        let ClickEventData { action, value } = data;
        if str_eq(action.as_str(), "change_page") {
            match value {
                ClickEventType::U32(page) => Ok(ClickEvent::ChangePage(page)),
                _ => Err(ClickEventDeserializeErr::NoValueFound(action)),
            }
        } else if str_eq(action.as_str(), "open_url") {
            match value {
                ClickEventType::String(text) => Ok(ClickEvent::OpenUrl(text)),
                _ => Err(ClickEventDeserializeErr::NoValueFound(action)),
            }
        } else if str_eq(action.as_str(), "run_command") {
            match value {
                ClickEventType::String(text) => Ok(ClickEvent::RunCommand(text)),
                _ => Err(ClickEventDeserializeErr::NoValueFound(action)),
            }
        } else if str_eq(action.as_str(), "suggest_command") {
            match value {
                ClickEventType::String(text) => Ok(ClickEvent::SuggestCommand(text)),
                _ => Err(ClickEventDeserializeErr::NoValueFound(action)),
            }
        } else if str_eq(action.as_str(), "copy_to_clipboard") {
            match value {
                ClickEventType::String(text) => Ok(ClickEvent::CopyToClipBoard(text)),
                _ => Err(ClickEventDeserializeErr::NoValueFound(action)),
            }
        } else {
            Err(ClickEventDeserializeErr::WrongKey(action))
        }
    }

    /// Reads a click event from its wire value. `action` and `value` both
    /// have to be there, in whichever order.
    pub fn decode(w: &Wire) -> (read: Result<ClickEvent, DecodeError>)
        ensures
            reads_as(read, wire_click(w@)),
    {
        let action = match w.get("action") {
            Some(action) => action,
            None => {
                return Err(DecodeError::MissingField("action"));
            },
        };
        let value = match w.get("value") {
            Some(value) => value,
            None => {
                return Err(DecodeError::MissingField("value"));
            },
        };
        let action = match action {
            Wire::Str(action) => FrozenStr::new(action.as_str()),
            _ => {
                return Err(DecodeError::UnknownClickAction);
            },
        };
        let value = match value {
            Wire::Str(text) => ClickEventType::String(FrozenStr::new(text.as_str())),
            Wire::Int(page) => if 0 <= *page && *page <= 4294967295 {
                ClickEventType::U32(*page as u32)
            } else {
                ClickEventType::Other
            },
            _ => ClickEventType::Other,
        };
        let ghost found = value.wire();
        assert(click_of(action@, found) == click_of(action@, w@.get("value"@)->Some_0));
        match ClickEvent::try_from(ClickEventData { action, value }) {
            Ok(click) => Ok(click),
            Err(e) => Err(e.to_decode_error()),
        }
    }
}

/// The optional click event under `clickEvent`.
fn read_click(w: &Wire) -> (read: Result<Option<ClickEvent>, DecodeError>)
    ensures
        match read {
            Ok(click) => wire_click_field(w@) == Ok::<Option<ClickView>, DecodeError>(
                crate::style::click_view(click),
            ),
            Err(e) => wire_click_field(w@) == Err::<Option<ClickView>, DecodeError>(e),
        },
{
    match get_present(w, "clickEvent") {
        None => Ok(None),
        Some(click) => match ClickEvent::decode(click) {
            Ok(click) => Ok(Some(click)),
            Err(e) => Err(e),
        },
    }
}

impl ItemStack {
    /// Reads an item from its record: `id` has to be a string, `Count` a
    /// whole number that fits `i32` where it is there, and `tag` a string
    /// where it is there.
    pub fn decode(record: &Wire) -> (read: Option<ItemStack>)
        ensures
            finds_as(read, wire_item(record@)),
    {
        let id = match record.get("id") {
            Some(Wire::Str(id)) => FrozenStr::new(id.as_str()),
            _ => {
                return None;
            },
        };
        let count = match record.get("Count") {
            None => None,
            Some(Wire::Int(count)) => if -2147483648 <= *count && *count <= 2147483647 {
                Some(*count as i32)
            } else {
                return None;
            },
            Some(_) => {
                return None;
            },
        };
        let tag = match record.get("tag") {
            None => None,
            Some(Wire::Str(tag)) => Some(FrozenStr::new(tag.as_str())),
            Some(_) => {
                return None;
            },
        };
        Some(ItemStack { id, count, tag })
    }
}

impl ScoreComponent {
    /// Reads a score from its wire value: `name` and `objective` have to
    /// be there, `value` may be left out.
    pub fn decode(w: &Wire) -> (read: Result<ScoreComponent, DecodeError>)
        ensures
            reads_as(read, wire_score(w@)),
    {
        let name = match read_name(w, "name") {
            Ok(name) => name,
            Err(e) => {
                return Err(e);
            },
        };
        let objective = match read_name(w, "objective") {
            Ok(objective) => objective,
            Err(e) => {
                return Err(e);
            },
        };
        let value = match read_text(w, "value") {
            Ok(value) => value,
            Err(e) => {
                return Err(e);
            },
        };
        Ok(ScoreComponent { name, objective, value })
    }
}

/// What a component is read from before it is put together: a bare string,
/// the components of an array, or the component of an object.
#[derive(Debug, PartialEq, Eq, Hash)]
pub enum ChatComponentType {
    Primitive(String),
    Array(Vec<Chat>),
    Object(Chat),
}

/// Why what was read makes no component.
#[derive(Clone, Copy, Debug, PartialEq, Eq, Hash)]
pub enum ChatComponentDeserializeErr {
    EmptyArray,
}

impl ChatComponentDeserializeErr {
    /// The message of the error.
    pub fn to_string(&self) -> (message: String)
        ensures
            message@ == "Empty arrays are invalid for chat components!"@,
    {
        "Empty arrays are invalid for chat components!".to_owned()
    }
}

impl ChatComponentType {
    /// The component that this stands for, if it stands for one.
    pub open spec fn chat(self) -> Result<ChatView, DecodeError> {
        match self {
            ChatComponentType::Primitive(text) => Ok(ChatView::text(text@)),
            ChatComponentType::Array(chats) => first_with_rest(crate::component::chats_view(chats@)),
            ChatComponentType::Object(chat) => Ok(chat@),
        }
    }
}

impl Chat {
    /// Puts a component together from what it was read from. A string is
    /// literal text. Of an array, the first component takes the others as
    /// its children, in place of any it had; an array of one component
    /// is that component as it is. An empty array is no component.
    pub fn try_from(value: ChatComponentType) -> (made: Result<Chat, ChatComponentDeserializeErr>)
        ensures
            match made {
                Ok(chat) => value.chat() == Ok::<ChatView, DecodeError>(chat@),
                Err(e) => e == ChatComponentDeserializeErr::EmptyArray && value.chat() == Err::<
                    ChatView,
                    DecodeError,
                >(DecodeError::EmptyComponentArray),
            },
    {
        match value {
            ChatComponentType::Primitive(text) => Ok(Chat::literal(FrozenStr::from_string(text))),
            ChatComponentType::Array(array) => {
                let mut array = array;
                if array.len() == 0 {
                    return Err(ChatComponentDeserializeErr::EmptyArray);
                }
                let ghost all = crate::component::chats_view(array@);
                let mut first = array.remove(0);
                if array.len() != 0 {
                    assert(crate::component::chats_view(array@) =~= all.subrange(
                        1,
                        all.len() as int,
                    ));
                    first.children = array;
                }
                Ok(first)
            },
            ChatComponentType::Object(chat) => Ok(chat),
        }
    }

    /// The component of literal `text` with no style and no children.
    pub(crate) fn literal(text: FrozenStr) -> (chat: Chat)
        ensures
            chat@ == ChatView::text(text@),
    {
        let chat = Chat {
            kind: ComponentKind::Text(TextComponent { text }),
            style: Style::new(),
            children: Vec::new(),
        };
        assert(chat@.children =~= Seq::empty());
        chat
    }
}

/// The name of an entity, as far as the record has one.
pub open spec fn wire_entity_name(record: WireView) -> Option<Result<ChatView, DecodeError>> {
    match record.get("name"@) {
        Some(name) => Some(wire_chat(name)),
        None => None,
    }
}

impl EntityTooltip {
    /// Reads an entity from its record, which has to be an object. `name`,
    /// `type` and `id` may each be left out; where they are there, `name`
    /// has to read as a component, `type` has to be a string, and `id` a
    /// string that reads as an identifier.
    pub fn decode(record: &Wire) -> (read: Option<EntityTooltip>)
        ensures
            finds_as(read, wire_entity(record@, wire_entity_name(record@))),
        decreases record@.longest(), record@, 0nat,
    {
        match record {
            Wire::Object(_) => {},
            _ => {
                return None;
            },
        }
        let name = match record.get("name") {
            Some(name) => match Chat::decode(name) {
                Ok(name) => Some(Box::new(name)),
                Err(_) => {
                    return None;
                },
            },
            None => None,
        };
        let kind = match record.get("type") {
            None => None,
            Some(Wire::Str(kind)) => Some(FrozenStr::new(kind.as_str())),
            Some(_) => {
                return None;
            },
        };
        let id = match record.get("id") {
            None => None,
            Some(Wire::Str(text)) => match Uuid::parse_str(text.as_str()) {
                Some(id) => Some(id),
                None => {
                    return None;
                },
            },
            Some(_) => {
                return None;
            },
        };
        Some(EntityTooltip { name, kind, id })
    }
}

/// The item in the content of a hover event, in either form.
fn read_item(older: bool, content: &Wire) -> (read: Option<ItemStack>)
    ensures
        finds_as(
            read,
            match record_of(older, content@) {
                Some(record) => wire_item(record),
                None => None,
            },
        ),
{
    if older {
        match content {
            Wire::Str(text) => match Wire::from_compact_str(text.as_str()) {
                Ok(record) => if record.longest() < text.as_str().unicode_len() {
                    ItemStack::decode(&record)
                } else {
                    None
                },
                Err(_) => None,
            },
            _ => None,
        }
    } else {
        ItemStack::decode(content)
    }
}

/// The entity in the content of a hover event, in either form.
fn read_entity(older: bool, content: &Wire) -> (read: Option<EntityTooltip>)
    ensures
        finds_as(
            read,
            match record_of(older, content@) {
                Some(record) => wire_entity(record, wire_entity_name(record)),
                None => None,
            },
        ),
    decreases content@.longest(), content@, 1nat,
{
    if older {
        match content {
            Wire::Str(text) => match Wire::from_compact_str(text.as_str()) {
                Ok(record) => if record.longest() < text.as_str().unicode_len() {
                    EntityTooltip::decode(&record)
                } else {
                    None
                },
                Err(_) => None,
            },
            _ => None,
        }
    } else {
        EntityTooltip::decode(content)
    }
}

impl HoverEvent {
    /// Reads a hover event from its wire value. `action` has to be there,
    /// and what is shown has to be there under `contents` or under `value`,
    /// in whichever order; `contents` counts where both are. Under `value`
    /// an item or an entity is the text of a compact record, under
    /// `contents` it is the record itself. What does not read as the thing
    /// that the action shows is a mismatch, whatever the reason.
    pub fn decode(w: &Wire) -> (read: Result<HoverEvent, DecodeError>)
        ensures
            reads_as(read, wire_hover(w@)),
        decreases w@.longest(), w@, 0nat,
    {
        let action = match w.get("action") {
            Some(action) => action,
            None => {
                return Err(DecodeError::MissingField("action"));
            },
        };
        let (older, content) = match w.get("contents") {
            Some(content) => (false, content),
            None => match w.get("value") {
                Some(content) => (true, content),
                None => {
                    return Err(DecodeError::MissingField("contents"));
                },
            },
        };
        assert(hover_parts(w@) == Some((older, content@)));
        let action = match action {
            Wire::Str(action) => action.as_str(),
            _ => {
                return Err(DecodeError::UnknownHoverAction);
            },
        };
        if str_eq(action, "show_text") {
            match Chat::decode(content) {
                Ok(text) => Ok(HoverEvent::ShowText(Box::new(text))),
                Err(_) => Err(DecodeError::HoverValueTypeMismatch),
            }
        } else if str_eq(action, "show_item") {
            match read_item(older, content) {
                Some(item) => Ok(HoverEvent::ShowItem(item)),
                None => Err(DecodeError::HoverValueTypeMismatch),
            }
        } else if str_eq(action, "show_entity") {
            match read_entity(older, content) {
                Some(entity) => Ok(HoverEvent::ShowEntity(entity)),
                None => Err(DecodeError::HoverValueTypeMismatch),
            }
        } else {
            Err(DecodeError::UnknownHoverAction)
        }
    }
}

/// The kind of the component that an object holds.
fn read_kind(w: &Wire) -> (read: Result<ComponentKind, DecodeError>)
    ensures
        reads_as(read, wire_kind(w@)),
    decreases w@.longest(), w@, 0nat,
{
    let text = w.get("text");
    let translate = w.get("translate");
    let score = w.get("score");
    let selector = w.get("selector");
    let keybind = w.get("keybind");
    let mut count: u8 = 0;
    if text.is_some() {
        count += 1;
    }
    if translate.is_some() {
        count += 1;
    }
    if score.is_some() {
        count += 1;
    }
    if selector.is_some() {
        count += 1;
    }
    if keybind.is_some() {
        count += 1;
    }
    assert(count == kind_count(w@));
    if count == 0 {
        return Err(DecodeError::MissingField("text"));
    }
    if count > 1 {
        return Err(DecodeError::AmbiguousKind);
    }
    if text.is_some() {
        match read_name(w, "text") {
            Ok(text) => Ok(ComponentKind::Text(TextComponent { text })),
            Err(e) => Err(e),
        }
    } else if translate.is_some() {
        let key = match read_name(w, "translate") {
            Ok(key) => key,
            Err(e) => {
                return Err(e);
            },
        };
        let with = match w.get("with") {
            None => {
                let with: Vec<Chat> = Vec::new();
                assert(crate::component::chats_view(with@) =~= Seq::empty());
                with
            },
            Some(with) => match read_all(with) {
                Ok(with) => with,
                Err(e) => {
                    return Err(e);
                },
            },
        };
        Ok(ComponentKind::Translation(TranslationComponent { key, with }))
    } else if let Some(score) = score {
        match ScoreComponent::decode(score) {
            Ok(score) => Ok(ComponentKind::Score(score)),
            Err(e) => Err(e),
        }
    } else if selector.is_some() {
        let selector = match read_name(w, "selector") {
            Ok(selector) => selector,
            Err(e) => {
                return Err(e);
            },
        };
        let sep = match get_present(w, "separator") {
            None => None,
            Some(sep) => match Chat::decode(sep) {
                Ok(sep) => Some(Box::new(sep)),
                Err(e) => {
                    return Err(e);
                },
            },
        };
        Ok(ComponentKind::Selector(SelectorComponent { selector, sep }))
    } else {
        match read_name(w, "keybind") {
            Ok(keybind) => Ok(ComponentKind::Keybind(KeybindComponent { keybind })),
            Err(e) => Err(e),
        }
    }
}

/// The optional hover event under `hoverEvent`.
fn read_hover(w: &Wire) -> (read: Result<Option<HoverEvent>, DecodeError>)
    ensures
        match read {
            Ok(hover) => wire_hover_field(w@) == Ok::<Option<HoverView>, DecodeError>(
                match hover {
                    Some(hover) => Some(hover@),
                    None => None,
                },
            ),
            Err(e) => wire_hover_field(w@) == Err::<Option<HoverView>, DecodeError>(e),
        },
    decreases w@.longest(), w@, 1nat,
{
    match get_present(w, "hoverEvent") {
        None => Ok(None),
        Some(hover) => match HoverEvent::decode(hover) {
            Ok(hover) => Ok(Some(hover)),
            Err(e) => Err(e),
        },
    }
}

/// The style that an object holds.
fn read_style(w: &Wire) -> (read: Result<Style, DecodeError>)
    ensures
        reads_as(read, wire_style(w@, wire_hover_field(w@))),
    decreases w@.longest(), w@, 2nat,
{
    let bold = match read_flag(w, "bold") {
        Ok(bold) => bold,
        Err(e) => {
            return Err(e);
        },
    };
    let italic = match read_flag(w, "italic") {
        Ok(italic) => italic,
        Err(e) => {
            return Err(e);
        },
    };
    let underlined = match read_flag(w, "underlined") {
        Ok(underlined) => underlined,
        Err(e) => {
            return Err(e);
        },
    };
    let strikethrough = match read_flag(w, "strikethrough") {
        Ok(strikethrough) => strikethrough,
        Err(e) => {
            return Err(e);
        },
    };
    let obfuscated = match read_flag(w, "obfuscated") {
        Ok(obfuscated) => obfuscated,
        Err(e) => {
            return Err(e);
        },
    };
    let color = match read_color(w) {
        Ok(color) => color,
        Err(e) => {
            return Err(e);
        },
    };
    let insertion = match read_text(w, "insertion") {
        Ok(insertion) => insertion,
        Err(e) => {
            return Err(e);
        },
    };
    let font = match read_text(w, "font") {
        Ok(font) => font,
        Err(e) => {
            return Err(e);
        },
    };
    let click_event = match read_click(w) {
        Ok(click) => click,
        Err(e) => {
            return Err(e);
        },
    };
    let hover_event = match read_hover(w) {
        Ok(hover) => hover,
        Err(e) => {
            return Err(e);
        },
    };
    Ok(
        Style {
            bold,
            italic,
            underlined,
            strikethrough,
            obfuscated,
            color,
            insertion,
            font,
            click_event,
            hover_event,
        },
    )
}

/// The components that an array holds, in order.
fn read_all(w: &Wire) -> (read: Result<Vec<Chat>, DecodeError>)
    ensures
        match read {
            Ok(chats) => wire_chats(w@) == Ok::<Seq<ChatView>, DecodeError>(
                crate::component::chats_view(chats@),
            ),
            Err(e) => wire_chats(w@) == Err::<Seq<ChatView>, DecodeError>(e),
        },
    decreases w@.longest(), w@, 1nat,
{
    match w {
        Wire::Array(items) => {
            let mut chats: Vec<Chat> = Vec::new();
            let mut i: usize = 0;
            while i < items.len()
                invariant
                    i <= items.len(),
                    *w == Wire::Array(*items),
                    chats.len() == i,
                    forall|j: int|
                        0 <= j < i ==> wire_chat(#[trigger] w@->Array_0[j]) == Ok::<
                            ChatView,
                            DecodeError,
                        >(chats[j]@),
                decreases items.len() - i,
            {
                assert(w@->Array_0 == crate::wire::items_view(items@));
                assert(w@->Array_0[i as int] == items[i as int]@);
                match Chat::decode(&items[i]) {
                    Ok(chat) => chats.push(chat),
                    Err(e) => {
                        proof {
                            let all = w@->Array_0;
                            let at = i as int;
                            assert(wire_chat(all[at]) is Err);
                            let bad = first_bad(w@);
                            assert(0 <= bad < all.len() && wire_chat(all[bad]) is Err && forall|
                                j: int,
                            | 0 <= j < bad ==> wire_chat(#[trigger] all[j]) is Ok);
                            assert(bad == at);
                        }
                        return Err(e);
                    },
                }
                i += 1;
            }
            proof {
                let all = w@->Array_0;
                assert(all == crate::wire::items_view(items@));
                assert(forall|j: int| 0 <= j < all.len() ==> wire_chat(#[trigger] all[j]) is Ok);
                assert(wire_chats(w@)->Ok_0 =~= crate::component::chats_view(chats@));
            }
            Ok(chats)
        },
        _ => Err(DecodeError::UnexpectedType),
    }
}

/// The children of a component.
fn read_extra(w: &Wire) -> (read: Result<Vec<Chat>, DecodeError>)
    ensures
        match read {
            Ok(chats) => wire_extra(w@) == Ok::<Seq<ChatView>, DecodeError>(
                crate::component::chats_view(chats@),
            ),
            Err(e) => wire_extra(w@) == Err::<Seq<ChatView>, DecodeError>(e),
        },
    decreases w@.longest(), w@, 2nat,
{
    match w.get("extra") {
        None => {
            let none: Vec<Chat> = Vec::new();
            assert(crate::component::chats_view(none@) =~= Seq::empty());
            Ok(none)
        },
        Some(extra) => read_all(extra),
    }
}

impl Style {
    /// Reads a style from an object. Any member may be left out, and
    /// members that are no part of a style are not looked at.
    pub fn decode(w: &Wire) -> (read: Result<Style, DecodeError>)
        ensures
            reads_as(read, wire_style(w@, wire_hover_field(w@))),
    {
        read_style(w)
    }
}

impl Chat {
    /// Reads a component from a wire value.
    ///
    /// A string is literal text without style or children. An array is its
    /// first item with the other items as children, and must not be empty.
    /// An object is read member by member: the kind, the style, the
    /// children. Anything else is refused.
    pub fn decode(w: &Wire) -> (read: Result<Chat, DecodeError>)
        ensures
            reads_as(read, wire_chat(w@)),
            read matches Ok(chat) ==> chat@.wf(),
        decreases w@.longest(), w@, 3nat,
    {
        proof {
            crate::laws::lemma_read_is_well_formed(w@);
        }
        match w {
            Wire::Str(text) => match Chat::try_from(ChatComponentType::Primitive(text.clone())) {
                Ok(chat) => Ok(chat),
                Err(_) => Err(DecodeError::EmptyComponentArray),
            },
            Wire::Array(_) => {
                let chats = match read_all(w) {
                    Ok(chats) => chats,
                    Err(e) => {
                        return Err(e);
                    },
                };
                match Chat::try_from(ChatComponentType::Array(chats)) {
                    Ok(chat) => Ok(chat),
                    Err(_) => Err(DecodeError::EmptyComponentArray),
                }
            },
            Wire::Object(_) => {
                let kind = match read_kind(w) {
                    Ok(kind) => kind,
                    Err(e) => {
                        return Err(e);
                    },
                };
                let style = match read_style(w) {
                    Ok(style) => style,
                    Err(e) => {
                        return Err(e);
                    },
                };
                let children = match read_extra(w) {
                    Ok(children) => children,
                    Err(e) => {
                        return Err(e);
                    },
                };
                Ok(Chat { kind, style, children })
            },
            _ => Err(DecodeError::UnexpectedType),
        }
    }
}

/// The component that a JSON text holds: the component of the wire value
/// that the text reads as, if it reads as one.
pub open spec fn text_chat(text: Seq<char>) -> Result<ChatView, DecodeError> {
    match document_value(text) {
        Some(w) => wire_chat(w),
        None => Err(DecodeError::InvalidText),
    }
}

impl Chat {
    /// Reads a component from a JSON string.
    pub fn deserialize_str(text: &str) -> (read: Result<Chat, DecodeError>)
        ensures
            reads_as(read, text_chat(text@)),
            read matches Ok(chat) ==> chat@.wf(),
    {
        match Wire::from_json_str(text) {
            Ok(wire) => Chat::decode(&wire),
            Err(e) => Err(e),
        }
    }
}

} // verus!
