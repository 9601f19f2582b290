//! A component as a protocol version carries it.
//!
//! A version that does not know a part of a style cannot carry it, and the
//! wire value for that version leaves it out. Projecting a component to a
//! version drops exactly those parts, at every depth, and changes nothing
//! else.

use vstd::prelude::*;
use crate::color::TextColor;
use crate::component::{
    chats_view, clone_text, Chat, ChatView, ComponentKind, KindView, SelectorComponent,
    SelectorView, TranslationComponent, TranslationView,
};
use crate::encode::{shown_click, shown_color, shown_font, shown_insertion};
use crate::style::{ClickEvent, EntityTooltip, EntityView, HoverEvent, HoverView, Style, StyleView};
use crate::version::VersionPolicy;

verus! {

/// The style as a version carries it, given its hover event as the
/// version carries it: a custom color, an insertion, a font and a copy to
/// the clipboard are dropped where the version does not know them.
pub open spec fn project_style(style: StyleView, version: int, hover: Option<HoverView>) -> StyleView {
    StyleView {
        bold: style.bold,
        italic: style.italic,
        underlined: style.underlined,
        strikethrough: style.strikethrough,
        obfuscated: style.obfuscated,
        color: shown_color(style.color, version),
        insertion: shown_insertion(style.insertion, version),
        font: shown_font(style.font, version),
        click_event: shown_click(style.click_event, version),
        hover_event: hover,
    }
}

/// The component as a version carries it: every style in it, at any depth,
/// is the style as the version carries it, and nothing else is changed.
pub open spec fn project_chat(chat: ChatView, version: int) -> ChatView
    decreases chat,
{
    ChatView {
        kind: match chat.kind {
            KindView::Translation(translation) => KindView::Translation(
                TranslationView {
                    key: translation.key,
                    with: project_chats(translation.with, version),
                },
            ),
            KindView::Selector(selector) => KindView::Selector(
                SelectorView {
                    selector: selector.selector,
                    sep: match selector.sep {
                        Some(sep) => Some(Box::new(project_chat(*sep, version))),
                        None => None,
                    },
                },
            ),
            other => other,
        },
        style: project_style(
            chat.style,
            version,
            match chat.style.hover_event {
                Some(hover) => Some(project_hover(hover, version)),
                None => None,
            },
        ),
        children: project_chats(chat.children, version),
    }
}

/// A run of components as a version carries them.
pub open spec fn project_chats(chats: Seq<ChatView>, version: int) -> Seq<ChatView>
    decreases chats,
{
    Seq::new(
        chats.len(),
        |i: int|
            if 0 <= i < chats.len() {
                project_chat(chats[i], version)
            } else {
                ChatView::text(Seq::empty())
            },
    )
}

/// A hover event as a version carries it.
pub open spec fn project_hover(hover: HoverView, version: int) -> HoverView
    decreases hover,
{
    match hover {
        HoverView::ShowText(text) => HoverView::ShowText(Box::new(project_chat(*text, version))),
        HoverView::ShowItem(item) => HoverView::ShowItem(item),
        HoverView::ShowEntity(entity) => HoverView::ShowEntity(
            EntityView {
                name: match entity.name {
                    Some(name) => Some(Box::new(project_chat(*name, version))),
                    None => None,
                },
                kind: entity.kind,
                id: entity.id,
            },
        ),
    }
}

/// The hover event of a style as a version carries it, where there is one.
pub open spec fn project_style_hover(style: StyleView, version: int) -> Option<HoverView> {
    match style.hover_event {
        Some(hover) => Some(project_hover(hover, version)),
        None => None,
    }
}

/// A run of components as a version carries them.
fn project_all(chats: &Vec<Chat>, version: i32) -> (projected: Vec<Chat>)
    ensures
        chats_view(projected@) == project_chats(chats_view(chats@), version as int),
    decreases chats,
{
    let mut projected: Vec<Chat> = Vec::new();
    let mut i: usize = 0;
    while i < chats.len()
        invariant
            i <= chats.len(),
            projected.len() == i,
            forall|j: int|
                0 <= j < i ==> (#[trigger] projected[j])@ == project_chat(chats[j]@, version as int),
        decreases chats.len() - i,
    {
        projected.push(chats[i].project(version));
        i += 1;
    }
    assert(chats_view(projected@) =~= project_chats(chats_view(chats@), version as int));
    projected
}

impl HoverEvent {
    /// The event as `version` carries it: what it shows is projected, and
    /// nothing else is changed.
    pub fn project(&self, version: i32) -> (projected: HoverEvent)
        ensures
            projected@ == project_hover(self@, version as int),
        decreases self,
    {
        match self {
            HoverEvent::ShowText(text) => HoverEvent::ShowText(Box::new(text.project(version))),
            HoverEvent::ShowItem(item) => HoverEvent::ShowItem(item.clone()),
            HoverEvent::ShowEntity(entity) => HoverEvent::ShowEntity(
                EntityTooltip {
                    name: match &entity.name {
                        Some(name) => Some(Box::new(name.project(version))),
                        None => None,
                    },
                    kind: clone_text(&entity.kind),
                    id: entity.id,
                },
            ),
        }
    }
}

impl Style {
    /// The style as `version` carries it: a custom color and a font are
    /// dropped before 1.16, an insertion before 1.8, a copy to the clipboard
    /// before 1.15; the hover event is projected.
    pub fn project(&self, version: i32) -> (projected: Style)
        ensures
            projected@ == project_style(
                self@,
                version as int,
                project_style_hover(self@, version as int),
            ),
        decreases self,
    {
        let policy = VersionPolicy::of(version);
        Style {
            bold: self.bold,
            italic: self.italic,
            underlined: self.underlined,
            strikethrough: self.strikethrough,
            obfuscated: self.obfuscated,
            color: match &self.color {
                Some(TextColor::Custom(text)) => if policy.custom_color {
                    Some(TextColor::Custom(text.clone()))
                } else {
                    None
                },
                Some(color) => Some(color.clone()),
                None => None,
            },
            insertion: if policy.insertion {
                clone_text(&self.insertion)
            } else {
                None
            },
            font: if policy.font {
                clone_text(&self.font)
            } else {
                None
            },
            click_event: match &self.click_event {
                Some(ClickEvent::CopyToClipBoard(text)) => if policy.clipboard_click {
                    Some(ClickEvent::CopyToClipBoard(text.clone()))
                } else {
                    None
                },
                Some(click) => Some(click.clone()),
                None => None,
            },
            hover_event: match &self.hover_event {
                Some(hover) => Some(hover.project(version)),
                None => None,
            },
        }
    }
}

impl Chat {
    /// The component as `version` carries it: every style in it, at any
    /// depth, is projected, and nothing else is changed.
    pub fn project(&self, version: i32) -> (projected: Chat)
        ensures
            projected@ == project_chat(self@, version as int),
        decreases self,
    {
        let ghost goal = project_chat(self@, version as int);
        assert(self@.kind == self.kind@);
        let kind = match &self.kind {
            ComponentKind::Translation(translation) => {
                let with = project_all(&translation.with, version);
                let kind = ComponentKind::Translation(
                    TranslationComponent { key: translation.key.clone(), with },
                );
                assert(kind@ == goal.kind);
                kind
            },
            ComponentKind::Selector(selector) => {
                let sep = match &selector.sep {
                    Some(sep) => Some(Box::new(sep.project(version))),
                    None => None,
                };
                let kind = ComponentKind::Selector(
                    SelectorComponent { selector: selector.selector.clone(), sep },
                );
                assert(kind@ == goal.kind);
                kind
            },
            other => {
                let kind = other.clone();
                assert(kind@ == goal.kind);
                kind
            },
        };
        let style = self.style.project(version);
        assert(style@ == project_chat(self@, version as int).style);
        Chat { kind, style, children: project_all(&self.children, version) }
    }
}

} // verus!
