//! The style of a component: formatting, color and the two kinds of event.

use vstd::prelude::*;
use crate::color::{ColorView, TextColor};
use crate::component::{boxed_chat_view, chat_view, clone_text, str_view, Chat, ChatView};
use crate::freeze::FrozenStr;
use crate::ident::Uuid;

verus! {

/// The style of a [`Chat`] component.
///
/// Every setting is optional: an absent one has no opinion, and a renderer
/// takes it from the context; a present one always overrides. Styles of
/// parents and children are never merged here.
#[derive(Debug, PartialEq, Eq, Hash)]
pub struct Style {
    pub bold: Option<bool>,
    pub italic: Option<bool>,
    pub underlined: Option<bool>,
    pub strikethrough: Option<bool>,
    pub obfuscated: Option<bool>,
    pub color: Option<TextColor>,
    /// Readers older than 1.8 do not know this field.
    pub insertion: Option<FrozenStr>,
    /// Readers older than 1.16 do not know this field.
    pub font: Option<FrozenStr>,
    pub click_event: Option<ClickEvent>,
    pub hover_event: Option<HoverEvent>,
}

/// What happens when a component is clicked.
#[derive(Debug, PartialEq, Eq, Hash)]
pub enum ClickEvent {
    OpenUrl(FrozenStr),
    RunCommand(FrozenStr),
    SuggestCommand(FrozenStr),
    ChangePage(u32),
    /// Readers older than 1.15 do not know this event.
    CopyToClipBoard(FrozenStr),
}

/// What is shown while the pointer rests on a component.
#[derive(Debug, PartialEq, Eq, Hash)]
pub enum HoverEvent {
    ShowText(Box<Chat>),
    ShowItem(ItemStack),
    ShowEntity(EntityTooltip),
}

/// What a hover event shows of a stack of items.
#[derive(Debug, PartialEq, Eq, Hash)]
pub struct ItemStack {
    pub id: FrozenStr,
    pub count: Option<i32>,
    /// Further data of the item, kept as the text it came in.
    pub tag: Option<FrozenStr>,
}

/// What a hover event shows of an entity.
#[derive(Debug, PartialEq, Eq, Hash)]
pub struct EntityTooltip {
    pub name: Option<Box<Chat>>,
    pub kind: Option<FrozenStr>,
    pub id: Option<Uuid>,
}

/// The mathematical value of a [`Style`].
pub struct StyleView {
    pub bold: Option<bool>,
    pub italic: Option<bool>,
    pub underlined: Option<bool>,
    pub strikethrough: Option<bool>,
    pub obfuscated: Option<bool>,
    pub color: Option<ColorView>,
    pub insertion: Option<Seq<char>>,
    pub font: Option<Seq<char>>,
    pub click_event: Option<ClickView>,
    pub hover_event: Option<HoverView>,
}

/// The mathematical value of a [`ClickEvent`].
pub enum ClickView {
    OpenUrl(Seq<char>),
    RunCommand(Seq<char>),
    SuggestCommand(Seq<char>),
    ChangePage(u32),
    CopyToClipBoard(Seq<char>),
}

/// The mathematical value of a [`HoverEvent`].
pub enum HoverView {
    ShowText(Box<ChatView>),
    ShowItem(ItemView),
    ShowEntity(EntityView),
}

/// The mathematical value of an [`ItemStack`].
pub struct ItemView {
    pub id: Seq<char>,
    pub count: Option<i32>,
    pub tag: Option<Seq<char>>,
}

/// The mathematical value of an [`EntityTooltip`].
pub struct EntityView {
    pub name: Option<Box<ChatView>>,
    pub kind: Option<Seq<char>>,
    pub id: Option<u128>,
}

/// The view of an optional string.
pub open spec fn text_view(text: Option<FrozenStr>) -> Option<Seq<char>> {
    match text {
        Some(text) => Some(text@),
        None => None,
    }
}

/// The view of an optional color.
pub open spec fn color_view(color: Option<TextColor>) -> Option<ColorView> {
    match color {
        Some(color) => Some(color@),
        None => None,
    }
}

/// The view of an optional click event.
pub open spec fn click_view(click: Option<ClickEvent>) -> Option<ClickView> {
    match click {
        Some(click) => Some(click@),
        None => None,
    }
}

/// The view of an optional identifier.
pub open spec fn id_view(id: Option<Uuid>) -> Option<u128> {
    match id {
        Some(id) => Some(id.bits),
        None => None,
    }
}

/// The view of a style.
pub open spec fn style_view(style: Style) -> StyleView
    decreases style,
{
    StyleView {
        bold: style.bold,
        italic: style.italic,
        underlined: style.underlined,
        strikethrough: style.strikethrough,
        obfuscated: style.obfuscated,
        color: color_view(style.color),
        insertion: text_view(style.insertion),
        font: text_view(style.font),
        click_event: click_view(style.click_event),
        hover_event: match style.hover_event {
            Some(hover) => Some(hover_view(hover)),
            None => None,
        },
    }
}

/// The view of a hover event.
pub open spec fn hover_view(hover: HoverEvent) -> HoverView
    decreases hover,
{
    match hover {
        HoverEvent::ShowText(text) => HoverView::ShowText(Box::new(chat_view(*text))),
        HoverEvent::ShowItem(item) => HoverView::ShowItem(item@),
        HoverEvent::ShowEntity(entity) => HoverView::ShowEntity(entity_view(entity)),
    }
}

/// The view of an entity tooltip.
pub open spec fn entity_view(entity: EntityTooltip) -> EntityView
    decreases entity,
{
    EntityView {
        name: boxed_chat_view(entity.name),
        kind: text_view(entity.kind),
        id: id_view(entity.id),
    }
}

impl View for Style {
    type V = StyleView;

    open spec fn view(&self) -> StyleView {
        style_view(*self)
    }
}

impl View for ClickEvent {
    type V = ClickView;

    open spec fn view(&self) -> ClickView {
        match self {
            ClickEvent::OpenUrl(url) => ClickView::OpenUrl(url@),
            ClickEvent::RunCommand(cmd) => ClickView::RunCommand(cmd@),
            ClickEvent::SuggestCommand(cmd) => ClickView::SuggestCommand(cmd@),
            ClickEvent::ChangePage(page) => ClickView::ChangePage(*page),
            ClickEvent::CopyToClipBoard(text) => ClickView::CopyToClipBoard(text@),
        }
    }
}

impl View for HoverEvent {
    type V = HoverView;

    open spec fn view(&self) -> HoverView {
        hover_view(*self)
    }
}

impl View for ItemStack {
    type V = ItemView;

    open spec fn view(&self) -> ItemView {
        ItemView { id: self.id@, count: self.count, tag: text_view(self.tag) }
    }
}

impl View for EntityTooltip {
    type V = EntityView;

    open spec fn view(&self) -> EntityView {
        entity_view(*self)
    }
}

impl StyleView {
    /// The style with no setting present.
    pub open spec fn empty() -> StyleView {
        StyleView {
            bold: None,
            italic: None,
            underlined: None,
            strikethrough: None,
            obfuscated: None,
            color: None,
            insertion: None,
            font: None,
            click_event: None,
            hover_event: None,
        }
    }

    /// Every color in the style, and in what its hover event shows, is
    /// well-formed.
    pub open spec fn wf(self) -> bool
        decreases self,
    {
        &&& self.color matches Some(color) ==> color.wf()
        &&& self.hover_event matches Some(hover) ==> hover.wf()
    }
}

impl HoverView {
    /// Every color in what the event shows is well-formed.
    pub open spec fn wf(self) -> bool
        decreases self,
    {
        match self {
            HoverView::ShowText(text) => text.wf(),
            HoverView::ShowItem(_) => true,
            HoverView::ShowEntity(entity) => entity.name matches Some(name) ==> name.wf(),
        }
    }
}

/// The view of an optional hover event.
pub open spec fn hover_option_view(hover: Option<HoverEvent>) -> Option<HoverView> {
    match hover {
        Some(hover) => Some(hover@),
        None => None,
    }
}

impl Clone for ClickEvent {
    fn clone(&self) -> (copy: Self)
        ensures
            copy@ == self@,
    {
        match self {
            ClickEvent::OpenUrl(url) => ClickEvent::OpenUrl(url.clone()),
            ClickEvent::RunCommand(cmd) => ClickEvent::RunCommand(cmd.clone()),
            ClickEvent::SuggestCommand(cmd) => ClickEvent::SuggestCommand(cmd.clone()),
            ClickEvent::ChangePage(page) => ClickEvent::ChangePage(*page),
            ClickEvent::CopyToClipBoard(text) => ClickEvent::CopyToClipBoard(text.clone()),
        }
    }
}

impl Clone for ItemStack {
    fn clone(&self) -> (copy: Self)
        ensures
            copy@ == self@,
    {
        ItemStack { id: self.id.clone(), count: self.count, tag: clone_text(&self.tag) }
    }
}

impl Clone for EntityTooltip {
    fn clone(&self) -> (copy: Self)
        ensures
            copy@ == self@,
        decreases self,
    {
        EntityTooltip {
            name: match &self.name {
                Some(name) => Some(Box::new((**name).clone())),
                None => None,
            },
            kind: clone_text(&self.kind),
            id: self.id,
        }
    }
}

impl Clone for HoverEvent {
    fn clone(&self) -> (copy: Self)
        ensures
            copy@ == self@,
        decreases self,
    {
        match self {
            HoverEvent::ShowText(text) => HoverEvent::ShowText(Box::new((**text).clone())),
            HoverEvent::ShowItem(item) => HoverEvent::ShowItem(item.clone()),
            HoverEvent::ShowEntity(entity) => HoverEvent::ShowEntity(entity.clone()),
        }
    }
}

impl Clone for Style {
    fn clone(&self) -> (copy: Self)
        ensures
            copy@ == self@,
        decreases self,
    {
        Style {
            bold: self.bold,
            italic: self.italic,
            underlined: self.underlined,
            strikethrough: self.strikethrough,
            obfuscated: self.obfuscated,
            color: match &self.color {
                Some(color) => Some(color.clone()),
                None => None,
            },
            insertion: clone_text(&self.insertion),
            font: clone_text(&self.font),
            click_event: match &self.click_event {
                Some(click) => Some(click.clone()),
                None => None,
            },
            hover_event: match &self.hover_event {
                Some(hover) => Some(hover.clone()),
                None => None,
            },
        }
    }
}

impl Default for Style {
    fn default() -> (style: Style)
        ensures
            style@ == StyleView::empty(),
    {
        Style::new()
    }
}

impl Style {
    /// The style with no setting present: everything is taken from the
    /// context.
    pub fn new() -> (style: Style)
        ensures
            style@ == StyleView::empty(),
    {
        Style {
            bold: None,
            italic: None,
            underlined: None,
            strikethrough: None,
            obfuscated: None,
            color: None,
            insertion: None,
            font: None,
            click_event: None,
            hover_event: None,
        }
    }

    /// Sets the color, or takes it away.
    pub fn color(&mut self, color: Option<TextColor>) -> (style: &mut Self)
        ensures
            style@ == (StyleView { color: color_view(color), ..old(self)@ }),
            *final(self) == *final(style),
    {
        self.color = color;
        self
    }

    /// Sets whether the text is bold.
    pub fn bold(&mut self, bold: bool) -> (style: &mut Self)
        ensures
            style@ == (StyleView { bold: Some(bold), ..old(self)@ }),
            *final(self) == *final(style),
    {
        self.bold = Some(bold);
        self
    }

    /// Sets whether the text is italic.
    pub fn italic(&mut self, italic: bool) -> (style: &mut Self)
        ensures
            style@ == (StyleView { italic: Some(italic), ..old(self)@ }),
            *final(self) == *final(style),
    {
        self.italic = Some(italic);
        self
    }

    /// Sets whether the text is underlined.
    pub fn underlined(&mut self, underlined: bool) -> (style: &mut Self)
        ensures
            style@ == (StyleView { underlined: Some(underlined), ..old(self)@ }),
            *final(self) == *final(style),
    {
        self.underlined = Some(underlined);
        self
    }

    /// Sets whether the text is struck through.
    pub fn strikethrough(&mut self, strikethrough: bool) -> (style: &mut Self)
        ensures
            style@ == (StyleView { strikethrough: Some(strikethrough), ..old(self)@ }),
            *final(self) == *final(style),
    {
        self.strikethrough = Some(strikethrough);
        self
    }

    /// Sets whether the text is obfuscated.
    pub fn obfuscated(&mut self, obfuscated: bool) -> (style: &mut Self)
        ensures
            style@ == (StyleView { obfuscated: Some(obfuscated), ..old(self)@ }),
            *final(self) == *final(style),
    {
        self.obfuscated = Some(obfuscated);
        self
    }

    /// Sets the font, or takes it away.
    pub fn font(&mut self, font: Option<&str>) -> (style: &mut Self)
        ensures
            style@ == (StyleView { font: str_view(font), ..old(self)@ }),
            *final(self) == *final(style),
    {
        self.font = match font {
            Some(font) => Some(FrozenStr::new(font)),
            None => None,
        };
        self
    }

    /// Sets the insertion, or takes it away.
    pub fn insertion(&mut self, insertion: Option<&str>) -> (style: &mut Self)
        ensures
            style@ == (StyleView { insertion: str_view(insertion), ..old(self)@ }),
            *final(self) == *final(style),
    {
        self.insertion = match insertion {
            Some(insertion) => Some(FrozenStr::new(insertion)),
            None => None,
        };
        self
    }

    /// Sets the click event, or takes it away.
    pub fn click(&mut self, click_event: Option<ClickEvent>) -> (style: &mut Self)
        ensures
            style@ == (StyleView { click_event: click_view(click_event), ..old(self)@ }),
            *final(self) == *final(style),
    {
        self.click_event = click_event;
        self
    }

    /// Sets the hover event, or takes it away.
    pub fn hover(&mut self, hover_event: Option<HoverEvent>) -> (style: &mut Self)
        ensures
            style@ == (StyleView { hover_event: hover_option_view(hover_event), ..old(self)@ }),
            *final(self) == *final(style),
    {
        self.hover_event = hover_event;
        self
    }
}

impl ClickEvent {
    /// Opens a URL.
    pub fn url(url: &str) -> (click: Self)
        ensures
            click@ == ClickView::OpenUrl(url@),
    {
        ClickEvent::OpenUrl(FrozenStr::new(url))
    }

    /// Runs a command.
    pub fn command(cmd: &str) -> (click: Self)
        ensures
            click@ == ClickView::RunCommand(cmd@),
    {
        ClickEvent::RunCommand(FrozenStr::new(cmd))
    }

    /// Puts a command into the reader's input line.
    pub fn suggest(cmd: &str) -> (click: Self)
        ensures
            click@ == ClickView::SuggestCommand(cmd@),
    {
        ClickEvent::SuggestCommand(FrozenStr::new(cmd))
    }

    /// Turns to a page of a book.
    pub fn page(page: u32) -> (click: Self)
        ensures
            click@ == ClickView::ChangePage(page),
    {
        ClickEvent::ChangePage(page)
    }

    /// Copies a text to the clipboard.
    pub fn clipboard(str: &str) -> (click: Self)
        ensures
            click@ == ClickView::CopyToClipBoard(str@),
    {
        ClickEvent::CopyToClipBoard(FrozenStr::new(str))
    }
}

impl ItemStack {
    /// A stack of the item `id`, with a count and a tag or without.
    pub fn new(id: &str, count: Option<i32>, tag: Option<&str>) -> (item: Self)
        ensures
            item@ == (ItemView { id: id@, count, tag: str_view(tag) }),
    {
        ItemStack {
            id: FrozenStr::new(id),
            count,
            tag: match tag {
                Some(tag) => Some(FrozenStr::new(tag)),
                None => None,
            },
        }
    }
}

impl EntityTooltip {
    /// The tooltip of an entity; each part may be left out.
    pub fn new(name: Option<Chat>, kind: Option<&str>, id: Option<Uuid>) -> (entity: Self)
        ensures
            entity@ == (EntityView {
                name: match name {
                    Some(name) => Some(Box::new(name@)),
                    None => None,
                },
                kind: str_view(kind),
                id: id_view(id),
            }),
    {
        EntityTooltip {
            name: match name {
                Some(name) => Some(Box::new(name)),
                None => None,
            },
            kind: match kind {
                Some(kind) => Some(FrozenStr::new(kind)),
                None => None,
            },
            id,
        }
    }
}

} // verus!
