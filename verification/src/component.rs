//! Chat components: a kind, a style, and children.

use vstd::prelude::*;
use vstd::std_specs::convert::IntoSpec;
use crate::freeze::FrozenStr;
use crate::color::TextColor;
use crate::style::{style_view, text_view, ClickEvent, HoverEvent, Style, StyleView};

verus! {

/// A chat component: one node of a message.
///
/// A component has a kind, a [`Style`], and children, which come after it
/// and whose order is kept.
#[derive(Debug, PartialEq, Eq, Hash)]
pub struct Chat {
    /// The kind of this component.
    pub kind: ComponentKind,
    /// The style of this component.
    pub style: Style,
    /// The children of this component.
    pub children: Vec<Chat>,
}

/// The kinds of component. Exactly one is active in a component.
#[derive(Debug, PartialEq, Eq, Hash)]
pub enum ComponentKind {
    Text(TextComponent),
    Translation(TranslationComponent),
    /// Known to readers since 1.8. No version is checked here.
    Score(ScoreComponent),
    /// Known to readers since 1.8. No version is checked here.
    Selector(SelectorComponent),
    /// Known to readers since 1.12. No version is checked here.
    Keybind(KeybindComponent),
}

/// Literal text.
#[derive(Debug, PartialEq, Eq, Hash)]
pub struct TextComponent {
    pub text: FrozenStr,
}

/// A translation key with the components that fill its slots.
#[derive(Debug, PartialEq, Eq, Hash)]
pub struct TranslationComponent {
    pub key: FrozenStr,
    pub with: Vec<Chat>,
}

/// A score of a holder in an objective.
#[derive(Debug, PartialEq, Eq, Hash)]
pub struct ScoreComponent {
    pub name: FrozenStr,
    pub objective: FrozenStr,
    pub value: Option<FrozenStr>,
}

/// An entity selector, with what separates the names it resolves to.
#[derive(Debug, PartialEq, Eq, Hash)]
pub struct SelectorComponent {
    pub selector: FrozenStr,
    pub sep: Option<Box<Chat>>,
}

/// The key that a reader has bound to an action.
#[derive(Debug, PartialEq, Eq, Hash)]
pub struct KeybindComponent {
    pub keybind: FrozenStr,
}

/// The mathematical value of a [`Chat`].
pub struct ChatView {
    pub kind: KindView,
    pub style: StyleView,
    pub children: Seq<ChatView>,
}

/// The mathematical value of a [`ComponentKind`].
pub enum KindView {
    Text(Seq<char>),
    Translation(TranslationView),
    Score(ScoreView),
    Selector(SelectorView),
    Keybind(Seq<char>),
}

/// The mathematical value of a [`TranslationComponent`].
pub struct TranslationView {
    pub key: Seq<char>,
    pub with: Seq<ChatView>,
}

/// The mathematical value of a [`ScoreComponent`].
pub struct ScoreView {
    pub name: Seq<char>,
    pub objective: Seq<char>,
    pub value: Option<Seq<char>>,
}

/// The mathematical value of a [`SelectorComponent`].
pub struct SelectorView {
    pub selector: Seq<char>,
    pub sep: Option<Box<ChatView>>,
}

/// The view of a component.
pub open spec fn chat_view(chat: Chat) -> ChatView
    decreases chat,
{
    ChatView {
        kind: kind_view(chat.kind),
        style: style_view(chat.style),
        children: chats_view(chat.children@),
    }
}

/// The views of a run of components, element by element.
pub open spec fn chats_view(chats: Seq<Chat>) -> Seq<ChatView>
    decreases chats,
{
    Seq::new(
        chats.len(),
        |i: int|
            if 0 <= i < chats.len() {
                chat_view(chats[i])
            } else {
                ChatView::text(Seq::empty())
            },
    )
}

/// The view of an optional component.
pub open spec fn boxed_chat_view(chat: Option<Box<Chat>>) -> Option<Box<ChatView>>
    decreases chat,
{
    match chat {
        Some(chat) => Some(Box::new(chat_view(*chat))),
        None => None,
    }
}

/// The view of a kind.
pub open spec fn kind_view(kind: ComponentKind) -> KindView
    decreases kind,
{
    match kind {
        ComponentKind::Text(text) => KindView::Text(text.text@),
        ComponentKind::Translation(translation) => KindView::Translation(
            TranslationView { key: translation.key@, with: chats_view(translation.with@) },
        ),
        ComponentKind::Score(score) => KindView::Score(score@),
        ComponentKind::Selector(selector) => KindView::Selector(
            SelectorView { selector: selector.selector@, sep: boxed_chat_view(selector.sep) },
        ),
        ComponentKind::Keybind(keybind) => KindView::Keybind(keybind.keybind@),
    }
}

impl View for Chat {
    type V = ChatView;

    open spec fn view(&self) -> ChatView {
        chat_view(*self)
    }
}

impl View for ComponentKind {
    type V = KindView;

    open spec fn view(&self) -> KindView {
        kind_view(*self)
    }
}

impl View for TextComponent {
    type V = Seq<char>;

    open spec fn view(&self) -> Seq<char> {
        self.text@
    }
}

impl View for TranslationComponent {
    type V = TranslationView;

    open spec fn view(&self) -> TranslationView {
        TranslationView { key: self.key@, with: chats_view(self.with@) }
    }
}

impl View for ScoreComponent {
    type V = ScoreView;

    open spec fn view(&self) -> ScoreView {
        ScoreView { name: self.name@, objective: self.objective@, value: text_view(self.value) }
    }
}

impl View for SelectorComponent {
    type V = SelectorView;

    open spec fn view(&self) -> SelectorView {
        SelectorView { selector: self.selector@, sep: boxed_chat_view(self.sep) }
    }
}

impl View for KeybindComponent {
    type V = Seq<char>;

    open spec fn view(&self) -> Seq<char> {
        self.keybind@
    }
}

impl ChatView {
    /// The component of `kind` with no style and no children.
    pub open spec fn of(kind: KindView) -> ChatView {
        ChatView { kind, style: StyleView::empty(), children: Seq::empty() }
    }

    /// The component of literal `text` with no style and no children.
    pub open spec fn text(text: Seq<char>) -> ChatView {
        ChatView::of(KindView::Text(text))
    }

    /// Every color anywhere in the component is well-formed.
    pub open spec fn wf(self) -> bool
        decreases self,
    {
        &&& self.kind.wf()
        &&& self.style.wf()
        &&& forall|i: int| 0 <= i < self.children.len() ==> (#[trigger] self.children[i]).wf()
    }
}

impl KindView {
    /// Every color in the components that the kind holds is well-formed.
    pub open spec fn wf(self) -> bool
        decreases self,
    {
        match self {
            KindView::Translation(translation) => forall|i: int|
                0 <= i < translation.with.len() ==> (#[trigger] translation.with[i]).wf(),
            KindView::Selector(selector) => selector.sep matches Some(sep) ==> sep.wf(),
            _ => true,
        }
    }
}

impl From<TextComponent> for ComponentKind {
    fn from(value: TextComponent) -> (kind: ComponentKind) {
        ComponentKind::Text(value)
    }
}

impl vstd::std_specs::convert::FromSpecImpl<TextComponent> for ComponentKind {
    open spec fn obeys_from_spec() -> bool {
        true
    }

    open spec fn from_spec(value: TextComponent) -> ComponentKind {
        ComponentKind::Text(value)
    }
}

impl From<TranslationComponent> for ComponentKind {
    fn from(value: TranslationComponent) -> (kind: ComponentKind) {
        ComponentKind::Translation(value)
    }
}

impl vstd::std_specs::convert::FromSpecImpl<TranslationComponent> for ComponentKind {
    open spec fn obeys_from_spec() -> bool {
        true
    }

    open spec fn from_spec(value: TranslationComponent) -> ComponentKind {
        ComponentKind::Translation(value)
    }
}

impl From<ScoreComponent> for ComponentKind {
    fn from(value: ScoreComponent) -> (kind: ComponentKind) {
        ComponentKind::Score(value)
    }
}

impl vstd::std_specs::convert::FromSpecImpl<ScoreComponent> for ComponentKind {
    open spec fn obeys_from_spec() -> bool {
        true
    }

    open spec fn from_spec(value: ScoreComponent) -> ComponentKind {
        ComponentKind::Score(value)
    }
}

impl From<SelectorComponent> for ComponentKind {
    fn from(value: SelectorComponent) -> (kind: ComponentKind) {
        ComponentKind::Selector(value)
    }
}

impl vstd::std_specs::convert::FromSpecImpl<SelectorComponent> for ComponentKind {
    open spec fn obeys_from_spec() -> bool {
        true
    }

    open spec fn from_spec(value: SelectorComponent) -> ComponentKind {
        ComponentKind::Selector(value)
    }
}

impl From<KeybindComponent> for ComponentKind {
    fn from(value: KeybindComponent) -> (kind: ComponentKind) {
        ComponentKind::Keybind(value)
    }
}

impl vstd::std_specs::convert::FromSpecImpl<KeybindComponent> for ComponentKind {
    open spec fn obeys_from_spec() -> bool {
        true
    }

    open spec fn from_spec(value: KeybindComponent) -> ComponentKind {
        ComponentKind::Keybind(value)
    }
}

/// A copy of a run of components.
fn clone_all(chats: &Vec<Chat>) -> (copies: Vec<Chat>)
    ensures
        chats_view(copies@) == chats_view(chats@),
    decreases chats,
{
    let mut copies: Vec<Chat> = Vec::new();
    let mut i: usize = 0;
    while i < chats.len()
        invariant
            i <= chats.len(),
            copies.len() == i,
            forall|j: int| 0 <= j < i ==> (#[trigger] copies[j])@ == chats[j]@,
        decreases chats.len() - i,
    {
        copies.push(chats[i].clone());
        i += 1;
    }
    assert(chats_view(copies@) =~= chats_view(chats@));
    copies
}

/// A copy of an optional component.
fn clone_boxed(chat: &Option<Box<Chat>>) -> (copy: Option<Box<Chat>>)
    ensures
        boxed_chat_view(copy) == boxed_chat_view(*chat),
    decreases chat,
{
    match chat {
        Some(chat) => Some(Box::new((**chat).clone())),
        None => None,
    }
}

/// A copy of an optional string.
pub(crate) fn clone_text(text: &Option<FrozenStr>) -> (copy: Option<FrozenStr>)
    ensures
        text_view(copy) == text_view(*text),
{
    match text {
        Some(text) => Some(text.clone()),
        None => None,
    }
}

impl Clone for Chat {
    fn clone(&self) -> (copy: Self)
        ensures
            copy@ == self@,
        decreases self,
    {
        Chat {
            kind: self.kind.clone(),
            style: self.style.clone(),
            children: clone_all(&self.children),
        }
    }
}

impl Clone for ComponentKind {
    fn clone(&self) -> (copy: Self)
        ensures
            copy@ == self@,
        decreases self,
    {
        match self {
            ComponentKind::Text(text) => ComponentKind::Text(text.clone()),
            ComponentKind::Translation(translation) => ComponentKind::Translation(
                translation.clone(),
            ),
            ComponentKind::Score(score) => ComponentKind::Score(score.clone()),
            ComponentKind::Selector(selector) => ComponentKind::Selector(selector.clone()),
            ComponentKind::Keybind(keybind) => ComponentKind::Keybind(keybind.clone()),
        }
    }
}

impl Clone for TextComponent {
    fn clone(&self) -> (copy: Self)
        ensures
            copy@ == self@,
    {
        TextComponent { text: self.text.clone() }
    }
}

impl Clone for TranslationComponent {
    fn clone(&self) -> (copy: Self)
        ensures
            copy@ == self@,
        decreases self,
    {
        TranslationComponent { key: self.key.clone(), with: clone_all(&self.with) }
    }
}

impl Clone for ScoreComponent {
    fn clone(&self) -> (copy: Self)
        ensures
            copy@ == self@,
    {
        ScoreComponent {
            name: self.name.clone(),
            objective: self.objective.clone(),
            value: clone_text(&self.value),
        }
    }
}

impl Clone for SelectorComponent {
    fn clone(&self) -> (copy: Self)
        ensures
            copy@ == self@,
        decreases self,
    {
        SelectorComponent { selector: self.selector.clone(), sep: clone_boxed(&self.sep) }
    }
}

impl Clone for KeybindComponent {
    fn clone(&self) -> (copy: Self)
        ensures
            copy@ == self@,
    {
        KeybindComponent { keybind: self.keybind.clone() }
    }
}

impl Chat {
    /// A component of the given kind, with no style and no children.
    pub fn component<C: Into<ComponentKind>>(kind: C) -> (chat: Chat)
        ensures
            C::obeys_into_spec() ==> chat@.kind == kind.into_spec()@,
            chat@.style == StyleView::empty(),
            chat@.children == Seq::<ChatView>::empty(),
    {
        let chat = Chat { kind: kind.into(), style: Style::new(), children: Vec::new() };
        assert(chat@.children =~= Seq::empty());
        chat
    }

    /// A component of literal text.
    pub fn text(text: &str) -> (chat: Chat)
        ensures
            chat@ == ChatView::text(text@),
    {
        let chat = Chat::component(TextComponent::new(text));
        assert(chat@ == ChatView::text(text@));
        chat
    }

    /// A component of a translation key, without arguments.
    pub fn key(key: &str) -> (chat: Chat)
        ensures
            chat@ == ChatView::of(
                KindView::Translation(TranslationView { key: key@, with: Seq::empty() }),
            ),
    {
        Chat::component(TranslationComponent::new(key))
    }

    /// A component of the score of `name` in `objective`.
    pub fn score(name: &str, objective: &str) -> (chat: Chat)
        ensures
            chat@ == ChatView::of(
                KindView::Score(ScoreView { name: name@, objective: objective@, value: None }),
            ),
    {
        Chat::component(ScoreComponent::new(name, objective))
    }

    /// A component of an entity selector, with a separator or without.
    pub fn selector(selector: &str, sep: Option<Chat>) -> (chat: Chat)
        ensures
            chat@ == ChatView::of(
                KindView::Selector(
                    SelectorView {
                        selector: selector@,
                        sep: match sep {
                            Some(sep) => Some(Box::new(sep@)),
                            None => None,
                        },
                    },
                ),
            ),
    {
        Chat::component(SelectorComponent::new(selector, sep))
    }

    /// A component of a key binding.
    pub fn keybind(keybind: &str) -> (chat: Chat)
        ensures
            chat@ == ChatView::of(KindView::Keybind(keybind@)),
    {
        Chat::component(KeybindComponent::new(keybind))
    }

    /// Adds a child after the children that are there.
    pub fn child(self, child: Chat) -> (chat: Chat)
        ensures
            chat@ == (ChatView { children: self@.children.push(child@), ..self@ }),
    {
        let mut chat = self;
        let ghost before = chat@;
        chat.children.push(child);
        assert(chat@.children =~= before.children.push(child@));
        chat
    }

    /// Sets the color.
    pub fn color(self, color: TextColor) -> (chat: Chat)
        ensures
            chat@ == (ChatView {
                style: StyleView { color: Some(color@), ..self@.style },
                ..self@
            }),
    {
        let mut chat = self;
        chat.style.color(Some(color));
        chat
    }

    /// Sets whether the text is bold.
    pub fn bold(self, bold: bool) -> (chat: Chat)
        ensures
            chat@ == (ChatView { style: StyleView { bold: Some(bold), ..self@.style }, ..self@ }),
    {
        let mut chat = self;
        chat.style.bold(bold);
        chat
    }

    /// Sets whether the text is italic.
    pub fn italic(self, italic: bool) -> (chat: Chat)
        ensures
            chat@ == (ChatView {
                style: StyleView { italic: Some(italic), ..self@.style },
                ..self@
            }),
    {
        let mut chat = self;
        chat.style.italic(italic);
        chat
    }

    /// Sets whether the text is underlined.
    pub fn underlined(self, underlined: bool) -> (chat: Chat)
        ensures
            chat@ == (ChatView {
                style: StyleView { underlined: Some(underlined), ..self@.style },
                ..self@
            }),
    {
        let mut chat = self;
        chat.style.underlined(underlined);
        chat
    }

    /// Sets whether the text is struck through.
    pub fn strikethrough(self, strikethrough: bool) -> (chat: Chat)
        ensures
            chat@ == (ChatView {
                style: StyleView { strikethrough: Some(strikethrough), ..self@.style },
                ..self@
            }),
    {
        let mut chat = self;
        chat.style.strikethrough(strikethrough);
        chat
    }

    /// Sets whether the text is obfuscated.
    pub fn obfuscated(self, obfuscated: bool) -> (chat: Chat)
        ensures
            chat@ == (ChatView {
                style: StyleView { obfuscated: Some(obfuscated), ..self@.style },
                ..self@
            }),
    {
        let mut chat = self;
        chat.style.obfuscated(obfuscated);
        chat
    }

    /// Sets the font, or takes it away.
    pub fn font(self, font: Option<&str>) -> (chat: Chat)
        ensures
            chat@ == (ChatView {
                style: StyleView { font: str_view(font), ..self@.style },
                ..self@
            }),
    {
        let mut chat = self;
        chat.style.font(font);
        chat
    }

    /// Sets the insertion, or takes it away.
    pub fn insertion(self, insertion: Option<&str>) -> (chat: Chat)
        ensures
            chat@ == (ChatView {
                style: StyleView { insertion: str_view(insertion), ..self@.style },
                ..self@
            }),
    {
        let mut chat = self;
        chat.style.insertion(insertion);
        chat
    }

    /// Sets the click event, or takes it away.
    pub fn click(self, click_event: Option<ClickEvent>) -> (chat: Chat)
        ensures
            chat@ == (ChatView {
                style: StyleView {
                    click_event: crate::style::click_view(click_event),
                    ..self@.style
                },
                ..self@
            }),
    {
        let mut chat = self;
        chat.style.click(click_event);
        chat
    }

    /// Sets the hover event, or takes it away.
    pub fn hover(self, hover_event: Option<HoverEvent>) -> (chat: Chat)
        ensures
            chat@ == (ChatView {
                style: StyleView {
                    hover_event: crate::style::hover_option_view(hover_event),
                    ..self@.style
                },
                ..self@
            }),
    {
        let mut chat = self;
        chat.style.hover(hover_event);
        chat
    }
}

/// The view of an optional string slice.
pub open spec fn str_view(text: Option<&str>) -> Option<Seq<char>> {
    match text {
        Some(text) => Some(text@),
        None => None,
    }
}

impl TextComponent {
    /// Literal text.
    pub fn new(text: &str) -> (made: Self)
        ensures
            made@ == text@,
    {
        TextComponent { text: FrozenStr::new(text) }
    }

    /// Replaces the text.
    pub fn text(self, text: &str) -> (made: Self)
        ensures
            made@ == text@,
    {
        let mut made = self;
        made.text = FrozenStr::new(text);
        made
    }
}

impl TranslationComponent {
    /// A translation key without arguments.
    pub fn new(key: &str) -> (made: Self)
        ensures
            made@ == (TranslationView { key: key@, with: Seq::empty() }),
    {
        let made = TranslationComponent { key: FrozenStr::new(key), with: Vec::new() };
        assert(made@.with =~= Seq::empty());
        made
    }

    /// Replaces the key.
    pub fn key(self, key: &str) -> (made: Self)
        ensures
            made@ == (TranslationView { key: key@, with: self@.with }),
    {
        let mut made = self;
        made.key = FrozenStr::new(key);
        made
    }

    /// Adds an argument after the arguments that are there.
    pub fn argument(self, component: Chat) -> (made: Self)
        ensures
            made@ == (TranslationView { key: self@.key, with: self@.with.push(component@) }),
    {
        let mut made = self;
        let ghost before = made@;
        made.with.push(component);
        assert(made@.with =~= before.with.push(component@));
        made
    }
}

impl ScoreComponent {
    /// The score of `name` in `objective`, without a value.
    pub fn new(name: &str, objective: &str) -> (made: Self)
        ensures
            made@ == (ScoreView { name: name@, objective: objective@, value: None }),
    {
        ScoreComponent {
            name: FrozenStr::new(name),
            objective: FrozenStr::new(objective),
            value: None,
        }
    }

    /// Replaces the name of the holder.
    pub fn name(self, name: &str) -> (made: Self)
        ensures
            made@ == (ScoreView { name: name@, ..self@ }),
    {
        let mut made = self;
        made.name = FrozenStr::new(name);
        made
    }

    /// Replaces the objective.
    pub fn objective(self, objective: &str) -> (made: Self)
        ensures
            made@ == (ScoreView { objective: objective@, ..self@ }),
    {
        let mut made = self;
        made.objective = FrozenStr::new(objective);
        made
    }

    /// Sets the value, or takes it away.
    pub fn value(self, value: Option<&str>) -> (made: Self)
        ensures
            made@ == (ScoreView { value: str_view(value), ..self@ }),
    {
        let mut made = self;
        made.value = match value {
            Some(value) => Some(FrozenStr::new(value)),
            None => None,
        };
        made
    }
}

impl SelectorComponent {
    /// An entity selector, with a separator or without.
    pub fn new(selector: &str, sep: Option<Chat>) -> (made: Self)
        ensures
            made@ == (SelectorView {
                selector: selector@,
                sep: match sep {
                    Some(sep) => Some(Box::new(sep@)),
                    None => None,
                },
            }),
    {
        SelectorComponent {
            selector: FrozenStr::new(selector),
            sep: match sep {
                Some(sep) => Some(Box::new(sep)),
                None => None,
            },
        }
    }

    /// Replaces the selector.
    pub fn selector(self, selector: &str) -> (made: Self)
        ensures
            made@ == (SelectorView { selector: selector@, sep: self@.sep }),
    {
        let mut made = self;
        made.selector = FrozenStr::new(selector);
        made
    }

    /// Sets the separator.
    pub fn sep(self, sep: Chat) -> (made: Self)
        ensures
            made@ == (SelectorView { selector: self@.selector, sep: Some(Box::new(sep@)) }),
    {
        let mut made = self;
        made.sep = Some(Box::new(sep));
        made
    }
}

impl KeybindComponent {
    /// A key binding.
    pub fn new(keybind: &str) -> (made: Self)
        ensures
            made@ == keybind@,
    {
        KeybindComponent { keybind: FrozenStr::new(keybind) }
    }

    /// Replaces the key binding.
    pub fn keybind(self, keybind: &str) -> (made: Self)
        ensures
            made@ == keybind@,
    {
        let mut made = self;
        made.keybind = FrozenStr::new(keybind);
        made
    }
}

} // verus!
