use mc_chat::{
    Chat, ClickEvent, ComponentKind, EntityTooltip, FrozenStr, HoverEvent, ItemStack,
    KeybindComponent, ScoreComponent, SelectorComponent, Style, TextColor, TextComponent,
    TranslationComponent, Uuid,
};

#[test]
fn frozen_strings_hold_their_text() {
    let frozen = FrozenStr::new("Hello world");
    assert_eq!("Hello world", frozen.as_str());
    assert_eq!("Hello world".to_owned(), frozen.to_string());
    assert_eq!(frozen, FrozenStr::from_string(String::from("Hello world")));
    assert_eq!(frozen, frozen.clone());
    assert_ne!(frozen, FrozenStr::new("Hello"));
}

#[test]
fn component_builders_set_their_fields() {
    assert_eq!("b", TextComponent::new("a").text("b").text.as_str());
    let translation = TranslationComponent::new("k").key("l").argument(Chat::text("x"));
    assert_eq!("l", translation.key.as_str());
    assert_eq!(vec![Chat::text("x")], translation.with);
    let score = ScoreComponent::new("n", "o").name("m").objective("p").value(Some("v"));
    assert_eq!(("m", "p"), (score.name.as_str(), score.objective.as_str()));
    assert_eq!(Some(FrozenStr::new("v")), score.value);
    assert_eq!(None, score.value(None).value);
    let selector = SelectorComponent::new("@a", None).selector("@p").sep(Chat::text(","));
    assert_eq!("@p", selector.selector.as_str());
    assert_eq!(Some(Box::new(Chat::text(","))), selector.sep);
    assert_eq!("j", KeybindComponent::new("k").keybind("j").keybind.as_str());
}

#[test]
fn chat_constructors_make_the_kind() {
    assert_eq!(ComponentKind::Text(TextComponent::new("a")), Chat::text("a").kind);
    assert_eq!(ComponentKind::Translation(TranslationComponent::new("a")), Chat::key("a").kind);
    assert_eq!(ComponentKind::Score(ScoreComponent::new("a", "b")), Chat::score("a", "b").kind);
    assert_eq!(
        ComponentKind::Selector(SelectorComponent::new("a", Some(Chat::text("s")))),
        Chat::selector("a", Some(Chat::text("s"))).kind
    );
    assert_eq!(ComponentKind::Keybind(KeybindComponent::new("a")), Chat::keybind("a").kind);
    let made = Chat::component(KeybindComponent::new("a"));
    assert_eq!(Style::new(), made.style);
    assert!(made.children.is_empty());
    assert_eq!(ComponentKind::from(TextComponent::new("t")), Chat::text("t").kind);
}

#[test]
fn style_setters_set_one_field_each() {
    let mut style = Style::new();
    assert_eq!(Style::default(), style);
    style.bold(true);
    assert_eq!(Some(true), style.bold);
    style.bold(false).italic(true).underlined(true).strikethrough(false).obfuscated(true);
    assert_eq!(
        (Some(false), Some(true), Some(true), Some(false), Some(true)),
        (style.bold, style.italic, style.underlined, style.strikethrough, style.obfuscated)
    );
    style.color(Some(TextColor::Green));
    assert_eq!(Some(TextColor::Green), style.color);
    style.color(None);
    assert_eq!(None, style.color);
    style.font(Some("f")).insertion(Some("i"));
    assert_eq!(Some(FrozenStr::new("f")), style.font);
    assert_eq!(Some(FrozenStr::new("i")), style.insertion);
    style.font(None).insertion(None);
    assert_eq!((None, None), (style.font.clone(), style.insertion.clone()));
    style.click(Some(ClickEvent::page(1))).hover(Some(HoverEvent::ShowItem(ItemStack::new(
        "a", None, None,
    ))));
    assert_eq!(Some(ClickEvent::ChangePage(1)), style.click_event);
    assert!(style.hover_event.is_some());
    style.click(None).hover(None);
    assert_eq!(
        Style { bold: Some(false), italic: Some(true), underlined: Some(true),
            strikethrough: Some(false), obfuscated: Some(true), ..Style::new() },
        style
    );
}

#[test]
fn chat_setters_change_the_style_only() {
    let chat = Chat::text("a")
        .child(Chat::text("b"))
        .color(TextColor::Blue)
        .bold(true)
        .italic(false)
        .underlined(true)
        .strikethrough(false)
        .obfuscated(true)
        .font(Some("f"))
        .insertion(Some("i"))
        .click(Some(ClickEvent::command("/c")))
        .hover(Some(HoverEvent::ShowText(Box::new(Chat::text("h")))));
    let mut style = Style::new();
    style
        .color(Some(TextColor::Blue))
        .bold(true)
        .italic(false)
        .underlined(true)
        .strikethrough(false)
        .obfuscated(true)
        .font(Some("f"))
        .insertion(Some("i"))
        .click(Some(ClickEvent::command("/c")))
        .hover(Some(HoverEvent::ShowText(Box::new(Chat::text("h")))));
    assert_eq!(style, chat.style);
    assert_eq!(ComponentKind::Text(TextComponent::new("a")), chat.kind);
    assert_eq!(vec![Chat::text("b")], chat.children);
    let cleared = chat.font(None).insertion(None).click(None).hover(None);
    assert_eq!((None, None), (cleared.style.font.clone(), cleared.style.insertion.clone()));
    assert_eq!((None, None), (cleared.style.click_event.clone(), cleared.style.hover_event.clone()));
}

#[test]
fn event_constructors_make_the_variant() {
    assert_eq!(ClickEvent::OpenUrl(FrozenStr::new("a")), ClickEvent::url("a"));
    assert_eq!(ClickEvent::RunCommand(FrozenStr::new("a")), ClickEvent::command("a"));
    assert_eq!(ClickEvent::SuggestCommand(FrozenStr::new("a")), ClickEvent::suggest("a"));
    assert_eq!(ClickEvent::ChangePage(7), ClickEvent::page(7));
    assert_eq!(ClickEvent::CopyToClipBoard(FrozenStr::new("a")), ClickEvent::clipboard("a"));
    let item = ItemStack::new("id", Some(3), Some("t"));
    assert_eq!(("id", Some(3)), (item.id.as_str(), item.count));
    assert_eq!(Some(FrozenStr::new("t")), item.tag);
    let entity = EntityTooltip::new(Some(Chat::text("n")), Some("k"), Some(Uuid::from_u128(5)));
    assert_eq!(Some(Box::new(Chat::text("n"))), entity.name);
    assert_eq!(Some(FrozenStr::new("k")), entity.kind);
    assert_eq!(Some(Uuid { bits: 5 }), entity.id);
    assert_eq!(TextColor::Custom(FrozenStr::new("#ffffff")), TextColor::custom("#ffffff"));
}
