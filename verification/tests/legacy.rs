use mc_chat::legacy::{chat, map_to_tree, ChatPart, ExpandedChatPart, LegacyChat, LegacyError};
use mc_chat::{Chat, TextColor};

fn literal(text: &str) -> ChatPart {
    ChatPart::Literal(text.to_owned())
}

fn text_of(pattern: &str, parts: Vec<ChatPart>) -> LegacyChat {
    LegacyChat { pattern: pattern.to_owned(), chat_parts: parts }
}

fn tree_of(pattern: &str, text: &str) -> ExpandedChatPart {
    map_to_tree(text_of(pattern, vec![literal(text)])).unwrap()
}

#[test]
fn parsing_plain_text() {
    let text = text_of("§", vec![literal("Hello world!")]);
    assert_eq!("§", &text.pattern);
    assert_eq!(1, text.chat_parts.len());

    let tree = map_to_tree(text).unwrap();
    assert_eq!(0, tree.children.len());
    assert!(tree.color.is_none() && tree.extra_style.is_empty());
}

#[test]
fn complex_text() {
    let text = text_of(
        "§&",
        vec![
            literal("§&4Hello to §&b§&5world"),
            ChatPart::Variable("variable".to_owned()),
            literal("§&r§&4!!"),
        ],
    );
    assert_eq!("§&", &text.pattern);
    assert_eq!(3, text.chat_parts.len());
    assert!(map_to_tree(text).is_ok());
}

#[test]
fn one_color() {
    let tree = tree_of("§", "§4Hello world!");
    assert_eq!(0, tree.children.len());
    assert!(tree.color.is_some());
}

#[test]
fn two_colors() {
    let tree = tree_of("§", "§4Hello §5world!");
    assert_eq!(2, tree.children.len());
    assert!(tree.children[0].color.is_some() && tree.children[0].extra_style.is_empty());
    assert!(tree.children[1].color.is_some() && tree.children[1].extra_style.is_empty());
}

#[test]
fn two_colors_middle() {
    let tree = tree_of("§", "Testing §4Hello §5world!");
    assert_eq!(3, tree.children.len());
    assert!(tree.children[0].color.is_none() && tree.children[0].extra_style.is_empty());
    assert!(tree.children[1].color.is_some() && tree.children[1].extra_style.is_empty());
    assert!(tree.children[2].color.is_some() && tree.children[2].extra_style.is_empty());
}

#[test]
fn single_bold() {
    let tree = tree_of("§", "§lTesting");
    assert_eq!(0, tree.children.len());
    assert_eq!(1, tree.extra_style.len());
    assert!(tree.color.is_none());
}

#[test]
fn bold_then_color() {
    let tree = tree_of("§", "§lTesting §4sequence");
    assert_eq!(1, tree.children.len());
    assert_eq!(1, tree.extra_style.len());
    assert!(tree.color.is_none());
    assert_eq!(0, tree.children[0].children.len());
    assert!(tree.children[0].extra_style.is_empty());
    assert!(tree.children[0].color.is_some());
}

#[test]
fn color_bold_color() {
    let tree = tree_of("§", "§2Color §ltesting §4sequence");
    assert_eq!(1, tree.children.len());
    assert!(tree.extra_style.is_empty());
    assert!(tree.color.is_some());
    assert_eq!(1, tree.children[0].children.len());
    assert_eq!(1, tree.children[0].extra_style.len());
    assert!(tree.children[0].color.is_none());
    assert_eq!(0, tree.children[0].children[0].children.len());
    assert!(tree.children[0].children[0].extra_style.is_empty());
    assert!(tree.children[0].children[0].color.is_some());
}

#[test]
fn parsing_mixed() {
    let tree = tree_of("§", "§2§3§4§l§kTesting §l§l§2overly §7much");
    assert_eq!(1, tree.children.len());
    assert_eq!(2, tree.children[0].children.len());
}

#[test]
fn end() {
    let tree = tree_of("§", "Test end §6§l§6§k");
    assert_eq!(0, tree.children.len());
    assert!(tree.color.is_none());
    assert!(tree.extra_style.is_empty());
}

#[test]
fn reset() {
    let tree = tree_of("§", "§lTest §r§2reset");
    assert_eq!(2, tree.children.len());
    assert!(tree.children[0].color.is_none());
    assert!(tree.children[1].extra_style.is_empty());
}

#[test]
fn plaintext() {
    let orig_chat = Chat::text("Hello world!!");
    let chat = chat("§", vec![literal("Hello world!!")]).unwrap();
    assert_eq!(orig_chat, chat);
}

#[test]
fn single_color() {
    let orig_chat = Chat::text("Hello world!!").color(TextColor::Gold);
    let chat = chat("§", vec![literal("§6Hello world!!")]).unwrap();
    assert_eq!(orig_chat, chat);
}

#[test]
fn macros_mixed() {
    let orig_chat = Chat::text("Testing ")
        .color(TextColor::DarkRed)
        .bold(true)
        .obfuscated(true)
        .child(
            Chat::text("")
                .bold(true)
                .child(Chat::text("overly ").color(TextColor::DarkGreen))
                .child(Chat::text("much").color(TextColor::Gray)),
        );
    let chat = chat("§", vec![literal("§2§3§4§l§kTesting §l§l§2overly §7much")]).unwrap();
    assert_eq!(orig_chat, chat);
}

#[test]
fn variable_sub() {
    let variable = String::from("My Variableee");
    let orig_chat = Chat::text("Var: ").color(TextColor::Blue).child(
        Chat::text(&variable)
            .color(TextColor::Purple)
            .underlined(true)
            .child(Chat::text("!!").color(TextColor::Yellow)),
    );
    let chat = chat(
        "§",
        vec![literal("§9Var: §5§n"), ChatPart::Variable(variable.clone()), literal("§e!!")],
    )
    .unwrap();
    assert_eq!(orig_chat, chat);
}

#[test]
fn custom_delimiter() {
    let orig_chat = Chat::text("")
        .child(Chat::text("Hello §").color(TextColor::Black))
        .child(Chat::text("world!!").color(TextColor::White));
    let chat = chat("§@", vec![literal("§@0Hello §§@fworld!!")]).unwrap();
    assert_eq!(orig_chat, chat);
}

#[test]
fn legacy_rejects_a_bare_delimiter() {
    assert_eq!(Err(LegacyError::InvalidEscape), chat("§", vec![literal("Hello §")]));
    assert_eq!(Err(LegacyError::InvalidEscape), chat("§", vec![literal("§§4Hello")]));
}

#[test]
fn legacy_rejects_an_unknown_code() {
    assert_eq!(Err(LegacyError::InvalidEscape), chat("§", vec![literal("§zHello")]));
}

#[test]
fn legacy_empty_delimiter_refuses_literals_only() {
    assert_eq!(Err(LegacyError::InvalidEscape), chat("", vec![literal("Hello")]));
    assert_eq!(Err(LegacyError::InvalidEscape), chat("", vec![literal("")]));
    assert_eq!(
        Err(LegacyError::InvalidEscape),
        chat("", vec![ChatPart::Variable("a".to_owned()), literal("b")])
    );
    assert_eq!(Ok(Chat::text("a")), chat("", vec![ChatPart::Variable("a".to_owned())]));
    assert_eq!(
        Ok(Chat::text("a").child(Chat::text("b"))),
        chat("", vec![ChatPart::Variable("a".to_owned()), ChatPart::Variable("b".to_owned())])
    );
    assert_eq!(Ok(Chat::text("")), chat("", vec![]));
    assert_eq!(Ok(Chat::text("")), chat("§", vec![]));
}

#[test]
fn legacy_delimiter_matches_are_taken_from_the_right() {
    // "aaa" cut by "aa" from the right leaves "a" before the match, which is
    // plain text, and nothing behind it, which is an escape without a code.
    assert_eq!(Err(LegacyError::InvalidEscape), chat("aa", vec![literal("aaa")]));
    // "aa4x" holds one match, at the start.
    let made = chat("aa", vec![literal("aa4x")]).unwrap();
    assert_eq!(Chat::text("x").color(TextColor::DarkRed), made);
}
