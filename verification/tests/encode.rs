use mc_chat::{
    Chat, ClickEvent, EncodeError, EntityTooltip, HoverEvent, ItemStack, Style, TextColor,
    TranslationComponent, Uuid, VersionPolicy, Wire, VERSION_1_15, VERSION_1_16, VERSION_1_7,
    VERSION_1_8,
};

fn member(key: &str, value: Wire) -> (String, Wire) {
    (key.to_owned(), value)
}

fn text(value: &str) -> Wire {
    Wire::Str(value.to_owned())
}

#[test]
fn version_constants_are_the_protocol_numbers() {
    assert_eq!(4, VERSION_1_7);
    assert_eq!(47, VERSION_1_8);
    assert_eq!(573, VERSION_1_15);
    assert_eq!(735, VERSION_1_16);
}

#[test]
fn version_policy_switches_at_each_threshold() {
    let all_off = VersionPolicy {
        insertion: false,
        custom_color: false,
        font: false,
        clipboard_click: false,
        structured_hover: false,
    };
    assert_eq!(all_off, VersionPolicy::of(4));
    assert_eq!(VersionPolicy { insertion: true, ..all_off }, VersionPolicy::of(5));
    assert_eq!(VersionPolicy { insertion: true, ..all_off }, VersionPolicy::of(557));
    assert_eq!(
        VersionPolicy { insertion: true, clipboard_click: true, ..all_off },
        VersionPolicy::of(558)
    );
    assert_eq!(
        VersionPolicy { insertion: true, clipboard_click: true, ..all_off },
        VersionPolicy::of(712)
    );
    let before_hover = VersionPolicy {
        insertion: true,
        custom_color: true,
        font: true,
        clipboard_click: true,
        structured_hover: false,
    };
    assert_eq!(before_hover, VersionPolicy::of(713));
    assert_eq!(before_hover, VersionPolicy::of(734));
    assert_eq!(VersionPolicy { structured_hover: true, ..before_hover }, VersionPolicy::of(735));
    assert_eq!(all_off, VersionPolicy::of(-1));
    assert_eq!(all_off, VersionPolicy::of(i32::MIN));
    assert_eq!(VersionPolicy { structured_hover: true, ..before_hover }, VersionPolicy::of(i32::MAX));
}

#[test]
fn text_encodes_to_a_single_member() {
    let wire = Chat::text("Sample text").encode(47).unwrap();
    assert_eq!(Wire::Object(vec![member("text", text("Sample text"))]), wire);
}

#[test]
fn style_at_version_4_keeps_bold_and_drops_font_and_insertion() {
    let mut style = Style::new();
    style.bold(true).font(Some("x")).insertion(Some("y"));

    let low = style.encode(4).unwrap();
    assert_eq!(Wire::Object(vec![member("bold", Wire::Bool(true))]), low);
    assert_eq!(r#"{"bold":true}"#, low.to_json_string().unwrap());

    let with_insertion = style.encode(5).unwrap();
    assert_eq!(r#"{"bold":true,"insertion":"y"}"#, with_insertion.to_json_string().unwrap());
    assert!(style.encode(712).unwrap().get("font").is_none());

    let with_font = style.encode(713).unwrap();
    assert_eq!(
        r#"{"bold":true,"insertion":"y","font":"x"}"#,
        with_font.to_json_string().unwrap()
    );
}

#[test]
fn style_members_come_in_a_fixed_order() {
    let mut style = Style::new();
    style
        .hover(Some(HoverEvent::ShowText(Box::new(Chat::text("h")))))
        .click(Some(ClickEvent::page(3)))
        .font(Some("f"))
        .insertion(Some("i"))
        .color(Some(TextColor::Pink))
        .obfuscated(false)
        .strikethrough(true)
        .underlined(false)
        .italic(true)
        .bold(false);
    assert_eq!(
        r#"{"bold":false,"italic":true,"underlined":false,"strikethrough":true,"obfuscated":false,"color":"light_purple","insertion":"i","font":"f","clickEvent":{"action":"change_page","value":3},"hoverEvent":{"action":"show_text","contents":{"text":"h"}}}"#,
        style.encode(VERSION_1_16).unwrap().to_json_string().unwrap()
    );
}

#[test]
fn custom_color_is_written_from_713_on_and_named_colors_always() {
    let custom = Chat::text("a").color(TextColor::custom("#aa11bb"));
    assert_eq!(r#"{"text":"a"}"#, custom.serialize_str(712).unwrap());
    assert_eq!(r##"{"text":"a","color":"#aa11bb"}"##, custom.serialize_str(713).unwrap());

    let named = Chat::text("a").color(TextColor::DarkCyan);
    assert_eq!(r#"{"text":"a","color":"dark_aqua"}"#, named.serialize_str(i32::MIN).unwrap());
    let reset = Chat::text("a").color(TextColor::Reset);
    assert_eq!(r#"{"text":"a","color":"reset"}"#, reset.serialize_str(4).unwrap());
}

#[test]
fn clipboard_click_is_written_from_558_on() {
    let chat = Chat::text("a").click(Some(ClickEvent::clipboard("c")));
    assert_eq!(r#"{"text":"a"}"#, chat.serialize_str(557).unwrap());
    assert_eq!(
        r#"{"text":"a","clickEvent":{"action":"copy_to_clipboard","value":"c"}}"#,
        chat.serialize_str(558).unwrap()
    );
    let url = Chat::text("a").click(Some(ClickEvent::url("u")));
    assert_eq!(
        r#"{"text":"a","clickEvent":{"action":"open_url","value":"u"}}"#,
        url.serialize_str(4).unwrap()
    );
}

#[test]
fn click_events_have_their_action_tokens() {
    let cases = vec![
        (ClickEvent::url("x"), r#"{"action":"open_url","value":"x"}"#),
        (ClickEvent::command("x"), r#"{"action":"run_command","value":"x"}"#),
        (ClickEvent::suggest("x"), r#"{"action":"suggest_command","value":"x"}"#),
        (ClickEvent::page(4294967295), r#"{"action":"change_page","value":4294967295}"#),
        (ClickEvent::clipboard("x"), r#"{"action":"copy_to_clipboard","value":"x"}"#),
    ];
    for (event, expected) in cases {
        assert_eq!(expected, event.encode().to_json_string().unwrap());
    }
}

#[test]
fn kinds_encode_as_documented() {
    assert_eq!(
        r#"{"text":"Chat component"}"#,
        Chat::text("Chat component").serialize_str(47).unwrap()
    );
    assert_eq!(
        r#"{"translate":"item.bow.name"}"#,
        Chat::key("item.bow.name").serialize_str(47).unwrap()
    );
    assert_eq!(
        r#"{"score":{"name":"*","objective":"stars_gained"}}"#,
        Chat::score("*", "stars_gained").serialize_str(47).unwrap()
    );
    assert_eq!(
        r#"{"selector":"@e[type=Zombie,limit=1]"}"#,
        Chat::selector("@e[type=Zombie,limit=1]", None).serialize_str(47).unwrap()
    );
    assert_eq!(
        r#"{"keybind":"key.inventory"}"#,
        Chat::keybind("key.inventory").serialize_str(47).unwrap()
    );
    assert_eq!(
        r#"{"selector":"@p","separator":{"text":", "}}"#,
        Chat::selector("@p", Some(Chat::text(", "))).serialize_str(47).unwrap()
    );
    assert_eq!(
        r#"{"translate":"k","with":[{"text":"a"},{"keybind":"b"}]}"#,
        Chat::component(
            TranslationComponent::new("k").argument(Chat::text("a")).argument(Chat::keybind("b"))
        )
        .serialize_str(47)
        .unwrap()
    );
}

#[test]
fn children_go_under_extra_in_order() {
    let chat = Chat::text("This is a bold and italic ")
        .bold(true)
        .italic(true)
        .child(Chat::text("text").color(TextColor::Green));
    assert_eq!(
        "{\"text\":\"This is a bold and italic \",\"bold\":true,\"italic\":true,\"extra\":[{\"text\":\"text\",\"color\":\"green\"}]}",
        chat.serialize_str(47).unwrap()
    );
    let two = Chat::text("a").child(Chat::text("b")).child(Chat::text("c"));
    assert_eq!(
        r#"{"text":"a","extra":[{"text":"b"},{"text":"c"}]}"#,
        two.serialize_str(47).unwrap()
    );
}

#[test]
fn font_is_written_for_1_16_only() {
    let chat = Chat::text("Sample text").font(Some("example_font"));
    assert_eq!(r#"{"text":"Sample text"}"#, chat.serialize_str(VERSION_1_8).unwrap());
    assert_eq!(r#"{"text":"Sample text"}"#, chat.serialize_str(VERSION_1_15).unwrap());
    assert_eq!(
        r#"{"text":"Sample text","font":"example_font"}"#,
        chat.serialize_str(VERSION_1_16).unwrap()
    );
}

#[test]
fn serialize_vec_gives_the_bytes_of_the_string() {
    let chat = Chat::text("Sample text").font(Some("example_font"));
    let old: Vec<u8> = vec![
        123, 34, 116, 101, 120, 116, 34, 58, 34, 83, 97, 109, 112, 108, 101, 32, 116, 101, 120,
        116, 34, 125,
    ];
    assert_eq!(old, chat.serialize_vec(VERSION_1_8).unwrap());
    let new: Vec<u8> = vec![
        123, 34, 116, 101, 120, 116, 34, 58, 34, 83, 97, 109, 112, 108, 101, 32, 116, 101, 120,
        116, 34, 44, 34, 102, 111, 110, 116, 34, 58, 34, 101, 120, 97, 109, 112, 108, 101, 95,
        102, 111, 110, 116, 34, 125,
    ];
    assert_eq!(new, chat.serialize_vec(VERSION_1_16).unwrap());
    let umlaut = Chat::text("ä");
    assert_eq!("{\"text\":\"ä\"}".as_bytes().to_vec(), umlaut.serialize_vec(47).unwrap());
}

#[test]
fn hover_form_switches_at_735() {
    let event = HoverEvent::ShowItem(ItemStack::new("diamond", Some(3), Some("{a:1}")));
    assert_eq!(
        r#"{"action":"show_item","value":"{\"id\":\"diamond\",\"Count\":3,\"tag\":\"{a:1}\"}"}"#,
        event.encode(734).unwrap().to_json_string().unwrap()
    );
    assert_eq!(
        r#"{"action":"show_item","contents":{"id":"diamond","Count":3,"tag":"{a:1}"}}"#,
        event.encode(735).unwrap().to_json_string().unwrap()
    );
}

#[test]
fn entity_identifier_is_written_with_hyphens_in_lowercase() {
    let id = Uuid::from_u128(0xF84C6A79_0A4E_45E0_879B_CD49EBD4C4E2);
    assert_eq!("f84c6a79-0a4e-45e0-879b-cd49ebd4c4e2", id.to_string());
    let event = HoverEvent::ShowEntity(EntityTooltip::new(None, None, Some(id)));
    assert_eq!(
        r#"{"action":"show_entity","contents":{"id":"f84c6a79-0a4e-45e0-879b-cd49ebd4c4e2"}}"#,
        event.encode(735).unwrap().to_json_string().unwrap()
    );
    assert_eq!(
        r#"{"action":"show_entity","value":"{\"id\":\"f84c6a79-0a4e-45e0-879b-cd49ebd4c4e2\"}"}"#,
        event.encode(47).unwrap().to_json_string().unwrap()
    );
    let nothing = HoverEvent::ShowEntity(EntityTooltip::new(None, None, None));
    assert_eq!(
        r#"{"action":"show_entity","contents":{}}"#,
        nothing.encode(735).unwrap().to_json_string().unwrap()
    );
    assert_eq!(
        r#"{"action":"show_entity","value":"{}"}"#,
        nothing.encode(47).unwrap().to_json_string().unwrap()
    );
}

#[test]
fn standard_chat_is_written_with_a_compact_entity() {
    let chat = Chat::component(
        TranslationComponent::new("chat.type.text")
            .argument(
                Chat::text("Herobrine")
                    .insertion(Some("Herobrine"))
                    .click(Some(ClickEvent::suggest("/msg Herobrine ")))
                    .hover(Some(HoverEvent::ShowEntity(EntityTooltip::new(
                        Some(Chat::text("Herobrine")),
                        Option::<&str>::None,
                        Some(Uuid::parse_str("f84c6a79-0a4e-45e0-879b-cd49ebd4c4e2").unwrap()),
                    )))),
            )
            .argument(Chat::text("I don't exist")),
    );
    let expected = r#"{"translate":"chat.type.text","with":[{"text":"Herobrine","insertion":"Herobrine","clickEvent":{"action":"suggest_command","value":"/msg Herobrine "},"hoverEvent":{"action":"show_entity","value":"{\"name\":{\"text\":\"Herobrine\"},\"id\":\"f84c6a79-0a4e-45e0-879b-cd49ebd4c4e2\"}"}},{"text":"I don't exist"}]}"#;
    let written = chat.serialize_str(VERSION_1_8).unwrap();
    assert_eq!(expected, written);
    assert_eq!(chat, Chat::deserialize_str(&written).unwrap());
}

#[test]
fn compact_numbers_take_the_narrowest_form() {
    assert_eq!("5", Wire::Int(5).to_compact_string().unwrap());
    assert_eq!("-2147483648", Wire::Int(-2147483648).to_compact_string().unwrap());
    assert_eq!("2147483647", Wire::Int(2147483647).to_compact_string().unwrap());
    assert_eq!("2147483648", Wire::Int(2147483648).to_compact_string().unwrap());
    assert_eq!("4294967295", Wire::Int(4294967295).to_compact_string().unwrap());
    assert_eq!("4294967296l", Wire::Int(4294967296).to_compact_string().unwrap());
    assert_eq!("-2147483649l", Wire::Int(-2147483649).to_compact_string().unwrap());
    assert_eq!("4294967296", Wire::Int(4294967296).to_json_string().unwrap());
    assert_eq!("-9223372036854775808", Wire::Int(i64::MIN).to_json_string().unwrap());
}

#[test]
fn wire_values_are_written_as_documents() {
    let value = Wire::Object(vec![
        member("b", Wire::Array(vec![Wire::Null, Wire::Bool(false), Wire::Int(-7), text("q\"\\")])),
        member("a", Wire::Object(vec![])),
    ]);
    assert_eq!(r#"{"b":[null,false,-7,"q\"\\"],"a":{}}"#, value.to_json_string().unwrap());
    assert_eq!(
        r#"{"b":[true,"q\"\\"],"a":{}}"#,
        Wire::Object(vec![
            member("b", Wire::Array(vec![Wire::Bool(true), text("q\"\\")])),
            member("a", Wire::Object(vec![])),
        ])
        .to_compact_string()
        .unwrap()
    );
}

#[test]
fn unwritable_values_are_refused() {
    assert_eq!(Err(EncodeError::NotWritable), Wire::Real.to_json_string());
    assert_eq!(Err(EncodeError::NotWritable), Wire::Array(vec![Wire::Real]).to_compact_string());
    let twice = Wire::Object(vec![member("a", Wire::Int(1)), member("a", Wire::Int(2))]);
    assert!(!twice.is_writable());
    assert_eq!(Err(EncodeError::NotWritable), twice.to_json_string());
    let nested = Wire::Array(vec![Wire::Object(vec![member("k", twice.clone())])]);
    assert_eq!(Err(EncodeError::NotWritable), nested.to_compact_string());
    let apart = Wire::Object(vec![member("a", Wire::Int(1)), member("b", Wire::Int(2))]);
    assert!(apart.is_writable());
}

#[test]
fn compact_writer_refuses_null() {
    assert_eq!(Err(EncodeError::CompactRecord), Wire::Null.to_compact_string());
    assert_eq!("null", Wire::Null.to_json_string().unwrap());
}
