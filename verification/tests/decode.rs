use mc_chat::{
    Chat, ChatComponentDeserializeErr, ChatComponentType, ClickEvent, ClickEventData,
    ClickEventDeserializeErr, ClickEventType, DecodeError, EntityTooltip, FrozenStr, HoverEvent,
    ItemStack, ScoreComponent, Style, TextColor, Uuid, Wire,
};

fn wire(text: &str) -> Wire {
    Wire::from_json_str(text).unwrap()
}

fn chat_err(text: &str) -> DecodeError {
    Chat::deserialize_str(text).unwrap_err()
}

#[test]
fn bare_string_is_literal_text() {
    let chat = Chat::decode(&Wire::Str("Sample text".to_owned())).unwrap();
    assert_eq!(Chat::text("Sample text"), chat);
    assert_eq!(Style::new(), chat.style);
    assert!(chat.children.is_empty());
}

#[test]
fn empty_array_is_refused() {
    assert_eq!(Err(DecodeError::EmptyComponentArray), Chat::decode(&Wire::Array(vec![])));
    assert_eq!(DecodeError::EmptyComponentArray, chat_err("[]"));
}

#[test]
fn array_is_the_first_with_the_rest_as_children() {
    let chat = Chat::deserialize_str(r#"["a","b"]"#).unwrap();
    assert_eq!(Chat::text("a").child(Chat::text("b")), chat);

    let one = Chat::deserialize_str(r#"[{"text":"a","extra":["x"]}]"#).unwrap();
    assert_eq!(Chat::text("a").child(Chat::text("x")), one);

    let replaced = Chat::deserialize_str(r#"[{"text":"a","bold":true,"extra":["x"]},"b","c"]"#)
        .unwrap();
    assert_eq!(
        Chat::text("a").bold(true).child(Chat::text("b")).child(Chat::text("c")),
        replaced
    );
}

#[test]
fn array_reports_the_first_error_in_order() {
    assert_eq!(
        DecodeError::MalformedColor,
        chat_err(r##"["a",{"text":"b","color":"#zz"},[],5]"##)
    );
    assert_eq!(DecodeError::EmptyComponentArray, chat_err(r#"[[],5]"#));
    assert_eq!(DecodeError::UnexpectedType, chat_err(r#"["a",5,[]]"#));
}

#[test]
fn values_of_no_admissible_shape_are_refused() {
    assert_eq!(DecodeError::UnexpectedType, chat_err("5"));
    assert_eq!(DecodeError::UnexpectedType, chat_err("true"));
    assert_eq!(DecodeError::UnexpectedType, chat_err("null"));
    assert_eq!(DecodeError::UnexpectedType, chat_err("1.5"));
    assert_eq!(DecodeError::UnexpectedType, chat_err(r#"{"text":5}"#));
    assert_eq!(DecodeError::UnexpectedType, chat_err(r#"{"text":"a","bold":"yes"}"#));
    assert_eq!(DecodeError::UnexpectedType, chat_err(r#"{"text":"a","color":7}"#));
    assert_eq!(DecodeError::UnexpectedType, chat_err(r#"{"text":"a","extra":{}}"#));
    assert_eq!(DecodeError::UnexpectedType, chat_err(r#"{"text":"a","extra":null}"#));
    assert_eq!(DecodeError::UnexpectedType, chat_err(r#"{"translate":"a","with":"b"}"#));
}

#[test]
fn text_that_is_no_document_is_refused() {
    assert_eq!(DecodeError::InvalidText, chat_err(""));
    assert_eq!(DecodeError::InvalidText, chat_err("{"));
    assert_eq!(DecodeError::InvalidText, chat_err(r#"{"text":"a"} x"#));
    assert_eq!(Err(DecodeError::InvalidText), Wire::from_compact_str("{a:"));
}

#[test]
fn kind_has_to_be_told_by_exactly_one_key() {
    assert_eq!(DecodeError::MissingField("text"), chat_err("{}"));
    assert_eq!(DecodeError::MissingField("text"), chat_err(r#"{"bold":true}"#));
    assert_eq!(DecodeError::AmbiguousKind, chat_err(r#"{"text":"a","translate":"b"}"#));
    assert_eq!(DecodeError::AmbiguousKind, chat_err(r#"{"keybind":"a","selector":"b"}"#));
    assert_eq!(DecodeError::AmbiguousKind, chat_err(r#"{"score":5,"text":7}"#));
}

#[test]
fn kinds_are_read_back() {
    assert_eq!(Chat::key("k"), Chat::deserialize_str(r#"{"translate":"k"}"#).unwrap());
    assert_eq!(Chat::key("k"), Chat::deserialize_str(r#"{"translate":"k","with":[]}"#).unwrap());
    assert_eq!(Chat::keybind("k"), Chat::deserialize_str(r#"{"keybind":"k"}"#).unwrap());
    assert_eq!(
        Chat::selector("@p", Some(Chat::text(", "))),
        Chat::deserialize_str(r#"{"separator":", ","selector":"@p"}"#).unwrap()
    );
    assert_eq!(
        Chat::selector("@p", None),
        Chat::deserialize_str(r#"{"selector":"@p","separator":null}"#).unwrap()
    );
    assert_eq!(
        Chat::component(ScoreComponent::new("n", "o").value(Some("v"))),
        Chat::deserialize_str(r#"{"score":{"value":"v","objective":"o","name":"n"}}"#).unwrap()
    );
    assert_eq!(
        DecodeError::MissingField("name"),
        chat_err(r#"{"score":{"objective":"o"}}"#)
    );
    assert_eq!(
        DecodeError::MissingField("objective"),
        chat_err(r#"{"score":{"name":"n"}}"#)
    );
    assert_eq!(DecodeError::MissingField("name"), chat_err(r#"{"score":5}"#));
}

#[test]
fn style_reads_any_subset_and_ignores_other_members() {
    let chat = Chat::deserialize_str(
        r##"{"unknown":[1,2],"font":"f","text":"a","italic":false,"color":"#aa11bb","bold":null}"##,
    )
    .unwrap();
    assert_eq!(
        Chat::text("a").italic(false).color(TextColor::custom("#aa11bb")).font(Some("f")),
        chat
    );
}

#[test]
fn style_reports_the_first_error_in_writing_order() {
    assert_eq!(
        DecodeError::UnexpectedType,
        chat_err(r#"{"text":"a","color":"nope","italic":3}"#)
    );
    assert_eq!(
        DecodeError::MalformedColor,
        chat_err(r#"{"text":"a","clickEvent":{},"color":"nope"}"#)
    );
    assert_eq!(
        DecodeError::MissingField("action"),
        chat_err(r#"{"text":"a","hoverEvent":{"action":"x","value":1},"clickEvent":{}}"#)
    );
}

#[test]
fn color_tokens_are_read() {
    assert_eq!(Ok(TextColor::DarkCyan), TextColor::try_from("dark_aqua"));
    assert_eq!(Ok(TextColor::Pink), TextColor::try_from("light_purple"));
    assert_eq!(Ok(TextColor::Reset), TextColor::try_from("reset"));
    assert_eq!(Ok(TextColor::DarkRed), TextColor::try_from("dark_red"));
    assert_eq!(Ok(TextColor::custom("#aa11bb")), TextColor::try_from("#aa11bb"));
    assert_eq!(Ok(TextColor::custom("#AA11Bf")), TextColor::try_from("#AA11Bf"));
    assert_eq!("#aa11bb", TextColor::try_from("#aa11bb").unwrap().to_string());
    assert_eq!(Err(DecodeError::MalformedColor), TextColor::try_from("#zzzzzz"));
    assert_eq!(Err(DecodeError::MalformedColor), TextColor::try_from("#aa11b"));
    assert_eq!(Err(DecodeError::MalformedColor), TextColor::try_from("#aa11bbc"));
    assert_eq!(Err(DecodeError::MalformedColor), TextColor::try_from("aa11bbc"));
    assert_eq!(Err(DecodeError::MalformedColor), TextColor::try_from("#aa11bg"));
    assert_eq!(Err(DecodeError::MalformedColor), TextColor::try_from("#ää11"));
    assert_eq!(Err(DecodeError::MalformedColor), TextColor::try_from("Red"));
    assert_eq!(Err(DecodeError::MalformedColor), TextColor::try_from("dark-red"));
    assert_eq!(Err(DecodeError::MalformedColor), TextColor::try_from(""));
}

#[test]
fn every_named_color_reads_back_from_its_token() {
    let colors = vec![
        (TextColor::Black, "black"),
        (TextColor::DarkBlue, "dark_blue"),
        (TextColor::DarkGreen, "dark_green"),
        (TextColor::DarkCyan, "dark_aqua"),
        (TextColor::DarkRed, "dark_red"),
        (TextColor::Purple, "dark_purple"),
        (TextColor::Gold, "gold"),
        (TextColor::Gray, "gray"),
        (TextColor::DarkGray, "dark_gray"),
        (TextColor::Blue, "blue"),
        (TextColor::Green, "green"),
        (TextColor::Cyan, "aqua"),
        (TextColor::Red, "red"),
        (TextColor::Pink, "light_purple"),
        (TextColor::Yellow, "yellow"),
        (TextColor::White, "white"),
        (TextColor::Reset, "reset"),
    ];
    for (color, token) in colors {
        assert_eq!(token, color.to_string());
        assert_eq!(Ok(color), TextColor::try_from(token));
    }
}

#[test]
fn click_events_are_read() {
    let read = |text: &str| ClickEvent::decode(&wire(text));
    assert_eq!(Ok(ClickEvent::url("u")), read(r#"{"action":"open_url","value":"u"}"#));
    assert_eq!(Ok(ClickEvent::command("c")), read(r#"{"value":"c","action":"run_command"}"#));
    assert_eq!(Ok(ClickEvent::suggest("c")), read(r#"{"action":"suggest_command","value":"c"}"#));
    assert_eq!(Ok(ClickEvent::clipboard("c")), read(r#"{"action":"copy_to_clipboard","value":"c"}"#));
    assert_eq!(Ok(ClickEvent::page(0)), read(r#"{"action":"change_page","value":0}"#));
    assert_eq!(
        Ok(ClickEvent::page(4294967295)),
        read(r#"{"action":"change_page","value":4294967295}"#)
    );
    assert_eq!(
        Err(DecodeError::ClickValueTypeMismatch),
        read(r#"{"action":"change_page","value":4294967296}"#)
    );
    assert_eq!(
        Err(DecodeError::ClickValueTypeMismatch),
        read(r#"{"action":"change_page","value":-1}"#)
    );
    assert_eq!(
        Err(DecodeError::ClickValueTypeMismatch),
        read(r#"{"action":"change_page","value":"1"}"#)
    );
    assert_eq!(
        Err(DecodeError::ClickValueTypeMismatch),
        read(r#"{"action":"change_page","value":1.5}"#)
    );
    assert_eq!(
        Err(DecodeError::ClickValueTypeMismatch),
        read(r#"{"action":"open_url","value":1}"#)
    );
    assert_eq!(
        Err(DecodeError::ClickValueTypeMismatch),
        read(r#"{"action":"run_command","value":null}"#)
    );
    assert_eq!(Err(DecodeError::UnknownClickAction), read(r#"{"action":"open_file","value":"f"}"#));
    assert_eq!(Err(DecodeError::UnknownClickAction), read(r#"{"action":"open_file","value":1}"#));
    assert_eq!(Err(DecodeError::UnknownClickAction), read(r#"{"action":7,"value":"f"}"#));
    assert_eq!(Err(DecodeError::MissingField("action")), read(r#"{"value":"f"}"#));
    assert_eq!(Err(DecodeError::MissingField("value")), read(r#"{"action":"open_url"}"#));
    assert_eq!(Err(DecodeError::MissingField("action")), read(r#"{}"#));
    assert_eq!(Err(DecodeError::MissingField("action")), read(r#""open_url""#));
}

#[test]
fn click_event_of_action_and_value() {
    let data = |action: &str, value: ClickEventType| ClickEventData {
        action: FrozenStr::new(action),
        value,
    };
    let string = |text: &str| ClickEventType::String(FrozenStr::new(text));
    assert_eq!(Ok(ClickEvent::page(3)), ClickEvent::try_from(data("change_page", ClickEventType::U32(3))));
    assert_eq!(Ok(ClickEvent::url("u")), ClickEvent::try_from(data("open_url", string("u"))));
    assert_eq!(
        Err(ClickEventDeserializeErr::NoValueFound(FrozenStr::new("change_page"))),
        ClickEvent::try_from(data("change_page", string("3")))
    );
    assert_eq!(
        Err(ClickEventDeserializeErr::NoValueFound(FrozenStr::new("run_command"))),
        ClickEvent::try_from(data("run_command", ClickEventType::U32(3)))
    );
    assert_eq!(
        Err(ClickEventDeserializeErr::NoValueFound(FrozenStr::new("open_url"))),
        ClickEvent::try_from(data("open_url", ClickEventType::Other))
    );
    assert_eq!(
        Err(ClickEventDeserializeErr::WrongKey(FrozenStr::new("nope"))),
        ClickEvent::try_from(data("nope", string("3")))
    );
    assert_eq!(
        Err(ClickEventDeserializeErr::WrongKey(FrozenStr::new("nope"))),
        ClickEvent::try_from(data("nope", ClickEventType::Other))
    );
    assert_eq!(
        "nope is not a valid action!",
        ClickEventDeserializeErr::WrongKey(FrozenStr::new("nope")).to_string()
    );
    assert_eq!(
        "No value found for change_page",
        ClickEventDeserializeErr::NoValueFound(FrozenStr::new("change_page")).to_string()
    );
    assert_eq!(
        DecodeError::UnknownClickAction,
        ClickEventDeserializeErr::WrongKey(FrozenStr::new("x")).to_decode_error()
    );
    assert_eq!(
        DecodeError::ClickValueTypeMismatch,
        ClickEventDeserializeErr::NoValueFound(FrozenStr::new("x")).to_decode_error()
    );
}

#[test]
fn component_of_what_was_read() {
    assert_eq!(
        Ok(Chat::text("a")),
        Chat::try_from(ChatComponentType::Primitive("a".to_owned()))
    );
    assert_eq!(
        Ok(Chat::keybind("k")),
        Chat::try_from(ChatComponentType::Object(Chat::keybind("k")))
    );
    assert_eq!(
        Err(ChatComponentDeserializeErr::EmptyArray),
        Chat::try_from(ChatComponentType::Array(vec![]))
    );
    assert_eq!(
        Ok(Chat::text("a").child(Chat::text("keep"))),
        Chat::try_from(ChatComponentType::Array(vec![Chat::text("a").child(Chat::text("keep"))]))
    );
    assert_eq!(
        Ok(Chat::text("a").child(Chat::text("b"))),
        Chat::try_from(ChatComponentType::Array(vec![
            Chat::text("a").child(Chat::text("gone")),
            Chat::text("b"),
        ]))
    );
    assert_eq!(
        "Empty arrays are invalid for chat components!",
        ChatComponentDeserializeErr::EmptyArray.to_string()
    );
}

#[test]
fn hover_reads_the_same_in_either_order() {
    let read = |text: &str| HoverEvent::decode(&wire(text));
    let expected = Ok(HoverEvent::ShowText(Box::new(Chat::text("Sample text").bold(true))));
    assert_eq!(expected, read(r#"{"value":{"text":"Sample text","bold":true},"action":"show_text"}"#));
    assert_eq!(expected, read(r#"{"action":"show_text","value":{"text":"Sample text","bold":true}}"#));
    assert_eq!(expected, read(r#"{"contents":{"text":"Sample text","bold":true},"action":"show_text"}"#));
    assert_eq!(expected, read(r#"{"action":"show_text","contents":{"text":"Sample text","bold":true}}"#));
    assert_eq!(
        Ok(HoverEvent::ShowText(Box::new(Chat::text("bare")))),
        read(r#"{"action":"show_text","value":"bare"}"#)
    );
}

#[test]
fn hover_contents_count_where_both_keys_are_there() {
    let read = |text: &str| HoverEvent::decode(&wire(text));
    assert_eq!(
        Ok(HoverEvent::ShowText(Box::new(Chat::text("new")))),
        read(r#"{"value":"old","action":"show_text","contents":"new"}"#)
    );
}

#[test]
fn hover_errors() {
    let read = |text: &str| HoverEvent::decode(&wire(text));
    assert_eq!(Err(DecodeError::MissingField("action")), read(r#"{"value":"a"}"#));
    assert_eq!(Err(DecodeError::MissingField("action")), read(r#"{}"#));
    assert_eq!(Err(DecodeError::MissingField("contents")), read(r#"{"action":"show_text"}"#));
    assert_eq!(Err(DecodeError::UnknownHoverAction), read(r#"{"action":"show","value":"a"}"#));
    assert_eq!(Err(DecodeError::UnknownHoverAction), read(r#"{"action":5,"value":"a"}"#));
    assert_eq!(
        Err(DecodeError::HoverValueTypeMismatch),
        read(r#"{"action":"show_text","value":5}"#)
    );
    assert_eq!(
        Err(DecodeError::HoverValueTypeMismatch),
        read(r#"{"action":"show_text","value":[]}"#)
    );
    assert_eq!(
        Err(DecodeError::HoverValueTypeMismatch),
        read(r#"{"action":"show_item","value":{"id":"diamond"}}"#)
    );
    assert_eq!(
        Err(DecodeError::HoverValueTypeMismatch),
        read(r#"{"action":"show_item","contents":"{id:diamond}"}"#)
    );
    assert_eq!(
        Err(DecodeError::HoverValueTypeMismatch),
        read(r#"{"action":"show_item","value":"{id:diamond"}"#)
    );
    assert_eq!(
        Err(DecodeError::HoverValueTypeMismatch),
        read(r#"{"action":"show_item","value":"diamond"}"#)
    );
    assert_eq!(
        Err(DecodeError::HoverValueTypeMismatch),
        read(r#"{"action":"show_item","contents":{"Count":3}}"#)
    );
    assert_eq!(
        Err(DecodeError::HoverValueTypeMismatch),
        read(r#"{"action":"show_item","contents":{"id":"a","Count":2147483648}}"#)
    );
    assert_eq!(
        Err(DecodeError::HoverValueTypeMismatch),
        read(r#"{"action":"show_item","contents":{"id":"a","tag":null}}"#)
    );
    assert_eq!(
        Err(DecodeError::HoverValueTypeMismatch),
        read(r#"{"action":"show_entity","contents":"x"}"#)
    );
    assert_eq!(
        Err(DecodeError::HoverValueTypeMismatch),
        read(r#"{"action":"show_entity","contents":{"id":"not-a-uuid"}}"#)
    );
    assert_eq!(
        Err(DecodeError::HoverValueTypeMismatch),
        read(r#"{"action":"show_entity","contents":{"name":[]}}"#)
    );
    assert_eq!(
        Err(DecodeError::HoverValueTypeMismatch),
        read(r#"{"action":"show_entity","value":"[1,2]"}"#)
    );
}

#[test]
fn items_and_entities_are_read_in_both_forms() {
    let read = |text: &str| HoverEvent::decode(&wire(text));
    assert_eq!(
        Ok(HoverEvent::ShowItem(ItemStack::new("diamond", Some(-2147483648), Some("t")))),
        read(r#"{"action":"show_item","contents":{"tag":"t","Count":-2147483648,"id":"diamond"}}"#)
    );
    assert_eq!(
        Ok(HoverEvent::ShowItem(ItemStack::new("diamond", Some(2), Some("{a:1}")))),
        read(r#"{"action":"show_item","value":"{id:diamond,Count:2b,tag:\"{a:1}\"}"}"#)
    );
    let id = Uuid::from_u128(0xf84c6a79_0a4e_45e0_879b_cd49ebd4c4e2);
    assert_eq!(
        Ok(HoverEvent::ShowEntity(EntityTooltip::new(
            Some(Chat::text("n").italic(true)),
            Some("minecraft:pig"),
            Some(id)
        ))),
        read(
            r#"{"action":"show_entity","contents":{"id":"F84C6A790A4E45E0879BCD49EBD4C4E2","type":"minecraft:pig","name":{"text":"n","italic":true}}}"#
        )
    );
    assert_eq!(
        Ok(HoverEvent::ShowEntity(EntityTooltip::new(None, None, None))),
        read(r#"{"action":"show_entity","value":"{}"}"#)
    );
}

#[test]
fn identifiers_are_read_in_the_forms_of_the_uuid_crate() {
    let id = Uuid::from_u128(0xf84c6a79_0a4e_45e0_879b_cd49ebd4c4e2);
    assert_eq!(Some(id), Uuid::parse_str("f84c6a79-0a4e-45e0-879b-cd49ebd4c4e2"));
    assert_eq!(Some(id), Uuid::parse_str("f84c6a790a4e45e0879bcd49ebd4c4e2"));
    assert_eq!(Some(id), Uuid::parse_str("urn:uuid:F84C6A79-0A4E-45E0-879B-CD49EBD4C4E2"));
    assert_eq!(None, Uuid::parse_str("f84c6a79"));
    assert_eq!(None, Uuid::parse_str(""));
    assert_eq!(id.bits, 0xf84c6a79_0a4e_45e0_879b_cd49ebd4c4e2);
    assert_eq!(Some(Uuid::from_u128(0)), Uuid::parse_str(&Uuid::from_u128(0).to_string()));
    assert_eq!(
        Some(Uuid::from_u128(u128::MAX)),
        Uuid::parse_str(&Uuid::from_u128(u128::MAX).to_string())
    );
}

#[test]
fn documents_are_read_into_wire_values() {
    assert_eq!(Wire::Null, wire("null"));
    assert_eq!(Wire::Bool(true), wire("true"));
    assert_eq!(Wire::Int(-3), wire("-3"));
    assert_eq!(Wire::Int(i64::MAX), wire("9223372036854775807"));
    assert_eq!(Wire::Real, wire("9223372036854775808"));
    assert_eq!(Wire::Real, wire("1.0"));
    assert_eq!(Wire::Real, wire("1e3"));
    assert_eq!(Wire::Str("a\"b".to_owned()), wire(r#""a\"b""#));
    assert_eq!(
        Wire::Array(vec![Wire::Int(1), Wire::Array(vec![]), Wire::Str("x".to_owned())]),
        wire(r#"[1,[],"x"]"#)
    );
    let object = wire(r#"{"k":{"n":[true,null]},"a":2}"#);
    assert_eq!(Some(&Wire::Int(2)), object.get("a"));
    assert_eq!(
        Some(&Wire::Array(vec![Wire::Bool(true), Wire::Null])),
        object.get("k").unwrap().get("n")
    );
    assert_eq!(None, object.get("n"));
    assert_eq!(None, Wire::Int(1).get("a"));
}

#[test]
fn compact_records_are_read_into_wire_values() {
    let record = Wire::from_compact_str("{id:diamond,Count:30,list:[1b,2s,3L],flag:true,q:'x y'}")
        .unwrap();
    assert_eq!(Some(&Wire::Str("diamond".to_owned())), record.get("id"));
    assert_eq!(Some(&Wire::Int(30)), record.get("Count"));
    assert_eq!(
        Some(&Wire::Array(vec![Wire::Int(1), Wire::Int(2), Wire::Int(3)])),
        record.get("list")
    );
    assert_eq!(Some(&Wire::Bool(true)), record.get("flag"));
    assert_eq!(Some(&Wire::Str("x y".to_owned())), record.get("q"));
    assert_eq!(Wire::Real, Wire::from_compact_str("1.5").unwrap());
    assert_eq!(Wire::Str("abc".to_owned()), Wire::from_compact_str("abc").unwrap());
}

#[test]
fn get_finds_the_first_of_two_equal_keys() {
    let twice = Wire::Object(vec![
        ("a".to_owned(), Wire::Int(1)),
        ("b".to_owned(), Wire::Int(2)),
        ("a".to_owned(), Wire::Int(3)),
    ]);
    assert_eq!(Some(&Wire::Int(1)), twice.get("a"));
    assert_eq!(Some(&Wire::Int(2)), twice.get("b"));
    assert_eq!(None, twice.get(""));
    assert_eq!(None, twice.get("A"));
}

#[test]
fn longest_counts_characters_of_values_at_any_depth() {
    assert_eq!(0, Wire::Null.longest());
    assert_eq!(0, Wire::Int(123456).longest());
    assert_eq!(2, Wire::Str("äö".to_owned()).longest());
    let nested = Wire::Object(vec![
        ("a very long key".to_owned(), Wire::Str("ab".to_owned())),
        (
            "k".to_owned(),
            Wire::Array(vec![Wire::Str("abcd".to_owned()), Wire::Str("abc".to_owned())]),
        ),
    ]);
    assert_eq!(4, nested.longest());
    assert_eq!(0, Wire::Array(vec![]).longest());
}
