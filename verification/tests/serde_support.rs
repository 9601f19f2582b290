use mc_chat::{
    Chat, ClickEvent, EntityTooltip, HoverEvent, ItemStack, TranslationComponent, Uuid, Wire,
    VERSION_1_16, VERSION_1_8,
};

fn hover_text(event: &HoverEvent, version: i32) -> String {
    event.encode(version).unwrap().to_json_string().unwrap()
}

fn hover_from(text: &str) -> HoverEvent {
    HoverEvent::decode(&Wire::from_json_str(text).unwrap()).unwrap()
}

#[test]
fn serialize_chat_text() {
    let chat = Chat::text("Sample text");
    let serialized = chat.serialize_str(VERSION_1_8).unwrap();
    assert_eq!(r#"{"text":"Sample text"}"#, serialized);
}

#[test]
fn deserialize_primitive() {
    let chat_orig = Chat::text("Sample text");

    let primitive = r#""Sample text""#;
    let chat = Chat::deserialize_str(primitive).unwrap();
    assert_eq!(chat_orig, chat);

    let value = Wire::from_json_str(primitive).unwrap();
    let chat = Chat::decode(&value).unwrap();
    assert_eq!(chat_orig, chat);
}

#[test]
fn deserialize_object() {
    let chat_orig = Chat::text("Sample text");

    let object = r#"{"text":"Sample text"}"#;
    let chat = Chat::deserialize_str(object).unwrap();
    assert_eq!(chat_orig, chat);

    let value = Wire::from_json_str(object).unwrap();
    let chat = Chat::decode(&value).unwrap();
    assert_eq!(chat_orig, chat);
}

#[test]
fn test_itemstack() {
    let itemstack = ItemStack::new("minecraft:clay", Some(10), Some("{other:0}"));
    let str = itemstack.encode().to_compact_string().unwrap();
    assert_eq!(
        "{\"id\":\"minecraft:clay\",\"Count\":10,\"tag\":\"{other:0}\"}",
        &str
    );
    let itemstack = ItemStack::new("minecraft:clay", None, Some("{other:2}"));
    let str = itemstack.encode().to_compact_string().unwrap();
    assert_eq!("{\"id\":\"minecraft:clay\",\"tag\":\"{other:2}\"}", &str);
}

#[test]
fn serialize_text() {
    let event = HoverEvent::ShowText(Box::new(Chat::text("Sample text")));
    let serialized_str_pre = hover_text(&event, VERSION_1_8);
    assert_eq!(
        r#"{"action":"show_text","value":{"text":"Sample text"}}"#,
        serialized_str_pre
    );
    let serialized_str_post = hover_text(&event, VERSION_1_16);
    assert_eq!(
        r#"{"action":"show_text","contents":{"text":"Sample text"}}"#,
        serialized_str_post
    );
}

#[test]
fn serialize_itemstack() {
    let event = HoverEvent::ShowItem(ItemStack::new("diamond", None, Option::<&str>::None));
    let serialized_str_pre = hover_text(&event, VERSION_1_8);
    assert_eq!(
        r#"{"action":"show_item","value":"{\"id\":\"diamond\"}"}"#,
        serialized_str_pre
    );
    let serialized_str_post = hover_text(&event, VERSION_1_16);
    assert_eq!(
        r#"{"action":"show_item","contents":{"id":"diamond"}}"#,
        serialized_str_post
    );
}

#[test]
fn serialize_entity() {
    let event = HoverEvent::ShowEntity(EntityTooltip::new(
        Some(Chat::text("Sample name")),
        Some("minecraft:pig"),
        None,
    ));
    let serialized_str_pre = hover_text(&event, VERSION_1_8);
    assert_eq!(
        r#"{"action":"show_entity","value":"{\"name\":{\"text\":\"Sample name\"},\"type\":\"minecraft:pig\"}"}"#,
        serialized_str_pre
    );
    let serialized_str_post = hover_text(&event, VERSION_1_16);
    assert_eq!(
        r#"{"action":"show_entity","contents":{"name":{"text":"Sample name"},"type":"minecraft:pig"}}"#,
        serialized_str_post
    );
}

#[test]
fn deserialize_text() {
    let event_orig = HoverEvent::ShowText(Box::new(Chat::text("Sample text")));

    let serialized_str_pre = r#"{"value":{"text":"Sample text"},"action":"show_text"}"#;
    let serialized_str_post = r#"{"contents":{"text":"Sample text"},"action":"show_text"}"#;
    let event = hover_from(serialized_str_pre);
    assert_eq!(event_orig, event);
    let event = hover_from(serialized_str_post);
    assert_eq!(event_orig, event);
}

#[test]
fn deserialize_item() {
    let event_orig =
        HoverEvent::ShowItem(ItemStack::new("diamond", Some(30), Option::<&str>::None));

    let serialized_str_pre =
        r#"{"value":"{\"id\":\"diamond\",\"Count\":30}","action":"show_item"}"#;
    let serialized_str_post = r#"{"contents":{"id":"diamond","Count":30},"action":"show_item"}"#;
    let event = hover_from(serialized_str_pre);
    assert_eq!(event_orig, event);
    let event = hover_from(serialized_str_post);
    assert_eq!(event_orig, event);
}

#[test]
fn deserialize_entity() {
    let event_orig = HoverEvent::ShowEntity(EntityTooltip::new(
        Some(Chat::text("Sample name")),
        Some("minecraft:pig"),
        None,
    ));

    let serialized_str_pre = r#"{"action":"show_entity","value":"{\"name\":{\"text\":\"Sample name\"},\"type\":\"minecraft:pig\"}"}"#;
    let serialized_str_post = r#"{"action":"show_entity","contents":{"name":{"text":"Sample name"},"type":"minecraft:pig"}}"#;
    let event = hover_from(serialized_str_pre);
    assert_eq!(event_orig, event);
    let event = hover_from(serialized_str_post);
    assert_eq!(event_orig, event);
}

#[test]
fn chat_serialize() {
    let chat_orig = Chat::text("Sample text");
    let serialized_str = chat_orig.serialize_str(VERSION_1_8).unwrap();
    assert_eq!("{\"text\":\"Sample text\"}", serialized_str);

    let value = Wire::from_json_str("{\"text\":\"Sample text\"}").unwrap();
    let chat = Chat::decode(&value).unwrap();
    assert_eq!(chat_orig, chat);
}

#[test]
fn standard_chat() {
    let chat_orig = Chat::component(
        TranslationComponent::new("chat.type.text")
            .argument(
                Chat::text("Herobrine")
                    .insertion(Some("Herobrine"))
                    .click(Some(ClickEvent::suggest("/msg Herobrine ")))
                    .hover(Some(HoverEvent::ShowEntity(EntityTooltip::new(
                        Some(Chat::text("Herobrine")),
                        Option::<&str>::None,
                        Some(Uuid::parse_str("f84c6a79-0a4e-45e0-879b-cd49ebd4c4e2").unwrap()),
                    )))),
            )
            .argument(Chat::text("I don't exist")),
    );

    let serialized_str = r#"{"translate":"chat.type.text","with":[{"text":"Herobrine","clickEvent":{"action":"suggest_command","value":"/msg Herobrine "},"hoverEvent":{"action":"show_entity","value":"{id:f84c6a79-0a4e-45e0-879b-cd49ebd4c4e2,name:Herobrine}"},"insertion":"Herobrine"},{"text":"I don't exist"}]}"#;
    let chat = Chat::deserialize_str(serialized_str).unwrap();
    assert_eq!(chat_orig, chat);
}
