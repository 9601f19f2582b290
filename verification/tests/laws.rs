use mc_chat::{
    Chat, ClickEvent, EntityTooltip, HoverEvent, ItemStack, ScoreComponent, SelectorComponent,
    Style, TextColor, TranslationComponent, Uuid, Wire,
};

fn rich() -> Chat {
    let entity = EntityTooltip::new(
        Some(
            Chat::text("pig")
                .font(Some("alt"))
                .hover(Some(HoverEvent::ShowItem(ItemStack::new("carrot", Some(2), None)))),
        ),
        Some("minecraft:pig"),
        Some(Uuid::from_u128(0x0123_4567_89ab_cdef_0123_4567_89ab_cdef)),
    );
    Chat::component(
        TranslationComponent::new("chat.type.text")
            .argument(
                Chat::text("Herobrine")
                    .insertion(Some("Herobrine"))
                    .color(TextColor::custom("#aa11bb"))
                    .click(Some(ClickEvent::clipboard("copied")))
                    .hover(Some(HoverEvent::ShowEntity(entity))),
            )
            .argument(Chat::component(ScoreComponent::new("n", "o").value(Some("7")))),
    )
    .bold(true)
    .obfuscated(false)
    .color(TextColor::Gold)
    .font(Some("minecraft:uniform"))
    .click(Some(ClickEvent::page(12)))
    .hover(Some(HoverEvent::ShowText(Box::new(
        Chat::text("tip \"quoted\" \\ {x:1}").italic(true).insertion(Some("ins")),
    ))))
    .child(Chat::component(SelectorComponent::new("@a", None).sep(
        Chat::text(", ").color(TextColor::custom("#000000")),
    )))
    .child(
        Chat::keybind("key.jump")
            .underlined(true)
            .strikethrough(true)
            .hover(Some(HoverEvent::ShowItem(ItemStack::new("stone", Some(-1), Some("{a:\"b\"}"))))),
    )
}

const VERSIONS: [i32; 11] = [i32::MIN, 4, 5, 47, 557, 558, 712, 713, 734, 735, i32::MAX];

#[test]
fn round_trip_gives_the_projection() {
    let chat = rich();
    for version in VERSIONS {
        let wire = chat.encode(version).unwrap();
        let back = Chat::decode(&wire).unwrap();
        assert_eq!(chat.project(version), back, "version {}", version);

        let text = chat.serialize_str(version).unwrap();
        assert_eq!(chat.project(version), Chat::deserialize_str(&text).unwrap());
    }
}

#[test]
fn round_trip_gives_the_component_itself_where_nothing_is_dropped() {
    let chat = rich();
    assert_eq!(chat, chat.project(735));
    assert_eq!(chat, Chat::decode(&chat.encode(735).unwrap()).unwrap());
    assert_eq!(chat, Chat::decode(&chat.encode(713).unwrap()).unwrap());
    assert_ne!(chat, Chat::decode(&chat.encode(712).unwrap()).unwrap());
}

#[test]
fn projection_drops_what_the_version_does_not_carry() {
    let chat = Chat::text("a")
        .font(Some("f"))
        .insertion(Some("i"))
        .color(TextColor::custom("#123abc"))
        .click(Some(ClickEvent::clipboard("c")))
        .bold(true);
    assert_eq!(Chat::text("a").bold(true), chat.project(4));
    assert_eq!(Chat::text("a").bold(true).insertion(Some("i")), chat.project(5));
    assert_eq!(Chat::text("a").bold(true).insertion(Some("i")), chat.project(557));
    assert_eq!(
        Chat::text("a").bold(true).insertion(Some("i")).click(Some(ClickEvent::clipboard("c"))),
        chat.project(558)
    );
    assert_eq!(chat, chat.project(713));

    let named = Chat::text("a").color(TextColor::Red).click(Some(ClickEvent::url("u")));
    assert_eq!(named, named.project(i32::MIN));
}

#[test]
fn projection_reaches_every_depth() {
    let inner = Chat::text("x").font(Some("f"));
    let chat = Chat::component(TranslationComponent::new("k").argument(inner.clone()))
        .child(inner.clone())
        .hover(Some(HoverEvent::ShowEntity(EntityTooltip::new(Some(inner.clone()), None, None))));
    let bare = Chat::text("x");
    let expected = Chat::component(TranslationComponent::new("k").argument(bare.clone()))
        .child(bare.clone())
        .hover(Some(HoverEvent::ShowEntity(EntityTooltip::new(Some(bare.clone()), None, None))));
    assert_eq!(expected, chat.project(47));
    let separated = Chat::selector("@p", Some(inner.clone()));
    assert_eq!(Chat::selector("@p", Some(bare)), separated.project(47));
    let shown = Style::new().hover(Some(HoverEvent::ShowText(Box::new(inner)))).clone();
    assert_eq!(
        Style::new().hover(Some(HoverEvent::ShowText(Box::new(Chat::text("x"))))).clone(),
        shown.project(712)
    );
}

#[test]
fn custom_color_round_trips_to_the_same_string() {
    let color = TextColor::try_from("#aa11bb").unwrap();
    assert_eq!("#aa11bb", color.to_string());
    assert_eq!(Ok(color.clone()), TextColor::try_from(&color.to_string()));
    let chat = Chat::text("a").color(color);
    assert_eq!(chat, Chat::deserialize_str(&chat.serialize_str(713).unwrap()).unwrap());
}

#[test]
fn member_order_does_not_change_what_is_read() {
    let forward = Wire::from_json_str(
        r#"{"text":"a","bold":true,"color":"red","extra":["b"],"clickEvent":{"action":"change_page","value":2}}"#,
    )
    .unwrap();
    let backward = Wire::from_json_str(
        r#"{"clickEvent":{"value":2,"action":"change_page"},"extra":["b"],"color":"red","bold":true,"text":"a"}"#,
    )
    .unwrap();
    assert_eq!(Chat::decode(&forward), Chat::decode(&backward));
    assert_eq!(
        Ok(Chat::text("a")
            .bold(true)
            .color(TextColor::Red)
            .click(Some(ClickEvent::page(2)))
            .child(Chat::text("b"))),
        Chat::decode(&forward)
    );
}

#[test]
fn compact_records_round_trip_through_both_codecs() {
    let item = ItemStack::new("minecraft:clay", Some(10), Some("{other:0}"));
    let text = item.encode().to_compact_string().unwrap();
    let back = Wire::from_compact_str(&text).unwrap();
    assert_eq!(item.encode(), back);
    assert_eq!(Some(item), ItemStack::decode(&back));
    assert!(back.longest() < text.chars().count());
}

#[test]
fn clones_are_equal() {
    let chat = rich();
    assert_eq!(chat, chat.clone());
    let wire = chat.encode(47).unwrap();
    assert_eq!(wire, wire.clone());
    assert_eq!(chat.style, chat.style.clone());
}

#[test]
fn a_page_beyond_i32_in_a_compact_record_does_not_come_back() {
    let name = Chat::text("n").click(Some(ClickEvent::page(3_000_000_000)));
    let chat = Chat::text("a").hover(Some(HoverEvent::ShowEntity(EntityTooltip::new(
        Some(name),
        None,
        None,
    ))));
    let written = chat.encode(47).unwrap();
    assert_eq!(Err(mc_chat::DecodeError::HoverValueTypeMismatch), Chat::decode(&written));
    let structured = chat.encode(735).unwrap();
    assert_eq!(Ok(chat.clone()), Chat::decode(&structured));
    let small = Chat::text("a").hover(Some(HoverEvent::ShowEntity(EntityTooltip::new(
        Some(Chat::text("n").click(Some(ClickEvent::page(2_147_483_647)))),
        None,
        None,
    ))));
    assert_eq!(Ok(small.clone()), Chat::decode(&small.encode(47).unwrap()));
}

#[test]
fn a_custom_color_that_is_no_hex_color_does_not_come_back() {
    let named = Chat::text("a").color(TextColor::custom("red"));
    assert_eq!(
        Ok(Chat::text("a").color(TextColor::Red)),
        Chat::decode(&named.encode(713).unwrap())
    );
    let broken = Chat::text("a").color(TextColor::custom("#12"));
    assert_eq!(
        Err(mc_chat::DecodeError::MalformedColor),
        Chat::decode(&broken.encode(713).unwrap())
    );
    assert_eq!(Ok(Chat::text("a")), Chat::decode(&broken.encode(712).unwrap()));
}
