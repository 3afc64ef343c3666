use mmolb_parsing::enums::{Attribute, CelestialEnergyTier, FeedEventSource, FeedEventType, ItemName, ItemPrefix, ItemSuffix, ModificationType};
use mmolb_parsing::feed::{AttributeChange, EmojilessItem, FeedDelivery, FeedEvent, FeedEventParseError, ParsedFeedEventText};
use mmolb_parsing::feed_parsing::parse_feed_event;
use mmolb_parsing::game::NotRecognized;
use mmolb_parsing::parsed_event::{EmojiTeam, Item, ItemAffixes};
use mmolb_parsing::places::Slot;
use mmolb_parsing::time::Day;

fn feed_event(season: u8, day: u16, event_type: FeedEventType, text: &str) -> FeedEvent {
    FeedEvent {
        season,
        day: Ok(Day::Day(day)),
        text: text.to_string(),
        timestamp_seconds: 1_760_000_000,
        timestamp_nanos: 0,
        event_type: Ok(event_type),
    }
}

fn round_trips(event: &FeedEvent, expected: ParsedFeedEventText<&str>) {
    let parsed = parse_feed_event(event);
    assert_eq!(parsed, expected);
    let player = parsed.unparse(event, FeedEventSource::Player);
    let team = parsed.unparse(event, FeedEventSource::Team);
    assert!(player == event.text || team == event.text, "{player} / {team}");
}

#[test]
fn test_attribute_gain() {
    let event = feed_event(4, 10, FeedEventType::Augment, "Nancy Bright gained +50 Awareness.");
    round_trips(&event, ParsedFeedEventText::AttributeChanges {
        changes: vec![AttributeChange { player_name: "Nancy Bright", amount: 50, attribute: Attribute::Awareness }],
    });
}

#[test]
fn test_game_result() {
    let s = "🦖 Peoria Monster Monster Monster vs. 📮 Akron Anteaters Pace Stick - FINAL 2-4";
    let event = feed_event(4, 10, FeedEventType::Game, s);
    round_trips(&event, ParsedFeedEventText::GameResult {
        away_team: EmojiTeam { emoji: "🦖", name: "Peoria Monster Monster Monster" },
        home_team: EmojiTeam { emoji: "📮", name: "Akron Anteaters Pace Stick" },
        away_score: 2,
        home_score: 4,
    });
}

#[test]
fn several_attribute_gains() {
    let event = feed_event(4, 10, FeedEventType::Augment, "Nancy Bright gained +50 Awareness. Tom Jones gained +-3 Speed.");
    round_trips(&event, ParsedFeedEventText::AttributeChanges {
        changes: vec![
            AttributeChange { player_name: "Nancy Bright", amount: 50, attribute: Attribute::Awareness },
            AttributeChange { player_name: "Tom Jones", amount: -3, attribute: Attribute::Speed },
        ],
    });
}

#[test]
fn deliveries() {
    let event = feed_event(4, 10, FeedEventType::Game, "Nancy Bright received a 🧢 Cap Delivery.");
    round_trips(&event, ParsedFeedEventText::Delivery {
        delivery: FeedDelivery {
            player: "Nancy Bright",
            item: Item { item_emoji: "🧢", item: ItemName::Cap, affixes: ItemAffixes::NoAffixes },
            discarded: None,
        },
    });
    let event = feed_event(4, 10, FeedEventType::Game, "Nancy Bright received a 🧤 Sharp Gloves of the Cat Special Delivery. They discarded their 🧢 Cap.");
    round_trips(&event, ParsedFeedEventText::SpecialDelivery {
        delivery: FeedDelivery {
            player: "Nancy Bright",
            item: Item { item_emoji: "🧤", item: ItemName::Gloves, affixes: ItemAffixes::PrefixSuffix(vec![ItemPrefix::Sharp], vec![ItemSuffix::Cat]) },
            discarded: Some(Item { item_emoji: "🧢", item: ItemName::Cap, affixes: ItemAffixes::NoAffixes }),
        },
    });
    let event = feed_event(4, 10, FeedEventType::Game, "Nancy Bright received a 🧢 Artistic Gloves Cap Shipment.");
    round_trips(&event, ParsedFeedEventText::Shipment {
        delivery: FeedDelivery {
            player: "Nancy Bright",
            item: Item { item_emoji: "🧢", item: ItemName::Cap, affixes: ItemAffixes::RareName("Artistic Gloves") },
            discarded: None,
        },
    });
}

#[test]
fn enchantments() {
    let event = feed_event(1, 10, FeedEventType::Augment, "Nancy Bright's Sharp Cap was enchanted with +5 to Contact.");
    round_trips(&event, ParsedFeedEventText::S1Enchantment {
        player_name: "Nancy Bright",
        item: EmojilessItem { prefix: Some(ItemPrefix::Sharp), item: ItemName::Cap, suffix: None },
        amount: 5,
        attribute: Attribute::Contact,
    });
    let event = feed_event(2, 10, FeedEventType::Augment, "The Item Enchantment was a success! Nancy Bright's Cap of the Cat was enchanted with +5 Contact and +3 Speed.");
    round_trips(&event, ParsedFeedEventText::S2Enchantment {
        player_name: "Nancy Bright",
        item: EmojilessItem { prefix: None, item: ItemName::Cap, suffix: Some(ItemSuffix::Cat) },
        amount: 5,
        attribute: Attribute::Contact,
        enchant_two: Some((3, Attribute::Speed)),
        compensatory: false,
    });
    let event = feed_event(2, 10, FeedEventType::Augment, "The Compensatory Enchantment was a success! Nancy Bright's Ring gained a +4 Luck bonus.");
    round_trips(&event, ParsedFeedEventText::S2Enchantment {
        player_name: "Nancy Bright",
        item: EmojilessItem { prefix: None, item: ItemName::Ring, suffix: None },
        amount: 4,
        attribute: Attribute::Luck,
        enchant_two: None,
        compensatory: true,
    });
}

#[test]
fn player_moves_and_changes() {
    let event = feed_event(4, 10, FeedEventType::Augment, "Nancy Bright gained the Fire Elemental Modification.");
    round_trips(&event, ParsedFeedEventText::Modification { player_name: "Nancy Bright", modification: ModificationType::FireElemental });
    let event = feed_event(4, 10, FeedEventType::Augment, "Nancy Bright was moved to the mound. Tom Jones was sent to the lineup.");
    round_trips(&event, ParsedFeedEventText::TakeTheMound { to_mound_player: "Nancy Bright", to_lineup_player: "Tom Jones" });
    let event = feed_event(4, 10, FeedEventType::Augment, "Nancy Bright swapped places with Tom Jones.");
    round_trips(&event, ParsedFeedEventText::SwapPlaces { player_one: "Nancy Bright", player_two: "Tom Jones" });
    let event = feed_event(4, 10, FeedEventType::Augment, "Nancy Bright was Recomposed into Tom Jones.");
    round_trips(&event, ParsedFeedEventText::Recomposed { previous: "Nancy Bright", new: "Tom Jones" });
    let mut early = feed_event(3, 10, FeedEventType::Augment, "Nancy Bright was Recomposed using Tom Jones.");
    early.timestamp_seconds = 1_752_000_000;
    round_trips(&early, ParsedFeedEventText::Recomposed { previous: "Nancy Bright", new: "Tom Jones" });
}

#[test]
fn attribute_equals() {
    let event = feed_event(4, 10, FeedEventType::Augment, "Batters' Contact was set to their Muscle. Lineup: 1. C Nancy Bright, 2. 1B Tom Jones");
    round_trips(&event, ParsedFeedEventText::MassAttributeEquals {
        players: vec![(Some(Slot::Catcher), "Nancy Bright"), (Some(Slot::FirstBaseman), "Tom Jones")],
        changing_attribute: Attribute::Contact,
        value_attribute: Attribute::Muscle,
    });
    let event = feed_event(2, 10, FeedEventType::Augment, "Nancy Bright's Contact became equal to their current base Muscle.");
    round_trips(&event, ParsedFeedEventText::MassAttributeEquals {
        players: vec![(None, "Nancy Bright")],
        changing_attribute: Attribute::Contact,
        value_attribute: Attribute::Muscle,
    });
}

#[test]
fn game_feed_events() {
    let event = feed_event(4, 10, FeedEventType::Game, "📮 Akron Anteaters Pace Stick are Prosperous! They earned 12 🪙.");
    round_trips(&event, ParsedFeedEventText::Prosperous { team: EmojiTeam { emoji: "📮", name: "Akron Anteaters Pace Stick" }, income: 12 });
    let event = feed_event(4, 10, FeedEventType::Game, "😇 Nancy Bright retired from MMOLB! Tom Jones was called up to take their place.");
    round_trips(&event, ParsedFeedEventText::Retirement { previous: "Nancy Bright", new: Some("Tom Jones") });
    let event = feed_event(4, 10, FeedEventType::Game, "Nancy Bright was infused with a glimmer of celestial energy!");
    round_trips(&event, ParsedFeedEventText::InfusedByFallingStar { player: "Nancy Bright", infusion_tier: CelestialEnergyTier::Infused });
    let event = feed_event(4, 10, FeedEventType::Release, "Released by the 📮 Akron Anteaters Pace Stick.");
    round_trips(&event, ParsedFeedEventText::Released { team: "📮 Akron Anteaters Pace Stick" });
}

#[test]
fn unreadable_feed_events() {
    let event = feed_event(4, 10, FeedEventType::Season, "Season 4 has begun.");
    match parse_feed_event(&event) {
        ParsedFeedEventText::ParseError { error: FeedEventParseError::FailedParsingText { event_type, text }, text: t } => {
            assert_eq!(event_type, FeedEventType::Season);
            assert_eq!(text, "Season 4 has begun.");
            assert_eq!(t, "Season 4 has begun.");
        }
        other => panic!("{other:?}"),
    }
    let mut event = feed_event(4, 10, FeedEventType::Game, "Whatever.");
    event.event_type = Err(NotRecognized("Mystery".to_string()));
    match parse_feed_event(&event) {
        ParsedFeedEventText::ParseError { error: FeedEventParseError::EventTypeNotRecognized(NotRecognized(t)), text } => {
            assert_eq!(t, "Mystery");
            assert_eq!(text, "Whatever.");
        }
        other => panic!("{other:?}"),
    }
}

#[test]
fn feed_texts_by_time() {
    let early = feed_event(1, 10, FeedEventType::Game, "");
    let late = feed_event(4, 10, FeedEventType::Game, "");
    let injured = ParsedFeedEventText::InjuredByFallingStar { player: "Nancy Bright" };
    assert_eq!(injured.unparse(&early, FeedEventSource::Team), "Nancy Bright was hit by a Falling Star!");
    assert_eq!(injured.unparse(&late, FeedEventSource::Team), "Nancy Bright was injured by the extreme force of the impact!");
    let equal = ParsedFeedEventText::SingleAttributeEquals { player_name: "Nancy Bright", changing_attribute: Attribute::Contact, value_attribute: Attribute::Muscle };
    assert_eq!(equal.unparse(&early, FeedEventSource::Player), "Nancy Bright's Contact was set to their Muscle.");
    assert_eq!(equal.unparse(&early, FeedEventSource::Team), "Nancy Bright's Contact became equal to their base Muscle.");
    assert_eq!(equal.unparse(&late, FeedEventSource::Team), "Nancy Bright's Contact was set to their Muscle.");
    let item = EmojilessItem { prefix: Some(ItemPrefix::Sharp), item: ItemName::Cap, suffix: Some(ItemSuffix::Cat) };
    assert_eq!(item.to_string(), "Sharp Cap of the Cat");
}

#[test]
fn final_scores_are_written_on_any_day() {
    let result: ParsedFeedEventText<&str> = ParsedFeedEventText::GameResult {
        home_team: EmojiTeam { emoji: "📮", name: "Akron Anteaters Pace Stick" },
        away_team: EmojiTeam { emoji: "🦖", name: "Peoria Monster Monster Monster" },
        home_score: 4,
        away_score: 2,
    };
    let mut event = feed_event(3, 1, FeedEventType::Game, "");
    event.day = Ok(Day::SuperstarDay(255));
    assert_eq!(
        result.unparse(&event, FeedEventSource::Team),
        "🦖 Peoria Monster Monster Monster vs. 📮 Akron Anteaters Pace Stick - FINAL 2-4"
    );
}

#[test]
fn game_feed_forms_are_read() {
    for text in [
        "😇 Ana Lima retired from MMOLB!",
        "😇 Ana Lima retired from MMOLB! Bo Chen was called up to take their place.",
        "🦖 Peoria Monster Monster Monster are Prosperous! They earned 12 🪙.",
        "Ana Lima was infused with a glimmer of celestial energy!",
        "Ana Lima received a 🧢 Cap Delivery.",
    ] {
        let event = feed_event(3, 20, FeedEventType::Game, text);
        let parsed = parse_feed_event(&event);
        assert!(!matches!(parsed, ParsedFeedEventText::ParseError { .. }), "{}", text);
    }
}

#[test]
fn augment_feed_forms_are_read() {
    for text in [
        "Ana Lima gained the Fire Elemental Modification.",
        "Ana Lima was moved to the mound. Bo Chen was sent to the lineup.",
        "Ana Lima was sent to the plate. Bo Chen was pulled from the lineup.",
        "Ana Lima swapped places with Bo Chen.",
        "Ana Lima was Recomposed into Bo Chen.",
    ] {
        let event = feed_event(3, 20, FeedEventType::Augment, text);
        let parsed = parse_feed_event(&event);
        assert!(!matches!(parsed, ParsedFeedEventText::ParseError { .. }), "{}", text);
    }
}

#[test]
fn borrowed_items_keep_their_affixes() {
    let owned: Item<String> = Item {
        item_emoji: "💍".to_string(),
        item: ItemName::Ring,
        affixes: ItemAffixes::PrefixSuffix(vec![ItemPrefix::Sharp], vec![]),
    };
    let borrowed = owned.to_ref();
    assert_eq!(borrowed.affixes, ItemAffixes::PrefixSuffix(vec![ItemPrefix::Sharp], vec![]));
    assert_eq!(borrowed.item_emoji, "💍");
}
