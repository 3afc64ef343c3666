use mmolb_parsing::attributes::AttributeCategory;
use mmolb_parsing::enums::{
    Attribute, Base, BaseNameVariant, Distance, EventType, FairBallDestination, FairBallType, FieldingErrorType, FoulType,
    GameStat, HomeAway, PitchType, Position, StrikeType, TopBottom,
};
use mmolb_parsing::game::{Event, Game, MaybePlayer, NotRecognized};
use mmolb_parsing::innings::{Inning, NotASide};
use mmolb_parsing::places::{Place, Slot};
use mmolb_parsing::records::{default_result, AddedLater, EmptyArrayOr, RemovedLater, StarHelper};
use mmolb_parsing::feed::FeedEventCollection;
use mmolb_parsing::stats::BatterStat;
use mmolb_parsing::time::{Breakpoints, Day, Timestamp};

#[test]
fn break_point_test() {
    assert!(Breakpoints::S2D169.before(1, Some(Day::Day(255)), Some(5)));
    assert!(Breakpoints::S2D169.before(2, Some(Day::Day(5)), Some(5)));
    assert!(Breakpoints::S2D169.before(2, Some(Day::Day(168)), Some(583)));
    assert!(Breakpoints::S2D169.after(2, Some(Day::Day(168)), Some(584)));
    assert!(Breakpoints::S2D169.before(2, Some(Day::Day(169)), Some(93)));
    assert!(Breakpoints::S2D169.after(2, Some(Day::Day(169)), Some(94)));
    assert!(Breakpoints::S2D169.after(2, Some(Day::Day(200)), Some(5)));
    assert!(Breakpoints::S2D169.after(3, Some(Day::Day(255)), Some(5)));
}

#[test]
fn single_day_changes_keep_their_order() {
    // Once an event is at or after a change made on one day, later events are too.
    assert!(Breakpoints::S2D152.after(2, Some(Day::Day(152)), Some(70)));
    assert!(Breakpoints::S2D152.after(2, Some(Day::Day(152)), Some(71)));
    assert!(Breakpoints::S2D152.after(2, Some(Day::Day(153)), Some(0)));
    assert!(Breakpoints::S2D152.before(2, Some(Day::Day(152)), Some(69)));
}

#[test]
fn sides_and_teams() {
    assert_eq!(TopBottom::Top.flip(), TopBottom::Bottom);
    assert_eq!(TopBottom::Top.homeaway(), HomeAway::Away);
    assert_eq!(TopBottom::Top.is_top(), true);
    assert_eq!(TopBottom::Top.is_bottom(), false);
    assert_eq!(TopBottom::from(HomeAway::Away), TopBottom::Top);
    assert_eq!(TopBottom::try_from(0u8), Ok(TopBottom::Top));
    assert_eq!(TopBottom::try_from(2u8), Err(NotASide(2)));
    assert_eq!(u8::from(TopBottom::Bottom), 1);
    assert_eq!(HomeAway::Home.flip(), HomeAway::Away);
    assert_eq!(HomeAway::Home.topbottom(), TopBottom::Bottom);
    assert_eq!(HomeAway::Home.is_home(), true);
    assert_eq!(HomeAway::Home.is_away(), false);
    assert_eq!(HomeAway::from(TopBottom::Top), HomeAway::Away);
    assert_eq!(NotASide(7).to_string(), "7 is not 0 or 1 (2 means gameover, should not reach here)");
}

#[test]
fn innings_advance() {
    assert_eq!(Inning::DuringGame { number: 5, batting_side: TopBottom::Top }.next(false), Some(Inning::DuringGame { number: 5, batting_side: TopBottom::Bottom }));
    assert_eq!(Inning::BeforeGame.next(false), Some(Inning::DuringGame { number: 1, batting_side: TopBottom::Top }));
    assert_eq!(Inning::DuringGame { number: 9, batting_side: TopBottom::Bottom }.next(false), Some(Inning::AfterGame { final_inning_number: 9 }));
    assert_eq!(Inning::DuringGame { number: 9, batting_side: TopBottom::Bottom }.next(true), Some(Inning::DuringGame { number: 10, batting_side: TopBottom::Top }));
    assert_eq!(Inning::AfterGame { final_inning_number: 9 }.next(true), None);
    assert_eq!(Inning::BeforeGame.number(), None);
    assert_eq!(Inning::DuringGame { number: 1, batting_side: TopBottom::Top }.number(), Some(1));
    assert_eq!(Inning::AfterGame { final_inning_number: 9 }.number(), None);
    assert_eq!(Inning::BeforeGame.batting_team(), None);
    assert_eq!(Inning::DuringGame { number: 1, batting_side: TopBottom::Top }.batting_team(), Some(HomeAway::Away));
    assert_eq!(Inning::DuringGame { number: 1, batting_side: TopBottom::Bottom }.batting_team(), Some(HomeAway::Home));
    assert_eq!(Inning::AfterGame { final_inning_number: 9 }.batting_team(), None);
    assert_eq!(Inning::BeforeGame.pitching_team(), None);
    assert_eq!(Inning::DuringGame { number: 1, batting_side: TopBottom::Top }.pitching_team(), Some(HomeAway::Home));
    assert_eq!(Inning::DuringGame { number: 1, batting_side: TopBottom::Bottom }.pitching_team(), Some(HomeAway::Away));
    assert_eq!(Inning::AfterGame { final_inning_number: 9 }.pitching_team(), None);
}

#[test]
fn recorded_innings() {
    assert_eq!(Inning::from_raw(0, 1), Inning::BeforeGame);
    assert_eq!(Inning::from_raw(0, 2), Inning::AfterGame { final_inning_number: 1 });
    assert_eq!(Inning::from_raw(10, 2), Inning::AfterGame { final_inning_number: 9 });
    assert_eq!(Inning::from_raw(3, 1), Inning::DuringGame { number: 3, batting_side: TopBottom::Bottom });
    assert_eq!(Inning::BeforeGame.to_raw(), (0, 1));
    assert_eq!(Inning::AfterGame { final_inning_number: 1 }.to_raw(), (0, 2));
    assert_eq!(Inning::AfterGame { final_inning_number: 9 }.to_raw(), (10, 2));
    assert_eq!(Inning::DuringGame { number: 3, batting_side: TopBottom::Top }.to_raw(), (3, 0));
    for number in 0..=255u8 {
        for side in 0..=2u8 {
            if !(number == 2 && side == 2) {
                assert_eq!(Inning::from_raw(number, side).to_raw(), (number, side));
            }
        }
    }
    // The one record that does not come back: inning 2 after the game reads as a one-inning game.
    assert_eq!(Inning::from_raw(2, 2).to_raw(), (0, 2));
}

#[test]
fn events_from_records() {
    let e = Event::from_raw(1, 0, "Pitch", "Ball. 1-0.".to_string(), Some(4));
    assert_eq!(e.inning, Inning::DuringGame { number: 1, batting_side: TopBottom::Top });
    assert_eq!(e.event, Ok(EventType::Pitch));
    assert_eq!(e.message, "Ball. 1-0.");
    assert_eq!(e.index, Some(4));
    let e = Event::from_raw(0, 1, "Brand New Event", "Hello.".to_string(), None);
    assert_eq!(e.event, Err(NotRecognized("Brand New Event".to_string())));
    assert_eq!(e.inning, Inning::BeforeGame);
}

#[test]
fn named_values() {
    assert_eq!(Position::FirstBaseman.to_string(), "1B");
    assert_eq!(FairBallDestination::ShortStop.to_string(), "the shortstop");
    assert_eq!(FairBallType::GroundBall.to_string(), "ground ball");
    assert_eq!(FairBallType::GroundBall.verb_name(), "grounds");
    assert_eq!(PitchType::KnuckleCurve.to_string(), "Knuckle Curve");
    assert_eq!(StrikeType::Looking.to_string(), "looking");
    assert_eq!(FieldingErrorType::Throwing.to_string(), "Throwing");
    assert_eq!(FieldingErrorType::Throwing.uppercase(), "Throwing");
    assert_eq!(FieldingErrorType::Throwing.lowercase(), "throwing");
    assert_eq!(FoulType::Tip.to_string(), "tip");
    assert_eq!(Base::First.to_string(), "first");
    assert_eq!(Base::First.to_base_str(), "first base");
    assert_eq!(Base::Home.to_base_str(), "home");
    assert_eq!(BaseNameVariant::First.to_string(), "first");
    assert_eq!(BaseNameVariant::OneB.to_string(), "1B");
    assert_eq!(BaseNameVariant::basic_name(Base::First), BaseNameVariant::First);
    assert_eq!(Base::from(BaseNameVariant::OneB), Base::First);
    assert_eq!(Distance::Single.to_string(), "singles");
    assert_eq!(GameStat::GroundedIntoDoublePlay.to_string(), "grounded_into_double_play");
}

#[test]
fn named_values_read_back() {
    assert_eq!(FairBallType::from_str("line drive"), Ok(FairBallType::LineDrive));
    assert!(FairBallType::from_str("Line Drive").is_err());
    assert_eq!(Base::from_str("third"), Ok(Base::Third));
    assert_eq!(BaseNameVariant::from_str("second base"), Ok(BaseNameVariant::SecondBase));
    assert_eq!(Attribute::from_str("Awareness"), Ok(Attribute::Awareness));
    assert_eq!(EventType::from_str("PitchingMatchup"), Ok(EventType::PitchingMatchup));
    assert!(EventType::from_str("pitchingmatchup").is_err());
}

#[test]
fn batter_stats() {
    assert_eq!(BatterStat::FirstBases(1).unparse(), "1 1B");
    assert_eq!(BatterStat::HitsForAtBats { hits: 1, at_bats: 1 }.unparse(), "1 for 1");
    assert_eq!(BatterStat::from_str("3 SO"), Ok(BatterStat::StrikeOuts(3)));
    assert_eq!(BatterStat::from_str("2 for 4"), Ok(BatterStat::HitsForAtBats { hits: 2, at_bats: 4 }));
    assert!(BatterStat::from_str("256 HR").is_err());
}

#[test]
fn places_and_slots() {
    assert_eq!(Place::from_str("SP2"), Ok(Place::StartingPitcher(Some(2))));
    assert_eq!(Place::from_str("SP"), Ok(Place::StartingPitcher(None)));
    assert_eq!(Place::StartingPitcher(Some(2)).to_string(), "SP2");
    assert_eq!(Place::from(Slot::ReliefPitcher(3)), Place::ReliefPitcher(Some(3)));
    assert!(Place::from_str("XX").is_err());
}

#[test]
fn days_from_text() {
    assert_eq!(Day::from_text("Superstar Break"), Some(Day::SuperstarBreak));
    assert_eq!(Day::from_text("Superstar Day 3"), Some(Day::SuperstarDay(3)));
    assert_eq!(Day::from_text("Postseason Round 2"), Some(Day::PostseasonRound(2)));
    assert_eq!(Day::from_text("Superstar Day 300"), None);
    assert_eq!(Day::from_text("Someday"), None);
    assert_eq!(Day::SuperstarDay(3).to_string(), "Superstar Day 3");
    assert_eq!(Day::Day(42).to_string(), "42");
}

#[test]
fn attribute_categories() {
    assert_eq!(AttributeCategory::from(Attribute::Luck), AttributeCategory::Generic);
    assert_eq!(AttributeCategory::from(Attribute::Contact), AttributeCategory::Batting);
    assert_eq!(AttributeCategory::from(Attribute::Speed), AttributeCategory::Baserunning);
    assert_eq!(AttributeCategory::from(Attribute::Velocity), AttributeCategory::Pitching);
    assert_eq!(AttributeCategory::from(Attribute::Arm), AttributeCategory::Defense);
}

#[test]
fn players_and_markers() {
    assert_eq!(MaybePlayer::Player("Nancy Bright").player(), Some("Nancy Bright"));
    assert_eq!(MaybePlayer::<&str>::EmptyString.player(), None);
    assert_eq!(MaybePlayer::from_option(Some(String::new())), MaybePlayer::EmptyString);
    assert_eq!(MaybePlayer::from_option(None), MaybePlayer::Null);
    assert_eq!(MaybePlayer::from_option(Some("Nancy Bright".to_string())).map_as_str(), MaybePlayer::Player("Nancy Bright"));
    assert_eq!(MaybePlayer::<String>::EmptyString.unparse(), Some(String::new()));
    assert_eq!(MaybePlayer::<String>::Null.unparse(), None);
    assert_eq!(Timestamp::Season3RecomposeChange.timestamp(), 1752492600);
    assert_eq!(default_result::<u8, AddedLater>(), Err(AddedLater));
    assert_eq!(RemovedLater::default(), RemovedLater);
}

#[test]
fn game_contexts() {
    let game = Game {
        away_team_emoji: "🦖".to_string(),
        away_team_name: "Peoria Monster Monster Monster".to_string(),
        home_team_emoji: "📮".to_string(),
        home_team_name: "Akron Anteaters Pace Stick".to_string(),
        season: 3,
        day: Ok(Day::Day(10)),
        event_log: vec![],
    };
    let context = game.unparsing_context();
    assert_eq!(context.season, 3);
    assert_eq!(context.day, Some(Day::Day(10)));
    assert_eq!(context.home_emoji_team.name, "Akron Anteaters Pace Stick");
}

#[test]
fn stars_and_collections() {
    assert_eq!(StarHelper::read("⭐⭐⭐"), Some(3));
    assert_eq!(StarHelper::read(""), Some(0));
    assert_eq!(StarHelper::read("⭐*"), None);
    assert_eq!(StarHelper::write(4), "⭐⭐⭐⭐");
    assert_eq!(StarHelper::read(&StarHelper::write(200)), Some(200));
    assert_eq!(EmptyArrayOr::Value(5).value(), Some(5));
    assert_eq!(EmptyArrayOr::<u8>::EmptyArray.value(), None);
    assert_eq!(FeedEventCollection::from_str("team"), Some(FeedEventCollection::Team));
    assert_eq!(FeedEventCollection::Player.as_str(), "player");
    assert_eq!(FeedEventCollection::from_str("Team"), None);
}

#[test]
fn the_last_inning_ends_the_game_without_overtime() {
    let last = Inning::DuringGame { number: 255, batting_side: TopBottom::Bottom };
    assert_eq!(last.next(false), Some(Inning::AfterGame { final_inning_number: 255 }));
    let ninth = Inning::DuringGame { number: 9, batting_side: TopBottom::Top };
    assert_eq!(ninth.next(false), Some(Inning::AfterGame { final_inning_number: 9 }));
    assert_eq!(ninth.next(true), Some(Inning::DuringGame { number: 9, batting_side: TopBottom::Bottom }));
}
