use mmolb_parsing::enums::{Distance, EventType, FairBallDestination, FairBallType, FieldingErrorType, FoulType, GameOverMessage, HomeAway, MoundVisitType, StrikeType, TopBottom};
use mmolb_parsing::game::{Event, Game, NotRecognized};
use mmolb_parsing::innings::Inning;
use mmolb_parsing::parsed_event::{UnparsingContext, Cheer, EmojiTeam, FieldingAttempt, GameEventParseError, KnownBug, ParsedEventMessage, PlacedPlayer, RunnerAdvance, SnappedPhotos, RunnerOut, StartOfInningPitcher};
use mmolb_parsing::parsing::{process_event, process_game};
use mmolb_parsing::places::Place;
use mmolb_parsing::enums::{Base, BaseNameVariant};
use mmolb_parsing::stats::{BatterStat, NowBattingStats};
use mmolb_parsing::time::Day;

fn game(season: u32, day: u16, events: Vec<Event>) -> Game {
    Game {
        away_team_emoji: "🦖".to_string(),
        away_team_name: "Peoria Monster Monster Monster".to_string(),
        home_team_emoji: "📮".to_string(),
        home_team_name: "Akron Anteaters Pace Stick".to_string(),
        season,
        day: Ok(Day::Day(day)),
        event_log: events,
    }
}

fn event(event_type: EventType, message: &str, index: u16) -> Event {
    Event {
        inning: Inning::DuringGame { number: 1, batting_side: TopBottom::Top },
        event: Ok(event_type),
        message: message.to_string(),
        index: Some(index),
    }
}

fn parse_one(season: u32, day: u16, event_type: EventType, message: &str) -> String {
    let g = game(season, day, vec![event(event_type, message, 10)]);
    let parsed = process_event(&g.event_log[0], &g, "some game");
    format!("{:?}", parsed)
}

fn parses_to(season: u32, day: u16, event_type: EventType, message: &str, expected: ParsedEventMessage<&str>) {
    let g = game(season, day, vec![event(event_type, message, 10)]);
    let parsed = process_event(&g.event_log[0], &g, "some game");
    assert_eq!(parsed, expected);
    let context = g.unparsing_context();
    assert_eq!(parsed.unparse(&context, Some(10)), message);
}

#[test]
fn parses_play_ball() {
    parses_to(3, 10, EventType::PlayBall, "\"PLAY BALL.\"", ParsedEventMessage::PlayBall);
}

#[test]
fn parses_game_over() {
    parses_to(3, 10, EventType::GameOver, "\"GAME OVER.\"", ParsedEventMessage::GameOver { message: GameOverMessage::QuotedGAMEOVER });
}

#[test]
fn parses_inning_end() {
    parses_to(3, 10, EventType::InningEnd, "End of the bottom of the 9th.", ParsedEventMessage::InningEnd { number: 9, side: TopBottom::Bottom });
    parses_to(3, 10, EventType::InningEnd, "End of the top of the 1st.", ParsedEventMessage::InningEnd { number: 1, side: TopBottom::Top });
}

#[test]
fn parses_falling_star() {
    parses_to(3, 10, EventType::FallingStar, "<strong>🌠 Nancy Bright is hit by a Falling Star!</strong>", ParsedEventMessage::FallingStar { player_name: "Nancy Bright" });
}

#[test]
fn parses_now_batting() {
    parses_to(3, 10, EventType::NowBatting, "Now batting: Nancy Bright (1st PA of game)",
        ParsedEventMessage::NowBatting { batter: "Nancy Bright", stats: NowBattingStats::FirstPA });
    parses_to(3, 10, EventType::NowBatting, "Now batting: Nancy Bright (1 for 2, 1 1B)",
        ParsedEventMessage::NowBatting { batter: "Nancy Bright", stats: NowBattingStats::Stats(vec![BatterStat::HitsForAtBats { hits: 1, at_bats: 2 }, BatterStat::FirstBases(1)]) });
    parses_to(3, 10, EventType::NowBatting, "Now batting: Nancy Bright",
        ParsedEventMessage::NowBatting { batter: "Nancy Bright", stats: NowBattingStats::NoStats });
}

#[test]
fn parses_recordkeeping() {
    parses_to(3, 10, EventType::Recordkeeping, "🦖 Peoria Monster Monster Monster defeated 📮 Akron Anteaters Pace Stick. Final score: 4-2",
        ParsedEventMessage::Recordkeeping {
            winning_team: EmojiTeam { emoji: "🦖", name: "Peoria Monster Monster Monster" },
            losing_team: EmojiTeam { emoji: "📮", name: "Akron Anteaters Pace Stick" },
            winning_score: 4,
            losing_score: 2,
        });
}

#[test]
fn parses_live_now() {
    parses_to(3, 10, EventType::LiveNow, "🦖 Peoria Monster Monster Monster vs 📮 Akron Anteaters Pace Stick @ The Big Park",
        ParsedEventMessage::LiveNow {
            away_team: EmojiTeam { emoji: "🦖", name: "Peoria Monster Monster Monster" },
            home_team: EmojiTeam { emoji: "📮", name: "Akron Anteaters Pace Stick" },
            stadium: Some("The Big Park"),
        });
    parses_to(2, 10, EventType::LiveNow, "🦖 Peoria Monster Monster Monster @ 📮 Akron Anteaters Pace Stick",
        ParsedEventMessage::LiveNow {
            away_team: EmojiTeam { emoji: "🦖", name: "Peoria Monster Monster Monster" },
            home_team: EmojiTeam { emoji: "📮", name: "Akron Anteaters Pace Stick" },
            stadium: None,
        });
}

#[test]
fn parses_pitching_matchup() {
    parses_to(3, 10, EventType::PitchingMatchup, "🦖 Peoria Monster Monster Monster Jane Doe vs. 📮 Akron Anteaters Pace Stick Bob Roe",
        ParsedEventMessage::PitchingMatchup {
            away_team: EmojiTeam { emoji: "🦖", name: "Peoria Monster Monster Monster" },
            home_team: EmojiTeam { emoji: "📮", name: "Akron Anteaters Pace Stick" },
            home_pitcher: "Bob Roe",
            away_pitcher: "Jane Doe",
        });
}

#[test]
fn parses_lineup() {
    parses_to(3, 10, EventType::AwayLineup, "1. C Bob Smith<br>2. 1B Tom Jones<br>",
        ParsedEventMessage::Lineup {
            side: HomeAway::Away,
            players: vec![
                PlacedPlayer { name: "Bob Smith", place: Place::Catcher },
                PlacedPlayer { name: "Tom Jones", place: Place::FirstBaseman },
            ],
        });
}

#[test]
fn parses_pitches() {
    parses_to(3, 10, EventType::Pitch, "Ball. 1-0.", ParsedEventMessage::Ball {
        steals: vec![], count: (1, 0), cheer: None, aurora_photos: None, ejection: None, door_prizes: vec![], wither: None,
    });
    parses_to(3, 10, EventType::Pitch, "Strike, looking. 0-1.", ParsedEventMessage::Strike {
        strike: StrikeType::Looking, steals: vec![], count: (0, 1), cheer: None, aurora_photos: None, ejection: None, door_prizes: vec![], wither: None,
    });
    parses_to(3, 10, EventType::Pitch, "Foul tip. 1-2.", ParsedEventMessage::Foul {
        foul: FoulType::Tip, steals: vec![], count: (1, 2), cheer: None, aurora_photos: None, door_prizes: vec![], wither: None,
    });
    parses_to(3, 10, EventType::Pitch, "Nancy Bright hits a line drive to left field.", ParsedEventMessage::FairBall {
        batter: "Nancy Bright", fair_ball_type: FairBallType::LineDrive, destination: FairBallDestination::LeftField, cheer: None, aurora_photos: None, door_prizes: vec![],
    });
    parses_to(3, 10, EventType::Pitch, "Ball 4. Nancy Bright walks. <strong>Tom Jones scores!</strong> Bob Smith to third base.", ParsedEventMessage::Walk {
        batter: "Nancy Bright",
        scores: vec!["Tom Jones"],
        advances: vec![RunnerAdvance { runner: "Bob Smith", base: Base::Third }],
        cheer: None, aurora_photos: None, ejection: None, wither: None,
    });
}

#[test]
fn parses_field_events() {
    parses_to(3, 10, EventType::Field, "Nancy Bright singles on a line drive to LF Joe Bo. Tom Jones to second base.", ParsedEventMessage::BatterToBase {
        batter: "Nancy Bright", distance: Distance::Single, fair_ball_type: FairBallType::LineDrive,
        fielder: PlacedPlayer { name: "Joe Bo", place: Place::LeftField },
        scores: vec![], advances: vec![RunnerAdvance { runner: "Tom Jones", base: Base::Second }], ejection: None,
    });
    parses_to(3, 10, EventType::Field, "Nancy Bright grounds out to 1B N. Kitagawa.", ParsedEventMessage::GroundedOut {
        batter: "Nancy Bright", fielders: vec![PlacedPlayer { name: "N. Kitagawa", place: Place::FirstBaseman }],
        scores: vec![], advances: vec![], amazing: false, ejection: None,
    });
    parses_to(3, 10, EventType::Field, "Nancy Bright flies out to CF Joe Bo.", ParsedEventMessage::CaughtOut {
        batter: "Nancy Bright", fair_ball_type: FairBallType::FlyBall, caught_by: PlacedPlayer { name: "Joe Bo", place: Place::CenterField },
        scores: vec![], advances: vec![], sacrifice: false, perfect: false, ejection: None,
    });
    parses_to(3, 10, EventType::Field, "Nancy Bright grounds into a force out, SS Joe Bo to 2B Tom Jones. Bob Smith out at second base.", ParsedEventMessage::ForceOut {
        batter: "Nancy Bright",
        fielders: vec![PlacedPlayer { name: "Joe Bo", place: Place::ShortStop }, PlacedPlayer { name: "Tom Jones", place: Place::SecondBaseman }],
        fair_ball_type: FairBallType::GroundBall,
        out: RunnerOut { runner: "Bob Smith", base: BaseNameVariant::SecondBase },
        scores: vec![], advances: vec![], ejection: None,
    });
    parses_to(3, 10, EventType::Field, "Nancy Bright reaches on a throwing error by SS Joe Bo.", ParsedEventMessage::ReachOnFieldingError {
        batter: "Nancy Bright", fielder: PlacedPlayer { name: "Joe Bo", place: Place::ShortStop }, error: FieldingErrorType::Throwing,
        scores: vec![], advances: vec![], ejection: None,
    });
    parses_to(3, 10, EventType::Field, "Nancy Bright reaches on a fielder's choice, fielded by SS Joe Bo. Throwing error by Joe Bo.", ParsedEventMessage::ReachOnFieldersChoice {
        batter: "Nancy Bright", fielders: vec![PlacedPlayer { name: "Joe Bo", place: Place::ShortStop }],
        result: FieldingAttempt::Error { fielder: "Joe Bo", error: FieldingErrorType::Throwing },
        scores: vec![], advances: vec![], ejection: None,
    });
    parses_to(3, 10, EventType::Field, "<strong>Nancy Bright homers on a fly ball to right field!</strong> <strong>Tom Jones scores!</strong>", ParsedEventMessage::HomeRun {
        batter: "Nancy Bright", fair_ball_type: FairBallType::FlyBall, destination: FairBallDestination::RightField,
        scores: vec!["Tom Jones"], grand_slam: false, ejection: None,
    });
}

#[test]
fn parses_inning_start_and_mound_visits() {
    parses_to(3, 10, EventType::InningStart, "Start of the top of the 1st. 🦖 Peoria Monster Monster Monster batting. 📮 Bob Roe pitching.", ParsedEventMessage::InningStart {
        number: 1, side: TopBottom::Top,
        batting_team: EmojiTeam { emoji: "🦖", name: "Peoria Monster Monster Monster" },
        automatic_runner: None,
        pitcher_status: Some(StartOfInningPitcher::Same { emoji: "📮", name: "Bob Roe" }),
    });
    parses_to(3, 10, EventType::MoundVisit, "The 📮 Akron Anteaters Pace Stick manager is making a mound visit.", ParsedEventMessage::MoundVisit {
        team: EmojiTeam { emoji: "📮", name: "Akron Anteaters Pace Stick" }, mound_visit_type: MoundVisitType::MoundVisit,
    });
    parses_to(3, 10, EventType::MoundVisit, "SP Bob Roe remains in the game.", ParsedEventMessage::PitcherRemains {
        remaining_pitcher: PlacedPlayer { name: "Bob Roe", place: Place::StartingPitcher(None) },
    });
}

#[test]
fn parses_balk() {
    parses_to(3, 10, EventType::Balk, "Balk. Bob Roe dropped the ball. Tom Jones to second base.", ParsedEventMessage::Balk {
        pitcher: "Bob Roe", scores: vec![], advances: vec![RunnerAdvance { runner: "Tom Jones", base: Base::Second }],
    });
}

#[test]
fn cheers_follow_pitches() {
    let text = parse_one(4, 10, EventType::Pitch, "Ball. 1-0. 📣 A tremendous cheer fills the air!");
    assert!(text.contains("Ball"), "{text}");
    let g = game(4, 10, vec![event(EventType::Pitch, "Ball. 1-0. 📣 A tremendous cheer fills the air!", 10)]);
    let parsed = process_event(&g.event_log[0], &g, "some game");
    match parsed {
        ParsedEventMessage::Ball { cheer: Some(c), .. } => assert_eq!(c, Cheer::ATremendousCheerFillsTheAir),
        other => panic!("{other:?}"),
    }
}

#[test]
fn unknown_forms_are_parse_errors() {
    let g = game(3, 10, vec![event(EventType::Pitch, "Something odd happened.", 10)]);
    let parsed = process_event(&g.event_log[0], &g, "some game");
    match parsed {
        ParsedEventMessage::ParseError { error: GameEventParseError::FailedParsingMessage { event_type, message }, message: m } => {
            assert_eq!(event_type, EventType::Pitch);
            assert_eq!(message, "Something odd happened.");
            assert_eq!(m, "Something odd happened.");
        }
        other => panic!("{other:?}"),
    }
    let mut e = event(EventType::Pitch, "Anything.", 3);
    e.event = Err(NotRecognized("Mystery".to_string()));
    let g = game(3, 10, vec![e]);
    let parsed = process_event(&g.event_log[0], &g, "some game");
    match parsed {
        ParsedEventMessage::ParseError { error: GameEventParseError::EventTypeNotRecognized(NotRecognized(t)), message } => {
            assert_eq!(t, "Mystery");
            assert_eq!(message, "Anything.");
        }
        other => panic!("{other:?}"),
    }
}

#[test]
fn known_bugs_override_messages() {
    let mut events = Vec::new();
    for i in 0..200u16 {
        events.push(event(EventType::Field, "Filler.", i));
    }
    events[196].message = "Genevieve Hirose reaches on a fielder's choice out, 1B N. Kitagawa".to_string();
    let g = game(2, 100, events);
    let parsed = process_game(&g, "6851bb34f419fdc04f9d0ed5");
    assert_eq!(parsed.len(), 200);
    assert_eq!(parsed[196], ParsedEventMessage::KnownBug { bug: KnownBug::FirstBasemanChoosesAGhost { batter: "Genevieve Hirose", first_baseman: "N. Kitagawa" } });
    assert!(matches!(parsed[195], ParsedEventMessage::ParseError { .. }));
}


#[test]
fn writing_depends_on_season_and_day_only() {
    let message = ParsedEventMessage::<&str>::Ball {
        steals: vec![], count: (3, 2), cheer: Some(Cheer::ATremendousCheerFillsTheAir), aurora_photos: None, ejection: None, door_prizes: vec![], wither: None,
    };
    let a = game(2, 100, vec![]);
    let mut b = game(2, 100, vec![]);
    b.home_team_name = "Other Team".to_string();
    b.away_team_emoji = "🐢".to_string();
    assert_eq!(message.unparse(&a.unparsing_context(), Some(3)), message.unparse(&b.unparsing_context(), Some(3)));
    // Before season 2, day 169, pitches began with a space; cheers got their emoji in season 3.
    assert_eq!(message.unparse(&a.unparsing_context(), Some(3)), " Ball. 3-2. A tremendous cheer fills the air!");
    let c = game(4, 10, vec![]);
    assert_eq!(message.unparse(&c.unparsing_context(), Some(3)), "Ball. 3-2. 📣 A tremendous cheer fills the air!");
}

#[test]
fn old_pitches_keep_their_space() {
    parses_to(2, 100, EventType::Pitch, " Ball. 3-1.", ParsedEventMessage::Ball {
        steals: vec![], count: (3, 1), cheer: None, aurora_photos: None, ejection: None, door_prizes: vec![], wither: None,
    });
    parses_to(2, 100, EventType::Pitch, " Strike, swinging. 0-2.", ParsedEventMessage::Strike {
        strike: StrikeType::Swinging, steals: vec![], count: (0, 2), cheer: None, aurora_photos: None, ejection: None, door_prizes: vec![], wither: None,
    });
    // Without its space, an old ball does not write back, so it is not read.
    let text = parse_one(2, 100, EventType::Pitch, "Ball. 3-1.");
    assert!(text.starts_with("ParseError"), "{text}");
}

#[test]
fn steals_follow_pitches() {
    parses_to(3, 10, EventType::Pitch, "Ball. 1-1. Tom Jones steals second base! <strong>Bob Smith steals home!</strong>", ParsedEventMessage::Ball {
        steals: vec![
            mmolb_parsing::parsed_event::BaseSteal { runner: "Tom Jones", base: Base::Second, caught: false },
            mmolb_parsing::parsed_event::BaseSteal { runner: "Bob Smith", base: Base::Home, caught: false },
        ],
        count: (1, 1), cheer: None, aurora_photos: None, ejection: None, door_prizes: vec![], wither: None,
    });
    parses_to(3, 10, EventType::Pitch, "Strike, looking. 0-1. Tom Jones is caught stealing third base.", ParsedEventMessage::Strike {
        strike: StrikeType::Looking,
        steals: vec![mmolb_parsing::parsed_event::BaseSteal { runner: "Tom Jones", base: Base::Third, caught: true }],
        count: (0, 1), cheer: None, aurora_photos: None, ejection: None, door_prizes: vec![], wither: None,
    });
}

#[test]
fn aurora_photos_follow_balls() {
    parses_to(4, 10, EventType::Pitch, "Ball. 1-0. The Geomagnetic Storms Intensify! 🦖 C Bob Smith and 📮 1B Tom Jones snapped photos of the aurora.", ParsedEventMessage::Ball {
        steals: vec![],
        count: (1, 0),
        cheer: None,
        aurora_photos: Some(mmolb_parsing::parsed_event::SnappedPhotos {
            first_team_emoji: "🦖",
            first_player: PlacedPlayer { name: "Bob Smith", place: Place::Catcher },
            second_team_emoji: "📮",
            second_player: PlacedPlayer { name: "Tom Jones", place: Place::FirstBaseman },
        }),
        ejection: None, door_prizes: vec![], wither: None,
    });
}

#[test]
fn cheers_before_their_emoji() {
    parses_to(3, 2, EventType::Pitch, "Strike, swinging. 1-1. A tremendous cheer fills the air!", ParsedEventMessage::Strike {
        strike: StrikeType::Swinging, steals: vec![], count: (1, 1), cheer: Some(Cheer::ATremendousCheerFillsTheAir),
        aurora_photos: None, ejection: None, door_prizes: vec![], wither: None,
    });
    // Cheers were not written before season 3.
    let text = parse_one(2, 200, EventType::Pitch, "Strike, swinging. 1-1. A tremendous cheer fills the air!");
    assert!(text.starts_with("ParseError"), "{text}");
}

#[test]
fn parses_weather_reflection() {
    parses_to(3, 10, EventType::Weather, "🪞 The reflection shatters. 📮 Akron Anteaters Pace Stick received a Fragment of Reflection.",
        ParsedEventMessage::WeatherReflection { team: EmojiTeam { emoji: "📮", name: "Akron Anteaters Pace Stick" } });
    let text = parse_one(3, 10, EventType::Weather, "🪞 The reflection shatters. Nobody received a Fragment of Reflection.");
    assert!(text.starts_with("ParseError"), "{text}");
}

#[test]
fn plain_walks_and_balks() {
    parses_to(2, 100, EventType::Pitch, " Ball 4. Nancy Bright walks.", ParsedEventMessage::Walk {
        batter: "Nancy Bright", scores: vec![], advances: vec![], cheer: None, aurora_photos: None, ejection: None, wither: None,
    });
    parses_to(3, 10, EventType::Pitch, "Ball 4. Nancy Bright walks.", ParsedEventMessage::Walk {
        batter: "Nancy Bright", scores: vec![], advances: vec![], cheer: None, aurora_photos: None, ejection: None, wither: None,
    });
    parses_to(3, 10, EventType::Balk, "Balk. Bob Roe dropped the ball.", ParsedEventMessage::Balk {
        pitcher: "Bob Roe", scores: vec![], advances: vec![],
    });
}

#[test]
fn inning_starts_with_and_without_pitcher() {
    parses_to(1, 10, EventType::InningStart, "Start of the top of the 12th. 🦖 Peoria Monster Monster Monster batting.", ParsedEventMessage::InningStart {
        number: 12, side: TopBottom::Top,
        batting_team: EmojiTeam { emoji: "🦖", name: "Peoria Monster Monster Monster" },
        automatic_runner: None,
        pitcher_status: None,
    });
    parses_to(3, 10, EventType::InningStart, "Start of the top of the 3rd. 🦖 Peoria Monster Monster Monster batting. 📮 Bob Roe pitching.", ParsedEventMessage::InningStart {
        number: 3, side: TopBottom::Top,
        batting_team: EmojiTeam { emoji: "🦖", name: "Peoria Monster Monster Monster" },
        automatic_runner: None,
        pitcher_status: Some(StartOfInningPitcher::Same { emoji: "📮", name: "Bob Roe" }),
    });
}

#[test]
fn batters_come_up_with_several_statistics() {
    parses_to(3, 10, EventType::NowBatting, "Now batting: Bob Roe (12 for 13, 2 HR, 1 GIDP)",
        ParsedEventMessage::NowBatting { batter: "Bob Roe", stats: NowBattingStats::Stats(vec![
            BatterStat::HitsForAtBats { hits: 12, at_bats: 13 }, BatterStat::HomeRuns(2), BatterStat::GroundIntoDoublePlays(1),
        ]) });
    let text = parse_one(3, 10, EventType::NowBatting, "Now batting: Bob Roe (12 for 13, 2 XYZ)");
    assert!(text.starts_with("NowBatting"), "{text}");
}

#[test]
fn lineups_number_their_players() {
    parses_to(3, 10, EventType::HomeLineup, "1. SP1 Bob Smith<br>2. RP Tom Jones<br>3. DH Ann Lee<br>",
        ParsedEventMessage::Lineup {
            side: HomeAway::Home,
            players: vec![
                PlacedPlayer { name: "Bob Smith", place: Place::StartingPitcher(Some(1)) },
                PlacedPlayer { name: "Tom Jones", place: Place::ReliefPitcher(None) },
                PlacedPlayer { name: "Ann Lee", place: Place::DesignatedHitter },
            ],
        });
    let text = parse_one(3, 10, EventType::HomeLineup, "1. C Bob Smith<br>3. 1B Tom Jones<br>");
    assert!(text.starts_with("ParseError"), "{text}");
}

#[test]
fn solo_home_runs() {
    parses_to(3, 10, EventType::Field, "<strong>Nancy Bright homers on a line drive to the shortstop!</strong>", ParsedEventMessage::HomeRun {
        batter: "Nancy Bright", fair_ball_type: FairBallType::LineDrive, destination: FairBallDestination::ShortStop,
        scores: vec![], grand_slam: false, ejection: None,
    });
}

#[test]
fn old_balls_in_play_keep_their_space() {
    parses_to(1, 20, EventType::Pitch, " Nancy Bright hits a ground ball to the pitcher.", ParsedEventMessage::FairBall {
        batter: "Nancy Bright", fair_ball_type: FairBallType::GroundBall, destination: FairBallDestination::Pitcher,
        cheer: None, aurora_photos: None, door_prizes: vec![],
    });
}

#[test]
fn batters_reach_base() {
    parses_to(3, 10, EventType::Field, "Nancy Bright doubles on a fly ball to LF Bob Roe.", ParsedEventMessage::BatterToBase {
        batter: "Nancy Bright", distance: Distance::Double, fair_ball_type: FairBallType::FlyBall,
        fielder: PlacedPlayer { name: "Bob Roe", place: Place::LeftField },
        scores: vec![], advances: vec![], ejection: None,
    });
}

#[test]
fn batters_ground_out() {
    parses_to(3, 10, EventType::Field, "Nancy Bright grounds out to 3B Bob Roe.", ParsedEventMessage::GroundedOut {
        batter: "Nancy Bright", fielders: vec![PlacedPlayer { name: "Bob Roe", place: Place::ThirdBaseman }],
        scores: vec![], advances: vec![], amazing: false, ejection: None,
    });
}

#[test]
fn batters_caught_out() {
    parses_to(3, 10, EventType::Field, "Nancy Bright pops out to C Bob Roe.", ParsedEventMessage::CaughtOut {
        batter: "Nancy Bright", fair_ball_type: FairBallType::Popup,
        caught_by: PlacedPlayer { name: "Bob Roe", place: Place::Catcher },
        scores: vec![], advances: vec![], sacrifice: false, perfect: false, ejection: None,
    });
}

#[test]
fn inning_ends_are_written_on_any_day() {
    let context = UnparsingContext {
        season: 3,
        day: Some(Day::SuperstarDay(255)),
        away_emoji_team: EmojiTeam { emoji: "🦖", name: "Peoria Monster Monster Monster" },
        home_emoji_team: EmojiTeam { emoji: "📮", name: "Akron Anteaters Pace Stick" },
    };
    let m: ParsedEventMessage<&str> = ParsedEventMessage::InningEnd { number: 12, side: TopBottom::Bottom };
    assert_eq!(m.unparse(&context, Some(3)), "End of the bottom of the 12th.");
    let m: ParsedEventMessage<&str> = ParsedEventMessage::InningEnd { number: 21, side: TopBottom::Top };
    assert_eq!(m.unparse(&context, None), "End of the top of the 21st.");
}

#[test]
fn force_outs_and_errors_are_read() {
    let force = "Ana Lima grounds into a force out, 2B Bo Chen unassisted. Cy Dee out at second base.";
    assert!(!parse_one(3, 20, EventType::Field, force).starts_with("ParseError"));
    let double = "Ana Lima lines into a double play, SS Bo Chen unassisted. Cy Dee out at first base.";
    assert!(!parse_one(3, 20, EventType::Field, double).starts_with("ParseError"));
    let choice = "Ana Lima reaches on a fielder's choice out, 3B Bo Chen unassisted. Cy Dee out at home.";
    assert!(!parse_one(3, 20, EventType::Field, choice).starts_with("ParseError"));
    let error = "Ana Lima reaches on a throwing error by SS Bo Chen.";
    parses_to(3, 20, EventType::Field, error, ParsedEventMessage::ReachOnFieldingError {
        batter: "Ana Lima",
        fielder: PlacedPlayer { name: "Bo Chen", place: Place::ShortStop },
        error: FieldingErrorType::Throwing,
        scores: vec![],
        advances: vec![],
        ejection: None,
    });
}

#[test]
fn parties_are_read() {
    let text = "<strong>🥳 Ana Lima and Bo Chen are Partying!</strong> Ana Lima gained +5 Priority. Bo Chen gained +7 Luck. Both players lose 4 Durability.";
    assert!(parse_one(3, 20, EventType::Party, text).starts_with("Party"));
}

#[test]
fn a_steal_after_a_ball_is_read() {
    let text = "Ball. 1-0. Ana Lima steals second base!";
    let s = parse_one(3, 20, EventType::Pitch, text);
    assert!(s.starts_with("Ball"));
    assert!(s.contains("Ana Lima"));
}

#[test]
fn a_run_scored_on_a_walk_is_read() {
    let text = "Ball 4. Ana Lima walks. <strong>Rui Costa scores!</strong>";
    parses_to(3, 20, EventType::Pitch, text, ParsedEventMessage::Walk {
        batter: "Ana Lima",
        scores: vec!["Rui Costa"],
        advances: vec![],
        cheer: None,
        aurora_photos: None,
        ejection: None,
        wither: None,
    });
}

#[test]
fn a_run_scored_on_a_hit_is_read() {
    parses_to(3, 10, EventType::Field, "Nancy Bright singles on a ground ball to RF Bob Roe. <strong>Tom Jones scores!</strong>", ParsedEventMessage::BatterToBase {
        batter: "Nancy Bright", distance: Distance::Single, fair_ball_type: FairBallType::GroundBall,
        fielder: PlacedPlayer { name: "Bob Roe", place: Place::RightField },
        scores: vec!["Tom Jones"], advances: vec![], ejection: None,
    });
}

#[test]
fn a_runner_advancing_on_a_hit_is_read() {
    parses_to(3, 10, EventType::Field, "Nancy Bright doubles on a line drive to CF Bob Roe. Tom Jones to third base.", ParsedEventMessage::BatterToBase {
        batter: "Nancy Bright", distance: Distance::Double, fair_ball_type: FairBallType::LineDrive,
        fielder: PlacedPlayer { name: "Bob Roe", place: Place::CenterField },
        scores: vec![], advances: vec![RunnerAdvance { runner: "Tom Jones", base: Base::Third }], ejection: None,
    });
}

#[test]
fn a_runner_advancing_on_a_walk_is_read() {
    parses_to(3, 10, EventType::Pitch, "Ball 4. Nancy Bright walks. Tom Jones to second base.", ParsedEventMessage::Walk {
        batter: "Nancy Bright",
        scores: vec![],
        advances: vec![RunnerAdvance { runner: "Tom Jones", base: Base::Second }],
        cheer: None,
        aurora_photos: None,
        ejection: None,
        wither: None,
    });
}

#[test]
fn a_cheer_after_a_walk_is_read() {
    parses_to(4, 10, EventType::Pitch, "Ball 4. Nancy Bright walks. 📣 Everyone cheers at once!", ParsedEventMessage::Walk {
        batter: "Nancy Bright",
        scores: vec![],
        advances: vec![],
        cheer: Some(Cheer::EveryoneCheersAtOnce),
        aurora_photos: None,
        ejection: None,
        wither: None,
    });
}

#[test]
fn runs_scored_on_a_home_run_are_read() {
    parses_to(3, 10, EventType::Field, "<strong>Nancy Bright homers on a fly ball to left field!</strong> <strong>Tom Jones scores!</strong> <strong>Ana Lima scores!</strong>", ParsedEventMessage::HomeRun {
        batter: "Nancy Bright", fair_ball_type: FairBallType::FlyBall, destination: FairBallDestination::LeftField,
        scores: vec!["Tom Jones", "Ana Lima"], grand_slam: false, ejection: None,
    });
}

#[test]
fn several_runners_moving_on_a_hit_are_read() {
    parses_to(3, 10, EventType::Field, "Nancy Bright singles on a ground ball to RF Bob Roe. <strong>Tom Jones scores!</strong> <strong>Ana Lima scores!</strong> Rui Costa to second base. Bia Sousa to third base.", ParsedEventMessage::BatterToBase {
        batter: "Nancy Bright", distance: Distance::Single, fair_ball_type: FairBallType::GroundBall,
        fielder: PlacedPlayer { name: "Bob Roe", place: Place::RightField },
        scores: vec!["Tom Jones", "Ana Lima"],
        advances: vec![RunnerAdvance { runner: "Rui Costa", base: Base::Second }, RunnerAdvance { runner: "Bia Sousa", base: Base::Third }],
        ejection: None,
    });
}

#[test]
fn runners_moving_on_a_walk_are_read() {
    parses_to(3, 10, EventType::Pitch, "Ball 4. Nancy Bright walks. <strong>Tom Jones scores!</strong> Ana Lima to third base.", ParsedEventMessage::Walk {
        batter: "Nancy Bright",
        scores: vec!["Tom Jones"],
        advances: vec![RunnerAdvance { runner: "Ana Lima", base: Base::Third }],
        cheer: None,
        aurora_photos: None,
        ejection: None,
        wither: None,
    });
}

#[test]
fn runners_moving_on_a_ground_out_are_read() {
    parses_to(3, 10, EventType::Field, "Nancy Bright grounds out to 2B Bob Roe. <strong>Tom Jones scores!</strong> Ana Lima to third base.", ParsedEventMessage::GroundedOut {
        batter: "Nancy Bright", fielders: vec![PlacedPlayer { name: "Bob Roe", place: Place::SecondBaseman }],
        scores: vec!["Tom Jones"], advances: vec![RunnerAdvance { runner: "Ana Lima", base: Base::Third }], amazing: false, ejection: None,
    });
}

#[test]
fn runners_moving_on_a_fly_out_are_read() {
    parses_to(3, 10, EventType::Field, "Nancy Bright flies out to CF Bob Roe. Ana Lima to third base.", ParsedEventMessage::CaughtOut {
        batter: "Nancy Bright", fair_ball_type: FairBallType::FlyBall, caught_by: PlacedPlayer { name: "Bob Roe", place: Place::CenterField },
        scores: vec![], advances: vec![RunnerAdvance { runner: "Ana Lima", base: Base::Third }], sacrifice: false, perfect: false, ejection: None,
    });
}

#[test]
fn a_cheer_after_a_ball_in_play_is_read() {
    parses_to(4, 10, EventType::Pitch, "Nancy Bright hits a line drive to left field. 📣 Everyone cheers at once!", ParsedEventMessage::FairBall {
        batter: "Nancy Bright", fair_ball_type: FairBallType::LineDrive, destination: FairBallDestination::LeftField,
        cheer: Some(Cheer::EveryoneCheersAtOnce), aurora_photos: None, door_prizes: vec![],
    });
}

#[test]
fn cheers_after_balls_strikes_and_fouls_are_read() {
    parses_to(4, 10, EventType::Pitch, "Ball. 1-0. 📣 Everyone cheers at once!", ParsedEventMessage::Ball {
        steals: vec![], count: (1, 0), cheer: Some(Cheer::EveryoneCheersAtOnce), aurora_photos: None, ejection: None, door_prizes: vec![], wither: None,
    });
    parses_to(4, 10, EventType::Pitch, "Strike, swinging. 0-1. 📣 Everyone cheers at once!", ParsedEventMessage::Strike {
        strike: StrikeType::Swinging, steals: vec![], count: (0, 1), cheer: Some(Cheer::EveryoneCheersAtOnce), aurora_photos: None, ejection: None, door_prizes: vec![], wither: None,
    });
    parses_to(4, 10, EventType::Pitch, "Foul tip. 1-2. 📣 Everyone cheers at once!", ParsedEventMessage::Foul {
        foul: FoulType::Tip, steals: vec![], count: (1, 2), cheer: Some(Cheer::EveryoneCheersAtOnce), aurora_photos: None, door_prizes: vec![], wither: None,
    });
}

#[test]
fn aurora_photos_after_a_ball_are_read() {
    parses_to(4, 10, EventType::Pitch, "Ball. 2-1. The Geomagnetic Storms Intensify! 📮 LF Ana Lima and 🦖 CF Rui Costa snapped photos of the aurora.", ParsedEventMessage::Ball {
        steals: vec![], count: (2, 1), cheer: None,
        aurora_photos: Some(SnappedPhotos {
            first_team_emoji: "📮", first_player: PlacedPlayer { name: "Ana Lima", place: Place::LeftField },
            second_team_emoji: "🦖", second_player: PlacedPlayer { name: "Rui Costa", place: Place::CenterField },
        }),
        ejection: None, door_prizes: vec![], wither: None,
    });
}
