//! The named values that appear in game data and event messages.

use vstd::prelude::*;
use crate::text::str_eq;

verus! {

/// The error of reading text that names no value of the expected kind.
#[derive(Debug, Clone, Copy, PartialEq, Eq, Structural)]
pub enum ParseError {
    VariantNotFound,
}

/// Possible values of the "event" field of an mmolb event.
#[derive(Debug, Clone, Copy, PartialEq, Eq, Hash, Structural)]
pub enum EventType {
    PitchingMatchup,
    MoundVisit,
    GameOver,
    Field,
    HomeLineup,
    Recordkeeping,
    LiveNow,
    InningStart,
    Pitch,
    AwayLineup,
    InningEnd,
    PlayBall,
    NowBatting,
    WeatherDelivery,
    FallingStar,
    Weather,
    HrcLiveNow,
    HrcPitchingMatchup,
    HrcBattingMatchup,
    HrcPlayBall,
    HrcChange,
    WeatherShipment,
    WeatherSpecialDelivery,
    Balk,
    WeatherProsperity,
    PhotoContest,
    Party,
}

impl EventType {
    /// The text by which this value is written in event messages.
    pub open spec fn spec_name(self) -> Seq<char> {
        match self {
            EventType::PitchingMatchup => "PitchingMatchup"@,
            EventType::MoundVisit => "MoundVisit"@,
            EventType::GameOver => "GameOver"@,
            EventType::Field => "Field"@,
            EventType::HomeLineup => "HomeLineup"@,
            EventType::Recordkeeping => "Recordkeeping"@,
            EventType::LiveNow => "LiveNow"@,
            EventType::InningStart => "InningStart"@,
            EventType::Pitch => "Pitch"@,
            EventType::AwayLineup => "AwayLineup"@,
            EventType::InningEnd => "InningEnd"@,
            EventType::PlayBall => "PlayBall"@,
            EventType::NowBatting => "NowBatting"@,
            EventType::WeatherDelivery => "Weather_Delivery"@,
            EventType::FallingStar => "FallingStar"@,
            EventType::Weather => "Weather"@,
            EventType::HrcLiveNow => "HRC_LiveNow"@,
            EventType::HrcPitchingMatchup => "HRC_PitchingMatchup"@,
            EventType::HrcBattingMatchup => "HRC_BattingMatchup"@,
            EventType::HrcPlayBall => "HRC_PlayBall"@,
            EventType::HrcChange => "HRC_Change"@,
            EventType::WeatherShipment => "Weather_Shipment"@,
            EventType::WeatherSpecialDelivery => "Weather_SpecialDelivery"@,
            EventType::Balk => "Balk"@,
            EventType::WeatherProsperity => "Weather_Prosperity"@,
            EventType::PhotoContest => "PhotoContest"@,
            EventType::Party => "Party"@,
        }
    }

    /// The text by which this value is written.
    pub fn as_str(self) -> (r: &'static str)
        ensures
            r@ == self.spec_name(),
    {
        match self {
            EventType::PitchingMatchup => "PitchingMatchup",
            EventType::MoundVisit => "MoundVisit",
            EventType::GameOver => "GameOver",
            EventType::Field => "Field",
            EventType::HomeLineup => "HomeLineup",
            EventType::Recordkeeping => "Recordkeeping",
            EventType::LiveNow => "LiveNow",
            EventType::InningStart => "InningStart",
            EventType::Pitch => "Pitch",
            EventType::AwayLineup => "AwayLineup",
            EventType::InningEnd => "InningEnd",
            EventType::PlayBall => "PlayBall",
            EventType::NowBatting => "NowBatting",
            EventType::WeatherDelivery => "Weather_Delivery",
            EventType::FallingStar => "FallingStar",
            EventType::Weather => "Weather",
            EventType::HrcLiveNow => "HRC_LiveNow",
            EventType::HrcPitchingMatchup => "HRC_PitchingMatchup",
            EventType::HrcBattingMatchup => "HRC_BattingMatchup",
            EventType::HrcPlayBall => "HRC_PlayBall",
            EventType::HrcChange => "HRC_Change",
            EventType::WeatherShipment => "Weather_Shipment",
            EventType::WeatherSpecialDelivery => "Weather_SpecialDelivery",
            EventType::Balk => "Balk",
            EventType::WeatherProsperity => "Weather_Prosperity",
            EventType::PhotoContest => "PhotoContest",
            EventType::Party => "Party",
        }
    }

    /// The text by which this value is written, as an owned string.
    pub fn to_string(&self) -> (r: String)
        ensures
            r@ == self.spec_name(),
    {
        String::from_str(self.as_str())
    }

    /// The known value written as `s`, if any.
    pub open spec fn spec_parse(s: Seq<char>) -> Option<EventType> {
        if s.len() == 15 {
            if s == "PitchingMatchup"@ { Some(EventType::PitchingMatchup) }
            else { None }
        }
        else if s.len() == 10 {
            if s == "MoundVisit"@ { Some(EventType::MoundVisit) }
            else if s == "HomeLineup"@ { Some(EventType::HomeLineup) }
            else if s == "AwayLineup"@ { Some(EventType::AwayLineup) }
            else if s == "NowBatting"@ { Some(EventType::NowBatting) }
            else if s == "HRC_Change"@ { Some(EventType::HrcChange) }
            else { None }
        }
        else if s.len() == 8 {
            if s == "GameOver"@ { Some(EventType::GameOver) }
            else if s == "PlayBall"@ { Some(EventType::PlayBall) }
            else { None }
        }
        else if s.len() == 5 {
            if s == "Field"@ { Some(EventType::Field) }
            else if s == "Pitch"@ { Some(EventType::Pitch) }
            else if s == "Party"@ { Some(EventType::Party) }
            else { None }
        }
        else if s.len() == 13 {
            if s == "Recordkeeping"@ { Some(EventType::Recordkeeping) }
            else { None }
        }
        else if s.len() == 7 {
            if s == "LiveNow"@ { Some(EventType::LiveNow) }
            else if s == "Weather"@ { Some(EventType::Weather) }
            else { None }
        }
        else if s.len() == 11 {
            if s == "InningStart"@ { Some(EventType::InningStart) }
            else if s == "FallingStar"@ { Some(EventType::FallingStar) }
            else if s == "HRC_LiveNow"@ { Some(EventType::HrcLiveNow) }
            else { None }
        }
        else if s.len() == 9 {
            if s == "InningEnd"@ { Some(EventType::InningEnd) }
            else { None }
        }
        else if s.len() == 16 {
            if s == "Weather_Delivery"@ { Some(EventType::WeatherDelivery) }
            else if s == "Weather_Shipment"@ { Some(EventType::WeatherShipment) }
            else { None }
        }
        else if s.len() == 19 {
            if s == "HRC_PitchingMatchup"@ { Some(EventType::HrcPitchingMatchup) }
            else { None }
        }
        else if s.len() == 18 {
            if s == "HRC_BattingMatchup"@ { Some(EventType::HrcBattingMatchup) }
            else if s == "Weather_Prosperity"@ { Some(EventType::WeatherProsperity) }
            else { None }
        }
        else if s.len() == 12 {
            if s == "HRC_PlayBall"@ { Some(EventType::HrcPlayBall) }
            else if s == "PhotoContest"@ { Some(EventType::PhotoContest) }
            else { None }
        }
        else if s.len() == 23 {
            if s == "Weather_SpecialDelivery"@ { Some(EventType::WeatherSpecialDelivery) }
            else { None }
        }
        else if s.len() == 4 {
            if s == "Balk"@ { Some(EventType::Balk) }
            else { None }
        }
        else { None }
    }

    /// Reads a value from its written form.
    pub fn from_str(s: &str) -> (r: Result<EventType, ParseError>)
        ensures
            match r {
                Ok(x) => EventType::spec_parse(s@) == Some(x),
                Err(_) => EventType::spec_parse(s@) is None,
            },
    {
        if str_eq(s, "PitchingMatchup") {
            proof { reveal_strlit("PitchingMatchup"); }
            return Ok(EventType::PitchingMatchup);
        }
        if str_eq(s, "MoundVisit") {
            proof { reveal_strlit("MoundVisit"); }
            return Ok(EventType::MoundVisit);
        }
        if str_eq(s, "GameOver") {
            proof { reveal_strlit("GameOver"); }
            return Ok(EventType::GameOver);
        }
        if str_eq(s, "Field") {
            proof { reveal_strlit("Field"); }
            return Ok(EventType::Field);
        }
        if str_eq(s, "HomeLineup") {
            proof { reveal_strlit("HomeLineup"); }
            return Ok(EventType::HomeLineup);
        }
        if str_eq(s, "Recordkeeping") {
            proof { reveal_strlit("Recordkeeping"); }
            return Ok(EventType::Recordkeeping);
        }
        if str_eq(s, "LiveNow") {
            proof { reveal_strlit("LiveNow"); }
            return Ok(EventType::LiveNow);
        }
        if str_eq(s, "InningStart") {
            proof { reveal_strlit("InningStart"); }
            return Ok(EventType::InningStart);
        }
        if str_eq(s, "Pitch") {
            proof { reveal_strlit("Pitch"); }
            return Ok(EventType::Pitch);
        }
        if str_eq(s, "AwayLineup") {
            proof { reveal_strlit("AwayLineup"); }
            return Ok(EventType::AwayLineup);
        }
        if str_eq(s, "InningEnd") {
            proof { reveal_strlit("InningEnd"); }
            return Ok(EventType::InningEnd);
        }
        if str_eq(s, "PlayBall") {
            proof { reveal_strlit("PlayBall"); }
            return Ok(EventType::PlayBall);
        }
        if str_eq(s, "NowBatting") {
            proof { reveal_strlit("NowBatting"); }
            return Ok(EventType::NowBatting);
        }
        if str_eq(s, "Weather_Delivery") {
            proof { reveal_strlit("Weather_Delivery"); }
            return Ok(EventType::WeatherDelivery);
        }
        if str_eq(s, "FallingStar") {
            proof { reveal_strlit("FallingStar"); }
            return Ok(EventType::FallingStar);
        }
        if str_eq(s, "Weather") {
            proof { reveal_strlit("Weather"); }
            return Ok(EventType::Weather);
        }
        if str_eq(s, "HRC_LiveNow") {
            proof { reveal_strlit("HRC_LiveNow"); }
            return Ok(EventType::HrcLiveNow);
        }
        if str_eq(s, "HRC_PitchingMatchup") {
            proof { reveal_strlit("HRC_PitchingMatchup"); }
            return Ok(EventType::HrcPitchingMatchup);
        }
        if str_eq(s, "HRC_BattingMatchup") {
            proof { reveal_strlit("HRC_BattingMatchup"); }
            return Ok(EventType::HrcBattingMatchup);
        }
        if str_eq(s, "HRC_PlayBall") {
            proof { reveal_strlit("HRC_PlayBall"); }
            return Ok(EventType::HrcPlayBall);
        }
        if str_eq(s, "HRC_Change") {
            proof { reveal_strlit("HRC_Change"); }
            return Ok(EventType::HrcChange);
        }
        if str_eq(s, "Weather_Shipment") {
            proof { reveal_strlit("Weather_Shipment"); }
            return Ok(EventType::WeatherShipment);
        }
        if str_eq(s, "Weather_SpecialDelivery") {
            proof { reveal_strlit("Weather_SpecialDelivery"); }
            return Ok(EventType::WeatherSpecialDelivery);
        }
        if str_eq(s, "Balk") {
            proof { reveal_strlit("Balk"); }
            return Ok(EventType::Balk);
        }
        if str_eq(s, "Weather_Prosperity") {
            proof { reveal_strlit("Weather_Prosperity"); }
            return Ok(EventType::WeatherProsperity);
        }
        if str_eq(s, "PhotoContest") {
            proof { reveal_strlit("PhotoContest"); }
            return Ok(EventType::PhotoContest);
        }
        if str_eq(s, "Party") {
            proof { reveal_strlit("Party"); }
            return Ok(EventType::Party);
        }
        Err(ParseError::VariantNotFound)
    }

    /// Reading the written form of a known value gives that value back.
    pub proof fn lemma_parse_name(self)
        ensures
            EventType::spec_parse(self.spec_name()) == Some(self),
    {
        match self {
            EventType::PitchingMatchup => {
                reveal_strlit("PitchingMatchup");
            }
            EventType::MoundVisit => {
                reveal_strlit("MoundVisit");
            }
            EventType::GameOver => {
                reveal_strlit("GameOver");
            }
            EventType::Field => {
                reveal_strlit("Field");
            }
            EventType::HomeLineup => {
                reveal_strlit("HomeLineup");
                reveal_strlit("MoundVisit"); assert("HomeLineup"@[0] != "MoundVisit"@[0]);
            }
            EventType::Recordkeeping => {
                reveal_strlit("Recordkeeping");
            }
            EventType::LiveNow => {
                reveal_strlit("LiveNow");
            }
            EventType::InningStart => {
                reveal_strlit("InningStart");
            }
            EventType::Pitch => {
                reveal_strlit("Pitch");
                reveal_strlit("Field"); assert("Pitch"@[0] != "Field"@[0]);
            }
            EventType::AwayLineup => {
                reveal_strlit("AwayLineup");
                reveal_strlit("MoundVisit"); assert("AwayLineup"@[0] != "MoundVisit"@[0]);
                reveal_strlit("HomeLineup"); assert("AwayLineup"@[0] != "HomeLineup"@[0]);
            }
            EventType::InningEnd => {
                reveal_strlit("InningEnd");
            }
            EventType::PlayBall => {
                reveal_strlit("PlayBall");
                reveal_strlit("GameOver"); assert("PlayBall"@[0] != "GameOver"@[0]);
            }
            EventType::NowBatting => {
                reveal_strlit("NowBatting");
                reveal_strlit("MoundVisit"); assert("NowBatting"@[0] != "MoundVisit"@[0]);
                reveal_strlit("HomeLineup"); assert("NowBatting"@[0] != "HomeLineup"@[0]);
                reveal_strlit("AwayLineup"); assert("NowBatting"@[0] != "AwayLineup"@[0]);
            }
            EventType::WeatherDelivery => {
                reveal_strlit("Weather_Delivery");
            }
            EventType::FallingStar => {
                reveal_strlit("FallingStar");
                reveal_strlit("InningStart"); assert("FallingStar"@[0] != "InningStart"@[0]);
            }
            EventType::Weather => {
                reveal_strlit("Weather");
                reveal_strlit("LiveNow"); assert("Weather"@[0] != "LiveNow"@[0]);
            }
            EventType::HrcLiveNow => {
                reveal_strlit("HRC_LiveNow");
                reveal_strlit("InningStart"); assert("HRC_LiveNow"@[0] != "InningStart"@[0]);
                reveal_strlit("FallingStar"); assert("HRC_LiveNow"@[0] != "FallingStar"@[0]);
            }
            EventType::HrcPitchingMatchup => {
                reveal_strlit("HRC_PitchingMatchup");
            }
            EventType::HrcBattingMatchup => {
                reveal_strlit("HRC_BattingMatchup");
            }
            EventType::HrcPlayBall => {
                reveal_strlit("HRC_PlayBall");
            }
            EventType::HrcChange => {
                reveal_strlit("HRC_Change");
                reveal_strlit("MoundVisit"); assert("HRC_Change"@[0] != "MoundVisit"@[0]);
                reveal_strlit("HomeLineup"); assert("HRC_Change"@[1] != "HomeLineup"@[1]);
                reveal_strlit("AwayLineup"); assert("HRC_Change"@[0] != "AwayLineup"@[0]);
                reveal_strlit("NowBatting"); assert("HRC_Change"@[0] != "NowBatting"@[0]);
            }
            EventType::WeatherShipment => {
                reveal_strlit("Weather_Shipment");
                reveal_strlit("Weather_Delivery"); assert("Weather_Shipment"@[8] != "Weather_Delivery"@[8]);
            }
            EventType::WeatherSpecialDelivery => {
                reveal_strlit("Weather_SpecialDelivery");
            }
            EventType::Balk => {
                reveal_strlit("Balk");
            }
            EventType::WeatherProsperity => {
                reveal_strlit("Weather_Prosperity");
                reveal_strlit("HRC_BattingMatchup"); assert("Weather_Prosperity"@[0] != "HRC_BattingMatchup"@[0]);
            }
            EventType::PhotoContest => {
                reveal_strlit("PhotoContest");
                reveal_strlit("HRC_PlayBall"); assert("PhotoContest"@[0] != "HRC_PlayBall"@[0]);
            }
            EventType::Party => {
                reveal_strlit("Party");
                reveal_strlit("Field"); assert("Party"@[0] != "Field"@[0]);
                reveal_strlit("Pitch"); assert("Party"@[1] != "Pitch"@[1]);
            }
        }
    }
    /// The written form of each known value, and what reading it gives.
    pub proof fn lemma_name_table()
        ensures
            EventType::PitchingMatchup.spec_name() == "PitchingMatchup"@,
            EventType::MoundVisit.spec_name() == "MoundVisit"@,
            EventType::GameOver.spec_name() == "GameOver"@,
            EventType::Field.spec_name() == "Field"@,
            EventType::HomeLineup.spec_name() == "HomeLineup"@,
            EventType::Recordkeeping.spec_name() == "Recordkeeping"@,
            EventType::LiveNow.spec_name() == "LiveNow"@,
            EventType::InningStart.spec_name() == "InningStart"@,
            EventType::Pitch.spec_name() == "Pitch"@,
            EventType::AwayLineup.spec_name() == "AwayLineup"@,
            EventType::InningEnd.spec_name() == "InningEnd"@,
            EventType::PlayBall.spec_name() == "PlayBall"@,
            EventType::NowBatting.spec_name() == "NowBatting"@,
            EventType::WeatherDelivery.spec_name() == "Weather_Delivery"@,
            EventType::FallingStar.spec_name() == "FallingStar"@,
            EventType::Weather.spec_name() == "Weather"@,
            EventType::HrcLiveNow.spec_name() == "HRC_LiveNow"@,
            EventType::HrcPitchingMatchup.spec_name() == "HRC_PitchingMatchup"@,
            EventType::HrcBattingMatchup.spec_name() == "HRC_BattingMatchup"@,
            EventType::HrcPlayBall.spec_name() == "HRC_PlayBall"@,
            EventType::HrcChange.spec_name() == "HRC_Change"@,
            EventType::WeatherShipment.spec_name() == "Weather_Shipment"@,
            EventType::WeatherSpecialDelivery.spec_name() == "Weather_SpecialDelivery"@,
            EventType::Balk.spec_name() == "Balk"@,
            EventType::WeatherProsperity.spec_name() == "Weather_Prosperity"@,
            EventType::PhotoContest.spec_name() == "PhotoContest"@,
            EventType::Party.spec_name() == "Party"@,
            EventType::spec_parse("PitchingMatchup"@) == Some(EventType::PitchingMatchup),
            EventType::spec_parse("MoundVisit"@) == Some(EventType::MoundVisit),
            EventType::spec_parse("GameOver"@) == Some(EventType::GameOver),
            EventType::spec_parse("Field"@) == Some(EventType::Field),
            EventType::spec_parse("HomeLineup"@) == Some(EventType::HomeLineup),
            EventType::spec_parse("Recordkeeping"@) == Some(EventType::Recordkeeping),
            EventType::spec_parse("LiveNow"@) == Some(EventType::LiveNow),
            EventType::spec_parse("InningStart"@) == Some(EventType::InningStart),
            EventType::spec_parse("Pitch"@) == Some(EventType::Pitch),
            EventType::spec_parse("AwayLineup"@) == Some(EventType::AwayLineup),
            EventType::spec_parse("InningEnd"@) == Some(EventType::InningEnd),
            EventType::spec_parse("PlayBall"@) == Some(EventType::PlayBall),
            EventType::spec_parse("NowBatting"@) == Some(EventType::NowBatting),
            EventType::spec_parse("Weather_Delivery"@) == Some(EventType::WeatherDelivery),
            EventType::spec_parse("FallingStar"@) == Some(EventType::FallingStar),
            EventType::spec_parse("Weather"@) == Some(EventType::Weather),
            EventType::spec_parse("HRC_LiveNow"@) == Some(EventType::HrcLiveNow),
            EventType::spec_parse("HRC_PitchingMatchup"@) == Some(EventType::HrcPitchingMatchup),
            EventType::spec_parse("HRC_BattingMatchup"@) == Some(EventType::HrcBattingMatchup),
            EventType::spec_parse("HRC_PlayBall"@) == Some(EventType::HrcPlayBall),
            EventType::spec_parse("HRC_Change"@) == Some(EventType::HrcChange),
            EventType::spec_parse("Weather_Shipment"@) == Some(EventType::WeatherShipment),
            EventType::spec_parse("Weather_SpecialDelivery"@) == Some(EventType::WeatherSpecialDelivery),
            EventType::spec_parse("Balk"@) == Some(EventType::Balk),
            EventType::spec_parse("Weather_Prosperity"@) == Some(EventType::WeatherProsperity),
            EventType::spec_parse("PhotoContest"@) == Some(EventType::PhotoContest),
            EventType::spec_parse("Party"@) == Some(EventType::Party),
    {
        EventType::PitchingMatchup.lemma_parse_name();
        EventType::MoundVisit.lemma_parse_name();
        EventType::GameOver.lemma_parse_name();
        EventType::Field.lemma_parse_name();
        EventType::HomeLineup.lemma_parse_name();
        EventType::Recordkeeping.lemma_parse_name();
        EventType::LiveNow.lemma_parse_name();
        EventType::InningStart.lemma_parse_name();
        EventType::Pitch.lemma_parse_name();
        EventType::AwayLineup.lemma_parse_name();
        EventType::InningEnd.lemma_parse_name();
        EventType::PlayBall.lemma_parse_name();
        EventType::NowBatting.lemma_parse_name();
        EventType::WeatherDelivery.lemma_parse_name();
        EventType::FallingStar.lemma_parse_name();
        EventType::Weather.lemma_parse_name();
        EventType::HrcLiveNow.lemma_parse_name();
        EventType::HrcPitchingMatchup.lemma_parse_name();
        EventType::HrcBattingMatchup.lemma_parse_name();
        EventType::HrcPlayBall.lemma_parse_name();
        EventType::HrcChange.lemma_parse_name();
        EventType::WeatherShipment.lemma_parse_name();
        EventType::WeatherSpecialDelivery.lemma_parse_name();
        EventType::Balk.lemma_parse_name();
        EventType::WeatherProsperity.lemma_parse_name();
        EventType::PhotoContest.lemma_parse_name();
        EventType::Party.lemma_parse_name();
    }
}
/// Top or bottom of an inning.
#[derive(Debug, Clone, Copy, PartialEq, Eq, Hash, Structural)]
pub enum TopBottom {
    Top,
    Bottom,
}

impl TopBottom {
    /// The text by which this value is written in event messages.
    pub open spec fn spec_name(self) -> Seq<char> {
        match self {
            TopBottom::Top => "top"@,
            TopBottom::Bottom => "bottom"@,
        }
    }

    /// The text by which this value is written.
    pub fn as_str(self) -> (r: &'static str)
        ensures
            r@ == self.spec_name(),
    {
        match self {
            TopBottom::Top => "top",
            TopBottom::Bottom => "bottom",
        }
    }

    /// The text by which this value is written, as an owned string.
    pub fn to_string(&self) -> (r: String)
        ensures
            r@ == self.spec_name(),
    {
        String::from_str(self.as_str())
    }

    /// The known value written as `s`, if any.
    pub open spec fn spec_parse(s: Seq<char>) -> Option<TopBottom> {
        if s.len() == 3 {
            if s == "top"@ { Some(TopBottom::Top) }
            else { None }
        }
        else if s.len() == 6 {
            if s == "bottom"@ { Some(TopBottom::Bottom) }
            else { None }
        }
        else { None }
    }

    /// Reads a value from its written form.
    pub fn from_str(s: &str) -> (r: Result<TopBottom, ParseError>)
        ensures
            match r {
                Ok(x) => TopBottom::spec_parse(s@) == Some(x),
                Err(_) => TopBottom::spec_parse(s@) is None,
            },
    {
        if str_eq(s, "top") {
            proof { reveal_strlit("top"); }
            return Ok(TopBottom::Top);
        }
        if str_eq(s, "bottom") {
            proof { reveal_strlit("bottom"); }
            return Ok(TopBottom::Bottom);
        }
        Err(ParseError::VariantNotFound)
    }

    /// Reading the written form of a known value gives that value back.
    pub proof fn lemma_parse_name(self)
        ensures
            TopBottom::spec_parse(self.spec_name()) == Some(self),
    {
        match self {
            TopBottom::Top => {
                reveal_strlit("top");
            }
            TopBottom::Bottom => {
                reveal_strlit("bottom");
            }
        }
    }
    /// The written form of each known value, and what reading it gives.
    pub proof fn lemma_name_table()
        ensures
            TopBottom::Top.spec_name() == "top"@,
            TopBottom::Bottom.spec_name() == "bottom"@,
            TopBottom::spec_parse("top"@) == Some(TopBottom::Top),
            TopBottom::spec_parse("bottom"@) == Some(TopBottom::Bottom),
    {
        TopBottom::Top.lemma_parse_name();
        TopBottom::Bottom.lemma_parse_name();
    }
}
/// The home or the away team.
#[derive(Debug, Clone, Copy, PartialEq, Eq, Hash, Structural)]
pub enum HomeAway {
    Away,
    Home,
}

impl HomeAway {
    /// The text by which this value is written in event messages.
    pub open spec fn spec_name(self) -> Seq<char> {
        match self {
            HomeAway::Away => "Away"@,
            HomeAway::Home => "Home"@,
        }
    }

    /// The text by which this value is written.
    pub fn as_str(self) -> (r: &'static str)
        ensures
            r@ == self.spec_name(),
    {
        match self {
            HomeAway::Away => "Away",
            HomeAway::Home => "Home",
        }
    }

    /// The text by which this value is written, as an owned string.
    pub fn to_string(&self) -> (r: String)
        ensures
            r@ == self.spec_name(),
    {
        String::from_str(self.as_str())
    }

    /// The known value written as `s`, if any.
    pub open spec fn spec_parse(s: Seq<char>) -> Option<HomeAway> {
        if s.len() == 4 {
            if s == "Away"@ { Some(HomeAway::Away) }
            else if s == "Home"@ { Some(HomeAway::Home) }
            else { None }
        }
        else { None }
    }

    /// Reads a value from its written form.
    pub fn from_str(s: &str) -> (r: Result<HomeAway, ParseError>)
        ensures
            match r {
                Ok(x) => HomeAway::spec_parse(s@) == Some(x),
                Err(_) => HomeAway::spec_parse(s@) is None,
            },
    {
        if str_eq(s, "Away") {
            proof { reveal_strlit("Away"); }
            return Ok(HomeAway::Away);
        }
        if str_eq(s, "Home") {
            proof { reveal_strlit("Home"); }
            return Ok(HomeAway::Home);
        }
        Err(ParseError::VariantNotFound)
    }

    /// Reading the written form of a known value gives that value back.
    pub proof fn lemma_parse_name(self)
        ensures
            HomeAway::spec_parse(self.spec_name()) == Some(self),
    {
        match self {
            HomeAway::Away => {
                reveal_strlit("Away");
            }
            HomeAway::Home => {
                reveal_strlit("Home");
                reveal_strlit("Away"); assert("Home"@[0] != "Away"@[0]);
            }
        }
    }
    /// The written form of each known value, and what reading it gives.
    pub proof fn lemma_name_table()
        ensures
            HomeAway::Away.spec_name() == "Away"@,
            HomeAway::Home.spec_name() == "Home"@,
            HomeAway::spec_parse("Away"@) == Some(HomeAway::Away),
            HomeAway::spec_parse("Home"@) == Some(HomeAway::Home),
    {
        HomeAway::Away.lemma_parse_name();
        HomeAway::Home.lemma_parse_name();
    }
}
/// Player roster/fielding positions.
#[derive(Debug, Clone, Copy, PartialEq, Eq, Hash, Structural)]
pub enum Position {
    Pitcher,
    Catcher,
    FirstBaseman,
    SecondBaseman,
    ThirdBaseman,
    ShortStop,
    LeftField,
    CenterField,
    RightField,
    StartingPitcher,
    ReliefPitcher,
    Closer,
}

impl Position {
    /// The text by which this value is written in event messages.
    pub open spec fn spec_name(self) -> Seq<char> {
        match self {
            Position::Pitcher => "P"@,
            Position::Catcher => "C"@,
            Position::FirstBaseman => "1B"@,
            Position::SecondBaseman => "2B"@,
            Position::ThirdBaseman => "3B"@,
            Position::ShortStop => "SS"@,
            Position::LeftField => "LF"@,
            Position::CenterField => "CF"@,
            Position::RightField => "RF"@,
            Position::StartingPitcher => "SP"@,
            Position::ReliefPitcher => "RP"@,
            Position::Closer => "CL"@,
        }
    }

    /// The text by which this value is written.
    pub fn as_str(self) -> (r: &'static str)
        ensures
            r@ == self.spec_name(),
    {
        match self {
            Position::Pitcher => "P",
            Position::Catcher => "C",
            Position::FirstBaseman => "1B",
            Position::SecondBaseman => "2B",
            Position::ThirdBaseman => "3B",
            Position::ShortStop => "SS",
            Position::LeftField => "LF",
            Position::CenterField => "CF",
            Position::RightField => "RF",
            Position::StartingPitcher => "SP",
            Position::ReliefPitcher => "RP",
            Position::Closer => "CL",
        }
    }

    /// The text by which this value is written, as an owned string.
    pub fn to_string(&self) -> (r: String)
        ensures
            r@ == self.spec_name(),
    {
        String::from_str(self.as_str())
    }

    /// The known value written as `s`, if any.
    pub open spec fn spec_parse(s: Seq<char>) -> Option<Position> {
        if s.len() == 1 {
            if s == "P"@ { Some(Position::Pitcher) }
            else if s == "C"@ { Some(Position::Catcher) }
            else { None }
        }
        else if s.len() == 2 {
            if s == "1B"@ { Some(Position::FirstBaseman) }
            else if s == "2B"@ { Some(Position::SecondBaseman) }
            else if s == "3B"@ { Some(Position::ThirdBaseman) }
            else if s == "SS"@ { Some(Position::ShortStop) }
            else if s == "LF"@ { Some(Position::LeftField) }
            else if s == "CF"@ { Some(Position::CenterField) }
            else if s == "RF"@ { Some(Position::RightField) }
            else if s == "SP"@ { Some(Position::StartingPitcher) }
            else if s == "RP"@ { Some(Position::ReliefPitcher) }
            else if s == "CL"@ { Some(Position::Closer) }
            else { None }
        }
        else { None }
    }

    /// Reads a value from its written form.
    pub fn from_str(s: &str) -> (r: Result<Position, ParseError>)
        ensures
            match r {
                Ok(x) => Position::spec_parse(s@) == Some(x),
                Err(_) => Position::spec_parse(s@) is None,
            },
    {
        if str_eq(s, "P") {
            proof { reveal_strlit("P"); }
            return Ok(Position::Pitcher);
        }
        if str_eq(s, "C") {
            proof { reveal_strlit("C"); }
            return Ok(Position::Catcher);
        }
        if str_eq(s, "1B") {
            proof { reveal_strlit("1B"); }
            return Ok(Position::FirstBaseman);
        }
        if str_eq(s, "2B") {
            proof { reveal_strlit("2B"); }
            return Ok(Position::SecondBaseman);
        }
        if str_eq(s, "3B") {
            proof { reveal_strlit("3B"); }
            return Ok(Position::ThirdBaseman);
        }
        if str_eq(s, "SS") {
            proof { reveal_strlit("SS"); }
            return Ok(Position::ShortStop);
        }
        if str_eq(s, "LF") {
            proof { reveal_strlit("LF"); }
            return Ok(Position::LeftField);
        }
        if str_eq(s, "CF") {
            proof { reveal_strlit("CF"); }
            return Ok(Position::CenterField);
        }
        if str_eq(s, "RF") {
            proof { reveal_strlit("RF"); }
            return Ok(Position::RightField);
        }
        if str_eq(s, "SP") {
            proof { reveal_strlit("SP"); }
            return Ok(Position::StartingPitcher);
        }
        if str_eq(s, "RP") {
            proof { reveal_strlit("RP"); }
            return Ok(Position::ReliefPitcher);
        }
        if str_eq(s, "CL") {
            proof { reveal_strlit("CL"); }
            return Ok(Position::Closer);
        }
        Err(ParseError::VariantNotFound)
    }

    /// Reading the written form of a known value gives that value back.
    pub proof fn lemma_parse_name(self)
        ensures
            Position::spec_parse(self.spec_name()) == Some(self),
    {
        match self {
            Position::Pitcher => {
                reveal_strlit("P");
            }
            Position::Catcher => {
                reveal_strlit("C");
                reveal_strlit("P"); assert("C"@[0] != "P"@[0]);
            }
            Position::FirstBaseman => {
                reveal_strlit("1B");
            }
            Position::SecondBaseman => {
                reveal_strlit("2B");
                reveal_strlit("1B"); assert("2B"@[0] != "1B"@[0]);
            }
            Position::ThirdBaseman => {
                reveal_strlit("3B");
                reveal_strlit("1B"); assert("3B"@[0] != "1B"@[0]);
                reveal_strlit("2B"); assert("3B"@[0] != "2B"@[0]);
            }
            Position::ShortStop => {
                reveal_strlit("SS");
                reveal_strlit("1B"); assert("SS"@[0] != "1B"@[0]);
                reveal_strlit("2B"); assert("SS"@[0] != "2B"@[0]);
                reveal_strlit("3B"); assert("SS"@[0] != "3B"@[0]);
            }
            Position::LeftField => {
                reveal_strlit("LF");
                reveal_strlit("1B"); assert("LF"@[0] != "1B"@[0]);
                reveal_strlit("2B"); assert("LF"@[0] != "2B"@[0]);
                reveal_strlit("3B"); assert("LF"@[0] != "3B"@[0]);
                reveal_strlit("SS"); assert("LF"@[0] != "SS"@[0]);
            }
            Position::CenterField => {
                reveal_strlit("CF");
                reveal_strlit("1B"); assert("CF"@[0] != "1B"@[0]);
                reveal_strlit("2B"); assert("CF"@[0] != "2B"@[0]);
                reveal_strlit("3B"); assert("CF"@[0] != "3B"@[0]);
                reveal_strlit("SS"); assert("CF"@[0] != "SS"@[0]);
                reveal_strlit("LF"); assert("CF"@[0] != "LF"@[0]);
            }
            Position::RightField => {
                reveal_strlit("RF");
                reveal_strlit("1B"); assert("RF"@[0] != "1B"@[0]);
                reveal_strlit("2B"); assert("RF"@[0] != "2B"@[0]);
                reveal_strlit("3B"); assert("RF"@[0] != "3B"@[0]);
                reveal_strlit("SS"); assert("RF"@[0] != "SS"@[0]);
                reveal_strlit("LF"); assert("RF"@[0] != "LF"@[0]);
                reveal_strlit("CF"); assert("RF"@[0] != "CF"@[0]);
            }
            Position::StartingPitcher => {
                reveal_strlit("SP");
                reveal_strlit("1B"); assert("SP"@[0] != "1B"@[0]);
                reveal_strlit("2B"); assert("SP"@[0] != "2B"@[0]);
                reveal_strlit("3B"); assert("SP"@[0] != "3B"@[0]);
                reveal_strlit("SS"); assert("SP"@[1] != "SS"@[1]);
                reveal_strlit("LF"); assert("SP"@[0] != "LF"@[0]);
                reveal_strlit("CF"); assert("SP"@[0] != "CF"@[0]);
                reveal_strlit("RF"); assert("SP"@[0] != "RF"@[0]);
            }
            Position::ReliefPitcher => {
                reveal_strlit("RP");
                reveal_strlit("1B"); assert("RP"@[0] != "1B"@[0]);
                reveal_strlit("2B"); assert("RP"@[0] != "2B"@[0]);
                reveal_strlit("3B"); assert("RP"@[0] != "3B"@[0]);
                reveal_strlit("SS"); assert("RP"@[0] != "SS"@[0]);
                reveal_strlit("LF"); assert("RP"@[0] != "LF"@[0]);
                reveal_strlit("CF"); assert("RP"@[0] != "CF"@[0]);
                reveal_strlit("RF"); assert("RP"@[1] != "RF"@[1]);
                reveal_strlit("SP"); assert("RP"@[0] != "SP"@[0]);
            }
            Position::Closer => {
                reveal_strlit("CL");
                reveal_strlit("1B"); assert("CL"@[0] != "1B"@[0]);
                reveal_strlit("2B"); assert("CL"@[0] != "2B"@[0]);
                reveal_strlit("3B"); assert("CL"@[0] != "3B"@[0]);
                reveal_strlit("SS"); assert("CL"@[0] != "SS"@[0]);
                reveal_strlit("LF"); assert("CL"@[0] != "LF"@[0]);
                reveal_strlit("CF"); assert("CL"@[1] != "CF"@[1]);
                reveal_strlit("RF"); assert("CL"@[0] != "RF"@[0]);
                reveal_strlit("SP"); assert("CL"@[0] != "SP"@[0]);
                reveal_strlit("RP"); assert("CL"@[0] != "RP"@[0]);
            }
        }
    }
    /// The written form of each known value, and what reading it gives.
    pub proof fn lemma_name_table()
        ensures
            Position::Pitcher.spec_name() == "P"@,
            Position::Catcher.spec_name() == "C"@,
            Position::FirstBaseman.spec_name() == "1B"@,
            Position::SecondBaseman.spec_name() == "2B"@,
            Position::ThirdBaseman.spec_name() == "3B"@,
            Position::ShortStop.spec_name() == "SS"@,
            Position::LeftField.spec_name() == "LF"@,
            Position::CenterField.spec_name() == "CF"@,
            Position::RightField.spec_name() == "RF"@,
            Position::StartingPitcher.spec_name() == "SP"@,
            Position::ReliefPitcher.spec_name() == "RP"@,
            Position::Closer.spec_name() == "CL"@,
            Position::spec_parse("P"@) == Some(Position::Pitcher),
            Position::spec_parse("C"@) == Some(Position::Catcher),
            Position::spec_parse("1B"@) == Some(Position::FirstBaseman),
            Position::spec_parse("2B"@) == Some(Position::SecondBaseman),
            Position::spec_parse("3B"@) == Some(Position::ThirdBaseman),
            Position::spec_parse("SS"@) == Some(Position::ShortStop),
            Position::spec_parse("LF"@) == Some(Position::LeftField),
            Position::spec_parse("CF"@) == Some(Position::CenterField),
            Position::spec_parse("RF"@) == Some(Position::RightField),
            Position::spec_parse("SP"@) == Some(Position::StartingPitcher),
            Position::spec_parse("RP"@) == Some(Position::ReliefPitcher),
            Position::spec_parse("CL"@) == Some(Position::Closer),
    {
        Position::Pitcher.lemma_parse_name();
        Position::Catcher.lemma_parse_name();
        Position::FirstBaseman.lemma_parse_name();
        Position::SecondBaseman.lemma_parse_name();
        Position::ThirdBaseman.lemma_parse_name();
        Position::ShortStop.lemma_parse_name();
        Position::LeftField.lemma_parse_name();
        Position::CenterField.lemma_parse_name();
        Position::RightField.lemma_parse_name();
        Position::StartingPitcher.lemma_parse_name();
        Position::ReliefPitcher.lemma_parse_name();
        Position::Closer.lemma_parse_name();
    }
}
/// Places that a batter can hit a ball towards.
#[derive(Debug, Clone, Copy, PartialEq, Eq, Hash, Structural)]
pub enum FairBallDestination {
    ShortStop,
    Catcher,
    Pitcher,
    FirstBase,
    SecondBase,
    ThirdBase,
    LeftField,
    CenterField,
    RightField,
}

impl FairBallDestination {
    /// The text by which this value is written in event messages.
    pub open spec fn spec_name(self) -> Seq<char> {
        match self {
            FairBallDestination::ShortStop => "the shortstop"@,
            FairBallDestination::Catcher => "the catcher"@,
            FairBallDestination::Pitcher => "the pitcher"@,
            FairBallDestination::FirstBase => "first base"@,
            FairBallDestination::SecondBase => "second base"@,
            FairBallDestination::ThirdBase => "third base"@,
            FairBallDestination::LeftField => "left field"@,
            FairBallDestination::CenterField => "center field"@,
            FairBallDestination::RightField => "right field"@,
        }
    }

    /// The text by which this value is written.
    pub fn as_str(self) -> (r: &'static str)
        ensures
            r@ == self.spec_name(),
    {
        match self {
            FairBallDestination::ShortStop => "the shortstop",
            FairBallDestination::Catcher => "the catcher",
            FairBallDestination::Pitcher => "the pitcher",
            FairBallDestination::FirstBase => "first base",
            FairBallDestination::SecondBase => "second base",
            FairBallDestination::ThirdBase => "third base",
            FairBallDestination::LeftField => "left field",
            FairBallDestination::CenterField => "center field",
            FairBallDestination::RightField => "right field",
        }
    }

    /// The text by which this value is written, as an owned string.
    pub fn to_string(&self) -> (r: String)
        ensures
            r@ == self.spec_name(),
    {
        String::from_str(self.as_str())
    }

    /// The known value written as `s`, if any.
    pub open spec fn spec_parse(s: Seq<char>) -> Option<FairBallDestination> {
        if s.len() == 13 {
            if s == "the shortstop"@ { Some(FairBallDestination::ShortStop) }
            else { None }
        }
        else if s.len() == 11 {
            if s == "the catcher"@ { Some(FairBallDestination::Catcher) }
            else if s == "the pitcher"@ { Some(FairBallDestination::Pitcher) }
            else if s == "second base"@ { Some(FairBallDestination::SecondBase) }
            else if s == "right field"@ { Some(FairBallDestination::RightField) }
            else { None }
        }
        else if s.len() == 10 {
            if s == "first base"@ { Some(FairBallDestination::FirstBase) }
            else if s == "third base"@ { Some(FairBallDestination::ThirdBase) }
            else if s == "left field"@ { Some(FairBallDestination::LeftField) }
            else { None }
        }
        else if s.len() == 12 {
            if s == "center field"@ { Some(FairBallDestination::CenterField) }
            else { None }
        }
        else { None }
    }

    /// Reads a value from its written form.
    pub fn from_str(s: &str) -> (r: Result<FairBallDestination, ParseError>)
        ensures
            match r {
                Ok(x) => FairBallDestination::spec_parse(s@) == Some(x),
                Err(_) => FairBallDestination::spec_parse(s@) is None,
            },
    {
        if str_eq(s, "the shortstop") {
            proof { reveal_strlit("the shortstop"); }
            return Ok(FairBallDestination::ShortStop);
        }
        if str_eq(s, "the catcher") {
            proof { reveal_strlit("the catcher"); }
            return Ok(FairBallDestination::Catcher);
        }
        if str_eq(s, "the pitcher") {
            proof { reveal_strlit("the pitcher"); }
            return Ok(FairBallDestination::Pitcher);
        }
        if str_eq(s, "first base") {
            proof { reveal_strlit("first base"); }
            return Ok(FairBallDestination::FirstBase);
        }
        if str_eq(s, "second base") {
            proof { reveal_strlit("second base"); }
            return Ok(FairBallDestination::SecondBase);
        }
        if str_eq(s, "third base") {
            proof { reveal_strlit("third base"); }
            return Ok(FairBallDestination::ThirdBase);
        }
        if str_eq(s, "left field") {
            proof { reveal_strlit("left field"); }
            return Ok(FairBallDestination::LeftField);
        }
        if str_eq(s, "center field") {
            proof { reveal_strlit("center field"); }
            return Ok(FairBallDestination::CenterField);
        }
        if str_eq(s, "right field") {
            proof { reveal_strlit("right field"); }
            return Ok(FairBallDestination::RightField);
        }
        Err(ParseError::VariantNotFound)
    }

    /// Reading the written form of a known value gives that value back.
    pub proof fn lemma_parse_name(self)
        ensures
            FairBallDestination::spec_parse(self.spec_name()) == Some(self),
    {
        match self {
            FairBallDestination::ShortStop => {
                reveal_strlit("the shortstop");
            }
            FairBallDestination::Catcher => {
                reveal_strlit("the catcher");
            }
            FairBallDestination::Pitcher => {
                reveal_strlit("the pitcher");
                reveal_strlit("the catcher"); assert("the pitcher"@[4] != "the catcher"@[4]);
            }
            FairBallDestination::FirstBase => {
                reveal_strlit("first base");
            }
            FairBallDestination::SecondBase => {
                reveal_strlit("second base");
                reveal_strlit("the catcher"); assert("second base"@[0] != "the catcher"@[0]);
                reveal_strlit("the pitcher"); assert("second base"@[0] != "the pitcher"@[0]);
            }
            FairBallDestination::ThirdBase => {
                reveal_strlit("third base");
                reveal_strlit("first base"); assert("third base"@[0] != "first base"@[0]);
            }
            FairBallDestination::LeftField => {
                reveal_strlit("left field");
                reveal_strlit("first base"); assert("left field"@[0] != "first base"@[0]);
                reveal_strlit("third base"); assert("left field"@[0] != "third base"@[0]);
            }
            FairBallDestination::CenterField => {
                reveal_strlit("center field");
            }
            FairBallDestination::RightField => {
                reveal_strlit("right field");
                reveal_strlit("the catcher"); assert("right field"@[0] != "the catcher"@[0]);
                reveal_strlit("the pitcher"); assert("right field"@[0] != "the pitcher"@[0]);
                reveal_strlit("second base"); assert("right field"@[0] != "second base"@[0]);
            }
        }
    }
    /// The written form of each known value, and what reading it gives.
    pub proof fn lemma_name_table()
        ensures
            FairBallDestination::ShortStop.spec_name() == "the shortstop"@,
            FairBallDestination::Catcher.spec_name() == "the catcher"@,
            FairBallDestination::Pitcher.spec_name() == "the pitcher"@,
            FairBallDestination::FirstBase.spec_name() == "first base"@,
            FairBallDestination::SecondBase.spec_name() == "second base"@,
            FairBallDestination::ThirdBase.spec_name() == "third base"@,
            FairBallDestination::LeftField.spec_name() == "left field"@,
            FairBallDestination::CenterField.spec_name() == "center field"@,
            FairBallDestination::RightField.spec_name() == "right field"@,
            FairBallDestination::spec_parse("the shortstop"@) == Some(FairBallDestination::ShortStop),
            FairBallDestination::spec_parse("the catcher"@) == Some(FairBallDestination::Catcher),
            FairBallDestination::spec_parse("the pitcher"@) == Some(FairBallDestination::Pitcher),
            FairBallDestination::spec_parse("first base"@) == Some(FairBallDestination::FirstBase),
            FairBallDestination::spec_parse("second base"@) == Some(FairBallDestination::SecondBase),
            FairBallDestination::spec_parse("third base"@) == Some(FairBallDestination::ThirdBase),
            FairBallDestination::spec_parse("left field"@) == Some(FairBallDestination::LeftField),
            FairBallDestination::spec_parse("center field"@) == Some(FairBallDestination::CenterField),
            FairBallDestination::spec_parse("right field"@) == Some(FairBallDestination::RightField),
    {
        FairBallDestination::ShortStop.lemma_parse_name();
        FairBallDestination::Catcher.lemma_parse_name();
        FairBallDestination::Pitcher.lemma_parse_name();
        FairBallDestination::FirstBase.lemma_parse_name();
        FairBallDestination::SecondBase.lemma_parse_name();
        FairBallDestination::ThirdBase.lemma_parse_name();
        FairBallDestination::LeftField.lemma_parse_name();
        FairBallDestination::CenterField.lemma_parse_name();
        FairBallDestination::RightField.lemma_parse_name();
    }

    /// The written form of a destination holds no exclamation mark and no full stop.
    pub proof fn lemma_name_no_exclamation(self)
        ensures
            forall|i: int| 0 <= i < self.spec_name().len() ==> #[trigger] self.spec_name()[i] != '!' && self.spec_name()[i] != '.',
    {
        match self {
            FairBallDestination::ShortStop => { reveal_strlit("the shortstop"); }
            FairBallDestination::Catcher => { reveal_strlit("the catcher"); }
            FairBallDestination::Pitcher => { reveal_strlit("the pitcher"); }
            FairBallDestination::FirstBase => { reveal_strlit("first base"); }
            FairBallDestination::SecondBase => { reveal_strlit("second base"); }
            FairBallDestination::ThirdBase => { reveal_strlit("third base"); }
            FairBallDestination::LeftField => { reveal_strlit("left field"); }
            FairBallDestination::CenterField => { reveal_strlit("center field"); }
            FairBallDestination::RightField => { reveal_strlit("right field"); }
        }
    }
}
/// A characterisation of a fair ball.
#[derive(Debug, Clone, Copy, PartialEq, Eq, Hash, Structural)]
pub enum FairBallType {
    GroundBall,
    FlyBall,
    LineDrive,
    Popup,
}

impl FairBallType {
    /// The text by which this value is written in event messages.
    pub open spec fn spec_name(self) -> Seq<char> {
        match self {
            FairBallType::GroundBall => "ground ball"@,
            FairBallType::FlyBall => "fly ball"@,
            FairBallType::LineDrive => "line drive"@,
            FairBallType::Popup => "popup"@,
        }
    }

    /// The text by which this value is written.
    pub fn as_str(self) -> (r: &'static str)
        ensures
            r@ == self.spec_name(),
    {
        match self {
            FairBallType::GroundBall => "ground ball",
            FairBallType::FlyBall => "fly ball",
            FairBallType::LineDrive => "line drive",
            FairBallType::Popup => "popup",
        }
    }

    /// The text by which this value is written, as an owned string.
    pub fn to_string(&self) -> (r: String)
        ensures
            r@ == self.spec_name(),
    {
        String::from_str(self.as_str())
    }

    /// The known value written as `s`, if any.
    pub open spec fn spec_parse(s: Seq<char>) -> Option<FairBallType> {
        if s.len() == 11 {
            if s == "ground ball"@ { Some(FairBallType::GroundBall) }
            else { None }
        }
        else if s.len() == 8 {
            if s == "fly ball"@ { Some(FairBallType::FlyBall) }
            else { None }
        }
        else if s.len() == 10 {
            if s == "line drive"@ { Some(FairBallType::LineDrive) }
            else { None }
        }
        else if s.len() == 5 {
            if s == "popup"@ { Some(FairBallType::Popup) }
            else { None }
        }
        else { None }
    }

    /// Reads a value from its written form.
    pub fn from_str(s: &str) -> (r: Result<FairBallType, ParseError>)
        ensures
            match r {
                Ok(x) => FairBallType::spec_parse(s@) == Some(x),
                Err(_) => FairBallType::spec_parse(s@) is None,
            },
    {
        if str_eq(s, "ground ball") {
            proof { reveal_strlit("ground ball"); }
            return Ok(FairBallType::GroundBall);
        }
        if str_eq(s, "fly ball") {
            proof { reveal_strlit("fly ball"); }
            return Ok(FairBallType::FlyBall);
        }
        if str_eq(s, "line drive") {
            proof { reveal_strlit("line drive"); }
            return Ok(FairBallType::LineDrive);
        }
        if str_eq(s, "popup") {
            proof { reveal_strlit("popup"); }
            return Ok(FairBallType::Popup);
        }
        Err(ParseError::VariantNotFound)
    }

    /// Reading the written form of a known value gives that value back.
    pub proof fn lemma_parse_name(self)
        ensures
            FairBallType::spec_parse(self.spec_name()) == Some(self),
    {
        match self {
            FairBallType::GroundBall => {
                reveal_strlit("ground ball");
            }
            FairBallType::FlyBall => {
                reveal_strlit("fly ball");
            }
            FairBallType::LineDrive => {
                reveal_strlit("line drive");
            }
            FairBallType::Popup => {
                reveal_strlit("popup");
            }
        }
    }
    /// The written form of each known value, and what reading it gives.
    pub proof fn lemma_name_table()
        ensures
            FairBallType::GroundBall.spec_name() == "ground ball"@,
            FairBallType::FlyBall.spec_name() == "fly ball"@,
            FairBallType::LineDrive.spec_name() == "line drive"@,
            FairBallType::Popup.spec_name() == "popup"@,
            FairBallType::spec_parse("ground ball"@) == Some(FairBallType::GroundBall),
            FairBallType::spec_parse("fly ball"@) == Some(FairBallType::FlyBall),
            FairBallType::spec_parse("line drive"@) == Some(FairBallType::LineDrive),
            FairBallType::spec_parse("popup"@) == Some(FairBallType::Popup),
    {
        FairBallType::GroundBall.lemma_parse_name();
        FairBallType::FlyBall.lemma_parse_name();
        FairBallType::LineDrive.lemma_parse_name();
        FairBallType::Popup.lemma_parse_name();
    }

    /// In the written form of a kind of fair ball, no space is followed by a `t`,
    /// it does not end with a space, and it holds no full stop.
    pub proof fn lemma_name_no_space_t(self)
        ensures
            forall|i: int| 0 <= i < self.spec_name().len() && #[trigger] self.spec_name()[i] == ' '
                ==> i + 1 < self.spec_name().len() && self.spec_name()[i + 1] != 't',
            forall|i: int| 0 <= i < self.spec_name().len() ==> #[trigger] self.spec_name()[i] != '.',
    {
        match self {
            FairBallType::GroundBall => { reveal_strlit("ground ball"); }
            FairBallType::FlyBall => { reveal_strlit("fly ball"); }
            FairBallType::LineDrive => { reveal_strlit("line drive"); }
            FairBallType::Popup => { reveal_strlit("popup"); }
        }
    }
}
/// The kinds of pitch.
#[derive(Debug, Clone, Copy, PartialEq, Eq, Hash, Structural)]
pub enum PitchType {
    Fastball,
    Sinker,
    Slider,
    Changeup,
    Curveball,
    Cutter,
    Sweeper,
    KnuckleCurve,
    Splitter,
}

impl PitchType {
    /// The text by which this value is written in event messages.
    pub open spec fn spec_name(self) -> Seq<char> {
        match self {
            PitchType::Fastball => "Fastball"@,
            PitchType::Sinker => "Sinker"@,
            PitchType::Slider => "Slider"@,
            PitchType::Changeup => "Changeup"@,
            PitchType::Curveball => "Curveball"@,
            PitchType::Cutter => "Cutter"@,
            PitchType::Sweeper => "Sweeper"@,
            PitchType::KnuckleCurve => "Knuckle Curve"@,
            PitchType::Splitter => "Splitter"@,
        }
    }

    /// The text by which this value is written.
    pub fn as_str(self) -> (r: &'static str)
        ensures
            r@ == self.spec_name(),
    {
        match self {
            PitchType::Fastball => "Fastball",
            PitchType::Sinker => "Sinker",
            PitchType::Slider => "Slider",
            PitchType::Changeup => "Changeup",
            PitchType::Curveball => "Curveball",
            PitchType::Cutter => "Cutter",
            PitchType::Sweeper => "Sweeper",
            PitchType::KnuckleCurve => "Knuckle Curve",
            PitchType::Splitter => "Splitter",
        }
    }

    /// The text by which this value is written, as an owned string.
    pub fn to_string(&self) -> (r: String)
        ensures
            r@ == self.spec_name(),
    {
        String::from_str(self.as_str())
    }

    /// The known value written as `s`, if any.
    pub open spec fn spec_parse(s: Seq<char>) -> Option<PitchType> {
        if s.len() == 8 {
            if s == "Fastball"@ { Some(PitchType::Fastball) }
            else if s == "Changeup"@ { Some(PitchType::Changeup) }
            else if s == "Splitter"@ { Some(PitchType::Splitter) }
            else { None }
        }
        else if s.len() == 6 {
            if s == "Sinker"@ { Some(PitchType::Sinker) }
            else if s == "Slider"@ { Some(PitchType::Slider) }
            else if s == "Cutter"@ { Some(PitchType::Cutter) }
            else { None }
        }
        else if s.len() == 9 {
            if s == "Curveball"@ { Some(PitchType::Curveball) }
            else { None }
        }
        else if s.len() == 7 {
            if s == "Sweeper"@ { Some(PitchType::Sweeper) }
            else { None }
        }
        else if s.len() == 13 {
            if s == "Knuckle Curve"@ { Some(PitchType::KnuckleCurve) }
            else { None }
        }
        else { None }
    }

    /// Reads a value from its written form.
    pub fn from_str(s: &str) -> (r: Result<PitchType, ParseError>)
        ensures
            match r {
                Ok(x) => PitchType::spec_parse(s@) == Some(x),
                Err(_) => PitchType::spec_parse(s@) is None,
            },
    {
        if str_eq(s, "Fastball") {
            proof { reveal_strlit("Fastball"); }
            return Ok(PitchType::Fastball);
        }
        if str_eq(s, "Sinker") {
            proof { reveal_strlit("Sinker"); }
            return Ok(PitchType::Sinker);
        }
        if str_eq(s, "Slider") {
            proof { reveal_strlit("Slider"); }
            return Ok(PitchType::Slider);
        }
        if str_eq(s, "Changeup") {
            proof { reveal_strlit("Changeup"); }
            return Ok(PitchType::Changeup);
        }
        if str_eq(s, "Curveball") {
            proof { reveal_strlit("Curveball"); }
            return Ok(PitchType::Curveball);
        }
        if str_eq(s, "Cutter") {
            proof { reveal_strlit("Cutter"); }
            return Ok(PitchType::Cutter);
        }
        if str_eq(s, "Sweeper") {
            proof { reveal_strlit("Sweeper"); }
            return Ok(PitchType::Sweeper);
        }
        if str_eq(s, "Knuckle Curve") {
            proof { reveal_strlit("Knuckle Curve"); }
            return Ok(PitchType::KnuckleCurve);
        }
        if str_eq(s, "Splitter") {
            proof { reveal_strlit("Splitter"); }
            return Ok(PitchType::Splitter);
        }
        Err(ParseError::VariantNotFound)
    }

    /// Reading the written form of a known value gives that value back.
    pub proof fn lemma_parse_name(self)
        ensures
            PitchType::spec_parse(self.spec_name()) == Some(self),
    {
        match self {
            PitchType::Fastball => {
                reveal_strlit("Fastball");
            }
            PitchType::Sinker => {
                reveal_strlit("Sinker");
            }
            PitchType::Slider => {
                reveal_strlit("Slider");
                reveal_strlit("Sinker"); assert("Slider"@[1] != "Sinker"@[1]);
            }
            PitchType::Changeup => {
                reveal_strlit("Changeup");
                reveal_strlit("Fastball"); assert("Changeup"@[0] != "Fastball"@[0]);
            }
            PitchType::Curveball => {
                reveal_strlit("Curveball");
            }
            PitchType::Cutter => {
                reveal_strlit("Cutter");
                reveal_strlit("Sinker"); assert("Cutter"@[0] != "Sinker"@[0]);
                reveal_strlit("Slider"); assert("Cutter"@[0] != "Slider"@[0]);
            }
            PitchType::Sweeper => {
                reveal_strlit("Sweeper");
            }
            PitchType::KnuckleCurve => {
                reveal_strlit("Knuckle Curve");
            }
            PitchType::Splitter => {
                reveal_strlit("Splitter");
                reveal_strlit("Fastball"); assert("Splitter"@[0] != "Fastball"@[0]);
                reveal_strlit("Changeup"); assert("Splitter"@[0] != "Changeup"@[0]);
            }
        }
    }
    /// The written form of each known value, and what reading it gives.
    pub proof fn lemma_name_table()
        ensures
            PitchType::Fastball.spec_name() == "Fastball"@,
            PitchType::Sinker.spec_name() == "Sinker"@,
            PitchType::Slider.spec_name() == "Slider"@,
            PitchType::Changeup.spec_name() == "Changeup"@,
            PitchType::Curveball.spec_name() == "Curveball"@,
            PitchType::Cutter.spec_name() == "Cutter"@,
            PitchType::Sweeper.spec_name() == "Sweeper"@,
            PitchType::KnuckleCurve.spec_name() == "Knuckle Curve"@,
            PitchType::Splitter.spec_name() == "Splitter"@,
            PitchType::spec_parse("Fastball"@) == Some(PitchType::Fastball),
            PitchType::spec_parse("Sinker"@) == Some(PitchType::Sinker),
            PitchType::spec_parse("Slider"@) == Some(PitchType::Slider),
            PitchType::spec_parse("Changeup"@) == Some(PitchType::Changeup),
            PitchType::spec_parse("Curveball"@) == Some(PitchType::Curveball),
            PitchType::spec_parse("Cutter"@) == Some(PitchType::Cutter),
            PitchType::spec_parse("Sweeper"@) == Some(PitchType::Sweeper),
            PitchType::spec_parse("Knuckle Curve"@) == Some(PitchType::KnuckleCurve),
            PitchType::spec_parse("Splitter"@) == Some(PitchType::Splitter),
    {
        PitchType::Fastball.lemma_parse_name();
        PitchType::Sinker.lemma_parse_name();
        PitchType::Slider.lemma_parse_name();
        PitchType::Changeup.lemma_parse_name();
        PitchType::Curveball.lemma_parse_name();
        PitchType::Cutter.lemma_parse_name();
        PitchType::Sweeper.lemma_parse_name();
        PitchType::KnuckleCurve.lemma_parse_name();
        PitchType::Splitter.lemma_parse_name();
    }
}
/// How a strike was made.
#[derive(Debug, Clone, Copy, PartialEq, Eq, Hash, Structural)]
pub enum StrikeType {
    Looking,
    Swinging,
}

impl StrikeType {
    /// The text by which this value is written in event messages.
    pub open spec fn spec_name(self) -> Seq<char> {
        match self {
            StrikeType::Looking => "looking"@,
            StrikeType::Swinging => "swinging"@,
        }
    }

    /// The text by which this value is written.
    pub fn as_str(self) -> (r: &'static str)
        ensures
            r@ == self.spec_name(),
    {
        match self {
            StrikeType::Looking => "looking",
            StrikeType::Swinging => "swinging",
        }
    }

    /// The text by which this value is written, as an owned string.
    pub fn to_string(&self) -> (r: String)
        ensures
            r@ == self.spec_name(),
    {
        String::from_str(self.as_str())
    }

    /// The known value written as `s`, if any.
    pub open spec fn spec_parse(s: Seq<char>) -> Option<StrikeType> {
        if s.len() == 7 {
            if s == "looking"@ { Some(StrikeType::Looking) }
            else { None }
        }
        else if s.len() == 8 {
            if s == "swinging"@ { Some(StrikeType::Swinging) }
            else { None }
        }
        else { None }
    }

    /// Reads a value from its written form.
    pub fn from_str(s: &str) -> (r: Result<StrikeType, ParseError>)
        ensures
            match r {
                Ok(x) => StrikeType::spec_parse(s@) == Some(x),
                Err(_) => StrikeType::spec_parse(s@) is None,
            },
    {
        if str_eq(s, "looking") {
            proof { reveal_strlit("looking"); }
            return Ok(StrikeType::Looking);
        }
        if str_eq(s, "swinging") {
            proof { reveal_strlit("swinging"); }
            return Ok(StrikeType::Swinging);
        }
        Err(ParseError::VariantNotFound)
    }

    /// Reading the written form of a known value gives that value back.
    pub proof fn lemma_parse_name(self)
        ensures
            StrikeType::spec_parse(self.spec_name()) == Some(self),
    {
        match self {
            StrikeType::Looking => {
                reveal_strlit("looking");
            }
            StrikeType::Swinging => {
                reveal_strlit("swinging");
            }
        }
    }
    /// The written form of each known value, and what reading it gives.
    pub proof fn lemma_name_table()
        ensures
            StrikeType::Looking.spec_name() == "looking"@,
            StrikeType::Swinging.spec_name() == "swinging"@,
            StrikeType::spec_parse("looking"@) == Some(StrikeType::Looking),
            StrikeType::spec_parse("swinging"@) == Some(StrikeType::Swinging),
    {
        StrikeType::Looking.lemma_parse_name();
        StrikeType::Swinging.lemma_parse_name();
    }
}
/// The kinds of fielding error.
#[derive(Debug, Clone, Copy, PartialEq, Eq, Hash, Structural)]
pub enum FieldingErrorType {
    Throwing,
    Fielding,
}

impl FieldingErrorType {
    /// The text by which this value is written in event messages.
    pub open spec fn spec_name(self) -> Seq<char> {
        match self {
            FieldingErrorType::Throwing => "Throwing"@,
            FieldingErrorType::Fielding => "Fielding"@,
        }
    }

    /// The text by which this value is written.
    pub fn as_str(self) -> (r: &'static str)
        ensures
            r@ == self.spec_name(),
    {
        match self {
            FieldingErrorType::Throwing => "Throwing",
            FieldingErrorType::Fielding => "Fielding",
        }
    }

    /// The text by which this value is written, as an owned string.
    pub fn to_string(&self) -> (r: String)
        ensures
            r@ == self.spec_name(),
    {
        String::from_str(self.as_str())
    }

    /// The known value written as `s`, if any.
    pub open spec fn spec_parse(s: Seq<char>) -> Option<FieldingErrorType> {
        if s.len() == 8 {
            if s == "Throwing"@ { Some(FieldingErrorType::Throwing) }
            else if s == "throwing"@ { Some(FieldingErrorType::Throwing) }
            else if s == "Fielding"@ { Some(FieldingErrorType::Fielding) }
            else if s == "fielding"@ { Some(FieldingErrorType::Fielding) }
            else { None }
        }
        else { None }
    }

    /// Reads a value from its written form.
    pub fn from_str(s: &str) -> (r: Result<FieldingErrorType, ParseError>)
        ensures
            match r {
                Ok(x) => FieldingErrorType::spec_parse(s@) == Some(x),
                Err(_) => FieldingErrorType::spec_parse(s@) is None,
            },
    {
        if str_eq(s, "Throwing") {
            proof { reveal_strlit("Throwing"); }
            return Ok(FieldingErrorType::Throwing);
        }
        if str_eq(s, "throwing") {
            proof { reveal_strlit("throwing"); }
            return Ok(FieldingErrorType::Throwing);
        }
        if str_eq(s, "Fielding") {
            proof { reveal_strlit("Fielding"); }
            return Ok(FieldingErrorType::Fielding);
        }
        if str_eq(s, "fielding") {
            proof { reveal_strlit("fielding"); }
            return Ok(FieldingErrorType::Fielding);
        }
        Err(ParseError::VariantNotFound)
    }

    /// Reading the written form of a known value gives that value back.
    pub proof fn lemma_parse_name(self)
        ensures
            FieldingErrorType::spec_parse(self.spec_name()) == Some(self),
    {
        match self {
            FieldingErrorType::Throwing => {
                reveal_strlit("Throwing");
            }
            FieldingErrorType::Fielding => {
                reveal_strlit("Fielding");
                reveal_strlit("Throwing"); assert("Fielding"@[0] != "Throwing"@[0]);
                reveal_strlit("throwing"); assert("Fielding"@[0] != "throwing"@[0]);
            }
        }
    }
    /// The written form of each known value, and what reading it gives.
    pub proof fn lemma_name_table()
        ensures
            FieldingErrorType::Throwing.spec_name() == "Throwing"@,
            FieldingErrorType::Fielding.spec_name() == "Fielding"@,
            FieldingErrorType::spec_parse("Throwing"@) == Some(FieldingErrorType::Throwing),
            FieldingErrorType::spec_parse("Fielding"@) == Some(FieldingErrorType::Fielding),
    {
        FieldingErrorType::Throwing.lemma_parse_name();
        FieldingErrorType::Fielding.lemma_parse_name();
    }
}
/// The kinds of foul.
#[derive(Debug, Clone, Copy, PartialEq, Eq, Hash, Structural)]
pub enum FoulType {
    Tip,
    Ball,
}

impl FoulType {
    /// The text by which this value is written in event messages.
    pub open spec fn spec_name(self) -> Seq<char> {
        match self {
            FoulType::Tip => "tip"@,
            FoulType::Ball => "ball"@,
        }
    }

    /// The text by which this value is written.
    pub fn as_str(self) -> (r: &'static str)
        ensures
            r@ == self.spec_name(),
    {
        match self {
            FoulType::Tip => "tip",
            FoulType::Ball => "ball",
        }
    }

    /// The text by which this value is written, as an owned string.
    pub fn to_string(&self) -> (r: String)
        ensures
            r@ == self.spec_name(),
    {
        String::from_str(self.as_str())
    }

    /// The known value written as `s`, if any.
    pub open spec fn spec_parse(s: Seq<char>) -> Option<FoulType> {
        if s.len() == 3 {
            if s == "tip"@ { Some(FoulType::Tip) }
            else { None }
        }
        else if s.len() == 4 {
            if s == "ball"@ { Some(FoulType::Ball) }
            else { None }
        }
        else { None }
    }

    /// Reads a value from its written form.
    pub fn from_str(s: &str) -> (r: Result<FoulType, ParseError>)
        ensures
            match r {
                Ok(x) => FoulType::spec_parse(s@) == Some(x),
                Err(_) => FoulType::spec_parse(s@) is None,
            },
    {
        if str_eq(s, "tip") {
            proof { reveal_strlit("tip"); }
            return Ok(FoulType::Tip);
        }
        if str_eq(s, "ball") {
            proof { reveal_strlit("ball"); }
            return Ok(FoulType::Ball);
        }
        Err(ParseError::VariantNotFound)
    }

    /// Reading the written form of a known value gives that value back.
    pub proof fn lemma_parse_name(self)
        ensures
            FoulType::spec_parse(self.spec_name()) == Some(self),
    {
        match self {
            FoulType::Tip => {
                reveal_strlit("tip");
            }
            FoulType::Ball => {
                reveal_strlit("ball");
            }
        }
    }
    /// The written form of each known value, and what reading it gives.
    pub proof fn lemma_name_table()
        ensures
            FoulType::Tip.spec_name() == "tip"@,
            FoulType::Ball.spec_name() == "ball"@,
            FoulType::spec_parse("tip"@) == Some(FoulType::Tip),
            FoulType::spec_parse("ball"@) == Some(FoulType::Ball),
    {
        FoulType::Tip.lemma_parse_name();
        FoulType::Ball.lemma_parse_name();
    }
}
/// The four bases.
#[derive(Debug, Clone, Copy, PartialEq, Eq, Hash, Structural)]
pub enum Base {
    Home,
    First,
    Second,
    Third,
}

impl Base {
    /// The text by which this value is written in event messages.
    pub open spec fn spec_name(self) -> Seq<char> {
        match self {
            Base::Home => "home"@,
            Base::First => "first"@,
            Base::Second => "second"@,
            Base::Third => "third"@,
        }
    }

    /// The text by which this value is written.
    pub fn as_str(self) -> (r: &'static str)
        ensures
            r@ == self.spec_name(),
    {
        match self {
            Base::Home => "home",
            Base::First => "first",
            Base::Second => "second",
            Base::Third => "third",
        }
    }

    /// The text by which this value is written, as an owned string.
    pub fn to_string(&self) -> (r: String)
        ensures
            r@ == self.spec_name(),
    {
        String::from_str(self.as_str())
    }

    /// The known value written as `s`, if any.
    pub open spec fn spec_parse(s: Seq<char>) -> Option<Base> {
        if s.len() == 4 {
            if s == "home"@ { Some(Base::Home) }
            else { None }
        }
        else if s.len() == 5 {
            if s == "first"@ { Some(Base::First) }
            else if s == "third"@ { Some(Base::Third) }
            else { None }
        }
        else if s.len() == 6 {
            if s == "second"@ { Some(Base::Second) }
            else { None }
        }
        else { None }
    }

    /// Reads a value from its written form.
    pub fn from_str(s: &str) -> (r: Result<Base, ParseError>)
        ensures
            match r {
                Ok(x) => Base::spec_parse(s@) == Some(x),
                Err(_) => Base::spec_parse(s@) is None,
            },
    {
        if str_eq(s, "home") {
            proof { reveal_strlit("home"); }
            return Ok(Base::Home);
        }
        if str_eq(s, "first") {
            proof { reveal_strlit("first"); }
            return Ok(Base::First);
        }
        if str_eq(s, "second") {
            proof { reveal_strlit("second"); }
            return Ok(Base::Second);
        }
        if str_eq(s, "third") {
            proof { reveal_strlit("third"); }
            return Ok(Base::Third);
        }
        Err(ParseError::VariantNotFound)
    }

    /// Reading the written form of a known value gives that value back.
    pub proof fn lemma_parse_name(self)
        ensures
            Base::spec_parse(self.spec_name()) == Some(self),
    {
        match self {
            Base::Home => {
                reveal_strlit("home");
            }
            Base::First => {
                reveal_strlit("first");
            }
            Base::Second => {
                reveal_strlit("second");
            }
            Base::Third => {
                reveal_strlit("third");
                reveal_strlit("first"); assert("third"@[0] != "first"@[0]);
            }
        }
    }
    /// The written form of each known value, and what reading it gives.
    pub proof fn lemma_name_table()
        ensures
            Base::Home.spec_name() == "home"@,
            Base::First.spec_name() == "first"@,
            Base::Second.spec_name() == "second"@,
            Base::Third.spec_name() == "third"@,
            Base::spec_parse("home"@) == Some(Base::Home),
            Base::spec_parse("first"@) == Some(Base::First),
            Base::spec_parse("second"@) == Some(Base::Second),
            Base::spec_parse("third"@) == Some(Base::Third),
    {
        Base::Home.lemma_parse_name();
        Base::First.lemma_parse_name();
        Base::Second.lemma_parse_name();
        Base::Third.lemma_parse_name();
    }
}
/// The several ways in which a base is named in messages.
#[derive(Debug, Clone, Copy, PartialEq, Eq, Hash, Structural)]
pub enum BaseNameVariant {
    First,
    FirstBase,
    OneB,
    Second,
    SecondBase,
    TwoB,
    ThirdBase,
    Third,
    ThreeB,
    Home,
}

impl BaseNameVariant {
    /// The text by which this value is written in event messages.
    pub open spec fn spec_name(self) -> Seq<char> {
        match self {
            BaseNameVariant::First => "first"@,
            BaseNameVariant::FirstBase => "first base"@,
            BaseNameVariant::OneB => "1B"@,
            BaseNameVariant::Second => "second"@,
            BaseNameVariant::SecondBase => "second base"@,
            BaseNameVariant::TwoB => "2B"@,
            BaseNameVariant::ThirdBase => "third base"@,
            BaseNameVariant::Third => "third"@,
            BaseNameVariant::ThreeB => "3B"@,
            BaseNameVariant::Home => "home"@,
        }
    }

    /// The text by which this value is written.
    pub fn as_str(self) -> (r: &'static str)
        ensures
            r@ == self.spec_name(),
    {
        match self {
            BaseNameVariant::First => "first",
            BaseNameVariant::FirstBase => "first base",
            BaseNameVariant::OneB => "1B",
            BaseNameVariant::Second => "second",
            BaseNameVariant::SecondBase => "second base",
            BaseNameVariant::TwoB => "2B",
            BaseNameVariant::ThirdBase => "third base",
            BaseNameVariant::Third => "third",
            BaseNameVariant::ThreeB => "3B",
            BaseNameVariant::Home => "home",
        }
    }

    /// The text by which this value is written, as an owned string.
    pub fn to_string(&self) -> (r: String)
        ensures
            r@ == self.spec_name(),
    {
        String::from_str(self.as_str())
    }

    /// The known value written as `s`, if any.
    pub open spec fn spec_parse(s: Seq<char>) -> Option<BaseNameVariant> {
        if s.len() == 5 {
            if s == "first"@ { Some(BaseNameVariant::First) }
            else if s == "third"@ { Some(BaseNameVariant::Third) }
            else { None }
        }
        else if s.len() == 10 {
            if s == "first base"@ { Some(BaseNameVariant::FirstBase) }
            else if s == "third base"@ { Some(BaseNameVariant::ThirdBase) }
            else { None }
        }
        else if s.len() == 2 {
            if s == "1B"@ { Some(BaseNameVariant::OneB) }
            else if s == "2B"@ { Some(BaseNameVariant::TwoB) }
            else if s == "3B"@ { Some(BaseNameVariant::ThreeB) }
            else { None }
        }
        else if s.len() == 6 {
            if s == "second"@ { Some(BaseNameVariant::Second) }
            else { None }
        }
        else if s.len() == 11 {
            if s == "second base"@ { Some(BaseNameVariant::SecondBase) }
            else { None }
        }
        else if s.len() == 4 {
            if s == "home"@ { Some(BaseNameVariant::Home) }
            else { None }
        }
        else { None }
    }

    /// Reads a value from its written form.
    pub fn from_str(s: &str) -> (r: Result<BaseNameVariant, ParseError>)
        ensures
            match r {
                Ok(x) => BaseNameVariant::spec_parse(s@) == Some(x) && x.spec_name() == s@,
                Err(_) => BaseNameVariant::spec_parse(s@) is None,
            },
    {
        if str_eq(s, "first") {
            proof { reveal_strlit("first"); }
            return Ok(BaseNameVariant::First);
        }
        if str_eq(s, "first base") {
            proof { reveal_strlit("first base"); }
            return Ok(BaseNameVariant::FirstBase);
        }
        if str_eq(s, "1B") {
            proof { reveal_strlit("1B"); }
            return Ok(BaseNameVariant::OneB);
        }
        if str_eq(s, "second") {
            proof { reveal_strlit("second"); }
            return Ok(BaseNameVariant::Second);
        }
        if str_eq(s, "second base") {
            proof { reveal_strlit("second base"); }
            return Ok(BaseNameVariant::SecondBase);
        }
        if str_eq(s, "2B") {
            proof { reveal_strlit("2B"); }
            return Ok(BaseNameVariant::TwoB);
        }
        if str_eq(s, "third base") {
            proof { reveal_strlit("third base"); }
            return Ok(BaseNameVariant::ThirdBase);
        }
        if str_eq(s, "third") {
            proof { reveal_strlit("third"); }
            return Ok(BaseNameVariant::Third);
        }
        if str_eq(s, "3B") {
            proof { reveal_strlit("3B"); }
            return Ok(BaseNameVariant::ThreeB);
        }
        if str_eq(s, "home") {
            proof { reveal_strlit("home"); }
            return Ok(BaseNameVariant::Home);
        }
        Err(ParseError::VariantNotFound)
    }

    /// Reading the written form of a known value gives that value back.
    pub proof fn lemma_parse_name(self)
        ensures
            BaseNameVariant::spec_parse(self.spec_name()) == Some(self),
    {
        match self {
            BaseNameVariant::First => {
                reveal_strlit("first");
            }
            BaseNameVariant::FirstBase => {
                reveal_strlit("first base");
            }
            BaseNameVariant::OneB => {
                reveal_strlit("1B");
            }
            BaseNameVariant::Second => {
                reveal_strlit("second");
            }
            BaseNameVariant::SecondBase => {
                reveal_strlit("second base");
            }
            BaseNameVariant::TwoB => {
                reveal_strlit("2B");
                reveal_strlit("1B"); assert("2B"@[0] != "1B"@[0]);
            }
            BaseNameVariant::ThirdBase => {
                reveal_strlit("third base");
                reveal_strlit("first base"); assert("third base"@[0] != "first base"@[0]);
            }
            BaseNameVariant::Third => {
                reveal_strlit("third");
                reveal_strlit("first"); assert("third"@[0] != "first"@[0]);
            }
            BaseNameVariant::ThreeB => {
                reveal_strlit("3B");
                reveal_strlit("1B"); assert("3B"@[0] != "1B"@[0]);
                reveal_strlit("2B"); assert("3B"@[0] != "2B"@[0]);
            }
            BaseNameVariant::Home => {
                reveal_strlit("home");
            }
        }
    }
    /// The written form of each known value, and what reading it gives.
    pub proof fn lemma_name_table()
        ensures
            BaseNameVariant::First.spec_name() == "first"@,
            BaseNameVariant::FirstBase.spec_name() == "first base"@,
            BaseNameVariant::OneB.spec_name() == "1B"@,
            BaseNameVariant::Second.spec_name() == "second"@,
            BaseNameVariant::SecondBase.spec_name() == "second base"@,
            BaseNameVariant::TwoB.spec_name() == "2B"@,
            BaseNameVariant::ThirdBase.spec_name() == "third base"@,
            BaseNameVariant::Third.spec_name() == "third"@,
            BaseNameVariant::ThreeB.spec_name() == "3B"@,
            BaseNameVariant::Home.spec_name() == "home"@,
            BaseNameVariant::spec_parse("first"@) == Some(BaseNameVariant::First),
            BaseNameVariant::spec_parse("first base"@) == Some(BaseNameVariant::FirstBase),
            BaseNameVariant::spec_parse("1B"@) == Some(BaseNameVariant::OneB),
            BaseNameVariant::spec_parse("second"@) == Some(BaseNameVariant::Second),
            BaseNameVariant::spec_parse("second base"@) == Some(BaseNameVariant::SecondBase),
            BaseNameVariant::spec_parse("2B"@) == Some(BaseNameVariant::TwoB),
            BaseNameVariant::spec_parse("third base"@) == Some(BaseNameVariant::ThirdBase),
            BaseNameVariant::spec_parse("third"@) == Some(BaseNameVariant::Third),
            BaseNameVariant::spec_parse("3B"@) == Some(BaseNameVariant::ThreeB),
            BaseNameVariant::spec_parse("home"@) == Some(BaseNameVariant::Home),
    {
        BaseNameVariant::First.lemma_parse_name();
        BaseNameVariant::FirstBase.lemma_parse_name();
        BaseNameVariant::OneB.lemma_parse_name();
        BaseNameVariant::Second.lemma_parse_name();
        BaseNameVariant::SecondBase.lemma_parse_name();
        BaseNameVariant::TwoB.lemma_parse_name();
        BaseNameVariant::ThirdBase.lemma_parse_name();
        BaseNameVariant::Third.lemma_parse_name();
        BaseNameVariant::ThreeB.lemma_parse_name();
        BaseNameVariant::Home.lemma_parse_name();
    }
}
/// How far a batter gets on a hit.
#[derive(Debug, Clone, Copy, PartialEq, Eq, Hash, Structural)]
pub enum Distance {
    Single,
    Double,
    Triple,
}

impl Distance {
    /// The text by which this value is written in event messages.
    pub open spec fn spec_name(self) -> Seq<char> {
        match self {
            Distance::Single => "singles"@,
            Distance::Double => "doubles"@,
            Distance::Triple => "triples"@,
        }
    }

    /// The text by which this value is written.
    pub fn as_str(self) -> (r: &'static str)
        ensures
            r@ == self.spec_name(),
    {
        match self {
            Distance::Single => "singles",
            Distance::Double => "doubles",
            Distance::Triple => "triples",
        }
    }

    /// The text by which this value is written, as an owned string.
    pub fn to_string(&self) -> (r: String)
        ensures
            r@ == self.spec_name(),
    {
        String::from_str(self.as_str())
    }

    /// The known value written as `s`, if any.
    pub open spec fn spec_parse(s: Seq<char>) -> Option<Distance> {
        if s.len() == 7 {
            if s == "singles"@ { Some(Distance::Single) }
            else if s == "doubles"@ { Some(Distance::Double) }
            else if s == "triples"@ { Some(Distance::Triple) }
            else { None }
        }
        else { None }
    }

    /// Reads a value from its written form.
    pub fn from_str(s: &str) -> (r: Result<Distance, ParseError>)
        ensures
            match r {
                Ok(x) => Distance::spec_parse(s@) == Some(x),
                Err(_) => Distance::spec_parse(s@) is None,
            },
    {
        if str_eq(s, "singles") {
            proof { reveal_strlit("singles"); }
            return Ok(Distance::Single);
        }
        if str_eq(s, "doubles") {
            proof { reveal_strlit("doubles"); }
            return Ok(Distance::Double);
        }
        if str_eq(s, "triples") {
            proof { reveal_strlit("triples"); }
            return Ok(Distance::Triple);
        }
        Err(ParseError::VariantNotFound)
    }

    /// Reading the written form of a known value gives that value back.
    pub proof fn lemma_parse_name(self)
        ensures
            Distance::spec_parse(self.spec_name()) == Some(self),
    {
        match self {
            Distance::Single => {
                reveal_strlit("singles");
            }
            Distance::Double => {
                reveal_strlit("doubles");
                reveal_strlit("singles"); assert("doubles"@[0] != "singles"@[0]);
            }
            Distance::Triple => {
                reveal_strlit("triples");
                reveal_strlit("singles"); assert("triples"@[0] != "singles"@[0]);
                reveal_strlit("doubles"); assert("triples"@[0] != "doubles"@[0]);
            }
        }
    }
    /// The written form of each known value, and what reading it gives.
    pub proof fn lemma_name_table()
        ensures
            Distance::Single.spec_name() == "singles"@,
            Distance::Double.spec_name() == "doubles"@,
            Distance::Triple.spec_name() == "triples"@,
            Distance::spec_parse("singles"@) == Some(Distance::Single),
            Distance::spec_parse("doubles"@) == Some(Distance::Double),
            Distance::spec_parse("triples"@) == Some(Distance::Triple),
    {
        Distance::Single.lemma_parse_name();
        Distance::Double.lemma_parse_name();
        Distance::Triple.lemma_parse_name();
    }

    /// The written form of a distance is a word without spaces or full stops.
    pub proof fn lemma_name_is_word(self)
        ensures
            forall|i: int| 0 <= i < self.spec_name().len() ==> #[trigger] self.spec_name()[i] != ' ' && self.spec_name()[i] != '.',
    {
        match self {
            Distance::Single => { reveal_strlit("singles"); }
            Distance::Double => { reveal_strlit("doubles"); }
            Distance::Triple => { reveal_strlit("triples"); }
        }
    }
}
/// The texts that end a game.
#[derive(Debug, Clone, Copy, PartialEq, Eq, Hash, Structural)]
pub enum GameOverMessage {
    GameOver,
    QuotedGAMEOVER,
}

impl GameOverMessage {
    /// The text by which this value is written in event messages.
    pub open spec fn spec_name(self) -> Seq<char> {
        match self {
            GameOverMessage::GameOver => "Game over."@,
            GameOverMessage::QuotedGAMEOVER => "\"GAME OVER.\""@,
        }
    }

    /// The text by which this value is written.
    pub fn as_str(self) -> (r: &'static str)
        ensures
            r@ == self.spec_name(),
    {
        match self {
            GameOverMessage::GameOver => "Game over.",
            GameOverMessage::QuotedGAMEOVER => "\"GAME OVER.\"",
        }
    }

    /// The text by which this value is written, as an owned string.
    pub fn to_string(&self) -> (r: String)
        ensures
            r@ == self.spec_name(),
    {
        String::from_str(self.as_str())
    }

    /// The known value written as `s`, if any.
    pub open spec fn spec_parse(s: Seq<char>) -> Option<GameOverMessage> {
        if s.len() == 10 {
            if s == "Game over."@ { Some(GameOverMessage::GameOver) }
            else { None }
        }
        else if s.len() == 12 {
            if s == "\"GAME OVER.\""@ { Some(GameOverMessage::QuotedGAMEOVER) }
            else { None }
        }
        else { None }
    }

    /// Reads a value from its written form.
    pub fn from_str(s: &str) -> (r: Result<GameOverMessage, ParseError>)
        ensures
            match r {
                Ok(x) => GameOverMessage::spec_parse(s@) == Some(x),
                Err(_) => GameOverMessage::spec_parse(s@) is None,
            },
    {
        if str_eq(s, "Game over.") {
            proof { reveal_strlit("Game over."); }
            return Ok(GameOverMessage::GameOver);
        }
        if str_eq(s, "\"GAME OVER.\"") {
            proof { reveal_strlit("\"GAME OVER.\""); }
            return Ok(GameOverMessage::QuotedGAMEOVER);
        }
        Err(ParseError::VariantNotFound)
    }

    /// Reading the written form of a known value gives that value back.
    pub proof fn lemma_parse_name(self)
        ensures
            GameOverMessage::spec_parse(self.spec_name()) == Some(self),
    {
        match self {
            GameOverMessage::GameOver => {
                reveal_strlit("Game over.");
            }
            GameOverMessage::QuotedGAMEOVER => {
                reveal_strlit("\"GAME OVER.\"");
            }
        }
    }
    /// The written form of each known value, and what reading it gives.
    pub proof fn lemma_name_table()
        ensures
            GameOverMessage::GameOver.spec_name() == "Game over."@,
            GameOverMessage::QuotedGAMEOVER.spec_name() == "\"GAME OVER.\""@,
            GameOverMessage::spec_parse("Game over."@) == Some(GameOverMessage::GameOver),
            GameOverMessage::spec_parse("\"GAME OVER.\""@) == Some(GameOverMessage::QuotedGAMEOVER),
    {
        GameOverMessage::GameOver.lemma_parse_name();
        GameOverMessage::QuotedGAMEOVER.lemma_parse_name();
    }
}
/// The kinds of item.
#[derive(Debug, Clone, Copy, PartialEq, Eq, Hash, Structural)]
pub enum ItemName {
    Cap,
    Gloves,
    TShirt,
    Sneakers,
    Ring,
    AmplificationOrb,
    ProgressOrb,
    AmbitionOrb,
}

impl ItemName {
    /// In the written form of a kind of item a space is only ever followed by
    /// a capital O, and the form neither starts nor ends with a space.
    pub proof fn lemma_name_spaces(self)
        ensures
            self.spec_name().len() > 0,
            self.spec_name()[0] != ' ',
            self.spec_name()[self.spec_name().len() - 1] != ' ',
            forall|i: int| 0 <= i < self.spec_name().len() && #[trigger] self.spec_name()[i] == ' '
                ==> i + 1 < self.spec_name().len() && self.spec_name()[i + 1] == 'O',
    {
        match self {
            ItemName::Cap => { reveal_strlit("Cap"); }
            ItemName::Gloves => { reveal_strlit("Gloves"); }
            ItemName::TShirt => { reveal_strlit("T-Shirt"); }
            ItemName::Sneakers => { reveal_strlit("Sneakers"); }
            ItemName::Ring => { reveal_strlit("Ring"); }
            ItemName::AmplificationOrb => { reveal_strlit("Amplification Orb"); }
            ItemName::ProgressOrb => { reveal_strlit("Progress Orb"); }
            ItemName::AmbitionOrb => { reveal_strlit("Ambition Orb"); }
        }
    }

    /// The written form of a kind of item holds no capital D.
    pub proof fn lemma_name_no_capital_d(self)
        ensures
            forall|i: int| 0 <= i < self.spec_name().len() ==> #[trigger] self.spec_name()[i] != 'D',
    {
        match self {
            ItemName::Cap => { reveal_strlit("Cap"); }
            ItemName::Gloves => { reveal_strlit("Gloves"); }
            ItemName::TShirt => { reveal_strlit("T-Shirt"); }
            ItemName::Sneakers => { reveal_strlit("Sneakers"); }
            ItemName::Ring => { reveal_strlit("Ring"); }
            ItemName::AmplificationOrb => { reveal_strlit("Amplification Orb"); }
            ItemName::ProgressOrb => { reveal_strlit("Progress Orb"); }
            ItemName::AmbitionOrb => { reveal_strlit("Ambition Orb"); }
        }
    }

    /// The text by which this value is written in event messages.
    pub open spec fn spec_name(self) -> Seq<char> {
        match self {
            ItemName::Cap => "Cap"@,
            ItemName::Gloves => "Gloves"@,
            ItemName::TShirt => "T-Shirt"@,
            ItemName::Sneakers => "Sneakers"@,
            ItemName::Ring => "Ring"@,
            ItemName::AmplificationOrb => "Amplification Orb"@,
            ItemName::ProgressOrb => "Progress Orb"@,
            ItemName::AmbitionOrb => "Ambition Orb"@,
        }
    }

    /// The text by which this value is written.
    pub fn as_str(self) -> (r: &'static str)
        ensures
            r@ == self.spec_name(),
    {
        match self {
            ItemName::Cap => "Cap",
            ItemName::Gloves => "Gloves",
            ItemName::TShirt => "T-Shirt",
            ItemName::Sneakers => "Sneakers",
            ItemName::Ring => "Ring",
            ItemName::AmplificationOrb => "Amplification Orb",
            ItemName::ProgressOrb => "Progress Orb",
            ItemName::AmbitionOrb => "Ambition Orb",
        }
    }

    /// The text by which this value is written, as an owned string.
    pub fn to_string(&self) -> (r: String)
        ensures
            r@ == self.spec_name(),
    {
        String::from_str(self.as_str())
    }

    /// The known value written as `s`, if any.
    pub open spec fn spec_parse(s: Seq<char>) -> Option<ItemName> {
        if s.len() == 3 {
            if s == "Cap"@ { Some(ItemName::Cap) }
            else { None }
        }
        else if s.len() == 6 {
            if s == "Gloves"@ { Some(ItemName::Gloves) }
            else { None }
        }
        else if s.len() == 7 {
            if s == "T-Shirt"@ { Some(ItemName::TShirt) }
            else { None }
        }
        else if s.len() == 8 {
            if s == "Sneakers"@ { Some(ItemName::Sneakers) }
            else { None }
        }
        else if s.len() == 4 {
            if s == "Ring"@ { Some(ItemName::Ring) }
            else { None }
        }
        else if s.len() == 17 {
            if s == "Amplification Orb"@ { Some(ItemName::AmplificationOrb) }
            else { None }
        }
        else if s.len() == 12 {
            if s == "Progress Orb"@ { Some(ItemName::ProgressOrb) }
            else if s == "Ambition Orb"@ { Some(ItemName::AmbitionOrb) }
            else { None }
        }
        else { None }
    }

    /// Reads a value from its written form.
    pub fn from_str(s: &str) -> (r: Result<ItemName, ParseError>)
        ensures
            match r {
                Ok(x) => ItemName::spec_parse(s@) == Some(x) && x.spec_name() == s@,
                Err(_) => ItemName::spec_parse(s@) is None,
            },
    {
        if str_eq(s, "Cap") {
            proof { reveal_strlit("Cap"); }
            return Ok(ItemName::Cap);
        }
        if str_eq(s, "Gloves") {
            proof { reveal_strlit("Gloves"); }
            return Ok(ItemName::Gloves);
        }
        if str_eq(s, "T-Shirt") {
            proof { reveal_strlit("T-Shirt"); }
            return Ok(ItemName::TShirt);
        }
        if str_eq(s, "Sneakers") {
            proof { reveal_strlit("Sneakers"); }
            return Ok(ItemName::Sneakers);
        }
        if str_eq(s, "Ring") {
            proof { reveal_strlit("Ring"); }
            return Ok(ItemName::Ring);
        }
        if str_eq(s, "Amplification Orb") {
            proof { reveal_strlit("Amplification Orb"); }
            return Ok(ItemName::AmplificationOrb);
        }
        if str_eq(s, "Progress Orb") {
            proof { reveal_strlit("Progress Orb"); }
            return Ok(ItemName::ProgressOrb);
        }
        if str_eq(s, "Ambition Orb") {
            proof { reveal_strlit("Ambition Orb"); }
            return Ok(ItemName::AmbitionOrb);
        }
        Err(ParseError::VariantNotFound)
    }

    /// Reading the written form of a known value gives that value back.
    pub proof fn lemma_parse_name(self)
        ensures
            ItemName::spec_parse(self.spec_name()) == Some(self),
    {
        match self {
            ItemName::Cap => {
                reveal_strlit("Cap");
            }
            ItemName::Gloves => {
                reveal_strlit("Gloves");
            }
            ItemName::TShirt => {
                reveal_strlit("T-Shirt");
            }
            ItemName::Sneakers => {
                reveal_strlit("Sneakers");
            }
            ItemName::Ring => {
                reveal_strlit("Ring");
            }
            ItemName::AmplificationOrb => {
                reveal_strlit("Amplification Orb");
            }
            ItemName::ProgressOrb => {
                reveal_strlit("Progress Orb");
            }
            ItemName::AmbitionOrb => {
                reveal_strlit("Ambition Orb");
                reveal_strlit("Progress Orb"); assert("Ambition Orb"@[0] != "Progress Orb"@[0]);
            }
        }
    }
    /// The written form of each known value, and what reading it gives.
    pub proof fn lemma_name_table()
        ensures
            ItemName::Cap.spec_name() == "Cap"@,
            ItemName::Gloves.spec_name() == "Gloves"@,
            ItemName::TShirt.spec_name() == "T-Shirt"@,
            ItemName::Sneakers.spec_name() == "Sneakers"@,
            ItemName::Ring.spec_name() == "Ring"@,
            ItemName::AmplificationOrb.spec_name() == "Amplification Orb"@,
            ItemName::ProgressOrb.spec_name() == "Progress Orb"@,
            ItemName::AmbitionOrb.spec_name() == "Ambition Orb"@,
            ItemName::spec_parse("Cap"@) == Some(ItemName::Cap),
            ItemName::spec_parse("Gloves"@) == Some(ItemName::Gloves),
            ItemName::spec_parse("T-Shirt"@) == Some(ItemName::TShirt),
            ItemName::spec_parse("Sneakers"@) == Some(ItemName::Sneakers),
            ItemName::spec_parse("Ring"@) == Some(ItemName::Ring),
            ItemName::spec_parse("Amplification Orb"@) == Some(ItemName::AmplificationOrb),
            ItemName::spec_parse("Progress Orb"@) == Some(ItemName::ProgressOrb),
            ItemName::spec_parse("Ambition Orb"@) == Some(ItemName::AmbitionOrb),
    {
        ItemName::Cap.lemma_parse_name();
        ItemName::Gloves.lemma_parse_name();
        ItemName::TShirt.lemma_parse_name();
        ItemName::Sneakers.lemma_parse_name();
        ItemName::Ring.lemma_parse_name();
        ItemName::AmplificationOrb.lemma_parse_name();
        ItemName::ProgressOrb.lemma_parse_name();
        ItemName::AmbitionOrb.lemma_parse_name();
    }
}
/// The kinds of special item.
#[derive(Debug, Clone, Copy, PartialEq, Eq, Hash, Structural)]
pub enum SpecialItemType {
    Material,
}

impl SpecialItemType {
    /// The text by which this value is written in event messages.
    pub open spec fn spec_name(self) -> Seq<char> {
        match self {
            SpecialItemType::Material => "Material"@,
        }
    }

    /// The text by which this value is written.
    pub fn as_str(self) -> (r: &'static str)
        ensures
            r@ == self.spec_name(),
    {
        match self {
            SpecialItemType::Material => "Material",
        }
    }

    /// The text by which this value is written, as an owned string.
    pub fn to_string(&self) -> (r: String)
        ensures
            r@ == self.spec_name(),
    {
        String::from_str(self.as_str())
    }

    /// The known value written as `s`, if any.
    pub open spec fn spec_parse(s: Seq<char>) -> Option<SpecialItemType> {
        if s.len() == 8 {
            if s == "Material"@ { Some(SpecialItemType::Material) }
            else { None }
        }
        else { None }
    }

    /// Reads a value from its written form.
    pub fn from_str(s: &str) -> (r: Result<SpecialItemType, ParseError>)
        ensures
            match r {
                Ok(x) => SpecialItemType::spec_parse(s@) == Some(x),
                Err(_) => SpecialItemType::spec_parse(s@) is None,
            },
    {
        if str_eq(s, "Material") {
            proof { reveal_strlit("Material"); }
            return Ok(SpecialItemType::Material);
        }
        Err(ParseError::VariantNotFound)
    }

    /// Reading the written form of a known value gives that value back.
    pub proof fn lemma_parse_name(self)
        ensures
            SpecialItemType::spec_parse(self.spec_name()) == Some(self),
    {
        match self {
            SpecialItemType::Material => {
                reveal_strlit("Material");
            }
        }
    }
    /// The written form of each known value, and what reading it gives.
    pub proof fn lemma_name_table()
        ensures
            SpecialItemType::Material.spec_name() == "Material"@,
            SpecialItemType::spec_parse("Material"@) == Some(SpecialItemType::Material),
    {
        SpecialItemType::Material.lemma_parse_name();
    }
}
/// The kinds of feed event.
#[derive(Debug, Clone, Copy, PartialEq, Eq, Hash, Structural)]
pub enum FeedEventType {
    Game,
    Augment,
    Release,
    Season,
}

impl FeedEventType {
    /// The text by which this value is written in event messages.
    pub open spec fn spec_name(self) -> Seq<char> {
        match self {
            FeedEventType::Game => "game"@,
            FeedEventType::Augment => "augment"@,
            FeedEventType::Release => "release"@,
            FeedEventType::Season => "season"@,
        }
    }

    /// The text by which this value is written.
    pub fn as_str(self) -> (r: &'static str)
        ensures
            r@ == self.spec_name(),
    {
        match self {
            FeedEventType::Game => "game",
            FeedEventType::Augment => "augment",
            FeedEventType::Release => "release",
            FeedEventType::Season => "season",
        }
    }

    /// The text by which this value is written, as an owned string.
    pub fn to_string(&self) -> (r: String)
        ensures
            r@ == self.spec_name(),
    {
        String::from_str(self.as_str())
    }

    /// The known value written as `s`, if any.
    pub open spec fn spec_parse(s: Seq<char>) -> Option<FeedEventType> {
        if s.len() == 4 {
            if s == "game"@ { Some(FeedEventType::Game) }
            else { None }
        }
        else if s.len() == 7 {
            if s == "augment"@ { Some(FeedEventType::Augment) }
            else if s == "release"@ { Some(FeedEventType::Release) }
            else { None }
        }
        else if s.len() == 6 {
            if s == "season"@ { Some(FeedEventType::Season) }
            else { None }
        }
        else { None }
    }

    /// Reads a value from its written form.
    pub fn from_str(s: &str) -> (r: Result<FeedEventType, ParseError>)
        ensures
            match r {
                Ok(x) => FeedEventType::spec_parse(s@) == Some(x),
                Err(_) => FeedEventType::spec_parse(s@) is None,
            },
    {
        if str_eq(s, "game") {
            proof { reveal_strlit("game"); }
            return Ok(FeedEventType::Game);
        }
        if str_eq(s, "augment") {
            proof { reveal_strlit("augment"); }
            return Ok(FeedEventType::Augment);
        }
        if str_eq(s, "release") {
            proof { reveal_strlit("release"); }
            return Ok(FeedEventType::Release);
        }
        if str_eq(s, "season") {
            proof { reveal_strlit("season"); }
            return Ok(FeedEventType::Season);
        }
        Err(ParseError::VariantNotFound)
    }

    /// Reading the written form of a known value gives that value back.
    pub proof fn lemma_parse_name(self)
        ensures
            FeedEventType::spec_parse(self.spec_name()) == Some(self),
    {
        match self {
            FeedEventType::Game => {
                reveal_strlit("game");
            }
            FeedEventType::Augment => {
                reveal_strlit("augment");
            }
            FeedEventType::Release => {
                reveal_strlit("release");
                reveal_strlit("augment"); assert("release"@[0] != "augment"@[0]);
            }
            FeedEventType::Season => {
                reveal_strlit("season");
            }
        }
    }
    /// The written form of each known value, and what reading it gives.
    pub proof fn lemma_name_table()
        ensures
            FeedEventType::Game.spec_name() == "game"@,
            FeedEventType::Augment.spec_name() == "augment"@,
            FeedEventType::Release.spec_name() == "release"@,
            FeedEventType::Season.spec_name() == "season"@,
            FeedEventType::spec_parse("game"@) == Some(FeedEventType::Game),
            FeedEventType::spec_parse("augment"@) == Some(FeedEventType::Augment),
            FeedEventType::spec_parse("release"@) == Some(FeedEventType::Release),
            FeedEventType::spec_parse("season"@) == Some(FeedEventType::Season),
    {
        FeedEventType::Game.lemma_parse_name();
        FeedEventType::Augment.lemma_parse_name();
        FeedEventType::Release.lemma_parse_name();
        FeedEventType::Season.lemma_parse_name();
    }
}
/// The kinds of link in a feed event.
#[derive(Debug, Clone, Copy, PartialEq, Eq, Hash, Structural)]
pub enum LinkType {
    Player,
    Game,
    Team,
}

impl LinkType {
    /// The text by which this value is written in event messages.
    pub open spec fn spec_name(self) -> Seq<char> {
        match self {
            LinkType::Player => "player"@,
            LinkType::Game => "game"@,
            LinkType::Team => "team"@,
        }
    }

    /// The text by which this value is written.
    pub fn as_str(self) -> (r: &'static str)
        ensures
            r@ == self.spec_name(),
    {
        match self {
            LinkType::Player => "player",
            LinkType::Game => "game",
            LinkType::Team => "team",
        }
    }

    /// The text by which this value is written, as an owned string.
    pub fn to_string(&self) -> (r: String)
        ensures
            r@ == self.spec_name(),
    {
        String::from_str(self.as_str())
    }

    /// The known value written as `s`, if any.
    pub open spec fn spec_parse(s: Seq<char>) -> Option<LinkType> {
        if s.len() == 6 {
            if s == "player"@ { Some(LinkType::Player) }
            else { None }
        }
        else if s.len() == 4 {
            if s == "game"@ { Some(LinkType::Game) }
            else if s == "team"@ { Some(LinkType::Team) }
            else { None }
        }
        else { None }
    }

    /// Reads a value from its written form.
    pub fn from_str(s: &str) -> (r: Result<LinkType, ParseError>)
        ensures
            match r {
                Ok(x) => LinkType::spec_parse(s@) == Some(x),
                Err(_) => LinkType::spec_parse(s@) is None,
            },
    {
        if str_eq(s, "player") {
            proof { reveal_strlit("player"); }
            return Ok(LinkType::Player);
        }
        if str_eq(s, "game") {
            proof { reveal_strlit("game"); }
            return Ok(LinkType::Game);
        }
        if str_eq(s, "team") {
            proof { reveal_strlit("team"); }
            return Ok(LinkType::Team);
        }
        Err(ParseError::VariantNotFound)
    }

    /// Reading the written form of a known value gives that value back.
    pub proof fn lemma_parse_name(self)
        ensures
            LinkType::spec_parse(self.spec_name()) == Some(self),
    {
        match self {
            LinkType::Player => {
                reveal_strlit("player");
            }
            LinkType::Game => {
                reveal_strlit("game");
            }
            LinkType::Team => {
                reveal_strlit("team");
                reveal_strlit("game"); assert("team"@[0] != "game"@[0]);
            }
        }
    }
    /// The written form of each known value, and what reading it gives.
    pub proof fn lemma_name_table()
        ensures
            LinkType::Player.spec_name() == "player"@,
            LinkType::Game.spec_name() == "game"@,
            LinkType::Team.spec_name() == "team"@,
            LinkType::spec_parse("player"@) == Some(LinkType::Player),
            LinkType::spec_parse("game"@) == Some(LinkType::Game),
            LinkType::spec_parse("team"@) == Some(LinkType::Team),
    {
        LinkType::Player.lemma_parse_name();
        LinkType::Game.lemma_parse_name();
        LinkType::Team.lemma_parse_name();
    }
}
/// Whether a player pitches or bats.
#[derive(Debug, Clone, Copy, PartialEq, Eq, Hash, Structural)]
pub enum PositionType {
    Pitcher,
    Batter,
}

impl PositionType {
    /// The text by which this value is written in event messages.
    pub open spec fn spec_name(self) -> Seq<char> {
        match self {
            PositionType::Pitcher => "Pitcher"@,
            PositionType::Batter => "Batter"@,
        }
    }

    /// The text by which this value is written.
    pub fn as_str(self) -> (r: &'static str)
        ensures
            r@ == self.spec_name(),
    {
        match self {
            PositionType::Pitcher => "Pitcher",
            PositionType::Batter => "Batter",
        }
    }

    /// The text by which this value is written, as an owned string.
    pub fn to_string(&self) -> (r: String)
        ensures
            r@ == self.spec_name(),
    {
        String::from_str(self.as_str())
    }

    /// The known value written as `s`, if any.
    pub open spec fn spec_parse(s: Seq<char>) -> Option<PositionType> {
        if s.len() == 7 {
            if s == "Pitcher"@ { Some(PositionType::Pitcher) }
            else { None }
        }
        else if s.len() == 6 {
            if s == "Batter"@ { Some(PositionType::Batter) }
            else { None }
        }
        else { None }
    }

    /// Reads a value from its written form.
    pub fn from_str(s: &str) -> (r: Result<PositionType, ParseError>)
        ensures
            match r {
                Ok(x) => PositionType::spec_parse(s@) == Some(x),
                Err(_) => PositionType::spec_parse(s@) is None,
            },
    {
        if str_eq(s, "Pitcher") {
            proof { reveal_strlit("Pitcher"); }
            return Ok(PositionType::Pitcher);
        }
        if str_eq(s, "Batter") {
            proof { reveal_strlit("Batter"); }
            return Ok(PositionType::Batter);
        }
        Err(ParseError::VariantNotFound)
    }

    /// Reading the written form of a known value gives that value back.
    pub proof fn lemma_parse_name(self)
        ensures
            PositionType::spec_parse(self.spec_name()) == Some(self),
    {
        match self {
            PositionType::Pitcher => {
                reveal_strlit("Pitcher");
            }
            PositionType::Batter => {
                reveal_strlit("Batter");
            }
        }
    }
    /// The written form of each known value, and what reading it gives.
    pub proof fn lemma_name_table()
        ensures
            PositionType::Pitcher.spec_name() == "Pitcher"@,
            PositionType::Batter.spec_name() == "Batter"@,
            PositionType::spec_parse("Pitcher"@) == Some(PositionType::Pitcher),
            PositionType::spec_parse("Batter"@) == Some(PositionType::Batter),
    {
        PositionType::Pitcher.lemma_parse_name();
        PositionType::Batter.lemma_parse_name();
    }
}
/// Player attributes.
#[derive(Debug, Clone, Copy, PartialEq, Eq, Hash, Structural)]
pub enum Attribute {
    Priority,
    Luck,
    Aiming,
    Contact,
    Cunning,
    Discipline,
    Insight,
    Intimidation,
    Lift,
    Vision,
    Determination,
    Wisdom,
    Muscle,
    Selflessness,
    Accuracy,
    Rotation,
    Presence,
    Persuasion,
    Stamina,
    Velocity,
    Control,
    Stuff,
    Defiance,
    Acrobatics,
    Agility,
    Arm,
    Awareness,
    Composure,
    Dexterity,
    Patience,
    Reaction,
    Greed,
    Performance,
    Speed,
    Stealth,
    Guts,
}

impl Attribute {
    /// The text by which this value is written in event messages.
    pub open spec fn spec_name(self) -> Seq<char> {
        match self {
            Attribute::Priority => "Priority"@,
            Attribute::Luck => "Luck"@,
            Attribute::Aiming => "Aiming"@,
            Attribute::Contact => "Contact"@,
            Attribute::Cunning => "Cunning"@,
            Attribute::Discipline => "Discipline"@,
            Attribute::Insight => "Insight"@,
            Attribute::Intimidation => "Intimidation"@,
            Attribute::Lift => "Lift"@,
            Attribute::Vision => "Vision"@,
            Attribute::Determination => "Determination"@,
            Attribute::Wisdom => "Wisdom"@,
            Attribute::Muscle => "Muscle"@,
            Attribute::Selflessness => "Selflessness"@,
            Attribute::Accuracy => "Accuracy"@,
            Attribute::Rotation => "Rotation"@,
            Attribute::Presence => "Presence"@,
            Attribute::Persuasion => "Persuasion"@,
            Attribute::Stamina => "Stamina"@,
            Attribute::Velocity => "Velocity"@,
            Attribute::Control => "Control"@,
            Attribute::Stuff => "Stuff"@,
            Attribute::Defiance => "Defiance"@,
            Attribute::Acrobatics => "Acrobatics"@,
            Attribute::Agility => "Agility"@,
            Attribute::Arm => "Arm"@,
            Attribute::Awareness => "Awareness"@,
            Attribute::Composure => "Composure"@,
            Attribute::Dexterity => "Dexterity"@,
            Attribute::Patience => "Patience"@,
            Attribute::Reaction => "Reaction"@,
            Attribute::Greed => "Greed"@,
            Attribute::Performance => "Performance"@,
            Attribute::Speed => "Speed"@,
            Attribute::Stealth => "Stealth"@,
            Attribute::Guts => "Guts"@,
        }
    }

    /// The text by which this value is written.
    pub fn as_str(self) -> (r: &'static str)
        ensures
            r@ == self.spec_name(),
    {
        match self {
            Attribute::Priority => "Priority",
            Attribute::Luck => "Luck",
            Attribute::Aiming => "Aiming",
            Attribute::Contact => "Contact",
            Attribute::Cunning => "Cunning",
            Attribute::Discipline => "Discipline",
            Attribute::Insight => "Insight",
            Attribute::Intimidation => "Intimidation",
            Attribute::Lift => "Lift",
            Attribute::Vision => "Vision",
            Attribute::Determination => "Determination",
            Attribute::Wisdom => "Wisdom",
            Attribute::Muscle => "Muscle",
            Attribute::Selflessness => "Selflessness",
            Attribute::Accuracy => "Accuracy",
            Attribute::Rotation => "Rotation",
            Attribute::Presence => "Presence",
            Attribute::Persuasion => "Persuasion",
            Attribute::Stamina => "Stamina",
            Attribute::Velocity => "Velocity",
            Attribute::Control => "Control",
            Attribute::Stuff => "Stuff",
            Attribute::Defiance => "Defiance",
            Attribute::Acrobatics => "Acrobatics",
            Attribute::Agility => "Agility",
            Attribute::Arm => "Arm",
            Attribute::Awareness => "Awareness",
            Attribute::Composure => "Composure",
            Attribute::Dexterity => "Dexterity",
            Attribute::Patience => "Patience",
            Attribute::Reaction => "Reaction",
            Attribute::Greed => "Greed",
            Attribute::Performance => "Performance",
            Attribute::Speed => "Speed",
            Attribute::Stealth => "Stealth",
            Attribute::Guts => "Guts",
        }
    }

    /// The text by which this value is written, as an owned string.
    pub fn to_string(&self) -> (r: String)
        ensures
            r@ == self.spec_name(),
    {
        String::from_str(self.as_str())
    }

    /// The known value written as `s`, if any.
    pub open spec fn spec_parse(s: Seq<char>) -> Option<Attribute> {
        if s.len() == 8 {
            if s == "Priority"@ { Some(Attribute::Priority) }
            else if s == "Accuracy"@ { Some(Attribute::Accuracy) }
            else if s == "Rotation"@ { Some(Attribute::Rotation) }
            else if s == "Presence"@ { Some(Attribute::Presence) }
            else if s == "Velocity"@ { Some(Attribute::Velocity) }
            else if s == "Defiance"@ { Some(Attribute::Defiance) }
            else if s == "Patience"@ { Some(Attribute::Patience) }
            else if s == "Reaction"@ { Some(Attribute::Reaction) }
            else { None }
        }
        else if s.len() == 4 {
            if s == "Luck"@ { Some(Attribute::Luck) }
            else if s == "Lift"@ { Some(Attribute::Lift) }
            else if s == "Guts"@ { Some(Attribute::Guts) }
            else { None }
        }
        else if s.len() == 6 {
            if s == "Aiming"@ { Some(Attribute::Aiming) }
            else if s == "Vision"@ { Some(Attribute::Vision) }
            else if s == "Wisdom"@ { Some(Attribute::Wisdom) }
            else if s == "Muscle"@ { Some(Attribute::Muscle) }
            else { None }
        }
        else if s.len() == 7 {
            if s == "Contact"@ { Some(Attribute::Contact) }
            else if s == "Cunning"@ { Some(Attribute::Cunning) }
            else if s == "Insight"@ { Some(Attribute::Insight) }
            else if s == "Stamina"@ { Some(Attribute::Stamina) }
            else if s == "Control"@ { Some(Attribute::Control) }
            else if s == "Agility"@ { Some(Attribute::Agility) }
            else if s == "Stealth"@ { Some(Attribute::Stealth) }
            else { None }
        }
        else if s.len() == 10 {
            if s == "Discipline"@ { Some(Attribute::Discipline) }
            else if s == "Persuasion"@ { Some(Attribute::Persuasion) }
            else if s == "Acrobatics"@ { Some(Attribute::Acrobatics) }
            else { None }
        }
        else if s.len() == 12 {
            if s == "Intimidation"@ { Some(Attribute::Intimidation) }
            else if s == "Selflessness"@ { Some(Attribute::Selflessness) }
            else { None }
        }
        else if s.len() == 13 {
            if s == "Determination"@ { Some(Attribute::Determination) }
            else { None }
        }
        else if s.len() == 5 {
            if s == "Stuff"@ { Some(Attribute::Stuff) }
            else if s == "Greed"@ { Some(Attribute::Greed) }
            else if s == "Speed"@ { Some(Attribute::Speed) }
            else { None }
        }
        else if s.len() == 3 {
            if s == "Arm"@ { Some(Attribute::Arm) }
            else { None }
        }
        else if s.len() == 9 {
            if s == "Awareness"@ { Some(Attribute::Awareness) }
            else if s == "Composure"@ { Some(Attribute::Composure) }
            else if s == "Dexterity"@ { Some(Attribute::Dexterity) }
            else { None }
        }
        else if s.len() == 11 {
            if s == "Performance"@ { Some(Attribute::Performance) }
            else { None }
        }
        else { None }
    }

    /// Reads a value from its written form.
    pub fn from_str(s: &str) -> (r: Result<Attribute, ParseError>)
        ensures
            match r {
                Ok(x) => Attribute::spec_parse(s@) == Some(x) && x.spec_name() == s@,
                Err(_) => Attribute::spec_parse(s@) is None,
            },
    {
        if str_eq(s, "Priority") {
            proof { reveal_strlit("Priority"); }
            return Ok(Attribute::Priority);
        }
        if str_eq(s, "Luck") {
            proof { reveal_strlit("Luck"); }
            return Ok(Attribute::Luck);
        }
        if str_eq(s, "Aiming") {
            proof { reveal_strlit("Aiming"); }
            return Ok(Attribute::Aiming);
        }
        if str_eq(s, "Contact") {
            proof { reveal_strlit("Contact"); }
            return Ok(Attribute::Contact);
        }
        if str_eq(s, "Cunning") {
            proof { reveal_strlit("Cunning"); }
            return Ok(Attribute::Cunning);
        }
        if str_eq(s, "Discipline") {
            proof { reveal_strlit("Discipline"); }
            return Ok(Attribute::Discipline);
        }
        if str_eq(s, "Insight") {
            proof { reveal_strlit("Insight"); }
            return Ok(Attribute::Insight);
        }
        if str_eq(s, "Intimidation") {
            proof { reveal_strlit("Intimidation"); }
            return Ok(Attribute::Intimidation);
        }
        if str_eq(s, "Lift") {
            proof { reveal_strlit("Lift"); }
            return Ok(Attribute::Lift);
        }
        if str_eq(s, "Vision") {
            proof { reveal_strlit("Vision"); }
            return Ok(Attribute::Vision);
        }
        if str_eq(s, "Determination") {
            proof { reveal_strlit("Determination"); }
            return Ok(Attribute::Determination);
        }
        if str_eq(s, "Wisdom") {
            proof { reveal_strlit("Wisdom"); }
            return Ok(Attribute::Wisdom);
        }
        if str_eq(s, "Muscle") {
            proof { reveal_strlit("Muscle"); }
            return Ok(Attribute::Muscle);
        }
        if str_eq(s, "Selflessness") {
            proof { reveal_strlit("Selflessness"); }
            return Ok(Attribute::Selflessness);
        }
        if str_eq(s, "Accuracy") {
            proof { reveal_strlit("Accuracy"); }
            return Ok(Attribute::Accuracy);
        }
        if str_eq(s, "Rotation") {
            proof { reveal_strlit("Rotation"); }
            return Ok(Attribute::Rotation);
        }
        if str_eq(s, "Presence") {
            proof { reveal_strlit("Presence"); }
            return Ok(Attribute::Presence);
        }
        if str_eq(s, "Persuasion") {
            proof { reveal_strlit("Persuasion"); }
            return Ok(Attribute::Persuasion);
        }
        if str_eq(s, "Stamina") {
            proof { reveal_strlit("Stamina"); }
            return Ok(Attribute::Stamina);
        }
        if str_eq(s, "Velocity") {
            proof { reveal_strlit("Velocity"); }
            return Ok(Attribute::Velocity);
        }
        if str_eq(s, "Control") {
            proof { reveal_strlit("Control"); }
            return Ok(Attribute::Control);
        }
        if str_eq(s, "Stuff") {
            proof { reveal_strlit("Stuff"); }
            return Ok(Attribute::Stuff);
        }
        if str_eq(s, "Defiance") {
            proof { reveal_strlit("Defiance"); }
            return Ok(Attribute::Defiance);
        }
        if str_eq(s, "Acrobatics") {
            proof { reveal_strlit("Acrobatics"); }
            return Ok(Attribute::Acrobatics);
        }
        if str_eq(s, "Agility") {
            proof { reveal_strlit("Agility"); }
            return Ok(Attribute::Agility);
        }
        if str_eq(s, "Arm") {
            proof { reveal_strlit("Arm"); }
            return Ok(Attribute::Arm);
        }
        if str_eq(s, "Awareness") {
            proof { reveal_strlit("Awareness"); }
            return Ok(Attribute::Awareness);
        }
        if str_eq(s, "Composure") {
            proof { reveal_strlit("Composure"); }
            return Ok(Attribute::Composure);
        }
        if str_eq(s, "Dexterity") {
            proof { reveal_strlit("Dexterity"); }
            return Ok(Attribute::Dexterity);
        }
        if str_eq(s, "Patience") {
            proof { reveal_strlit("Patience"); }
            return Ok(Attribute::Patience);
        }
        if str_eq(s, "Reaction") {
            proof { reveal_strlit("Reaction"); }
            return Ok(Attribute::Reaction);
        }
        if str_eq(s, "Greed") {
            proof { reveal_strlit("Greed"); }
            return Ok(Attribute::Greed);
        }
        if str_eq(s, "Performance") {
            proof { reveal_strlit("Performance"); }
            return Ok(Attribute::Performance);
        }
        if str_eq(s, "Speed") {
            proof { reveal_strlit("Speed"); }
            return Ok(Attribute::Speed);
        }
        if str_eq(s, "Stealth") {
            proof { reveal_strlit("Stealth"); }
            return Ok(Attribute::Stealth);
        }
        if str_eq(s, "Guts") {
            proof { reveal_strlit("Guts"); }
            return Ok(Attribute::Guts);
        }
        Err(ParseError::VariantNotFound)
    }

    /// Reading the written form of a known value gives that value back.
    pub proof fn lemma_parse_name(self)
        ensures
            Attribute::spec_parse(self.spec_name()) == Some(self),
    {
        match self {
            Attribute::Priority => {
                reveal_strlit("Priority");
            }
            Attribute::Luck => {
                reveal_strlit("Luck");
            }
            Attribute::Aiming => {
                reveal_strlit("Aiming");
            }
            Attribute::Contact => {
                reveal_strlit("Contact");
            }
            Attribute::Cunning => {
                reveal_strlit("Cunning");
                reveal_strlit("Contact"); assert("Cunning"@[1] != "Contact"@[1]);
            }
            Attribute::Discipline => {
                reveal_strlit("Discipline");
            }
            Attribute::Insight => {
                reveal_strlit("Insight");
                reveal_strlit("Contact"); assert("Insight"@[0] != "Contact"@[0]);
                reveal_strlit("Cunning"); assert("Insight"@[0] != "Cunning"@[0]);
            }
            Attribute::Intimidation => {
                reveal_strlit("Intimidation");
            }
            Attribute::Lift => {
                reveal_strlit("Lift");
                reveal_strlit("Luck"); assert("Lift"@[1] != "Luck"@[1]);
            }
            Attribute::Vision => {
                reveal_strlit("Vision");
                reveal_strlit("Aiming"); assert("Vision"@[0] != "Aiming"@[0]);
            }
            Attribute::Determination => {
                reveal_strlit("Determination");
            }
            Attribute::Wisdom => {
                reveal_strlit("Wisdom");
                reveal_strlit("Aiming"); assert("Wisdom"@[0] != "Aiming"@[0]);
                reveal_strlit("Vision"); assert("Wisdom"@[0] != "Vision"@[0]);
            }
            Attribute::Muscle => {
                reveal_strlit("Muscle");
                reveal_strlit("Aiming"); assert("Muscle"@[0] != "Aiming"@[0]);
                reveal_strlit("Vision"); assert("Muscle"@[0] != "Vision"@[0]);
                reveal_strlit("Wisdom"); assert("Muscle"@[0] != "Wisdom"@[0]);
            }
            Attribute::Selflessness => {
                reveal_strlit("Selflessness");
                reveal_strlit("Intimidation"); assert("Selflessness"@[0] != "Intimidation"@[0]);
            }
            Attribute::Accuracy => {
                reveal_strlit("Accuracy");
                reveal_strlit("Priority"); assert("Accuracy"@[0] != "Priority"@[0]);
            }
            Attribute::Rotation => {
                reveal_strlit("Rotation");
                reveal_strlit("Priority"); assert("Rotation"@[0] != "Priority"@[0]);
                reveal_strlit("Accuracy"); assert("Rotation"@[0] != "Accuracy"@[0]);
            }
            Attribute::Presence => {
                reveal_strlit("Presence");
                reveal_strlit("Priority"); assert("Presence"@[2] != "Priority"@[2]);
                reveal_strlit("Accuracy"); assert("Presence"@[0] != "Accuracy"@[0]);
                reveal_strlit("Rotation"); assert("Presence"@[0] != "Rotation"@[0]);
            }
            Attribute::Persuasion => {
                reveal_strlit("Persuasion");
                reveal_strlit("Discipline"); assert("Persuasion"@[0] != "Discipline"@[0]);
            }
            Attribute::Stamina => {
                reveal_strlit("Stamina");
                reveal_strlit("Contact"); assert("Stamina"@[0] != "Contact"@[0]);
                reveal_strlit("Cunning"); assert("Stamina"@[0] != "Cunning"@[0]);
                reveal_strlit("Insight"); assert("Stamina"@[0] != "Insight"@[0]);
            }
            Attribute::Velocity => {
                reveal_strlit("Velocity");
                reveal_strlit("Priority"); assert("Velocity"@[0] != "Priority"@[0]);
                reveal_strlit("Accuracy"); assert("Velocity"@[0] != "Accuracy"@[0]);
                reveal_strlit("Rotation"); assert("Velocity"@[0] != "Rotation"@[0]);
                reveal_strlit("Presence"); assert("Velocity"@[0] != "Presence"@[0]);
            }
            Attribute::Control => {
                reveal_strlit("Control");
                reveal_strlit("Contact"); assert("Control"@[4] != "Contact"@[4]);
                reveal_strlit("Cunning"); assert("Control"@[1] != "Cunning"@[1]);
                reveal_strlit("Insight"); assert("Control"@[0] != "Insight"@[0]);
                reveal_strlit("Stamina"); assert("Control"@[0] != "Stamina"@[0]);
            }
            Attribute::Stuff => {
                reveal_strlit("Stuff");
            }
            Attribute::Defiance => {
                reveal_strlit("Defiance");
                reveal_strlit("Priority"); assert("Defiance"@[0] != "Priority"@[0]);
                reveal_strlit("Accuracy"); assert("Defiance"@[0] != "Accuracy"@[0]);
                reveal_strlit("Rotation"); assert("Defiance"@[0] != "Rotation"@[0]);
                reveal_strlit("Presence"); assert("Defiance"@[0] != "Presence"@[0]);
                reveal_strlit("Velocity"); assert("Defiance"@[0] != "Velocity"@[0]);
            }
            Attribute::Acrobatics => {
                reveal_strlit("Acrobatics");
                reveal_strlit("Discipline"); assert("Acrobatics"@[0] != "Discipline"@[0]);
                reveal_strlit("Persuasion"); assert("Acrobatics"@[0] != "Persuasion"@[0]);
            }
            Attribute::Agility => {
                reveal_strlit("Agility");
                reveal_strlit("Contact"); assert("Agility"@[0] != "Contact"@[0]);
                reveal_strlit("Cunning"); assert("Agility"@[0] != "Cunning"@[0]);
                reveal_strlit("Insight"); assert("Agility"@[0] != "Insight"@[0]);
                reveal_strlit("Stamina"); assert("Agility"@[0] != "Stamina"@[0]);
                reveal_strlit("Control"); assert("Agility"@[0] != "Control"@[0]);
            }
            Attribute::Arm => {
                reveal_strlit("Arm");
            }
            Attribute::Awareness => {
                reveal_strlit("Awareness");
            }
            Attribute::Composure => {
                reveal_strlit("Composure");
                reveal_strlit("Awareness"); assert("Composure"@[0] != "Awareness"@[0]);
            }
            Attribute::Dexterity => {
                reveal_strlit("Dexterity");
                reveal_strlit("Awareness"); assert("Dexterity"@[0] != "Awareness"@[0]);
                reveal_strlit("Composure"); assert("Dexterity"@[0] != "Composure"@[0]);
            }
            Attribute::Patience => {
                reveal_strlit("Patience");
                reveal_strlit("Priority"); assert("Patience"@[1] != "Priority"@[1]);
                reveal_strlit("Accuracy"); assert("Patience"@[0] != "Accuracy"@[0]);
                reveal_strlit("Rotation"); assert("Patience"@[0] != "Rotation"@[0]);
                reveal_strlit("Presence"); assert("Patience"@[1] != "Presence"@[1]);
                reveal_strlit("Velocity"); assert("Patience"@[0] != "Velocity"@[0]);
                reveal_strlit("Defiance"); assert("Patience"@[0] != "Defiance"@[0]);
            }
            Attribute::Reaction => {
                reveal_strlit("Reaction");
                reveal_strlit("Priority"); assert("Reaction"@[0] != "Priority"@[0]);
                reveal_strlit("Accuracy"); assert("Reaction"@[0] != "Accuracy"@[0]);
                reveal_strlit("Rotation"); assert("Reaction"@[1] != "Rotation"@[1]);
                reveal_strlit("Presence"); assert("Reaction"@[0] != "Presence"@[0]);
                reveal_strlit("Velocity"); assert("Reaction"@[0] != "Velocity"@[0]);
                reveal_strlit("Defiance"); assert("Reaction"@[0] != "Defiance"@[0]);
                reveal_strlit("Patience"); assert("Reaction"@[0] != "Patience"@[0]);
            }
            Attribute::Greed => {
                reveal_strlit("Greed");
                reveal_strlit("Stuff"); assert("Greed"@[0] != "Stuff"@[0]);
            }
            Attribute::Performance => {
                reveal_strlit("Performance");
            }
            Attribute::Speed => {
                reveal_strlit("Speed");
                reveal_strlit("Stuff"); assert("Speed"@[1] != "Stuff"@[1]);
                reveal_strlit("Greed"); assert("Speed"@[0] != "Greed"@[0]);
            }
            Attribute::Stealth => {
                reveal_strlit("Stealth");
                reveal_strlit("Contact"); assert("Stealth"@[0] != "Contact"@[0]);
                reveal_strlit("Cunning"); assert("Stealth"@[0] != "Cunning"@[0]);
                reveal_strlit("Insight"); assert("Stealth"@[0] != "Insight"@[0]);
                reveal_strlit("Stamina"); assert("Stealth"@[2] != "Stamina"@[2]);
                reveal_strlit("Control"); assert("Stealth"@[0] != "Control"@[0]);
                reveal_strlit("Agility"); assert("Stealth"@[0] != "Agility"@[0]);
            }
            Attribute::Guts => {
                reveal_strlit("Guts");
                reveal_strlit("Luck"); assert("Guts"@[0] != "Luck"@[0]);
                reveal_strlit("Lift"); assert("Guts"@[0] != "Lift"@[0]);
            }
        }
    }
    /// The written form of each known value, and what reading it gives.
    pub proof fn lemma_name_table()
        ensures
            Attribute::Priority.spec_name() == "Priority"@,
            Attribute::Luck.spec_name() == "Luck"@,
            Attribute::Aiming.spec_name() == "Aiming"@,
            Attribute::Contact.spec_name() == "Contact"@,
            Attribute::Cunning.spec_name() == "Cunning"@,
            Attribute::Discipline.spec_name() == "Discipline"@,
            Attribute::Insight.spec_name() == "Insight"@,
            Attribute::Intimidation.spec_name() == "Intimidation"@,
            Attribute::Lift.spec_name() == "Lift"@,
            Attribute::Vision.spec_name() == "Vision"@,
            Attribute::Determination.spec_name() == "Determination"@,
            Attribute::Wisdom.spec_name() == "Wisdom"@,
            Attribute::Muscle.spec_name() == "Muscle"@,
            Attribute::Selflessness.spec_name() == "Selflessness"@,
            Attribute::Accuracy.spec_name() == "Accuracy"@,
            Attribute::Rotation.spec_name() == "Rotation"@,
            Attribute::Presence.spec_name() == "Presence"@,
            Attribute::Persuasion.spec_name() == "Persuasion"@,
            Attribute::Stamina.spec_name() == "Stamina"@,
            Attribute::Velocity.spec_name() == "Velocity"@,
            Attribute::Control.spec_name() == "Control"@,
            Attribute::Stuff.spec_name() == "Stuff"@,
            Attribute::Defiance.spec_name() == "Defiance"@,
            Attribute::Acrobatics.spec_name() == "Acrobatics"@,
            Attribute::Agility.spec_name() == "Agility"@,
            Attribute::Arm.spec_name() == "Arm"@,
            Attribute::Awareness.spec_name() == "Awareness"@,
            Attribute::Composure.spec_name() == "Composure"@,
            Attribute::Dexterity.spec_name() == "Dexterity"@,
            Attribute::Patience.spec_name() == "Patience"@,
            Attribute::Reaction.spec_name() == "Reaction"@,
            Attribute::Greed.spec_name() == "Greed"@,
            Attribute::Performance.spec_name() == "Performance"@,
            Attribute::Speed.spec_name() == "Speed"@,
            Attribute::Stealth.spec_name() == "Stealth"@,
            Attribute::Guts.spec_name() == "Guts"@,
            Attribute::spec_parse("Priority"@) == Some(Attribute::Priority),
            Attribute::spec_parse("Luck"@) == Some(Attribute::Luck),
            Attribute::spec_parse("Aiming"@) == Some(Attribute::Aiming),
            Attribute::spec_parse("Contact"@) == Some(Attribute::Contact),
            Attribute::spec_parse("Cunning"@) == Some(Attribute::Cunning),
            Attribute::spec_parse("Discipline"@) == Some(Attribute::Discipline),
            Attribute::spec_parse("Insight"@) == Some(Attribute::Insight),
            Attribute::spec_parse("Intimidation"@) == Some(Attribute::Intimidation),
            Attribute::spec_parse("Lift"@) == Some(Attribute::Lift),
            Attribute::spec_parse("Vision"@) == Some(Attribute::Vision),
            Attribute::spec_parse("Determination"@) == Some(Attribute::Determination),
            Attribute::spec_parse("Wisdom"@) == Some(Attribute::Wisdom),
            Attribute::spec_parse("Muscle"@) == Some(Attribute::Muscle),
            Attribute::spec_parse("Selflessness"@) == Some(Attribute::Selflessness),
            Attribute::spec_parse("Accuracy"@) == Some(Attribute::Accuracy),
            Attribute::spec_parse("Rotation"@) == Some(Attribute::Rotation),
            Attribute::spec_parse("Presence"@) == Some(Attribute::Presence),
            Attribute::spec_parse("Persuasion"@) == Some(Attribute::Persuasion),
            Attribute::spec_parse("Stamina"@) == Some(Attribute::Stamina),
            Attribute::spec_parse("Velocity"@) == Some(Attribute::Velocity),
            Attribute::spec_parse("Control"@) == Some(Attribute::Control),
            Attribute::spec_parse("Stuff"@) == Some(Attribute::Stuff),
            Attribute::spec_parse("Defiance"@) == Some(Attribute::Defiance),
            Attribute::spec_parse("Acrobatics"@) == Some(Attribute::Acrobatics),
            Attribute::spec_parse("Agility"@) == Some(Attribute::Agility),
            Attribute::spec_parse("Arm"@) == Some(Attribute::Arm),
            Attribute::spec_parse("Awareness"@) == Some(Attribute::Awareness),
            Attribute::spec_parse("Composure"@) == Some(Attribute::Composure),
            Attribute::spec_parse("Dexterity"@) == Some(Attribute::Dexterity),
            Attribute::spec_parse("Patience"@) == Some(Attribute::Patience),
            Attribute::spec_parse("Reaction"@) == Some(Attribute::Reaction),
            Attribute::spec_parse("Greed"@) == Some(Attribute::Greed),
            Attribute::spec_parse("Performance"@) == Some(Attribute::Performance),
            Attribute::spec_parse("Speed"@) == Some(Attribute::Speed),
            Attribute::spec_parse("Stealth"@) == Some(Attribute::Stealth),
            Attribute::spec_parse("Guts"@) == Some(Attribute::Guts),
    {
        Attribute::Priority.lemma_parse_name();
        Attribute::Luck.lemma_parse_name();
        Attribute::Aiming.lemma_parse_name();
        Attribute::Contact.lemma_parse_name();
        Attribute::Cunning.lemma_parse_name();
        Attribute::Discipline.lemma_parse_name();
        Attribute::Insight.lemma_parse_name();
        Attribute::Intimidation.lemma_parse_name();
        Attribute::Lift.lemma_parse_name();
        Attribute::Vision.lemma_parse_name();
        Attribute::Determination.lemma_parse_name();
        Attribute::Wisdom.lemma_parse_name();
        Attribute::Muscle.lemma_parse_name();
        Attribute::Selflessness.lemma_parse_name();
        Attribute::Accuracy.lemma_parse_name();
        Attribute::Rotation.lemma_parse_name();
        Attribute::Presence.lemma_parse_name();
        Attribute::Persuasion.lemma_parse_name();
        Attribute::Stamina.lemma_parse_name();
        Attribute::Velocity.lemma_parse_name();
        Attribute::Control.lemma_parse_name();
        Attribute::Stuff.lemma_parse_name();
        Attribute::Defiance.lemma_parse_name();
        Attribute::Acrobatics.lemma_parse_name();
        Attribute::Agility.lemma_parse_name();
        Attribute::Arm.lemma_parse_name();
        Attribute::Awareness.lemma_parse_name();
        Attribute::Composure.lemma_parse_name();
        Attribute::Dexterity.lemma_parse_name();
        Attribute::Patience.lemma_parse_name();
        Attribute::Reaction.lemma_parse_name();
        Attribute::Greed.lemma_parse_name();
        Attribute::Performance.lemma_parse_name();
        Attribute::Speed.lemma_parse_name();
        Attribute::Stealth.lemma_parse_name();
        Attribute::Guts.lemma_parse_name();
    }

    /// The written form of an attribute is a single word, with no full stop in it.
    pub proof fn lemma_name_is_word(self)
        ensures
            forall|i: int| 0 <= i < self.spec_name().len() ==> #[trigger] self.spec_name()[i] != '.' && self.spec_name()[i] != ' ',
            self.spec_name().len() > 0,
    {
        match self {
            Attribute::Priority => {
                reveal_strlit("Priority");
            }
            Attribute::Luck => {
                reveal_strlit("Luck");
            }
            Attribute::Aiming => {
                reveal_strlit("Aiming");
            }
            Attribute::Contact => {
                reveal_strlit("Contact");
            }
            Attribute::Cunning => {
                reveal_strlit("Cunning");
            }
            Attribute::Discipline => {
                reveal_strlit("Discipline");
            }
            Attribute::Insight => {
                reveal_strlit("Insight");
            }
            Attribute::Intimidation => {
                reveal_strlit("Intimidation");
            }
            Attribute::Lift => {
                reveal_strlit("Lift");
            }
            Attribute::Vision => {
                reveal_strlit("Vision");
            }
            Attribute::Determination => {
                reveal_strlit("Determination");
            }
            Attribute::Wisdom => {
                reveal_strlit("Wisdom");
            }
            Attribute::Muscle => {
                reveal_strlit("Muscle");
            }
            Attribute::Selflessness => {
                reveal_strlit("Selflessness");
            }
            Attribute::Accuracy => {
                reveal_strlit("Accuracy");
            }
            Attribute::Rotation => {
                reveal_strlit("Rotation");
            }
            Attribute::Presence => {
                reveal_strlit("Presence");
            }
            Attribute::Persuasion => {
                reveal_strlit("Persuasion");
            }
            Attribute::Stamina => {
                reveal_strlit("Stamina");
            }
            Attribute::Velocity => {
                reveal_strlit("Velocity");
            }
            Attribute::Control => {
                reveal_strlit("Control");
            }
            Attribute::Stuff => {
                reveal_strlit("Stuff");
            }
            Attribute::Defiance => {
                reveal_strlit("Defiance");
            }
            Attribute::Acrobatics => {
                reveal_strlit("Acrobatics");
            }
            Attribute::Agility => {
                reveal_strlit("Agility");
            }
            Attribute::Arm => {
                reveal_strlit("Arm");
            }
            Attribute::Awareness => {
                reveal_strlit("Awareness");
            }
            Attribute::Composure => {
                reveal_strlit("Composure");
            }
            Attribute::Dexterity => {
                reveal_strlit("Dexterity");
            }
            Attribute::Patience => {
                reveal_strlit("Patience");
            }
            Attribute::Reaction => {
                reveal_strlit("Reaction");
            }
            Attribute::Greed => {
                reveal_strlit("Greed");
            }
            Attribute::Performance => {
                reveal_strlit("Performance");
            }
            Attribute::Speed => {
                reveal_strlit("Speed");
            }
            Attribute::Stealth => {
                reveal_strlit("Stealth");
            }
            Attribute::Guts => {
                reveal_strlit("Guts");
            }
        }
    }
}
/// Prefixes of item names.
#[derive(Debug, Clone, Copy, PartialEq, Eq, Hash, Structural)]
pub enum ItemPrefix {
    Sharp,
    Consistent,
    Clever,
    Steadfast,
    Insightful,
    Menacing,
    Lofty,
    EagleEyed,
    Stalwart,
    Wise,
    Mighty,
    Selfless,
    True,
    Commanding,
    Charming,
    Courageous,
    Rebellious,
    Enduring,
    Rapid,
    Precise,
    Whirling,
    Filthy,
    Avaricious,
    Dazzling,
    Swift,
    Sneaky,
}

impl ItemPrefix {
    /// The text by which this value is written in event messages.
    pub open spec fn spec_name(self) -> Seq<char> {
        match self {
            ItemPrefix::Sharp => "Sharp"@,
            ItemPrefix::Consistent => "Consistent"@,
            ItemPrefix::Clever => "Clever"@,
            ItemPrefix::Steadfast => "Steadfast"@,
            ItemPrefix::Insightful => "Insightful"@,
            ItemPrefix::Menacing => "Menacing"@,
            ItemPrefix::Lofty => "Lofty"@,
            ItemPrefix::EagleEyed => "Eagle-Eyed"@,
            ItemPrefix::Stalwart => "Stalwart"@,
            ItemPrefix::Wise => "Wise"@,
            ItemPrefix::Mighty => "Mighty"@,
            ItemPrefix::Selfless => "Selfless"@,
            ItemPrefix::True => "True"@,
            ItemPrefix::Commanding => "Commanding"@,
            ItemPrefix::Charming => "Charming"@,
            ItemPrefix::Courageous => "Courageous"@,
            ItemPrefix::Rebellious => "Rebellious"@,
            ItemPrefix::Enduring => "Enduring"@,
            ItemPrefix::Rapid => "Rapid"@,
            ItemPrefix::Precise => "Precise"@,
            ItemPrefix::Whirling => "Whirling"@,
            ItemPrefix::Filthy => "Filthy"@,
            ItemPrefix::Avaricious => "Avaricious"@,
            ItemPrefix::Dazzling => "Dazzling"@,
            ItemPrefix::Swift => "Swift"@,
            ItemPrefix::Sneaky => "Sneaky"@,
        }
    }

    /// The text by which this value is written.
    pub fn as_str(self) -> (r: &'static str)
        ensures
            r@ == self.spec_name(),
    {
        match self {
            ItemPrefix::Sharp => "Sharp",
            ItemPrefix::Consistent => "Consistent",
            ItemPrefix::Clever => "Clever",
            ItemPrefix::Steadfast => "Steadfast",
            ItemPrefix::Insightful => "Insightful",
            ItemPrefix::Menacing => "Menacing",
            ItemPrefix::Lofty => "Lofty",
            ItemPrefix::EagleEyed => "Eagle-Eyed",
            ItemPrefix::Stalwart => "Stalwart",
            ItemPrefix::Wise => "Wise",
            ItemPrefix::Mighty => "Mighty",
            ItemPrefix::Selfless => "Selfless",
            ItemPrefix::True => "True",
            ItemPrefix::Commanding => "Commanding",
            ItemPrefix::Charming => "Charming",
            ItemPrefix::Courageous => "Courageous",
            ItemPrefix::Rebellious => "Rebellious",
            ItemPrefix::Enduring => "Enduring",
            ItemPrefix::Rapid => "Rapid",
            ItemPrefix::Precise => "Precise",
            ItemPrefix::Whirling => "Whirling",
            ItemPrefix::Filthy => "Filthy",
            ItemPrefix::Avaricious => "Avaricious",
            ItemPrefix::Dazzling => "Dazzling",
            ItemPrefix::Swift => "Swift",
            ItemPrefix::Sneaky => "Sneaky",
        }
    }

    /// The text by which this value is written, as an owned string.
    pub fn to_string(&self) -> (r: String)
        ensures
            r@ == self.spec_name(),
    {
        String::from_str(self.as_str())
    }

    /// The known value written as `s`, if any.
    pub open spec fn spec_parse(s: Seq<char>) -> Option<ItemPrefix> {
        if s.len() == 5 {
            if s == "Sharp"@ { Some(ItemPrefix::Sharp) }
            else if s == "Lofty"@ { Some(ItemPrefix::Lofty) }
            else if s == "Rapid"@ { Some(ItemPrefix::Rapid) }
            else if s == "Swift"@ { Some(ItemPrefix::Swift) }
            else { None }
        }
        else if s.len() == 10 {
            if s == "Consistent"@ { Some(ItemPrefix::Consistent) }
            else if s == "Insightful"@ { Some(ItemPrefix::Insightful) }
            else if s == "Eagle-Eyed"@ { Some(ItemPrefix::EagleEyed) }
            else if s == "Commanding"@ { Some(ItemPrefix::Commanding) }
            else if s == "Courageous"@ { Some(ItemPrefix::Courageous) }
            else if s == "Rebellious"@ { Some(ItemPrefix::Rebellious) }
            else if s == "Avaricious"@ { Some(ItemPrefix::Avaricious) }
            else { None }
        }
        else if s.len() == 6 {
            if s == "Clever"@ { Some(ItemPrefix::Clever) }
            else if s == "Mighty"@ { Some(ItemPrefix::Mighty) }
            else if s == "Filthy"@ { Some(ItemPrefix::Filthy) }
            else if s == "Sneaky"@ { Some(ItemPrefix::Sneaky) }
            else { None }
        }
        else if s.len() == 9 {
            if s == "Steadfast"@ { Some(ItemPrefix::Steadfast) }
            else { None }
        }
        else if s.len() == 8 {
            if s == "Menacing"@ { Some(ItemPrefix::Menacing) }
            else if s == "Stalwart"@ { Some(ItemPrefix::Stalwart) }
            else if s == "Selfless"@ { Some(ItemPrefix::Selfless) }
            else if s == "Charming"@ { Some(ItemPrefix::Charming) }
            else if s == "Enduring"@ { Some(ItemPrefix::Enduring) }
            else if s == "Whirling"@ { Some(ItemPrefix::Whirling) }
            else if s == "Dazzling"@ { Some(ItemPrefix::Dazzling) }
            else { None }
        }
        else if s.len() == 4 {
            if s == "Wise"@ { Some(ItemPrefix::Wise) }
            else if s == "True"@ { Some(ItemPrefix::True) }
            else { None }
        }
        else if s.len() == 7 {
            if s == "Precise"@ { Some(ItemPrefix::Precise) }
            else { None }
        }
        else { None }
    }

    /// Reads a value from its written form.
    pub fn from_str(s: &str) -> (r: Result<ItemPrefix, ParseError>)
        ensures
            match r {
                Ok(x) => ItemPrefix::spec_parse(s@) == Some(x) && x.spec_name() == s@,
                Err(_) => ItemPrefix::spec_parse(s@) is None,
            },
    {
        if str_eq(s, "Sharp") {
            proof { reveal_strlit("Sharp"); }
            return Ok(ItemPrefix::Sharp);
        }
        if str_eq(s, "Consistent") {
            proof { reveal_strlit("Consistent"); }
            return Ok(ItemPrefix::Consistent);
        }
        if str_eq(s, "Clever") {
            proof { reveal_strlit("Clever"); }
            return Ok(ItemPrefix::Clever);
        }
        if str_eq(s, "Steadfast") {
            proof { reveal_strlit("Steadfast"); }
            return Ok(ItemPrefix::Steadfast);
        }
        if str_eq(s, "Insightful") {
            proof { reveal_strlit("Insightful"); }
            return Ok(ItemPrefix::Insightful);
        }
        if str_eq(s, "Menacing") {
            proof { reveal_strlit("Menacing"); }
            return Ok(ItemPrefix::Menacing);
        }
        if str_eq(s, "Lofty") {
            proof { reveal_strlit("Lofty"); }
            return Ok(ItemPrefix::Lofty);
        }
        if str_eq(s, "Eagle-Eyed") {
            proof { reveal_strlit("Eagle-Eyed"); }
            return Ok(ItemPrefix::EagleEyed);
        }
        if str_eq(s, "Stalwart") {
            proof { reveal_strlit("Stalwart"); }
            return Ok(ItemPrefix::Stalwart);
        }
        if str_eq(s, "Wise") {
            proof { reveal_strlit("Wise"); }
            return Ok(ItemPrefix::Wise);
        }
        if str_eq(s, "Mighty") {
            proof { reveal_strlit("Mighty"); }
            return Ok(ItemPrefix::Mighty);
        }
        if str_eq(s, "Selfless") {
            proof { reveal_strlit("Selfless"); }
            return Ok(ItemPrefix::Selfless);
        }
        if str_eq(s, "True") {
            proof { reveal_strlit("True"); }
            return Ok(ItemPrefix::True);
        }
        if str_eq(s, "Commanding") {
            proof { reveal_strlit("Commanding"); }
            return Ok(ItemPrefix::Commanding);
        }
        if str_eq(s, "Charming") {
            proof { reveal_strlit("Charming"); }
            return Ok(ItemPrefix::Charming);
        }
        if str_eq(s, "Courageous") {
            proof { reveal_strlit("Courageous"); }
            return Ok(ItemPrefix::Courageous);
        }
        if str_eq(s, "Rebellious") {
            proof { reveal_strlit("Rebellious"); }
            return Ok(ItemPrefix::Rebellious);
        }
        if str_eq(s, "Enduring") {
            proof { reveal_strlit("Enduring"); }
            return Ok(ItemPrefix::Enduring);
        }
        if str_eq(s, "Rapid") {
            proof { reveal_strlit("Rapid"); }
            return Ok(ItemPrefix::Rapid);
        }
        if str_eq(s, "Precise") {
            proof { reveal_strlit("Precise"); }
            return Ok(ItemPrefix::Precise);
        }
        if str_eq(s, "Whirling") {
            proof { reveal_strlit("Whirling"); }
            return Ok(ItemPrefix::Whirling);
        }
        if str_eq(s, "Filthy") {
            proof { reveal_strlit("Filthy"); }
            return Ok(ItemPrefix::Filthy);
        }
        if str_eq(s, "Avaricious") {
            proof { reveal_strlit("Avaricious"); }
            return Ok(ItemPrefix::Avaricious);
        }
        if str_eq(s, "Dazzling") {
            proof { reveal_strlit("Dazzling"); }
            return Ok(ItemPrefix::Dazzling);
        }
        if str_eq(s, "Swift") {
            proof { reveal_strlit("Swift"); }
            return Ok(ItemPrefix::Swift);
        }
        if str_eq(s, "Sneaky") {
            proof { reveal_strlit("Sneaky"); }
            return Ok(ItemPrefix::Sneaky);
        }
        Err(ParseError::VariantNotFound)
    }

    /// Reading the written form of a known value gives that value back.
    pub proof fn lemma_parse_name(self)
        ensures
            ItemPrefix::spec_parse(self.spec_name()) == Some(self),
    {
        match self {
            ItemPrefix::Sharp => {
                reveal_strlit("Sharp");
            }
            ItemPrefix::Consistent => {
                reveal_strlit("Consistent");
            }
            ItemPrefix::Clever => {
                reveal_strlit("Clever");
            }
            ItemPrefix::Steadfast => {
                reveal_strlit("Steadfast");
            }
            ItemPrefix::Insightful => {
                reveal_strlit("Insightful");
                reveal_strlit("Consistent"); assert("Insightful"@[0] != "Consistent"@[0]);
            }
            ItemPrefix::Menacing => {
                reveal_strlit("Menacing");
            }
            ItemPrefix::Lofty => {
                reveal_strlit("Lofty");
                reveal_strlit("Sharp"); assert("Lofty"@[0] != "Sharp"@[0]);
            }
            ItemPrefix::EagleEyed => {
                reveal_strlit("Eagle-Eyed");
                reveal_strlit("Consistent"); assert("Eagle-Eyed"@[0] != "Consistent"@[0]);
                reveal_strlit("Insightful"); assert("Eagle-Eyed"@[0] != "Insightful"@[0]);
            }
            ItemPrefix::Stalwart => {
                reveal_strlit("Stalwart");
                reveal_strlit("Menacing"); assert("Stalwart"@[0] != "Menacing"@[0]);
            }
            ItemPrefix::Wise => {
                reveal_strlit("Wise");
            }
            ItemPrefix::Mighty => {
                reveal_strlit("Mighty");
                reveal_strlit("Clever"); assert("Mighty"@[0] != "Clever"@[0]);
            }
            ItemPrefix::Selfless => {
                reveal_strlit("Selfless");
                reveal_strlit("Menacing"); assert("Selfless"@[0] != "Menacing"@[0]);
                reveal_strlit("Stalwart"); assert("Selfless"@[1] != "Stalwart"@[1]);
            }
            ItemPrefix::True => {
                reveal_strlit("True");
                reveal_strlit("Wise"); assert("True"@[0] != "Wise"@[0]);
            }
            ItemPrefix::Commanding => {
                reveal_strlit("Commanding");
                reveal_strlit("Consistent"); assert("Commanding"@[2] != "Consistent"@[2]);
                reveal_strlit("Insightful"); assert("Commanding"@[0] != "Insightful"@[0]);
                reveal_strlit("Eagle-Eyed"); assert("Commanding"@[0] != "Eagle-Eyed"@[0]);
            }
            ItemPrefix::Charming => {
                reveal_strlit("Charming");
                reveal_strlit("Menacing"); assert("Charming"@[0] != "Menacing"@[0]);
                reveal_strlit("Stalwart"); assert("Charming"@[0] != "Stalwart"@[0]);
                reveal_strlit("Selfless"); assert("Charming"@[0] != "Selfless"@[0]);
            }
            ItemPrefix::Courageous => {
                reveal_strlit("Courageous");
                reveal_strlit("Consistent"); assert("Courageous"@[2] != "Consistent"@[2]);
                reveal_strlit("Insightful"); assert("Courageous"@[0] != "Insightful"@[0]);
                reveal_strlit("Eagle-Eyed"); assert("Courageous"@[0] != "Eagle-Eyed"@[0]);
                reveal_strlit("Commanding"); assert("Courageous"@[2] != "Commanding"@[2]);
            }
            ItemPrefix::Rebellious => {
                reveal_strlit("Rebellious");
                reveal_strlit("Consistent"); assert("Rebellious"@[0] != "Consistent"@[0]);
                reveal_strlit("Insightful"); assert("Rebellious"@[0] != "Insightful"@[0]);
                reveal_strlit("Eagle-Eyed"); assert("Rebellious"@[0] != "Eagle-Eyed"@[0]);
                reveal_strlit("Commanding"); assert("Rebellious"@[0] != "Commanding"@[0]);
                reveal_strlit("Courageous"); assert("Rebellious"@[0] != "Courageous"@[0]);
            }
            ItemPrefix::Enduring => {
                reveal_strlit("Enduring");
                reveal_strlit("Menacing"); assert("Enduring"@[0] != "Menacing"@[0]);
                reveal_strlit("Stalwart"); assert("Enduring"@[0] != "Stalwart"@[0]);
                reveal_strlit("Selfless"); assert("Enduring"@[0] != "Selfless"@[0]);
                reveal_strlit("Charming"); assert("Enduring"@[0] != "Charming"@[0]);
            }
            ItemPrefix::Rapid => {
                reveal_strlit("Rapid");
                reveal_strlit("Sharp"); assert("Rapid"@[0] != "Sharp"@[0]);
                reveal_strlit("Lofty"); assert("Rapid"@[0] != "Lofty"@[0]);
            }
            ItemPrefix::Precise => {
                reveal_strlit("Precise");
            }
            ItemPrefix::Whirling => {
                reveal_strlit("Whirling");
                reveal_strlit("Menacing"); assert("Whirling"@[0] != "Menacing"@[0]);
                reveal_strlit("Stalwart"); assert("Whirling"@[0] != "Stalwart"@[0]);
                reveal_strlit("Selfless"); assert("Whirling"@[0] != "Selfless"@[0]);
                reveal_strlit("Charming"); assert("Whirling"@[0] != "Charming"@[0]);
                reveal_strlit("Enduring"); assert("Whirling"@[0] != "Enduring"@[0]);
            }
            ItemPrefix::Filthy => {
                reveal_strlit("Filthy");
                reveal_strlit("Clever"); assert("Filthy"@[0] != "Clever"@[0]);
                reveal_strlit("Mighty"); assert("Filthy"@[0] != "Mighty"@[0]);
            }
            ItemPrefix::Avaricious => {
                reveal_strlit("Avaricious");
                reveal_strlit("Consistent"); assert("Avaricious"@[0] != "Consistent"@[0]);
                reveal_strlit("Insightful"); assert("Avaricious"@[0] != "Insightful"@[0]);
                reveal_strlit("Eagle-Eyed"); assert("Avaricious"@[0] != "Eagle-Eyed"@[0]);
                reveal_strlit("Commanding"); assert("Avaricious"@[0] != "Commanding"@[0]);
                reveal_strlit("Courageous"); assert("Avaricious"@[0] != "Courageous"@[0]);
                reveal_strlit("Rebellious"); assert("Avaricious"@[0] != "Rebellious"@[0]);
            }
            ItemPrefix::Dazzling => {
                reveal_strlit("Dazzling");
                reveal_strlit("Menacing"); assert("Dazzling"@[0] != "Menacing"@[0]);
                reveal_strlit("Stalwart"); assert("Dazzling"@[0] != "Stalwart"@[0]);
                reveal_strlit("Selfless"); assert("Dazzling"@[0] != "Selfless"@[0]);
                reveal_strlit("Charming"); assert("Dazzling"@[0] != "Charming"@[0]);
                reveal_strlit("Enduring"); assert("Dazzling"@[0] != "Enduring"@[0]);
                reveal_strlit("Whirling"); assert("Dazzling"@[0] != "Whirling"@[0]);
            }
            ItemPrefix::Swift => {
                reveal_strlit("Swift");
                reveal_strlit("Sharp"); assert("Swift"@[1] != "Sharp"@[1]);
                reveal_strlit("Lofty"); assert("Swift"@[0] != "Lofty"@[0]);
                reveal_strlit("Rapid"); assert("Swift"@[0] != "Rapid"@[0]);
            }
            ItemPrefix::Sneaky => {
                reveal_strlit("Sneaky");
                reveal_strlit("Clever"); assert("Sneaky"@[0] != "Clever"@[0]);
                reveal_strlit("Mighty"); assert("Sneaky"@[0] != "Mighty"@[0]);
                reveal_strlit("Filthy"); assert("Sneaky"@[0] != "Filthy"@[0]);
            }
        }
    }
    /// The written form of each known value, and what reading it gives.
    pub proof fn lemma_name_table()
        ensures
            ItemPrefix::Sharp.spec_name() == "Sharp"@,
            ItemPrefix::Consistent.spec_name() == "Consistent"@,
            ItemPrefix::Clever.spec_name() == "Clever"@,
            ItemPrefix::Steadfast.spec_name() == "Steadfast"@,
            ItemPrefix::Insightful.spec_name() == "Insightful"@,
            ItemPrefix::Menacing.spec_name() == "Menacing"@,
            ItemPrefix::Lofty.spec_name() == "Lofty"@,
            ItemPrefix::EagleEyed.spec_name() == "Eagle-Eyed"@,
            ItemPrefix::Stalwart.spec_name() == "Stalwart"@,
            ItemPrefix::Wise.spec_name() == "Wise"@,
            ItemPrefix::Mighty.spec_name() == "Mighty"@,
            ItemPrefix::Selfless.spec_name() == "Selfless"@,
            ItemPrefix::True.spec_name() == "True"@,
            ItemPrefix::Commanding.spec_name() == "Commanding"@,
            ItemPrefix::Charming.spec_name() == "Charming"@,
            ItemPrefix::Courageous.spec_name() == "Courageous"@,
            ItemPrefix::Rebellious.spec_name() == "Rebellious"@,
            ItemPrefix::Enduring.spec_name() == "Enduring"@,
            ItemPrefix::Rapid.spec_name() == "Rapid"@,
            ItemPrefix::Precise.spec_name() == "Precise"@,
            ItemPrefix::Whirling.spec_name() == "Whirling"@,
            ItemPrefix::Filthy.spec_name() == "Filthy"@,
            ItemPrefix::Avaricious.spec_name() == "Avaricious"@,
            ItemPrefix::Dazzling.spec_name() == "Dazzling"@,
            ItemPrefix::Swift.spec_name() == "Swift"@,
            ItemPrefix::Sneaky.spec_name() == "Sneaky"@,
            ItemPrefix::spec_parse("Sharp"@) == Some(ItemPrefix::Sharp),
            ItemPrefix::spec_parse("Consistent"@) == Some(ItemPrefix::Consistent),
            ItemPrefix::spec_parse("Clever"@) == Some(ItemPrefix::Clever),
            ItemPrefix::spec_parse("Steadfast"@) == Some(ItemPrefix::Steadfast),
            ItemPrefix::spec_parse("Insightful"@) == Some(ItemPrefix::Insightful),
            ItemPrefix::spec_parse("Menacing"@) == Some(ItemPrefix::Menacing),
            ItemPrefix::spec_parse("Lofty"@) == Some(ItemPrefix::Lofty),
            ItemPrefix::spec_parse("Eagle-Eyed"@) == Some(ItemPrefix::EagleEyed),
            ItemPrefix::spec_parse("Stalwart"@) == Some(ItemPrefix::Stalwart),
            ItemPrefix::spec_parse("Wise"@) == Some(ItemPrefix::Wise),
            ItemPrefix::spec_parse("Mighty"@) == Some(ItemPrefix::Mighty),
            ItemPrefix::spec_parse("Selfless"@) == Some(ItemPrefix::Selfless),
            ItemPrefix::spec_parse("True"@) == Some(ItemPrefix::True),
            ItemPrefix::spec_parse("Commanding"@) == Some(ItemPrefix::Commanding),
            ItemPrefix::spec_parse("Charming"@) == Some(ItemPrefix::Charming),
            ItemPrefix::spec_parse("Courageous"@) == Some(ItemPrefix::Courageous),
            ItemPrefix::spec_parse("Rebellious"@) == Some(ItemPrefix::Rebellious),
            ItemPrefix::spec_parse("Enduring"@) == Some(ItemPrefix::Enduring),
            ItemPrefix::spec_parse("Rapid"@) == Some(ItemPrefix::Rapid),
            ItemPrefix::spec_parse("Precise"@) == Some(ItemPrefix::Precise),
            ItemPrefix::spec_parse("Whirling"@) == Some(ItemPrefix::Whirling),
            ItemPrefix::spec_parse("Filthy"@) == Some(ItemPrefix::Filthy),
            ItemPrefix::spec_parse("Avaricious"@) == Some(ItemPrefix::Avaricious),
            ItemPrefix::spec_parse("Dazzling"@) == Some(ItemPrefix::Dazzling),
            ItemPrefix::spec_parse("Swift"@) == Some(ItemPrefix::Swift),
            ItemPrefix::spec_parse("Sneaky"@) == Some(ItemPrefix::Sneaky),
    {
        ItemPrefix::Sharp.lemma_parse_name();
        ItemPrefix::Consistent.lemma_parse_name();
        ItemPrefix::Clever.lemma_parse_name();
        ItemPrefix::Steadfast.lemma_parse_name();
        ItemPrefix::Insightful.lemma_parse_name();
        ItemPrefix::Menacing.lemma_parse_name();
        ItemPrefix::Lofty.lemma_parse_name();
        ItemPrefix::EagleEyed.lemma_parse_name();
        ItemPrefix::Stalwart.lemma_parse_name();
        ItemPrefix::Wise.lemma_parse_name();
        ItemPrefix::Mighty.lemma_parse_name();
        ItemPrefix::Selfless.lemma_parse_name();
        ItemPrefix::True.lemma_parse_name();
        ItemPrefix::Commanding.lemma_parse_name();
        ItemPrefix::Charming.lemma_parse_name();
        ItemPrefix::Courageous.lemma_parse_name();
        ItemPrefix::Rebellious.lemma_parse_name();
        ItemPrefix::Enduring.lemma_parse_name();
        ItemPrefix::Rapid.lemma_parse_name();
        ItemPrefix::Precise.lemma_parse_name();
        ItemPrefix::Whirling.lemma_parse_name();
        ItemPrefix::Filthy.lemma_parse_name();
        ItemPrefix::Avaricious.lemma_parse_name();
        ItemPrefix::Dazzling.lemma_parse_name();
        ItemPrefix::Swift.lemma_parse_name();
        ItemPrefix::Sneaky.lemma_parse_name();
    }
}
/// Suffixes of item names.
#[derive(Debug, Clone, Copy, PartialEq, Eq, Hash, Structural)]
pub enum ItemSuffix {
    Acrobat,
    Cat,
    Cannon,
    Awareness,
    Calm,
    Skill,
    Patience,
    Reflexes,
    Fortune,
}

impl ItemSuffix {
    /// The text by which this value is written in event messages.
    pub open spec fn spec_name(self) -> Seq<char> {
        match self {
            ItemSuffix::Acrobat => "of the Acrobat"@,
            ItemSuffix::Cat => "of the Cat"@,
            ItemSuffix::Cannon => "of the Cannon"@,
            ItemSuffix::Awareness => "of Awareness"@,
            ItemSuffix::Calm => "of Calm"@,
            ItemSuffix::Skill => "of Skill"@,
            ItemSuffix::Patience => "of Patience"@,
            ItemSuffix::Reflexes => "of Reflexes"@,
            ItemSuffix::Fortune => "of Fortune"@,
        }
    }

    /// The text by which this value is written.
    pub fn as_str(self) -> (r: &'static str)
        ensures
            r@ == self.spec_name(),
    {
        match self {
            ItemSuffix::Acrobat => "of the Acrobat",
            ItemSuffix::Cat => "of the Cat",
            ItemSuffix::Cannon => "of the Cannon",
            ItemSuffix::Awareness => "of Awareness",
            ItemSuffix::Calm => "of Calm",
            ItemSuffix::Skill => "of Skill",
            ItemSuffix::Patience => "of Patience",
            ItemSuffix::Reflexes => "of Reflexes",
            ItemSuffix::Fortune => "of Fortune",
        }
    }

    /// The text by which this value is written, as an owned string.
    pub fn to_string(&self) -> (r: String)
        ensures
            r@ == self.spec_name(),
    {
        String::from_str(self.as_str())
    }

    /// The known value written as `s`, if any.
    pub open spec fn spec_parse(s: Seq<char>) -> Option<ItemSuffix> {
        if s.len() == 14 {
            if s == "of the Acrobat"@ { Some(ItemSuffix::Acrobat) }
            else { None }
        }
        else if s.len() == 10 {
            if s == "of the Cat"@ { Some(ItemSuffix::Cat) }
            else if s == "of Fortune"@ { Some(ItemSuffix::Fortune) }
            else { None }
        }
        else if s.len() == 13 {
            if s == "of the Cannon"@ { Some(ItemSuffix::Cannon) }
            else { None }
        }
        else if s.len() == 12 {
            if s == "of Awareness"@ { Some(ItemSuffix::Awareness) }
            else { None }
        }
        else if s.len() == 7 {
            if s == "of Calm"@ { Some(ItemSuffix::Calm) }
            else { None }
        }
        else if s.len() == 8 {
            if s == "of Skill"@ { Some(ItemSuffix::Skill) }
            else { None }
        }
        else if s.len() == 11 {
            if s == "of Patience"@ { Some(ItemSuffix::Patience) }
            else if s == "of Reflexes"@ { Some(ItemSuffix::Reflexes) }
            else { None }
        }
        else { None }
    }

    /// Reads a value from its written form.
    pub fn from_str(s: &str) -> (r: Result<ItemSuffix, ParseError>)
        ensures
            match r {
                Ok(x) => ItemSuffix::spec_parse(s@) == Some(x) && x.spec_name() == s@,
                Err(_) => ItemSuffix::spec_parse(s@) is None,
            },
    {
        if str_eq(s, "of the Acrobat") {
            proof { reveal_strlit("of the Acrobat"); }
            return Ok(ItemSuffix::Acrobat);
        }
        if str_eq(s, "of the Cat") {
            proof { reveal_strlit("of the Cat"); }
            return Ok(ItemSuffix::Cat);
        }
        if str_eq(s, "of the Cannon") {
            proof { reveal_strlit("of the Cannon"); }
            return Ok(ItemSuffix::Cannon);
        }
        if str_eq(s, "of Awareness") {
            proof { reveal_strlit("of Awareness"); }
            return Ok(ItemSuffix::Awareness);
        }
        if str_eq(s, "of Calm") {
            proof { reveal_strlit("of Calm"); }
            return Ok(ItemSuffix::Calm);
        }
        if str_eq(s, "of Skill") {
            proof { reveal_strlit("of Skill"); }
            return Ok(ItemSuffix::Skill);
        }
        if str_eq(s, "of Patience") {
            proof { reveal_strlit("of Patience"); }
            return Ok(ItemSuffix::Patience);
        }
        if str_eq(s, "of Reflexes") {
            proof { reveal_strlit("of Reflexes"); }
            return Ok(ItemSuffix::Reflexes);
        }
        if str_eq(s, "of Fortune") {
            proof { reveal_strlit("of Fortune"); }
            return Ok(ItemSuffix::Fortune);
        }
        Err(ParseError::VariantNotFound)
    }

    /// Reading the written form of a known value gives that value back.
    pub proof fn lemma_parse_name(self)
        ensures
            ItemSuffix::spec_parse(self.spec_name()) == Some(self),
    {
        match self {
            ItemSuffix::Acrobat => {
                reveal_strlit("of the Acrobat");
            }
            ItemSuffix::Cat => {
                reveal_strlit("of the Cat");
            }
            ItemSuffix::Cannon => {
                reveal_strlit("of the Cannon");
            }
            ItemSuffix::Awareness => {
                reveal_strlit("of Awareness");
            }
            ItemSuffix::Calm => {
                reveal_strlit("of Calm");
            }
            ItemSuffix::Skill => {
                reveal_strlit("of Skill");
            }
            ItemSuffix::Patience => {
                reveal_strlit("of Patience");
            }
            ItemSuffix::Reflexes => {
                reveal_strlit("of Reflexes");
                reveal_strlit("of Patience"); assert("of Reflexes"@[3] != "of Patience"@[3]);
            }
            ItemSuffix::Fortune => {
                reveal_strlit("of Fortune");
                reveal_strlit("of the Cat"); assert("of Fortune"@[3] != "of the Cat"@[3]);
            }
        }
    }
    /// The written form of each known value, and what reading it gives.
    pub proof fn lemma_name_table()
        ensures
            ItemSuffix::Acrobat.spec_name() == "of the Acrobat"@,
            ItemSuffix::Cat.spec_name() == "of the Cat"@,
            ItemSuffix::Cannon.spec_name() == "of the Cannon"@,
            ItemSuffix::Awareness.spec_name() == "of Awareness"@,
            ItemSuffix::Calm.spec_name() == "of Calm"@,
            ItemSuffix::Skill.spec_name() == "of Skill"@,
            ItemSuffix::Patience.spec_name() == "of Patience"@,
            ItemSuffix::Reflexes.spec_name() == "of Reflexes"@,
            ItemSuffix::Fortune.spec_name() == "of Fortune"@,
            ItemSuffix::spec_parse("of the Acrobat"@) == Some(ItemSuffix::Acrobat),
            ItemSuffix::spec_parse("of the Cat"@) == Some(ItemSuffix::Cat),
            ItemSuffix::spec_parse("of the Cannon"@) == Some(ItemSuffix::Cannon),
            ItemSuffix::spec_parse("of Awareness"@) == Some(ItemSuffix::Awareness),
            ItemSuffix::spec_parse("of Calm"@) == Some(ItemSuffix::Calm),
            ItemSuffix::spec_parse("of Skill"@) == Some(ItemSuffix::Skill),
            ItemSuffix::spec_parse("of Patience"@) == Some(ItemSuffix::Patience),
            ItemSuffix::spec_parse("of Reflexes"@) == Some(ItemSuffix::Reflexes),
            ItemSuffix::spec_parse("of Fortune"@) == Some(ItemSuffix::Fortune),
    {
        ItemSuffix::Acrobat.lemma_parse_name();
        ItemSuffix::Cat.lemma_parse_name();
        ItemSuffix::Cannon.lemma_parse_name();
        ItemSuffix::Awareness.lemma_parse_name();
        ItemSuffix::Calm.lemma_parse_name();
        ItemSuffix::Skill.lemma_parse_name();
        ItemSuffix::Patience.lemma_parse_name();
        ItemSuffix::Reflexes.lemma_parse_name();
        ItemSuffix::Fortune.lemma_parse_name();
    }
}
/// The kinds of mound visit.
#[derive(Debug, Clone, Copy, PartialEq, Eq, Hash, Structural)]
pub enum MoundVisitType {
    MoundVisit,
    PitchingChange,
}

impl MoundVisitType {
    /// The text by which this value is written in event messages.
    pub open spec fn spec_name(self) -> Seq<char> {
        match self {
            MoundVisitType::MoundVisit => "mound visit"@,
            MoundVisitType::PitchingChange => "pitching change"@,
        }
    }

    /// The text by which this value is written.
    pub fn as_str(self) -> (r: &'static str)
        ensures
            r@ == self.spec_name(),
    {
        match self {
            MoundVisitType::MoundVisit => "mound visit",
            MoundVisitType::PitchingChange => "pitching change",
        }
    }

    /// The text by which this value is written, as an owned string.
    pub fn to_string(&self) -> (r: String)
        ensures
            r@ == self.spec_name(),
    {
        String::from_str(self.as_str())
    }

    /// The known value written as `s`, if any.
    pub open spec fn spec_parse(s: Seq<char>) -> Option<MoundVisitType> {
        if s.len() == 11 {
            if s == "mound visit"@ { Some(MoundVisitType::MoundVisit) }
            else { None }
        }
        else if s.len() == 15 {
            if s == "pitching change"@ { Some(MoundVisitType::PitchingChange) }
            else { None }
        }
        else { None }
    }

    /// Reads a value from its written form.
    pub fn from_str(s: &str) -> (r: Result<MoundVisitType, ParseError>)
        ensures
            match r {
                Ok(x) => MoundVisitType::spec_parse(s@) == Some(x),
                Err(_) => MoundVisitType::spec_parse(s@) is None,
            },
    {
        if str_eq(s, "mound visit") {
            proof { reveal_strlit("mound visit"); }
            return Ok(MoundVisitType::MoundVisit);
        }
        if str_eq(s, "pitching change") {
            proof { reveal_strlit("pitching change"); }
            return Ok(MoundVisitType::PitchingChange);
        }
        Err(ParseError::VariantNotFound)
    }

    /// Reading the written form of a known value gives that value back.
    pub proof fn lemma_parse_name(self)
        ensures
            MoundVisitType::spec_parse(self.spec_name()) == Some(self),
    {
        match self {
            MoundVisitType::MoundVisit => {
                reveal_strlit("mound visit");
            }
            MoundVisitType::PitchingChange => {
                reveal_strlit("pitching change");
            }
        }
    }
    /// The written form of each known value, and what reading it gives.
    pub proof fn lemma_name_table()
        ensures
            MoundVisitType::MoundVisit.spec_name() == "mound visit"@,
            MoundVisitType::PitchingChange.spec_name() == "pitching change"@,
            MoundVisitType::spec_parse("mound visit"@) == Some(MoundVisitType::MoundVisit),
            MoundVisitType::spec_parse("pitching change"@) == Some(MoundVisitType::PitchingChange),
    {
        MoundVisitType::MoundVisit.lemma_parse_name();
        MoundVisitType::PitchingChange.lemma_parse_name();
    }
}
/// The scales of league.
#[derive(Debug, Clone, Copy, PartialEq, Eq, Hash, Structural)]
pub enum LeagueScale {
    Lesser,
    Greater,
    Special,
}

impl LeagueScale {
    /// The text by which this value is written in event messages.
    pub open spec fn spec_name(self) -> Seq<char> {
        match self {
            LeagueScale::Lesser => "Lesser"@,
            LeagueScale::Greater => "Greater"@,
            LeagueScale::Special => "Special"@,
        }
    }

    /// The text by which this value is written.
    pub fn as_str(self) -> (r: &'static str)
        ensures
            r@ == self.spec_name(),
    {
        match self {
            LeagueScale::Lesser => "Lesser",
            LeagueScale::Greater => "Greater",
            LeagueScale::Special => "Special",
        }
    }

    /// The text by which this value is written, as an owned string.
    pub fn to_string(&self) -> (r: String)
        ensures
            r@ == self.spec_name(),
    {
        String::from_str(self.as_str())
    }

    /// The known value written as `s`, if any.
    pub open spec fn spec_parse(s: Seq<char>) -> Option<LeagueScale> {
        if s.len() == 6 {
            if s == "Lesser"@ { Some(LeagueScale::Lesser) }
            else { None }
        }
        else if s.len() == 7 {
            if s == "Greater"@ { Some(LeagueScale::Greater) }
            else if s == "Special"@ { Some(LeagueScale::Special) }
            else { None }
        }
        else { None }
    }

    /// Reads a value from its written form.
    pub fn from_str(s: &str) -> (r: Result<LeagueScale, ParseError>)
        ensures
            match r {
                Ok(x) => LeagueScale::spec_parse(s@) == Some(x),
                Err(_) => LeagueScale::spec_parse(s@) is None,
            },
    {
        if str_eq(s, "Lesser") {
            proof { reveal_strlit("Lesser"); }
            return Ok(LeagueScale::Lesser);
        }
        if str_eq(s, "Greater") {
            proof { reveal_strlit("Greater"); }
            return Ok(LeagueScale::Greater);
        }
        if str_eq(s, "Special") {
            proof { reveal_strlit("Special"); }
            return Ok(LeagueScale::Special);
        }
        Err(ParseError::VariantNotFound)
    }

    /// Reading the written form of a known value gives that value back.
    pub proof fn lemma_parse_name(self)
        ensures
            LeagueScale::spec_parse(self.spec_name()) == Some(self),
    {
        match self {
            LeagueScale::Lesser => {
                reveal_strlit("Lesser");
            }
            LeagueScale::Greater => {
                reveal_strlit("Greater");
            }
            LeagueScale::Special => {
                reveal_strlit("Special");
                reveal_strlit("Greater"); assert("Special"@[0] != "Greater"@[0]);
            }
        }
    }
    /// The written form of each known value, and what reading it gives.
    pub proof fn lemma_name_table()
        ensures
            LeagueScale::Lesser.spec_name() == "Lesser"@,
            LeagueScale::Greater.spec_name() == "Greater"@,
            LeagueScale::Special.spec_name() == "Special"@,
            LeagueScale::spec_parse("Lesser"@) == Some(LeagueScale::Lesser),
            LeagueScale::spec_parse("Greater"@) == Some(LeagueScale::Greater),
            LeagueScale::spec_parse("Special"@) == Some(LeagueScale::Special),
    {
        LeagueScale::Lesser.lemma_parse_name();
        LeagueScale::Greater.lemma_parse_name();
        LeagueScale::Special.lemma_parse_name();
    }
}
/// Which hand a player uses.
#[derive(Debug, Clone, Copy, PartialEq, Eq, Hash, Structural)]
pub enum Handedness {
    Left,
    Right,
    Switch,
}

impl Handedness {
    /// The text by which this value is written in event messages.
    pub open spec fn spec_name(self) -> Seq<char> {
        match self {
            Handedness::Left => "L"@,
            Handedness::Right => "R"@,
            Handedness::Switch => "S"@,
        }
    }

    /// The text by which this value is written.
    pub fn as_str(self) -> (r: &'static str)
        ensures
            r@ == self.spec_name(),
    {
        match self {
            Handedness::Left => "L",
            Handedness::Right => "R",
            Handedness::Switch => "S",
        }
    }

    /// The text by which this value is written, as an owned string.
    pub fn to_string(&self) -> (r: String)
        ensures
            r@ == self.spec_name(),
    {
        String::from_str(self.as_str())
    }

    /// The known value written as `s`, if any.
    pub open spec fn spec_parse(s: Seq<char>) -> Option<Handedness> {
        if s.len() == 1 {
            if s == "L"@ { Some(Handedness::Left) }
            else if s == "R"@ { Some(Handedness::Right) }
            else if s == "S"@ { Some(Handedness::Switch) }
            else { None }
        }
        else { None }
    }

    /// Reads a value from its written form.
    pub fn from_str(s: &str) -> (r: Result<Handedness, ParseError>)
        ensures
            match r {
                Ok(x) => Handedness::spec_parse(s@) == Some(x),
                Err(_) => Handedness::spec_parse(s@) is None,
            },
    {
        if str_eq(s, "L") {
            proof { reveal_strlit("L"); }
            return Ok(Handedness::Left);
        }
        if str_eq(s, "R") {
            proof { reveal_strlit("R"); }
            return Ok(Handedness::Right);
        }
        if str_eq(s, "S") {
            proof { reveal_strlit("S"); }
            return Ok(Handedness::Switch);
        }
        Err(ParseError::VariantNotFound)
    }

    /// Reading the written form of a known value gives that value back.
    pub proof fn lemma_parse_name(self)
        ensures
            Handedness::spec_parse(self.spec_name()) == Some(self),
    {
        match self {
            Handedness::Left => {
                reveal_strlit("L");
            }
            Handedness::Right => {
                reveal_strlit("R");
                reveal_strlit("L"); assert("R"@[0] != "L"@[0]);
            }
            Handedness::Switch => {
                reveal_strlit("S");
                reveal_strlit("L"); assert("S"@[0] != "L"@[0]);
                reveal_strlit("R"); assert("S"@[0] != "R"@[0]);
            }
        }
    }
    /// The written form of each known value, and what reading it gives.
    pub proof fn lemma_name_table()
        ensures
            Handedness::Left.spec_name() == "L"@,
            Handedness::Right.spec_name() == "R"@,
            Handedness::Switch.spec_name() == "S"@,
            Handedness::spec_parse("L"@) == Some(Handedness::Left),
            Handedness::spec_parse("R"@) == Some(Handedness::Right),
            Handedness::spec_parse("S"@) == Some(Handedness::Switch),
    {
        Handedness::Left.lemma_parse_name();
        Handedness::Right.lemma_parse_name();
        Handedness::Switch.lemma_parse_name();
    }
}
/// The kinds of equipment effect.
#[derive(Debug, Clone, Copy, PartialEq, Eq, Hash, Structural)]
pub enum EquipmentEffectType {
    FlatBonus,
}

impl EquipmentEffectType {
    /// The text by which this value is written in event messages.
    pub open spec fn spec_name(self) -> Seq<char> {
        match self {
            EquipmentEffectType::FlatBonus => "FlatBonus"@,
        }
    }

    /// The text by which this value is written.
    pub fn as_str(self) -> (r: &'static str)
        ensures
            r@ == self.spec_name(),
    {
        match self {
            EquipmentEffectType::FlatBonus => "FlatBonus",
        }
    }

    /// The text by which this value is written, as an owned string.
    pub fn to_string(&self) -> (r: String)
        ensures
            r@ == self.spec_name(),
    {
        String::from_str(self.as_str())
    }

    /// The known value written as `s`, if any.
    pub open spec fn spec_parse(s: Seq<char>) -> Option<EquipmentEffectType> {
        if s.len() == 9 {
            if s == "FlatBonus"@ { Some(EquipmentEffectType::FlatBonus) }
            else { None }
        }
        else { None }
    }

    /// Reads a value from its written form.
    pub fn from_str(s: &str) -> (r: Result<EquipmentEffectType, ParseError>)
        ensures
            match r {
                Ok(x) => EquipmentEffectType::spec_parse(s@) == Some(x),
                Err(_) => EquipmentEffectType::spec_parse(s@) is None,
            },
    {
        if str_eq(s, "FlatBonus") {
            proof { reveal_strlit("FlatBonus"); }
            return Ok(EquipmentEffectType::FlatBonus);
        }
        Err(ParseError::VariantNotFound)
    }

    /// Reading the written form of a known value gives that value back.
    pub proof fn lemma_parse_name(self)
        ensures
            EquipmentEffectType::spec_parse(self.spec_name()) == Some(self),
    {
        match self {
            EquipmentEffectType::FlatBonus => {
                reveal_strlit("FlatBonus");
            }
        }
    }
    /// The written form of each known value, and what reading it gives.
    pub proof fn lemma_name_table()
        ensures
            EquipmentEffectType::FlatBonus.spec_name() == "FlatBonus"@,
            EquipmentEffectType::spec_parse("FlatBonus"@) == Some(EquipmentEffectType::FlatBonus),
    {
        EquipmentEffectType::FlatBonus.lemma_parse_name();
    }
}
/// How rare a piece of equipment is.
#[derive(Debug, Clone, Copy, PartialEq, Eq, Hash, Structural)]
pub enum EquipmentRarity {
    Normal,
    Rare,
    Magic,
}

impl EquipmentRarity {
    /// The text by which this value is written in event messages.
    pub open spec fn spec_name(self) -> Seq<char> {
        match self {
            EquipmentRarity::Normal => "Normal"@,
            EquipmentRarity::Rare => "Rare"@,
            EquipmentRarity::Magic => "Magic"@,
        }
    }

    /// The text by which this value is written.
    pub fn as_str(self) -> (r: &'static str)
        ensures
            r@ == self.spec_name(),
    {
        match self {
            EquipmentRarity::Normal => "Normal",
            EquipmentRarity::Rare => "Rare",
            EquipmentRarity::Magic => "Magic",
        }
    }

    /// The text by which this value is written, as an owned string.
    pub fn to_string(&self) -> (r: String)
        ensures
            r@ == self.spec_name(),
    {
        String::from_str(self.as_str())
    }

    /// The known value written as `s`, if any.
    pub open spec fn spec_parse(s: Seq<char>) -> Option<EquipmentRarity> {
        if s.len() == 6 {
            if s == "Normal"@ { Some(EquipmentRarity::Normal) }
            else { None }
        }
        else if s.len() == 4 {
            if s == "Rare"@ { Some(EquipmentRarity::Rare) }
            else { None }
        }
        else if s.len() == 5 {
            if s == "Magic"@ { Some(EquipmentRarity::Magic) }
            else { None }
        }
        else { None }
    }

    /// Reads a value from its written form.
    pub fn from_str(s: &str) -> (r: Result<EquipmentRarity, ParseError>)
        ensures
            match r {
                Ok(x) => EquipmentRarity::spec_parse(s@) == Some(x),
                Err(_) => EquipmentRarity::spec_parse(s@) is None,
            },
    {
        if str_eq(s, "Normal") {
            proof { reveal_strlit("Normal"); }
            return Ok(EquipmentRarity::Normal);
        }
        if str_eq(s, "Rare") {
            proof { reveal_strlit("Rare"); }
            return Ok(EquipmentRarity::Rare);
        }
        if str_eq(s, "Magic") {
            proof { reveal_strlit("Magic"); }
            return Ok(EquipmentRarity::Magic);
        }
        Err(ParseError::VariantNotFound)
    }

    /// Reading the written form of a known value gives that value back.
    pub proof fn lemma_parse_name(self)
        ensures
            EquipmentRarity::spec_parse(self.spec_name()) == Some(self),
    {
        match self {
            EquipmentRarity::Normal => {
                reveal_strlit("Normal");
            }
            EquipmentRarity::Rare => {
                reveal_strlit("Rare");
            }
            EquipmentRarity::Magic => {
                reveal_strlit("Magic");
            }
        }
    }
    /// The written form of each known value, and what reading it gives.
    pub proof fn lemma_name_table()
        ensures
            EquipmentRarity::Normal.spec_name() == "Normal"@,
            EquipmentRarity::Rare.spec_name() == "Rare"@,
            EquipmentRarity::Magic.spec_name() == "Magic"@,
            EquipmentRarity::spec_parse("Normal"@) == Some(EquipmentRarity::Normal),
            EquipmentRarity::spec_parse("Rare"@) == Some(EquipmentRarity::Rare),
            EquipmentRarity::spec_parse("Magic"@) == Some(EquipmentRarity::Magic),
    {
        EquipmentRarity::Normal.lemma_parse_name();
        EquipmentRarity::Rare.lemma_parse_name();
        EquipmentRarity::Magic.lemma_parse_name();
    }
}
/// Where a piece of equipment is worn.
#[derive(Debug, Clone, Copy, PartialEq, Eq, Hash, Structural)]
pub enum EquipmentSlot {
    Accessory,
    Head,
    Feet,
    Hands,
    Body,
}

impl EquipmentSlot {
    /// The text by which this value is written in event messages.
    pub open spec fn spec_name(self) -> Seq<char> {
        match self {
            EquipmentSlot::Accessory => "Accessory"@,
            EquipmentSlot::Head => "Head"@,
            EquipmentSlot::Feet => "Feet"@,
            EquipmentSlot::Hands => "Hands"@,
            EquipmentSlot::Body => "Body"@,
        }
    }

    /// The text by which this value is written.
    pub fn as_str(self) -> (r: &'static str)
        ensures
            r@ == self.spec_name(),
    {
        match self {
            EquipmentSlot::Accessory => "Accessory",
            EquipmentSlot::Head => "Head",
            EquipmentSlot::Feet => "Feet",
            EquipmentSlot::Hands => "Hands",
            EquipmentSlot::Body => "Body",
        }
    }

    /// The text by which this value is written, as an owned string.
    pub fn to_string(&self) -> (r: String)
        ensures
            r@ == self.spec_name(),
    {
        String::from_str(self.as_str())
    }

    /// The known value written as `s`, if any.
    pub open spec fn spec_parse(s: Seq<char>) -> Option<EquipmentSlot> {
        if s.len() == 9 {
            if s == "Accessory"@ { Some(EquipmentSlot::Accessory) }
            else { None }
        }
        else if s.len() == 4 {
            if s == "Head"@ { Some(EquipmentSlot::Head) }
            else if s == "Feet"@ { Some(EquipmentSlot::Feet) }
            else if s == "Body"@ { Some(EquipmentSlot::Body) }
            else { None }
        }
        else if s.len() == 5 {
            if s == "Hands"@ { Some(EquipmentSlot::Hands) }
            else { None }
        }
        else { None }
    }

    /// Reads a value from its written form.
    pub fn from_str(s: &str) -> (r: Result<EquipmentSlot, ParseError>)
        ensures
            match r {
                Ok(x) => EquipmentSlot::spec_parse(s@) == Some(x),
                Err(_) => EquipmentSlot::spec_parse(s@) is None,
            },
    {
        if str_eq(s, "Accessory") {
            proof { reveal_strlit("Accessory"); }
            return Ok(EquipmentSlot::Accessory);
        }
        if str_eq(s, "Head") {
            proof { reveal_strlit("Head"); }
            return Ok(EquipmentSlot::Head);
        }
        if str_eq(s, "Feet") {
            proof { reveal_strlit("Feet"); }
            return Ok(EquipmentSlot::Feet);
        }
        if str_eq(s, "Hands") {
            proof { reveal_strlit("Hands"); }
            return Ok(EquipmentSlot::Hands);
        }
        if str_eq(s, "Body") {
            proof { reveal_strlit("Body"); }
            return Ok(EquipmentSlot::Body);
        }
        Err(ParseError::VariantNotFound)
    }

    /// Reading the written form of a known value gives that value back.
    pub proof fn lemma_parse_name(self)
        ensures
            EquipmentSlot::spec_parse(self.spec_name()) == Some(self),
    {
        match self {
            EquipmentSlot::Accessory => {
                reveal_strlit("Accessory");
            }
            EquipmentSlot::Head => {
                reveal_strlit("Head");
            }
            EquipmentSlot::Feet => {
                reveal_strlit("Feet");
                reveal_strlit("Head"); assert("Feet"@[0] != "Head"@[0]);
            }
            EquipmentSlot::Hands => {
                reveal_strlit("Hands");
            }
            EquipmentSlot::Body => {
                reveal_strlit("Body");
                reveal_strlit("Head"); assert("Body"@[0] != "Head"@[0]);
                reveal_strlit("Feet"); assert("Body"@[0] != "Feet"@[0]);
            }
        }
    }
    /// The written form of each known value, and what reading it gives.
    pub proof fn lemma_name_table()
        ensures
            EquipmentSlot::Accessory.spec_name() == "Accessory"@,
            EquipmentSlot::Head.spec_name() == "Head"@,
            EquipmentSlot::Feet.spec_name() == "Feet"@,
            EquipmentSlot::Hands.spec_name() == "Hands"@,
            EquipmentSlot::Body.spec_name() == "Body"@,
            EquipmentSlot::spec_parse("Accessory"@) == Some(EquipmentSlot::Accessory),
            EquipmentSlot::spec_parse("Head"@) == Some(EquipmentSlot::Head),
            EquipmentSlot::spec_parse("Feet"@) == Some(EquipmentSlot::Feet),
            EquipmentSlot::spec_parse("Hands"@) == Some(EquipmentSlot::Hands),
            EquipmentSlot::spec_parse("Body"@) == Some(EquipmentSlot::Body),
    {
        EquipmentSlot::Accessory.lemma_parse_name();
        EquipmentSlot::Head.lemma_parse_name();
        EquipmentSlot::Feet.lemma_parse_name();
        EquipmentSlot::Hands.lemma_parse_name();
        EquipmentSlot::Body.lemma_parse_name();
    }
}
/// Whose feed an event comes from.
#[derive(Debug, Clone, Copy, PartialEq, Eq, Hash, Structural)]
pub enum FeedEventSource {
    Player,
    Team,
}

impl FeedEventSource {
    /// The text by which this value is written in event messages.
    pub open spec fn spec_name(self) -> Seq<char> {
        match self {
            FeedEventSource::Player => "Player"@,
            FeedEventSource::Team => "Team"@,
        }
    }

    /// The text by which this value is written.
    pub fn as_str(self) -> (r: &'static str)
        ensures
            r@ == self.spec_name(),
    {
        match self {
            FeedEventSource::Player => "Player",
            FeedEventSource::Team => "Team",
        }
    }

    /// The text by which this value is written, as an owned string.
    pub fn to_string(&self) -> (r: String)
        ensures
            r@ == self.spec_name(),
    {
        String::from_str(self.as_str())
    }

    /// The known value written as `s`, if any.
    pub open spec fn spec_parse(s: Seq<char>) -> Option<FeedEventSource> {
        if s.len() == 6 {
            if s == "Player"@ { Some(FeedEventSource::Player) }
            else { None }
        }
        else if s.len() == 4 {
            if s == "Team"@ { Some(FeedEventSource::Team) }
            else { None }
        }
        else { None }
    }

    /// Reads a value from its written form.
    pub fn from_str(s: &str) -> (r: Result<FeedEventSource, ParseError>)
        ensures
            match r {
                Ok(x) => FeedEventSource::spec_parse(s@) == Some(x),
                Err(_) => FeedEventSource::spec_parse(s@) is None,
            },
    {
        if str_eq(s, "Player") {
            proof { reveal_strlit("Player"); }
            return Ok(FeedEventSource::Player);
        }
        if str_eq(s, "Team") {
            proof { reveal_strlit("Team"); }
            return Ok(FeedEventSource::Team);
        }
        Err(ParseError::VariantNotFound)
    }

    /// Reading the written form of a known value gives that value back.
    pub proof fn lemma_parse_name(self)
        ensures
            FeedEventSource::spec_parse(self.spec_name()) == Some(self),
    {
        match self {
            FeedEventSource::Player => {
                reveal_strlit("Player");
            }
            FeedEventSource::Team => {
                reveal_strlit("Team");
            }
        }
    }
    /// The written form of each known value, and what reading it gives.
    pub proof fn lemma_name_table()
        ensures
            FeedEventSource::Player.spec_name() == "Player"@,
            FeedEventSource::Team.spec_name() == "Team"@,
            FeedEventSource::spec_parse("Player"@) == Some(FeedEventSource::Player),
            FeedEventSource::spec_parse("Team"@) == Some(FeedEventSource::Team),
    {
        FeedEventSource::Player.lemma_parse_name();
        FeedEventSource::Team.lemma_parse_name();
    }
}
/// The last word of a ballpark name.
#[derive(Debug, Clone, Copy, PartialEq, Eq, Hash, Structural)]
pub enum BallparkSuffix {
    Field,
    Stadium,
    Fairgrounds,
    Dome,
    Park,
    Lot,
    Coliseum,
    Yards,
    Grounds,
}

impl BallparkSuffix {
    /// The text by which this value is written in event messages.
    pub open spec fn spec_name(self) -> Seq<char> {
        match self {
            BallparkSuffix::Field => "Field"@,
            BallparkSuffix::Stadium => "Stadium"@,
            BallparkSuffix::Fairgrounds => "Fairgrounds"@,
            BallparkSuffix::Dome => "Dome"@,
            BallparkSuffix::Park => "Park"@,
            BallparkSuffix::Lot => "Lot"@,
            BallparkSuffix::Coliseum => "Coliseum"@,
            BallparkSuffix::Yards => "Yards"@,
            BallparkSuffix::Grounds => "Grounds"@,
        }
    }

    /// The text by which this value is written.
    pub fn as_str(self) -> (r: &'static str)
        ensures
            r@ == self.spec_name(),
    {
        match self {
            BallparkSuffix::Field => "Field",
            BallparkSuffix::Stadium => "Stadium",
            BallparkSuffix::Fairgrounds => "Fairgrounds",
            BallparkSuffix::Dome => "Dome",
            BallparkSuffix::Park => "Park",
            BallparkSuffix::Lot => "Lot",
            BallparkSuffix::Coliseum => "Coliseum",
            BallparkSuffix::Yards => "Yards",
            BallparkSuffix::Grounds => "Grounds",
        }
    }

    /// The text by which this value is written, as an owned string.
    pub fn to_string(&self) -> (r: String)
        ensures
            r@ == self.spec_name(),
    {
        String::from_str(self.as_str())
    }

    /// The known value written as `s`, if any.
    pub open spec fn spec_parse(s: Seq<char>) -> Option<BallparkSuffix> {
        if s.len() == 5 {
            if s == "Field"@ { Some(BallparkSuffix::Field) }
            else if s == "Yards"@ { Some(BallparkSuffix::Yards) }
            else { None }
        }
        else if s.len() == 7 {
            if s == "Stadium"@ { Some(BallparkSuffix::Stadium) }
            else if s == "Grounds"@ { Some(BallparkSuffix::Grounds) }
            else { None }
        }
        else if s.len() == 11 {
            if s == "Fairgrounds"@ { Some(BallparkSuffix::Fairgrounds) }
            else { None }
        }
        else if s.len() == 4 {
            if s == "Dome"@ { Some(BallparkSuffix::Dome) }
            else if s == "Park"@ { Some(BallparkSuffix::Park) }
            else { None }
        }
        else if s.len() == 3 {
            if s == "Lot"@ { Some(BallparkSuffix::Lot) }
            else { None }
        }
        else if s.len() == 8 {
            if s == "Coliseum"@ { Some(BallparkSuffix::Coliseum) }
            else { None }
        }
        else { None }
    }

    /// Reads a value from its written form.
    pub fn from_str(s: &str) -> (r: Result<BallparkSuffix, ParseError>)
        ensures
            match r {
                Ok(x) => BallparkSuffix::spec_parse(s@) == Some(x),
                Err(_) => BallparkSuffix::spec_parse(s@) is None,
            },
    {
        if str_eq(s, "Field") {
            proof { reveal_strlit("Field"); }
            return Ok(BallparkSuffix::Field);
        }
        if str_eq(s, "Stadium") {
            proof { reveal_strlit("Stadium"); }
            return Ok(BallparkSuffix::Stadium);
        }
        if str_eq(s, "Fairgrounds") {
            proof { reveal_strlit("Fairgrounds"); }
            return Ok(BallparkSuffix::Fairgrounds);
        }
        if str_eq(s, "Dome") {
            proof { reveal_strlit("Dome"); }
            return Ok(BallparkSuffix::Dome);
        }
        if str_eq(s, "Park") {
            proof { reveal_strlit("Park"); }
            return Ok(BallparkSuffix::Park);
        }
        if str_eq(s, "Lot") {
            proof { reveal_strlit("Lot"); }
            return Ok(BallparkSuffix::Lot);
        }
        if str_eq(s, "Coliseum") {
            proof { reveal_strlit("Coliseum"); }
            return Ok(BallparkSuffix::Coliseum);
        }
        if str_eq(s, "Yards") {
            proof { reveal_strlit("Yards"); }
            return Ok(BallparkSuffix::Yards);
        }
        if str_eq(s, "Grounds") {
            proof { reveal_strlit("Grounds"); }
            return Ok(BallparkSuffix::Grounds);
        }
        Err(ParseError::VariantNotFound)
    }

    /// Reading the written form of a known value gives that value back.
    pub proof fn lemma_parse_name(self)
        ensures
            BallparkSuffix::spec_parse(self.spec_name()) == Some(self),
    {
        match self {
            BallparkSuffix::Field => {
                reveal_strlit("Field");
            }
            BallparkSuffix::Stadium => {
                reveal_strlit("Stadium");
            }
            BallparkSuffix::Fairgrounds => {
                reveal_strlit("Fairgrounds");
            }
            BallparkSuffix::Dome => {
                reveal_strlit("Dome");
            }
            BallparkSuffix::Park => {
                reveal_strlit("Park");
                reveal_strlit("Dome"); assert("Park"@[0] != "Dome"@[0]);
            }
            BallparkSuffix::Lot => {
                reveal_strlit("Lot");
            }
            BallparkSuffix::Coliseum => {
                reveal_strlit("Coliseum");
            }
            BallparkSuffix::Yards => {
                reveal_strlit("Yards");
                reveal_strlit("Field"); assert("Yards"@[0] != "Field"@[0]);
            }
            BallparkSuffix::Grounds => {
                reveal_strlit("Grounds");
                reveal_strlit("Stadium"); assert("Grounds"@[0] != "Stadium"@[0]);
            }
        }
    }
    /// The written form of each known value, and what reading it gives.
    pub proof fn lemma_name_table()
        ensures
            BallparkSuffix::Field.spec_name() == "Field"@,
            BallparkSuffix::Stadium.spec_name() == "Stadium"@,
            BallparkSuffix::Fairgrounds.spec_name() == "Fairgrounds"@,
            BallparkSuffix::Dome.spec_name() == "Dome"@,
            BallparkSuffix::Park.spec_name() == "Park"@,
            BallparkSuffix::Lot.spec_name() == "Lot"@,
            BallparkSuffix::Coliseum.spec_name() == "Coliseum"@,
            BallparkSuffix::Yards.spec_name() == "Yards"@,
            BallparkSuffix::Grounds.spec_name() == "Grounds"@,
            BallparkSuffix::spec_parse("Field"@) == Some(BallparkSuffix::Field),
            BallparkSuffix::spec_parse("Stadium"@) == Some(BallparkSuffix::Stadium),
            BallparkSuffix::spec_parse("Fairgrounds"@) == Some(BallparkSuffix::Fairgrounds),
            BallparkSuffix::spec_parse("Dome"@) == Some(BallparkSuffix::Dome),
            BallparkSuffix::spec_parse("Park"@) == Some(BallparkSuffix::Park),
            BallparkSuffix::spec_parse("Lot"@) == Some(BallparkSuffix::Lot),
            BallparkSuffix::spec_parse("Coliseum"@) == Some(BallparkSuffix::Coliseum),
            BallparkSuffix::spec_parse("Yards"@) == Some(BallparkSuffix::Yards),
            BallparkSuffix::spec_parse("Grounds"@) == Some(BallparkSuffix::Grounds),
    {
        BallparkSuffix::Field.lemma_parse_name();
        BallparkSuffix::Stadium.lemma_parse_name();
        BallparkSuffix::Fairgrounds.lemma_parse_name();
        BallparkSuffix::Dome.lemma_parse_name();
        BallparkSuffix::Park.lemma_parse_name();
        BallparkSuffix::Lot.lemma_parse_name();
        BallparkSuffix::Coliseum.lemma_parse_name();
        BallparkSuffix::Yards.lemma_parse_name();
        BallparkSuffix::Grounds.lemma_parse_name();
    }
}
/// Player modifications; ones not yet known are kept by their text.
#[derive(Debug, Clone, PartialEq, Eq, Hash)]
pub enum ModificationType {
    FireElemental,
    AirElemental,
    WaterElemental,
    EarthElemental,
    Demonic,
    ROBO,
    Draconic,
    Angelic,
    Undead,
    Giant,
    Fae,
    ArchersMark,
    Spectral,
    TenaciousBadger,
    Stormrider,
    UFO,
    Psychic,
    OneWithAll,
    Amphibian,
    GeometryExpert,
    TheLight,
    Insectoid,
    Shiny,
    Scooter,
    Calculated,
    Mer,
    Clean,
    Unknown(String),
}

impl ModificationType {
    /// The text by which this value is written in event messages.
    pub open spec fn spec_name(self) -> Seq<char> {
        match self {
            ModificationType::FireElemental => "Fire Elemental"@,
            ModificationType::AirElemental => "Air Elemental"@,
            ModificationType::WaterElemental => "Water Elemental"@,
            ModificationType::EarthElemental => "Earth Elemental"@,
            ModificationType::Demonic => "Demonic"@,
            ModificationType::ROBO => "ROBO"@,
            ModificationType::Draconic => "Draconic"@,
            ModificationType::Angelic => "Angelic"@,
            ModificationType::Undead => "Undead"@,
            ModificationType::Giant => "Giant"@,
            ModificationType::Fae => "Fae"@,
            ModificationType::ArchersMark => "Archer's Mark"@,
            ModificationType::Spectral => "Spectral"@,
            ModificationType::TenaciousBadger => "Tenacious Badger"@,
            ModificationType::Stormrider => "Stormrider"@,
            ModificationType::UFO => "UFO"@,
            ModificationType::Psychic => "Psychic"@,
            ModificationType::OneWithAll => "One With All"@,
            ModificationType::Amphibian => "Amphibian"@,
            ModificationType::GeometryExpert => "Geometry Expert"@,
            ModificationType::TheLight => "The Light"@,
            ModificationType::Insectoid => "Insectoid"@,
            ModificationType::Shiny => "Shiny"@,
            ModificationType::Scooter => "Scooter"@,
            ModificationType::Calculated => "Calculated"@,
            ModificationType::Mer => "Mer"@,
            ModificationType::Clean => "Clean"@,
            ModificationType::Unknown(s) => s@,
        }
    }

    /// The text by which this value is written, as an owned string.
    pub fn to_string(&self) -> (r: String)
        ensures
            r@ == self.spec_name(),
    {
        match self {
            ModificationType::FireElemental => String::from_str("Fire Elemental"),
            ModificationType::AirElemental => String::from_str("Air Elemental"),
            ModificationType::WaterElemental => String::from_str("Water Elemental"),
            ModificationType::EarthElemental => String::from_str("Earth Elemental"),
            ModificationType::Demonic => String::from_str("Demonic"),
            ModificationType::ROBO => String::from_str("ROBO"),
            ModificationType::Draconic => String::from_str("Draconic"),
            ModificationType::Angelic => String::from_str("Angelic"),
            ModificationType::Undead => String::from_str("Undead"),
            ModificationType::Giant => String::from_str("Giant"),
            ModificationType::Fae => String::from_str("Fae"),
            ModificationType::ArchersMark => String::from_str("Archer's Mark"),
            ModificationType::Spectral => String::from_str("Spectral"),
            ModificationType::TenaciousBadger => String::from_str("Tenacious Badger"),
            ModificationType::Stormrider => String::from_str("Stormrider"),
            ModificationType::UFO => String::from_str("UFO"),
            ModificationType::Psychic => String::from_str("Psychic"),
            ModificationType::OneWithAll => String::from_str("One With All"),
            ModificationType::Amphibian => String::from_str("Amphibian"),
            ModificationType::GeometryExpert => String::from_str("Geometry Expert"),
            ModificationType::TheLight => String::from_str("The Light"),
            ModificationType::Insectoid => String::from_str("Insectoid"),
            ModificationType::Shiny => String::from_str("Shiny"),
            ModificationType::Scooter => String::from_str("Scooter"),
            ModificationType::Calculated => String::from_str("Calculated"),
            ModificationType::Mer => String::from_str("Mer"),
            ModificationType::Clean => String::from_str("Clean"),
            ModificationType::Unknown(s) => s.clone(),
        }
    }

    /// The known value written as `s`, if any.
    pub open spec fn spec_parse(s: Seq<char>) -> Option<ModificationType> {
        if s.len() == 14 {
            if s == "Fire Elemental"@ { Some(ModificationType::FireElemental) }
            else { None }
        }
        else if s.len() == 13 {
            if s == "Air Elemental"@ { Some(ModificationType::AirElemental) }
            else if s == "Archer's Mark"@ { Some(ModificationType::ArchersMark) }
            else { None }
        }
        else if s.len() == 15 {
            if s == "Water Elemental"@ { Some(ModificationType::WaterElemental) }
            else if s == "Earth Elemental"@ { Some(ModificationType::EarthElemental) }
            else if s == "Geometry Expert"@ { Some(ModificationType::GeometryExpert) }
            else { None }
        }
        else if s.len() == 7 {
            if s == "Demonic"@ { Some(ModificationType::Demonic) }
            else if s == "Angelic"@ { Some(ModificationType::Angelic) }
            else if s == "Psychic"@ { Some(ModificationType::Psychic) }
            else if s == "Scooter"@ { Some(ModificationType::Scooter) }
            else { None }
        }
        else if s.len() == 4 {
            if s == "ROBO"@ { Some(ModificationType::ROBO) }
            else { None }
        }
        else if s.len() == 8 {
            if s == "Draconic"@ { Some(ModificationType::Draconic) }
            else if s == "Spectral"@ { Some(ModificationType::Spectral) }
            else { None }
        }
        else if s.len() == 6 {
            if s == "Undead"@ { Some(ModificationType::Undead) }
            else { None }
        }
        else if s.len() == 5 {
            if s == "Giant"@ { Some(ModificationType::Giant) }
            else if s == "Shiny"@ { Some(ModificationType::Shiny) }
            else if s == "Clean"@ { Some(ModificationType::Clean) }
            else { None }
        }
        else if s.len() == 3 {
            if s == "Fae"@ { Some(ModificationType::Fae) }
            else if s == "UFO"@ { Some(ModificationType::UFO) }
            else if s == "Mer"@ { Some(ModificationType::Mer) }
            else { None }
        }
        else if s.len() == 16 {
            if s == "Tenacious Badger"@ { Some(ModificationType::TenaciousBadger) }
            else { None }
        }
        else if s.len() == 10 {
            if s == "Stormrider"@ { Some(ModificationType::Stormrider) }
            else if s == "Calculated"@ { Some(ModificationType::Calculated) }
            else { None }
        }
        else if s.len() == 12 {
            if s == "One With All"@ { Some(ModificationType::OneWithAll) }
            else { None }
        }
        else if s.len() == 9 {
            if s == "Amphibian"@ { Some(ModificationType::Amphibian) }
            else if s == "The Light"@ { Some(ModificationType::TheLight) }
            else if s == "Insectoid"@ { Some(ModificationType::Insectoid) }
            else { None }
        }
        else { None }
    }

    /// Reads a value from its written form; text that names no known value is kept as it is.
    pub fn new(s: &str) -> (r: ModificationType)
        ensures
            r.spec_name() == s@,
            match ModificationType::spec_parse(s@) {
                Some(x) => r == x,
                None => r.spec_name() == s@ && r is Unknown,
            },
    {
        if str_eq(s, "Fire Elemental") {
            proof { reveal_strlit("Fire Elemental"); }
            return ModificationType::FireElemental;
        }
        if str_eq(s, "Air Elemental") {
            proof { reveal_strlit("Air Elemental"); }
            return ModificationType::AirElemental;
        }
        if str_eq(s, "Water Elemental") {
            proof { reveal_strlit("Water Elemental"); }
            return ModificationType::WaterElemental;
        }
        if str_eq(s, "Earth Elemental") {
            proof { reveal_strlit("Earth Elemental"); }
            return ModificationType::EarthElemental;
        }
        if str_eq(s, "Demonic") {
            proof { reveal_strlit("Demonic"); }
            return ModificationType::Demonic;
        }
        if str_eq(s, "ROBO") {
            proof { reveal_strlit("ROBO"); }
            return ModificationType::ROBO;
        }
        if str_eq(s, "Draconic") {
            proof { reveal_strlit("Draconic"); }
            return ModificationType::Draconic;
        }
        if str_eq(s, "Angelic") {
            proof { reveal_strlit("Angelic"); }
            return ModificationType::Angelic;
        }
        if str_eq(s, "Undead") {
            proof { reveal_strlit("Undead"); }
            return ModificationType::Undead;
        }
        if str_eq(s, "Giant") {
            proof { reveal_strlit("Giant"); }
            return ModificationType::Giant;
        }
        if str_eq(s, "Fae") {
            proof { reveal_strlit("Fae"); }
            return ModificationType::Fae;
        }
        if str_eq(s, "Archer's Mark") {
            proof { reveal_strlit("Archer's Mark"); }
            return ModificationType::ArchersMark;
        }
        if str_eq(s, "Spectral") {
            proof { reveal_strlit("Spectral"); }
            return ModificationType::Spectral;
        }
        if str_eq(s, "Tenacious Badger") {
            proof { reveal_strlit("Tenacious Badger"); }
            return ModificationType::TenaciousBadger;
        }
        if str_eq(s, "Stormrider") {
            proof { reveal_strlit("Stormrider"); }
            return ModificationType::Stormrider;
        }
        if str_eq(s, "UFO") {
            proof { reveal_strlit("UFO"); }
            return ModificationType::UFO;
        }
        if str_eq(s, "Psychic") {
            proof { reveal_strlit("Psychic"); }
            return ModificationType::Psychic;
        }
        if str_eq(s, "One With All") {
            proof { reveal_strlit("One With All"); }
            return ModificationType::OneWithAll;
        }
        if str_eq(s, "Amphibian") {
            proof { reveal_strlit("Amphibian"); }
            return ModificationType::Amphibian;
        }
        if str_eq(s, "Geometry Expert") {
            proof { reveal_strlit("Geometry Expert"); }
            return ModificationType::GeometryExpert;
        }
        if str_eq(s, "The Light") {
            proof { reveal_strlit("The Light"); }
            return ModificationType::TheLight;
        }
        if str_eq(s, "Insectoid") {
            proof { reveal_strlit("Insectoid"); }
            return ModificationType::Insectoid;
        }
        if str_eq(s, "Shiny") {
            proof { reveal_strlit("Shiny"); }
            return ModificationType::Shiny;
        }
        if str_eq(s, "Scooter") {
            proof { reveal_strlit("Scooter"); }
            return ModificationType::Scooter;
        }
        if str_eq(s, "Calculated") {
            proof { reveal_strlit("Calculated"); }
            return ModificationType::Calculated;
        }
        if str_eq(s, "Mer") {
            proof { reveal_strlit("Mer"); }
            return ModificationType::Mer;
        }
        if str_eq(s, "Clean") {
            proof { reveal_strlit("Clean"); }
            return ModificationType::Clean;
        }
        ModificationType::Unknown(String::from_str(s))
    }

    /// Reading the written form of a known value gives that value back.
    pub proof fn lemma_parse_name(self)
        requires
            !(self is Unknown),
        ensures
            ModificationType::spec_parse(self.spec_name()) == Some(self),
    {
        match self {
            ModificationType::FireElemental => {
                reveal_strlit("Fire Elemental");
            }
            ModificationType::AirElemental => {
                reveal_strlit("Air Elemental");
            }
            ModificationType::WaterElemental => {
                reveal_strlit("Water Elemental");
            }
            ModificationType::EarthElemental => {
                reveal_strlit("Earth Elemental");
                reveal_strlit("Water Elemental"); assert("Earth Elemental"@[0] != "Water Elemental"@[0]);
            }
            ModificationType::Demonic => {
                reveal_strlit("Demonic");
            }
            ModificationType::ROBO => {
                reveal_strlit("ROBO");
            }
            ModificationType::Draconic => {
                reveal_strlit("Draconic");
            }
            ModificationType::Angelic => {
                reveal_strlit("Angelic");
                reveal_strlit("Demonic"); assert("Angelic"@[0] != "Demonic"@[0]);
            }
            ModificationType::Undead => {
                reveal_strlit("Undead");
            }
            ModificationType::Giant => {
                reveal_strlit("Giant");
            }
            ModificationType::Fae => {
                reveal_strlit("Fae");
            }
            ModificationType::ArchersMark => {
                reveal_strlit("Archer's Mark");
                reveal_strlit("Air Elemental"); assert("Archer's Mark"@[1] != "Air Elemental"@[1]);
            }
            ModificationType::Spectral => {
                reveal_strlit("Spectral");
                reveal_strlit("Draconic"); assert("Spectral"@[0] != "Draconic"@[0]);
            }
            ModificationType::TenaciousBadger => {
                reveal_strlit("Tenacious Badger");
            }
            ModificationType::Stormrider => {
                reveal_strlit("Stormrider");
            }
            ModificationType::UFO => {
                reveal_strlit("UFO");
                reveal_strlit("Fae"); assert("UFO"@[0] != "Fae"@[0]);
            }
            ModificationType::Psychic => {
                reveal_strlit("Psychic");
                reveal_strlit("Demonic"); assert("Psychic"@[0] != "Demonic"@[0]);
                reveal_strlit("Angelic"); assert("Psychic"@[0] != "Angelic"@[0]);
            }
            ModificationType::OneWithAll => {
                reveal_strlit("One With All");
            }
            ModificationType::Amphibian => {
                reveal_strlit("Amphibian");
            }
            ModificationType::GeometryExpert => {
                reveal_strlit("Geometry Expert");
                reveal_strlit("Water Elemental"); assert("Geometry Expert"@[0] != "Water Elemental"@[0]);
                reveal_strlit("Earth Elemental"); assert("Geometry Expert"@[0] != "Earth Elemental"@[0]);
            }
            ModificationType::TheLight => {
                reveal_strlit("The Light");
                reveal_strlit("Amphibian"); assert("The Light"@[0] != "Amphibian"@[0]);
            }
            ModificationType::Insectoid => {
                reveal_strlit("Insectoid");
                reveal_strlit("Amphibian"); assert("Insectoid"@[0] != "Amphibian"@[0]);
                reveal_strlit("The Light"); assert("Insectoid"@[0] != "The Light"@[0]);
            }
            ModificationType::Shiny => {
                reveal_strlit("Shiny");
                reveal_strlit("Giant"); assert("Shiny"@[0] != "Giant"@[0]);
            }
            ModificationType::Scooter => {
                reveal_strlit("Scooter");
                reveal_strlit("Demonic"); assert("Scooter"@[0] != "Demonic"@[0]);
                reveal_strlit("Angelic"); assert("Scooter"@[0] != "Angelic"@[0]);
                reveal_strlit("Psychic"); assert("Scooter"@[0] != "Psychic"@[0]);
            }
            ModificationType::Calculated => {
                reveal_strlit("Calculated");
                reveal_strlit("Stormrider"); assert("Calculated"@[0] != "Stormrider"@[0]);
            }
            ModificationType::Mer => {
                reveal_strlit("Mer");
                reveal_strlit("Fae"); assert("Mer"@[0] != "Fae"@[0]);
                reveal_strlit("UFO"); assert("Mer"@[0] != "UFO"@[0]);
            }
            ModificationType::Clean => {
                reveal_strlit("Clean");
                reveal_strlit("Giant"); assert("Clean"@[0] != "Giant"@[0]);
                reveal_strlit("Shiny"); assert("Clean"@[0] != "Shiny"@[0]);
            }
            ModificationType::Unknown(_) => {}
        }
    }
    /// The written form of each known value, and what reading it gives.
    pub proof fn lemma_name_table()
        ensures
            ModificationType::FireElemental.spec_name() == "Fire Elemental"@,
            ModificationType::AirElemental.spec_name() == "Air Elemental"@,
            ModificationType::WaterElemental.spec_name() == "Water Elemental"@,
            ModificationType::EarthElemental.spec_name() == "Earth Elemental"@,
            ModificationType::Demonic.spec_name() == "Demonic"@,
            ModificationType::ROBO.spec_name() == "ROBO"@,
            ModificationType::Draconic.spec_name() == "Draconic"@,
            ModificationType::Angelic.spec_name() == "Angelic"@,
            ModificationType::Undead.spec_name() == "Undead"@,
            ModificationType::Giant.spec_name() == "Giant"@,
            ModificationType::Fae.spec_name() == "Fae"@,
            ModificationType::ArchersMark.spec_name() == "Archer's Mark"@,
            ModificationType::Spectral.spec_name() == "Spectral"@,
            ModificationType::TenaciousBadger.spec_name() == "Tenacious Badger"@,
            ModificationType::Stormrider.spec_name() == "Stormrider"@,
            ModificationType::UFO.spec_name() == "UFO"@,
            ModificationType::Psychic.spec_name() == "Psychic"@,
            ModificationType::OneWithAll.spec_name() == "One With All"@,
            ModificationType::Amphibian.spec_name() == "Amphibian"@,
            ModificationType::GeometryExpert.spec_name() == "Geometry Expert"@,
            ModificationType::TheLight.spec_name() == "The Light"@,
            ModificationType::Insectoid.spec_name() == "Insectoid"@,
            ModificationType::Shiny.spec_name() == "Shiny"@,
            ModificationType::Scooter.spec_name() == "Scooter"@,
            ModificationType::Calculated.spec_name() == "Calculated"@,
            ModificationType::Mer.spec_name() == "Mer"@,
            ModificationType::Clean.spec_name() == "Clean"@,
            ModificationType::spec_parse("Fire Elemental"@) == Some(ModificationType::FireElemental),
            ModificationType::spec_parse("Air Elemental"@) == Some(ModificationType::AirElemental),
            ModificationType::spec_parse("Water Elemental"@) == Some(ModificationType::WaterElemental),
            ModificationType::spec_parse("Earth Elemental"@) == Some(ModificationType::EarthElemental),
            ModificationType::spec_parse("Demonic"@) == Some(ModificationType::Demonic),
            ModificationType::spec_parse("ROBO"@) == Some(ModificationType::ROBO),
            ModificationType::spec_parse("Draconic"@) == Some(ModificationType::Draconic),
            ModificationType::spec_parse("Angelic"@) == Some(ModificationType::Angelic),
            ModificationType::spec_parse("Undead"@) == Some(ModificationType::Undead),
            ModificationType::spec_parse("Giant"@) == Some(ModificationType::Giant),
            ModificationType::spec_parse("Fae"@) == Some(ModificationType::Fae),
            ModificationType::spec_parse("Archer's Mark"@) == Some(ModificationType::ArchersMark),
            ModificationType::spec_parse("Spectral"@) == Some(ModificationType::Spectral),
            ModificationType::spec_parse("Tenacious Badger"@) == Some(ModificationType::TenaciousBadger),
            ModificationType::spec_parse("Stormrider"@) == Some(ModificationType::Stormrider),
            ModificationType::spec_parse("UFO"@) == Some(ModificationType::UFO),
            ModificationType::spec_parse("Psychic"@) == Some(ModificationType::Psychic),
            ModificationType::spec_parse("One With All"@) == Some(ModificationType::OneWithAll),
            ModificationType::spec_parse("Amphibian"@) == Some(ModificationType::Amphibian),
            ModificationType::spec_parse("Geometry Expert"@) == Some(ModificationType::GeometryExpert),
            ModificationType::spec_parse("The Light"@) == Some(ModificationType::TheLight),
            ModificationType::spec_parse("Insectoid"@) == Some(ModificationType::Insectoid),
            ModificationType::spec_parse("Shiny"@) == Some(ModificationType::Shiny),
            ModificationType::spec_parse("Scooter"@) == Some(ModificationType::Scooter),
            ModificationType::spec_parse("Calculated"@) == Some(ModificationType::Calculated),
            ModificationType::spec_parse("Mer"@) == Some(ModificationType::Mer),
            ModificationType::spec_parse("Clean"@) == Some(ModificationType::Clean),
    {
        ModificationType::FireElemental.lemma_parse_name();
        ModificationType::AirElemental.lemma_parse_name();
        ModificationType::WaterElemental.lemma_parse_name();
        ModificationType::EarthElemental.lemma_parse_name();
        ModificationType::Demonic.lemma_parse_name();
        ModificationType::ROBO.lemma_parse_name();
        ModificationType::Draconic.lemma_parse_name();
        ModificationType::Angelic.lemma_parse_name();
        ModificationType::Undead.lemma_parse_name();
        ModificationType::Giant.lemma_parse_name();
        ModificationType::Fae.lemma_parse_name();
        ModificationType::ArchersMark.lemma_parse_name();
        ModificationType::Spectral.lemma_parse_name();
        ModificationType::TenaciousBadger.lemma_parse_name();
        ModificationType::Stormrider.lemma_parse_name();
        ModificationType::UFO.lemma_parse_name();
        ModificationType::Psychic.lemma_parse_name();
        ModificationType::OneWithAll.lemma_parse_name();
        ModificationType::Amphibian.lemma_parse_name();
        ModificationType::GeometryExpert.lemma_parse_name();
        ModificationType::TheLight.lemma_parse_name();
        ModificationType::Insectoid.lemma_parse_name();
        ModificationType::Shiny.lemma_parse_name();
        ModificationType::Scooter.lemma_parse_name();
        ModificationType::Calculated.lemma_parse_name();
        ModificationType::Mer.lemma_parse_name();
        ModificationType::Clean.lemma_parse_name();
    }
}
/// The strengths of celestial energy a player can receive.
#[derive(Debug, Clone, Copy, PartialEq, Eq, Hash, Structural)]
pub enum CelestialEnergyTier {
    BeganToGlow,
    Infused,
    FullyCharged,
}

impl CelestialEnergyTier {
    /// The text by which this value is written in event messages.
    pub open spec fn spec_name(self) -> Seq<char> {
        match self {
            CelestialEnergyTier::BeganToGlow => "began to glow brightly with celestial energy!"@,
            CelestialEnergyTier::Infused => "was infused with a glimmer of celestial energy!"@,
            CelestialEnergyTier::FullyCharged => "was fully charged with an abundance of celestial energy!"@,
        }
    }

    /// The text by which this value is written.
    pub fn as_str(self) -> (r: &'static str)
        ensures
            r@ == self.spec_name(),
    {
        match self {
            CelestialEnergyTier::BeganToGlow => "began to glow brightly with celestial energy!",
            CelestialEnergyTier::Infused => "was infused with a glimmer of celestial energy!",
            CelestialEnergyTier::FullyCharged => "was fully charged with an abundance of celestial energy!",
        }
    }

    /// The text by which this value is written, as an owned string.
    pub fn to_string(&self) -> (r: String)
        ensures
            r@ == self.spec_name(),
    {
        String::from_str(self.as_str())
    }

    /// The known value written as `s`, if any.
    pub open spec fn spec_parse(s: Seq<char>) -> Option<CelestialEnergyTier> {
        if s.len() == 45 {
            if s == "began to glow brightly with celestial energy!"@ { Some(CelestialEnergyTier::BeganToGlow) }
            else { None }
        }
        else if s.len() == 47 {
            if s == "was infused with a glimmer of celestial energy!"@ { Some(CelestialEnergyTier::Infused) }
            else { None }
        }
        else if s.len() == 56 {
            if s == "was fully charged with an abundance of celestial energy!"@ { Some(CelestialEnergyTier::FullyCharged) }
            else { None }
        }
        else { None }
    }

    /// Reads a value from its written form.
    pub fn from_str(s: &str) -> (r: Result<CelestialEnergyTier, ParseError>)
        ensures
            match r {
                Ok(x) => CelestialEnergyTier::spec_parse(s@) == Some(x) && x.spec_name() == s@,
                Err(_) => CelestialEnergyTier::spec_parse(s@) is None,
            },
    {
        if str_eq(s, "began to glow brightly with celestial energy!") {
            proof { reveal_strlit("began to glow brightly with celestial energy!"); }
            return Ok(CelestialEnergyTier::BeganToGlow);
        }
        if str_eq(s, "was infused with a glimmer of celestial energy!") {
            proof { reveal_strlit("was infused with a glimmer of celestial energy!"); }
            return Ok(CelestialEnergyTier::Infused);
        }
        if str_eq(s, "was fully charged with an abundance of celestial energy!") {
            proof { reveal_strlit("was fully charged with an abundance of celestial energy!"); }
            return Ok(CelestialEnergyTier::FullyCharged);
        }
        Err(ParseError::VariantNotFound)
    }

    /// Reading the written form of a known value gives that value back.
    pub proof fn lemma_parse_name(self)
        ensures
            CelestialEnergyTier::spec_parse(self.spec_name()) == Some(self),
    {
        match self {
            CelestialEnergyTier::BeganToGlow => {
                reveal_strlit("began to glow brightly with celestial energy!");
            }
            CelestialEnergyTier::Infused => {
                reveal_strlit("was infused with a glimmer of celestial energy!");
            }
            CelestialEnergyTier::FullyCharged => {
                reveal_strlit("was fully charged with an abundance of celestial energy!");
            }
        }
    }
    /// The written form of each known value, and what reading it gives.
    pub proof fn lemma_name_table()
        ensures
            CelestialEnergyTier::BeganToGlow.spec_name() == "began to glow brightly with celestial energy!"@,
            CelestialEnergyTier::Infused.spec_name() == "was infused with a glimmer of celestial energy!"@,
            CelestialEnergyTier::FullyCharged.spec_name() == "was fully charged with an abundance of celestial energy!"@,
            CelestialEnergyTier::spec_parse("began to glow brightly with celestial energy!"@) == Some(CelestialEnergyTier::BeganToGlow),
            CelestialEnergyTier::spec_parse("was infused with a glimmer of celestial energy!"@) == Some(CelestialEnergyTier::Infused),
            CelestialEnergyTier::spec_parse("was fully charged with an abundance of celestial energy!"@) == Some(CelestialEnergyTier::FullyCharged),
    {
        CelestialEnergyTier::BeganToGlow.lemma_parse_name();
        CelestialEnergyTier::Infused.lemma_parse_name();
        CelestialEnergyTier::FullyCharged.lemma_parse_name();
    }
}
/// Per-game statistics, as named in game data.
#[derive(Debug, Clone, Copy, PartialEq, Eq, Hash, Structural)]
pub enum GameStat {
    GroundedIntoDoublePlay,
    LeftOnBaseRisp,
    StrikeoutsRisp,
    Groundout,
    AllowedStolenBases,
    FieldersChoice,
    SacFlies,
    Assists,
    RunsBattedIn,
    Popouts,
    HomeRunsRisp,
    AtBats,
    EarnedRunsRisp,
    Strikeouts,
    Losses,
    StolenBasesRisp,
    HomeRunsAllowedRisp,
    ForceOuts,
    FieldersChoiceRisp,
    SacFliesRisp,
    Shutouts,
    BattersFaced,
    EarnedRuns,
    FieldOut,
    TriplesRisp,
    StolenBases,
    Walked,
    MoundVisits,
    FieldOutRisp,
    UnearnedRunsRisp,
    InheritedRunnersRisp,
    RunsRisp,
    QualityStarts,
    GroundedIntoDoublePlayRisp,
    Wins,
    RunsBattedInRisp,
    HitsAllowed,
    RunnersCaughtStealing,
    StruckOut,
    AssistsRisp,
    Saves,
    Walks,
    ReachedOnError,
    BlownSaves,
    CaughtDoublePlayRisp,
    LeftOnBase,
    LineoutsRisp,
    ReachedOnErrorRisp,
    UnearnedRuns,
    PlateAppearancesRisp,
    Triples,
    SacrificeDoublePlays,
    Starts,
    InheritedRunsAllowed,
    NoHitters,
    GamesFinished,
    CaughtStealingRisp,
    RunnersCaughtStealingRisp,
    BattersFacedRisp,
    DoublePlays,
    ForceOutsRisp,
    SinglesRisp,
    Singles,
    Lineouts,
    PlateAppearances,
    AtBatsRisp,
    DoublePlaysRisp,
    CaughtStealing,
    WalkedRisp,
    Putouts,
    HitBatters,
    HitByPitch,
    Errors,
    StruckOutRisp,
    PopoutsRisp,
    HomeRuns,
    HitByPitchRisp,
    Appearances,
    InheritedRunsAllowedRisp,
    WalksRisp,
    SacrificeDoublePlaysRisp,
    HitBattersRisp,
    Outs,
    Doubles,
    InheritedRunners,
    DoublesRisp,
    FlyoutsRisp,
    PitchesThrown,
    CompleteGames,
    Flyouts,
    PitchesThrownRisp,
    CaughtDoublePlay,
    HomeRunsAllowed,
    PutoutsRisp,
    GroundoutRisp,
    ErrorsRisp,
    Runs,
    HitsAllowedRisp,
    AllowedStolenBasesRisp,
    PerfectGames,
    GroundoutsRisp,
    Groundouts,
    Balks,
    BalksRisp,
    HomeRunChallengeAppearances,
    HomeRunChallengeHomeRunsAllowed,
    HomeRunChallengeHomeRuns,
    Ejected,
}

impl GameStat {
    /// The text by which this value is written in event messages.
    pub open spec fn spec_name(self) -> Seq<char> {
        match self {
            GameStat::GroundedIntoDoublePlay => "grounded_into_double_play"@,
            GameStat::LeftOnBaseRisp => "left_on_base_risp"@,
            GameStat::StrikeoutsRisp => "strikeouts_risp"@,
            GameStat::Groundout => "groundout"@,
            GameStat::AllowedStolenBases => "allowed_stolen_bases"@,
            GameStat::FieldersChoice => "fielders_choice"@,
            GameStat::SacFlies => "sac_flies"@,
            GameStat::Assists => "assists"@,
            GameStat::RunsBattedIn => "runs_batted_in"@,
            GameStat::Popouts => "popouts"@,
            GameStat::HomeRunsRisp => "home_runs_risp"@,
            GameStat::AtBats => "at_bats"@,
            GameStat::EarnedRunsRisp => "earned_runs_risp"@,
            GameStat::Strikeouts => "strikeouts"@,
            GameStat::Losses => "losses"@,
            GameStat::StolenBasesRisp => "stolen_bases_risp"@,
            GameStat::HomeRunsAllowedRisp => "home_runs_allowed_risp"@,
            GameStat::ForceOuts => "force_outs"@,
            GameStat::FieldersChoiceRisp => "fielders_choice_risp"@,
            GameStat::SacFliesRisp => "sac_flies_risp"@,
            GameStat::Shutouts => "shutouts"@,
            GameStat::BattersFaced => "batters_faced"@,
            GameStat::EarnedRuns => "earned_runs"@,
            GameStat::FieldOut => "field_out"@,
            GameStat::TriplesRisp => "triples_risp"@,
            GameStat::StolenBases => "stolen_bases"@,
            GameStat::Walked => "walked"@,
            GameStat::MoundVisits => "mound_visits"@,
            GameStat::FieldOutRisp => "field_out_risp"@,
            GameStat::UnearnedRunsRisp => "unearned_runs_risp"@,
            GameStat::InheritedRunnersRisp => "inherited_runners_risp"@,
            GameStat::RunsRisp => "runs_risp"@,
            GameStat::QualityStarts => "quality_starts"@,
            GameStat::GroundedIntoDoublePlayRisp => "grounded_into_double_play_risp"@,
            GameStat::Wins => "wins"@,
            GameStat::RunsBattedInRisp => "runs_batted_in_risp"@,
            GameStat::HitsAllowed => "hits_allowed"@,
            GameStat::RunnersCaughtStealing => "runners_caught_stealing"@,
            GameStat::StruckOut => "struck_out"@,
            GameStat::AssistsRisp => "assists_risp"@,
            GameStat::Saves => "saves"@,
            GameStat::Walks => "walks"@,
            GameStat::ReachedOnError => "reached_on_error"@,
            GameStat::BlownSaves => "blown_saves"@,
            GameStat::CaughtDoublePlayRisp => "caught_double_play_risp"@,
            GameStat::LeftOnBase => "left_on_base"@,
            GameStat::LineoutsRisp => "lineouts_risp"@,
            GameStat::ReachedOnErrorRisp => "reached_on_error_risp"@,
            GameStat::UnearnedRuns => "unearned_runs"@,
            GameStat::PlateAppearancesRisp => "plate_appearances_risp"@,
            GameStat::Triples => "triples"@,
            GameStat::SacrificeDoublePlays => "sacrifice_double_plays"@,
            GameStat::Starts => "starts"@,
            GameStat::InheritedRunsAllowed => "inherited_runs_allowed"@,
            GameStat::NoHitters => "no_hitters"@,
            GameStat::GamesFinished => "games_finished"@,
            GameStat::CaughtStealingRisp => "caught_stealing_risp"@,
            GameStat::RunnersCaughtStealingRisp => "runners_caught_stealing_risp"@,
            GameStat::BattersFacedRisp => "batters_faced_risp"@,
            GameStat::DoublePlays => "double_plays"@,
            GameStat::ForceOutsRisp => "force_outs_risp"@,
            GameStat::SinglesRisp => "singles_risp"@,
            GameStat::Singles => "singles"@,
            GameStat::Lineouts => "lineouts"@,
            GameStat::PlateAppearances => "plate_appearances"@,
            GameStat::AtBatsRisp => "at_bats_risp"@,
            GameStat::DoublePlaysRisp => "double_plays_risp"@,
            GameStat::CaughtStealing => "caught_stealing"@,
            GameStat::WalkedRisp => "walked_risp"@,
            GameStat::Putouts => "putouts"@,
            GameStat::HitBatters => "hit_batters"@,
            GameStat::HitByPitch => "hit_by_pitch"@,
            GameStat::Errors => "errors"@,
            GameStat::StruckOutRisp => "struck_out_risp"@,
            GameStat::PopoutsRisp => "popouts_risp"@,
            GameStat::HomeRuns => "home_runs"@,
            GameStat::HitByPitchRisp => "hit_by_pitch_risp"@,
            GameStat::Appearances => "appearances"@,
            GameStat::InheritedRunsAllowedRisp => "inherited_runs_allowed_risp"@,
            GameStat::WalksRisp => "walks_risp"@,
            GameStat::SacrificeDoublePlaysRisp => "sacrifice_double_plays_risp"@,
            GameStat::HitBattersRisp => "hit_batters_risp"@,
            GameStat::Outs => "outs"@,
            GameStat::Doubles => "doubles"@,
            GameStat::InheritedRunners => "inherited_runners"@,
            GameStat::DoublesRisp => "doubles_risp"@,
            GameStat::FlyoutsRisp => "flyouts_risp"@,
            GameStat::PitchesThrown => "pitches_thrown"@,
            GameStat::CompleteGames => "complete_games"@,
            GameStat::Flyouts => "flyouts"@,
            GameStat::PitchesThrownRisp => "pitches_thrown_risp"@,
            GameStat::CaughtDoublePlay => "caught_double_play"@,
            GameStat::HomeRunsAllowed => "home_runs_allowed"@,
            GameStat::PutoutsRisp => "putouts_risp"@,
            GameStat::GroundoutRisp => "groundout_risp"@,
            GameStat::ErrorsRisp => "errors_risp"@,
            GameStat::Runs => "runs"@,
            GameStat::HitsAllowedRisp => "hits_allowed_risp"@,
            GameStat::AllowedStolenBasesRisp => "allowed_stolen_bases_risp"@,
            GameStat::PerfectGames => "perfect_games"@,
            GameStat::GroundoutsRisp => "groundouts_risp"@,
            GameStat::Groundouts => "groundouts"@,
            GameStat::Balks => "balks"@,
            GameStat::BalksRisp => "balks_risp"@,
            GameStat::HomeRunChallengeAppearances => "home_run_challenge_appearances"@,
            GameStat::HomeRunChallengeHomeRunsAllowed => "home_run_challenge_home_runs_allowed"@,
            GameStat::HomeRunChallengeHomeRuns => "home_run_challenge_home_runs"@,
            GameStat::Ejected => "ejected"@,
        }
    }

    /// The text by which this value is written.
    pub fn as_str(self) -> (r: &'static str)
        ensures
            r@ == self.spec_name(),
    {
        match self {
            GameStat::GroundedIntoDoublePlay => "grounded_into_double_play",
            GameStat::LeftOnBaseRisp => "left_on_base_risp",
            GameStat::StrikeoutsRisp => "strikeouts_risp",
            GameStat::Groundout => "groundout",
            GameStat::AllowedStolenBases => "allowed_stolen_bases",
            GameStat::FieldersChoice => "fielders_choice",
            GameStat::SacFlies => "sac_flies",
            GameStat::Assists => "assists",
            GameStat::RunsBattedIn => "runs_batted_in",
            GameStat::Popouts => "popouts",
            GameStat::HomeRunsRisp => "home_runs_risp",
            GameStat::AtBats => "at_bats",
            GameStat::EarnedRunsRisp => "earned_runs_risp",
            GameStat::Strikeouts => "strikeouts",
            GameStat::Losses => "losses",
            GameStat::StolenBasesRisp => "stolen_bases_risp",
            GameStat::HomeRunsAllowedRisp => "home_runs_allowed_risp",
            GameStat::ForceOuts => "force_outs",
            GameStat::FieldersChoiceRisp => "fielders_choice_risp",
            GameStat::SacFliesRisp => "sac_flies_risp",
            GameStat::Shutouts => "shutouts",
            GameStat::BattersFaced => "batters_faced",
            GameStat::EarnedRuns => "earned_runs",
            GameStat::FieldOut => "field_out",
            GameStat::TriplesRisp => "triples_risp",
            GameStat::StolenBases => "stolen_bases",
            GameStat::Walked => "walked",
            GameStat::MoundVisits => "mound_visits",
            GameStat::FieldOutRisp => "field_out_risp",
            GameStat::UnearnedRunsRisp => "unearned_runs_risp",
            GameStat::InheritedRunnersRisp => "inherited_runners_risp",
            GameStat::RunsRisp => "runs_risp",
            GameStat::QualityStarts => "quality_starts",
            GameStat::GroundedIntoDoublePlayRisp => "grounded_into_double_play_risp",
            GameStat::Wins => "wins",
            GameStat::RunsBattedInRisp => "runs_batted_in_risp",
            GameStat::HitsAllowed => "hits_allowed",
            GameStat::RunnersCaughtStealing => "runners_caught_stealing",
            GameStat::StruckOut => "struck_out",
            GameStat::AssistsRisp => "assists_risp",
            GameStat::Saves => "saves",
            GameStat::Walks => "walks",
            GameStat::ReachedOnError => "reached_on_error",
            GameStat::BlownSaves => "blown_saves",
            GameStat::CaughtDoublePlayRisp => "caught_double_play_risp",
            GameStat::LeftOnBase => "left_on_base",
            GameStat::LineoutsRisp => "lineouts_risp",
            GameStat::ReachedOnErrorRisp => "reached_on_error_risp",
            GameStat::UnearnedRuns => "unearned_runs",
            GameStat::PlateAppearancesRisp => "plate_appearances_risp",
            GameStat::Triples => "triples",
            GameStat::SacrificeDoublePlays => "sacrifice_double_plays",
            GameStat::Starts => "starts",
            GameStat::InheritedRunsAllowed => "inherited_runs_allowed",
            GameStat::NoHitters => "no_hitters",
            GameStat::GamesFinished => "games_finished",
            GameStat::CaughtStealingRisp => "caught_stealing_risp",
            GameStat::RunnersCaughtStealingRisp => "runners_caught_stealing_risp",
            GameStat::BattersFacedRisp => "batters_faced_risp",
            GameStat::DoublePlays => "double_plays",
            GameStat::ForceOutsRisp => "force_outs_risp",
            GameStat::SinglesRisp => "singles_risp",
            GameStat::Singles => "singles",
            GameStat::Lineouts => "lineouts",
            GameStat::PlateAppearances => "plate_appearances",
            GameStat::AtBatsRisp => "at_bats_risp",
            GameStat::DoublePlaysRisp => "double_plays_risp",
            GameStat::CaughtStealing => "caught_stealing",
            GameStat::WalkedRisp => "walked_risp",
            GameStat::Putouts => "putouts",
            GameStat::HitBatters => "hit_batters",
            GameStat::HitByPitch => "hit_by_pitch",
            GameStat::Errors => "errors",
            GameStat::StruckOutRisp => "struck_out_risp",
            GameStat::PopoutsRisp => "popouts_risp",
            GameStat::HomeRuns => "home_runs",
            GameStat::HitByPitchRisp => "hit_by_pitch_risp",
            GameStat::Appearances => "appearances",
            GameStat::InheritedRunsAllowedRisp => "inherited_runs_allowed_risp",
            GameStat::WalksRisp => "walks_risp",
            GameStat::SacrificeDoublePlaysRisp => "sacrifice_double_plays_risp",
            GameStat::HitBattersRisp => "hit_batters_risp",
            GameStat::Outs => "outs",
            GameStat::Doubles => "doubles",
            GameStat::InheritedRunners => "inherited_runners",
            GameStat::DoublesRisp => "doubles_risp",
            GameStat::FlyoutsRisp => "flyouts_risp",
            GameStat::PitchesThrown => "pitches_thrown",
            GameStat::CompleteGames => "complete_games",
            GameStat::Flyouts => "flyouts",
            GameStat::PitchesThrownRisp => "pitches_thrown_risp",
            GameStat::CaughtDoublePlay => "caught_double_play",
            GameStat::HomeRunsAllowed => "home_runs_allowed",
            GameStat::PutoutsRisp => "putouts_risp",
            GameStat::GroundoutRisp => "groundout_risp",
            GameStat::ErrorsRisp => "errors_risp",
            GameStat::Runs => "runs",
            GameStat::HitsAllowedRisp => "hits_allowed_risp",
            GameStat::AllowedStolenBasesRisp => "allowed_stolen_bases_risp",
            GameStat::PerfectGames => "perfect_games",
            GameStat::GroundoutsRisp => "groundouts_risp",
            GameStat::Groundouts => "groundouts",
            GameStat::Balks => "balks",
            GameStat::BalksRisp => "balks_risp",
            GameStat::HomeRunChallengeAppearances => "home_run_challenge_appearances",
            GameStat::HomeRunChallengeHomeRunsAllowed => "home_run_challenge_home_runs_allowed",
            GameStat::HomeRunChallengeHomeRuns => "home_run_challenge_home_runs",
            GameStat::Ejected => "ejected",
        }
    }

    /// The text by which this value is written, as an owned string.
    pub fn to_string(&self) -> (r: String)
        ensures
            r@ == self.spec_name(),
    {
        String::from_str(self.as_str())
    }

}

} // verus!
