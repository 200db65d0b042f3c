//! The records that the page parsers extract: leagues, teams, match states
//! and games.

use vstd::prelude::*;

use crate::clock::HourMinute;
use crate::clock::TimeOfDay;
use crate::date::Date;
use crate::date::Ymd;

verus! {

/// A competition or group label.
#[derive(Debug, PartialEq, Eq)]
pub struct League {
    pub name: String,
}

/// [`League`] as plain sequences.
pub struct LeagueModel {
    pub name: Seq<char>,
}

impl View for League {
    type V = LeagueModel;

    open spec fn view(&self) -> LeagueModel {
        LeagueModel { name: self.name@ }
    }
}

impl DeepView for League {
    type V = LeagueModel;

    open spec fn deep_view(&self) -> LeagueModel {
        self@
    }
}

/// One side of a game. The country is reserved: the parsers leave it empty.
#[derive(Debug, PartialEq, Eq)]
pub struct Team {
    pub name: String,
    pub country: String,
}

/// [`Team`] as plain sequences.
pub struct TeamModel {
    pub name: Seq<char>,
    pub country: Seq<char>,
}

impl View for Team {
    type V = TeamModel;

    open spec fn view(&self) -> TeamModel {
        TeamModel { name: self.name@, country: self.country@ }
    }
}

impl DeepView for Team {
    type V = TeamModel;

    open spec fn deep_view(&self) -> TeamModel {
        self@
    }
}

impl Default for Team {
    fn default() -> (r: Team)
        ensures
            r@ == (TeamModel { name: Seq::empty(), country: Seq::empty() }),
    {
        Team { name: String::new(), country: String::new() }
    }
}

/// The state of a game: exactly one of four.
#[derive(Clone, Copy, Debug, PartialEq, Eq, Structural)]
pub enum MatchStatus {
    /// Not started; kick-off at the given time.
    Scheduled(TimeOfDay),
    Postponed,
    /// Running, with the goals of host and guest so far.
    InPlay(i32, i32),
    /// Over, with the goals of host and guest.
    Finished(i32, i32),
}

/// [`MatchStatus`] as plain numbers.
pub enum StatusModel {
    Scheduled(HourMinute),
    Postponed,
    InPlay(int, int),
    Finished(int, int),
}

impl View for MatchStatus {
    type V = StatusModel;

    open spec fn view(&self) -> StatusModel {
        match *self {
            MatchStatus::Scheduled(time) => StatusModel::Scheduled(time@),
            MatchStatus::Postponed => StatusModel::Postponed,
            MatchStatus::InPlay(home, away) => StatusModel::InPlay(home as int, away as int),
            MatchStatus::Finished(home, away) => StatusModel::Finished(home as int, away as int),
        }
    }
}

impl DeepView for MatchStatus {
    type V = StatusModel;

    open spec fn deep_view(&self) -> StatusModel {
        self@
    }
}

impl StatusModel {
    /// Goals are counted from zero.
    pub open spec fn well_formed(self) -> bool {
        match self {
            StatusModel::InPlay(home, away) => home >= 0 && away >= 0,
            StatusModel::Finished(home, away) => home >= 0 && away >= 0,
            _ => true,
        }
    }
}

/// One fixture or result.
#[derive(Debug, PartialEq, Eq)]
pub struct Game {
    pub status: MatchStatus,
    pub league: String,
    pub stage: Option<String>,
    pub start_date: Date,
    pub host: Team,
    pub guest: Team,
}

/// [`Game`] as plain sequences and numbers.
pub struct GameModel {
    pub status: StatusModel,
    pub league: Seq<char>,
    pub stage: Option<Seq<char>>,
    pub start_date: Ymd,
    pub host: TeamModel,
    pub guest: TeamModel,
}

impl View for Game {
    type V = GameModel;

    open spec fn view(&self) -> GameModel {
        GameModel {
            status: self.status@,
            league: self.league@,
            stage: self.stage.deep_view(),
            start_date: self.start_date@,
            host: self.host@,
            guest: self.guest@,
        }
    }
}

impl DeepView for Game {
    type V = GameModel;

    open spec fn deep_view(&self) -> GameModel {
        self@
    }
}

} // verus!
