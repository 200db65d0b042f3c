//! The games page: date headers, league and stage separators and game rows
//! as one flat list, read in a single pass that carries the current date,
//! league and stage.

use vstd::prelude::*;

use crate::clock::clock_of;
use crate::clock::HourMinute;
use crate::clock::TimeOfDay;
use crate::clock::Timestamp;
use crate::date::parse_date;
use crate::date::resolve_date;
use crate::date::Date;
use crate::date::Ymd;
use crate::fixtures::cells_in;
use crate::fixtures::compiled_cell_selectors;
use crate::fixtures::compiled_page_selectors;
use crate::fixtures::groups_in;
use crate::fixtures::read_cells;
use crate::fixtures::read_groups;
use crate::fixtures::CellSelectors;
use crate::fixtures::CellsModel;
use crate::fixtures::FixtureGroup;
use crate::fixtures::FixtureRow;
use crate::fixtures::GameCells;
use crate::fixtures::GroupModel;
use crate::fixtures::PageSelectors;
use crate::fixtures::RowModel;
use crate::markup::SELECTOR_FAILURE;
use crate::records::Game;
use crate::records::GameModel;
use crate::records::MatchStatus;
use crate::records::StatusModel;
use crate::records::Team;
use crate::records::TeamModel;
use crate::task::outcome_view;
use crate::task::result_view;
use crate::task::DataModel;
use crate::task::ErrorModel;
use crate::task::PageData;
use crate::task::ResultModel;
use crate::task::ScraperTask;
use crate::task::ScraperTaskResult;
use crate::task::ScripingFunction;
use crate::task::TaskError;
use crate::task::TaskModel;
use crate::text::chars_of;
use crate::text::decimal_i32;
use crate::text::lemma_decimal_i32_of_numeral;
use crate::text::numeral;
use crate::text::parse_i32;

verus! {

/// The year of a date header that names none.
pub const DEFAULT_YEAR: i32 = 2023;

/// Reported with a row's markup where the row has no status marker.
pub const STATUS_MISSING: &'static str = "Selector select_start_time failed";

/// Reported with a row's markup where its status is neither a final
/// whistle nor a kick-off time.
pub const STATUS_UNREADABLE: &'static str = "Parsing game status";

/// Reported with a row's inner markup where a goal count is missing,
/// unreadable or negative.
pub const SCORE_UNREADABLE: &'static str = "Parse game score";

/// Reported with a row's inner markup where it names no team.
pub const HOME_TEAM_MISSING: &'static str = "Parse game home team";

/// Reported with a row's inner markup where it names one team only.
pub const AWAY_TEAM_MISSING: &'static str = "Parse game away team";

/// Reported with a row's markup where a game stands before any date.
pub const DATE_MISSING: &'static str = "game element";

/// Whether a status marker says that the game is over: after full time,
/// after extra time, or awarded.
pub open spec fn is_final_whistle(token: Seq<char>) -> bool {
    token == "FT"@ || token == "AET"@ || token == "AAW"@
}

/// The goals that a score marker gives; -1 where the marker is missing or
/// holds no number.
pub open spec fn goals_of(marker: Option<Seq<char>>) -> int {
    match marker {
        Some(text) => match decimal_i32(text) {
            Some(goals) => goals as int,
            None => -1,
        },
        None => -1,
    }
}

/// The score of a row: both goal counts, where neither is negative.
pub open spec fn score_of(cells: CellsModel) -> Option<(int, int)> {
    let home = goals_of(cells.home_score);
    let away = goals_of(cells.away_score);
    if home < 0 || away < 0 {
        None
    } else {
        Some((home, away))
    }
}

/// The failure to read the score of a row.
pub open spec fn score_failure(cells: CellsModel) -> ErrorModel {
    ErrorModel::Fragment(SCORE_UNREADABLE@, cells.inner_html)
}

/// The state of a game that is not over, given the kick-off time that its
/// status marker was read as.
pub open spec fn scheduled_at(cells: CellsModel, kick_off: Option<HourMinute>) -> Result<
    StatusModel,
    ErrorModel,
> {
    match kick_off {
        Some(time) => Ok(StatusModel::Scheduled(time)),
        None => Err(ErrorModel::Fragment(STATUS_UNREADABLE@, cells.html)),
    }
}

/// The state of the game of a row: finished with its score, where the
/// status marker is a final whistle; scheduled, where it is a kick-off
/// time.
pub open spec fn status_of(cells: CellsModel) -> Result<StatusModel, ErrorModel> {
    match cells.status {
        None => Err(ErrorModel::Fragment(STATUS_MISSING@, cells.html)),
        Some(token) => if is_final_whistle(token) {
            match score_of(cells) {
                Some((home, away)) => Ok(StatusModel::Finished(home, away)),
                None => Err(score_failure(cells)),
            }
        } else {
            scheduled_at(cells, clock_of(token))
        },
    }
}

/// The names of host and guest of a row: its first two team names.
pub open spec fn teams_of(cells: CellsModel) -> Result<(Seq<char>, Seq<char>), ErrorModel> {
    if cells.teams.len() == 0 {
        Err(ErrorModel::Fragment(HOME_TEAM_MISSING@, cells.inner_html))
    } else if cells.teams.len() == 1 {
        Err(ErrorModel::Fragment(AWAY_TEAM_MISSING@, cells.inner_html))
    } else {
        Ok((cells.teams[0], cells.teams[1]))
    }
}

/// A team of which only the name is known.
pub open spec fn team_named(name: Seq<char>) -> TeamModel {
    TeamModel { name, country: Seq::empty() }
}

/// The game of a row under the given league, stage and date; the state is
/// read before the teams.
pub open spec fn game_of(
    cells: CellsModel,
    league: Seq<char>,
    stage: Option<Seq<char>>,
    date: Ymd,
) -> Result<GameModel, ErrorModel> {
    match status_of(cells) {
        Err(error) => Err(error),
        Ok(status) => match teams_of(cells) {
            Err(error) => Err(error),
            Ok((host, guest)) => Ok(
                GameModel {
                    status,
                    league,
                    stage,
                    start_date: date,
                    host: team_named(host),
                    guest: team_named(guest),
                },
            ),
        },
    }
}

/// What the pass over a games page carries from row to row.
#[derive(Debug, PartialEq, Eq)]
pub struct ScanState {
    pub date: Option<Date>,
    pub league: String,
    pub stage: Option<String>,
}

/// [`ScanState`] as plain sequences.
pub struct StateModel {
    pub date: Option<Ymd>,
    pub league: Seq<char>,
    pub stage: Option<Seq<char>>,
}

impl View for ScanState {
    type V = StateModel;

    open spec fn view(&self) -> StateModel {
        StateModel {
            date: self.date.deep_view(),
            league: self.league@,
            stage: self.stage.deep_view(),
        }
    }
}

impl DeepView for ScanState {
    type V = StateModel;

    open spec fn deep_view(&self) -> StateModel {
        self@
    }
}

/// The state before the first row: no date, an empty league, no stage.
pub open spec fn initial_state() -> StateModel {
    StateModel { date: None, league: Seq::empty(), stage: None }
}

/// The state on entering a container: its last date header, where it has
/// one, replaces the date, whether or not it names a day.
pub open spec fn group_entry(state: StateModel, dates: Seq<Seq<char>>) -> StateModel {
    if dates.len() == 0 {
        state
    } else {
        StateModel {
            date: resolve_date(dates.last(), DEFAULT_YEAR as int),
            league: state.league,
            stage: state.stage,
        }
    }
}

/// One transition of the pass. A row with a league header sets the league
/// and clears the stage; otherwise a row with a stage header sets the
/// stage; otherwise the row is a game, which needs a date.
pub open spec fn row_step(state: StateModel, row: RowModel) -> Result<
    (StateModel, Option<GameModel>),
    ErrorModel,
> {
    if row.league_header is Some {
        Ok((StateModel { date: state.date, league: row.league_header->0, stage: None }, None))
    } else if row.stage_header is Some {
        Ok((StateModel { date: state.date, league: state.league, stage: row.stage_header }, None))
    } else if state.date is Some {
        match game_of(row.cells, state.league, state.stage, state.date->0) {
            Ok(game) => Ok((state, Some(game))),
            Err(error) => Err(error),
        }
    } else {
        Err(ErrorModel::Fragment(DATE_MISSING@, row.cells.html))
    }
}

/// The pass so far: its state and the games that it has found.
pub struct ScanModel {
    pub state: StateModel,
    pub games: Seq<GameModel>,
}

/// The pass before the first row.
pub open spec fn initial_scan() -> ScanModel {
    ScanModel { state: initial_state(), games: Seq::empty() }
}

/// The pass after one more row.
pub open spec fn scan_row(scan: ScanModel, row: RowModel) -> Result<ScanModel, ErrorModel> {
    match row_step(scan.state, row) {
        Ok((state, Some(game))) => Ok(ScanModel { state, games: scan.games.push(game) }),
        Ok((state, None)) => Ok(ScanModel { state, games: scan.games }),
        Err(error) => Err(error),
    }
}

/// The pass after the given rows; the first failure ends it.
pub open spec fn scan_rows(scan: ScanModel, rows: Seq<RowModel>) -> Result<ScanModel, ErrorModel>
    decreases rows.len(),
{
    if rows.len() == 0 {
        Ok(scan)
    } else {
        match scan_rows(scan, rows.drop_last()) {
            Ok(earlier) => scan_row(earlier, rows.last()),
            Err(error) => Err(error),
        }
    }
}

/// The pass after one more container: its date headers first, then its
/// rows.
pub open spec fn scan_group(scan: ScanModel, group: GroupModel) -> Result<ScanModel, ErrorModel> {
    scan_rows(
        ScanModel { state: group_entry(scan.state, group.dates), games: scan.games },
        group.rows,
    )
}

/// The pass after the given containers; the first failure ends it.
pub open spec fn scan_groups(scan: ScanModel, groups: Seq<GroupModel>) -> Result<
    ScanModel,
    ErrorModel,
>
    decreases groups.len(),
{
    if groups.len() == 0 {
        Ok(scan)
    } else {
        match scan_groups(scan, groups.drop_last()) {
            Ok(earlier) => scan_group(earlier, groups.last()),
            Err(error) => Err(error),
        }
    }
}

/// What a games page yields, given its containers: all its games and no
/// task, or the failure of its first row that breaks a rule.
pub open spec fn games_page_outcome(task: TaskModel, groups: Seq<GroupModel>, now: Timestamp) -> Result<
    ResultModel,
    ErrorModel,
> {
    match scan_groups(initial_scan(), groups) {
        Ok(scan) => Ok(
            ResultModel {
                url: task.url,
                data: DataModel::Games(scan.games),
                success: true,
                last_update: now,
                new_urls: Seq::empty(),
            },
        ),
        Err(error) => Err(error),
    }
}

/// What reading the games page `document` yields: the outcome for the
/// containers that the selectors find in it, or `Other` where a selector
/// does not compile.
pub open spec fn games_page_reading(task: TaskModel, document: scraper::Html, now: Timestamp) -> Result<
    ResultModel,
    ErrorModel,
> {
    match compiled_page_selectors() {
        Some(selectors) => games_page_outcome(task, groups_in(&document, selectors), now),
        None => Err(ErrorModel::Other(SELECTOR_FAILURE@)),
    }
}

/// What reading the game row `element` yields: the game of the cells that
/// the selectors find in it, or `Other` where a selector does not compile.
pub open spec fn game_reading(
    element: scraper::ElementRef,
    league: Seq<char>,
    stage: Option<Seq<char>>,
    date: Ymd,
) -> Result<GameModel, ErrorModel> {
    match compiled_cell_selectors() {
        Some(selectors) => game_of(cells_in(element, selectors), league, stage, date),
        None => Err(ErrorModel::Other(SELECTOR_FAILURE@)),
    }
}

/// A failure among the first rows is the failure of all the rows.
pub proof fn lemma_scan_rows_failure(scan: ScanModel, rows: Seq<RowModel>, k: int)
    requires
        0 <= k <= rows.len(),
        scan_rows(scan, rows.take(k)) is Err,
    ensures
        scan_rows(scan, rows) == scan_rows(scan, rows.take(k)),
    decreases rows.len() - k,
{
    if k == rows.len() {
        assert(rows.take(k) == rows);
    } else {
        assert(rows.take(k + 1).drop_last() == rows.take(k));
        lemma_scan_rows_failure(scan, rows, k + 1);
    }
}

/// A failure among the first containers is the failure of the page.
pub proof fn lemma_scan_groups_failure(scan: ScanModel, groups: Seq<GroupModel>, k: int)
    requires
        0 <= k <= groups.len(),
        scan_groups(scan, groups.take(k)) is Err,
    ensures
        scan_groups(scan, groups) == scan_groups(scan, groups.take(k)),
    decreases groups.len() - k,
{
    if k == groups.len() {
        assert(groups.take(k) == groups);
    } else {
        assert(groups.take(k + 1).drop_last() == groups.take(k));
        lemma_scan_groups_failure(scan, groups, k + 1);
    }
}

/// A copy of an optional text.
fn copy_of(text: &Option<String>) -> (r: Option<String>)
    ensures
        r.deep_view() == text.deep_view(),
{
    match text {
        Some(value) => Some(value.clone()),
        None => None,
    }
}

impl ScanState {
    /// The state before the first row.
    pub fn new() -> (r: ScanState)
        ensures
            r@ == initial_state(),
    {
        ScanState { date: None, league: String::new(), stage: None }
    }

    /// Enters a container with the given date headers.
    pub fn enter_group(self, dates: &Vec<String>) -> (r: ScanState)
        ensures
            r@ == group_entry(self@, dates.deep_view()),
    {
        if dates.len() == 0 {
            self
        } else {
            let header = &dates[dates.len() - 1];
            assert(dates.deep_view().last() == header@);
            ScanState {
                date: parse_date(header.as_str(), DEFAULT_YEAR),
                league: self.league,
                stage: self.stage,
            }
        }
    }

    /// Takes one row: the state after it and the game that it holds, if it
    /// is a game and not a separator.
    pub fn step(self, row: &FixtureRow) -> (r: Result<(ScanState, Option<Game>), TaskError>)
        ensures
            result_view(r) == row_step(self@, row@),
    {
        match &row.league_header {
            Some(league) => Ok(
                (ScanState { date: self.date, league: league.clone(), stage: None }, None),
            ),
            None => match &row.stage_header {
                Some(stage) => Ok(
                    (
                        ScanState {
                            date: self.date,
                            league: self.league,
                            stage: Some(stage.clone()),
                        },
                        None,
                    ),
                ),
                None => match self.date {
                    Some(date) => {
                        match GamesPage::game_from_cells(
                            &row.cells,
                            &self.league,
                            &self.stage,
                            date,
                        ) {
                            Ok(game) => Ok((self, Some(game))),
                            Err(error) => Err(error),
                        }
                    },
                    None => Err(
                        TaskError::Fragment(DATE_MISSING.to_owned(), row.cells.html.clone()),
                    ),
                },
            },
        }
    }
}

/// The games listed on a games page, in document order.
#[derive(Debug, PartialEq, Eq)]
pub struct GamesPage {
    pub games: Vec<Game>,
}

impl Default for GamesPage {
    fn default() -> (r: GamesPage)
        ensures
            r.games@.len() == 0,
    {
        GamesPage { games: Vec::new() }
    }
}

/// The goals that a score marker gives.
fn goals(marker: &Option<String>) -> (r: i32)
    ensures
        r == goals_of(marker.deep_view()),
{
    match marker {
        Some(text) => {
            let digits = chars_of(text.as_str());
            match parse_i32(&digits) {
                Some(value) => value,
                None => -1,
            }
        },
        None => -1,
    }
}

/// Whether a status marker says that the game is over.
fn final_whistle(token: &String) -> (r: bool)
    ensures
        r == is_final_whistle(token@),
{
    let full_time = "FT".to_owned();
    let extra_time = "AET".to_owned();
    let awarded = "AAW".to_owned();
    *token == full_time || *token == extra_time || *token == awarded
}

impl GamesPage {
    pub fn my_name() -> (r: &'static str)
        ensures
            r@ == "games"@,
    {
        "games"
    }

    /// Reads the score of a row from its two score markers.
    pub fn parse_score(cells: &GameCells) -> (r: Result<(i32, i32), TaskError>)
        ensures
            match score_of(cells@) {
                Some((home, away)) => r matches Ok(score) && score.0 == home && score.1 == away,
                None => r matches Err(error) && error@ == score_failure(cells@),
            },
    {
        let home = goals(&cells.home_score);
        let away = goals(&cells.away_score);
        if home < 0 || away < 0 {
            Err(TaskError::Fragment(SCORE_UNREADABLE.to_owned(), cells.inner_html.clone()))
        } else {
            Ok((home, away))
        }
    }

    /// Reads the names of host and guest of a row.
    pub fn parse_teams(cells: &GameCells) -> (r: Result<(String, String), TaskError>)
        ensures
            match teams_of(cells@) {
                Ok((host, guest)) => r matches Ok(names) && names.0@ == host && names.1@ == guest,
                Err(failure) => r matches Err(error) && error@ == failure,
            },
    {
        if cells.teams.len() == 0 {
            Err(TaskError::Fragment(HOME_TEAM_MISSING.to_owned(), cells.inner_html.clone()))
        } else if cells.teams.len() == 1 {
            Err(TaskError::Fragment(AWAY_TEAM_MISSING.to_owned(), cells.inner_html.clone()))
        } else {
            Ok((cells.teams[0].clone(), cells.teams[1].clone()))
        }
    }

    /// The state of a game that is not over, given the kick-off time that
    /// its status marker was read as.
    pub fn scheduled_at(cells: &GameCells, kick_off: Option<TimeOfDay>) -> (r: Result<
        MatchStatus,
        TaskError,
    >)
        ensures
            result_view(r) == scheduled_at(cells@, kick_off.deep_view()),
    {
        match kick_off {
            Some(time) => Ok(MatchStatus::Scheduled(time)),
            None => Err(TaskError::Fragment(STATUS_UNREADABLE.to_owned(), cells.html.clone())),
        }
    }

    /// Reads the state of the game of a row.
    pub fn parse_game_status(cells: &GameCells) -> (r: Result<MatchStatus, TaskError>)
        ensures
            result_view(r) == status_of(cells@),
    {
        match &cells.status {
            Some(token) => {
                if final_whistle(token) {
                    match Self::parse_score(cells) {
                        Ok((home, away)) => Ok(MatchStatus::Finished(home, away)),
                        Err(error) => Err(error),
                    }
                } else {
                    Self::scheduled_at(cells, TimeOfDay::parse(token.as_str()))
                }
            },
            None => Err(TaskError::Fragment(STATUS_MISSING.to_owned(), cells.html.clone())),
        }
    }

    /// Assembles the game of a row under the given league, stage and date.
    pub fn game_from_cells(
        cells: &GameCells,
        league: &String,
        league_stage: &Option<String>,
        start_date: Date,
    ) -> (r: Result<Game, TaskError>)
        ensures
            result_view(r) == game_of(
                cells@,
                league@,
                league_stage.deep_view(),
                start_date@,
            ),
    {
        let status = match Self::parse_game_status(cells) {
            Ok(status) => status,
            Err(error) => {
                return Err(error);
            },
        };
        let (home_team, away_team) = match Self::parse_teams(cells) {
            Ok(names) => names,
            Err(error) => {
                return Err(error);
            },
        };
        Ok(
            Game {
                status,
                league: league.clone(),
                stage: copy_of(league_stage),
                start_date,
                host: Team { name: home_team, country: String::new() },
                guest: Team { name: away_team, country: String::new() },
            },
        )
    }

    /// Reads the game of the row `game_element` under the given league,
    /// stage and date. Fails with `Other` exactly where a selector does not
    /// compile.
    pub fn parse_game(
        &self,
        game_element: scraper::ElementRef<'_>,
        league: &String,
        league_stage: &Option<String>,
        start_date: Date,
    ) -> (r: Result<Game, TaskError>)
        ensures
            result_view(r) == game_reading(
                game_element,
                league@,
                league_stage.deep_view(),
                start_date@,
            ),
    {
        match CellSelectors::compile() {
            Some(selectors) => {
                let cells = read_cells(game_element, &selectors);
                Self::game_from_cells(&cells, league, league_stage, start_date)
            },
            None => Err(TaskError::Other(SELECTOR_FAILURE.to_owned())),
        }
    }

    /// Passes over the containers of the page that `task` names.
    pub fn parse_groups(task: &ScraperTask, groups: &Vec<FixtureGroup>, now: Timestamp) -> (r:
        Result<ScraperTaskResult, TaskError>)
        ensures
            outcome_view(r) == games_page_outcome(task@, groups.deep_view(), now),
    {
        let ghost page = groups.deep_view();
        let mut games: Vec<Game> = Vec::new();
        let mut state = ScanState::new();
        let mut i: usize = 0;
        assert(games.deep_view() == Seq::<GameModel>::empty());
        while i < groups.len()
            invariant
                i <= groups.len(),
                page == groups.deep_view(),
                scan_groups(initial_scan(), page.take(i as int)) == Ok::<ScanModel, ErrorModel>(
                    ScanModel { state: state@, games: games.deep_view() },
                ),
            decreases groups.len() - i,
        {
            let group = &groups[i];
            let ghost before = ScanModel { state: state@, games: games.deep_view() };
            let ghost rows = group.rows.deep_view();
            proof {
                assert(page[i as int] == group@);
                assert(page.take(i + 1).drop_last() == page.take(i as int));
                assert(page.take(i + 1).last() == group@);
                assert(rows.take(0) == Seq::<RowModel>::empty());
            }
            state = state.enter_group(&group.dates);
            let ghost entry = ScanModel { state: state@, games: games.deep_view() };
            let mut j: usize = 0;
            while j < group.rows.len()
                invariant
                    j <= group.rows.len(),
                    i < groups.len(),
                    page == groups.deep_view(),
                    rows == group.rows.deep_view(),
                    group@ == page[i as int],
                    scan_groups(initial_scan(), page.take(i + 1)) == scan_rows(entry, rows),
                    scan_rows(entry, rows.take(j as int)) == Ok::<ScanModel, ErrorModel>(
                        ScanModel { state: state@, games: games.deep_view() },
                    ),
                decreases group.rows.len() - j,
            {
                let ghost earlier = games.deep_view();
                proof {
                    assert(rows[j as int] == group.rows[j as int]@);
                    assert(rows.take(j + 1).drop_last() == rows.take(j as int));
                    assert(rows.take(j + 1).last() == rows[j as int]);
                }
                match state.step(&group.rows[j]) {
                    Ok((next, found)) => {
                        state = next;
                        if let Some(game) = found {
                            games.push(game);
                            assert(games.deep_view() == earlier.push(game@));
                        }
                    },
                    Err(error) => {
                        proof {
                            lemma_scan_rows_failure(entry, rows, j + 1);
                            lemma_scan_groups_failure(initial_scan(), page, i + 1);
                        }
                        return Err(error);
                    },
                }
                j += 1;
            }
            assert(rows.take(j as int) == rows);
            i += 1;
        }
        assert(page.take(i as int) == page);
        let new_urls: Vec<ScraperTask> = Vec::new();
        assert(new_urls.deep_view() == Seq::<TaskModel>::empty());
        Ok(
            ScraperTaskResult {
                url: task.url.clone(),
                data: PageData::Games(GamesPage { games }),
                success: true,
                last_update: now,
                new_urls,
            },
        )
    }
}

impl ScripingFunction for GamesPage {
    open spec fn page_type() -> Seq<char> {
        "games"@
    }

    fn name(&self) -> (r: &'static str) {
        Self::my_name()
    }

    /// Reads the containers of `document` and passes over them. Fails with
    /// `Other` exactly where a selector does not compile.
    fn parse(&self, task: &ScraperTask, document: &scraper::Html, now: Timestamp) -> (r: Result<
        ScraperTaskResult,
        TaskError,
    >)
        ensures
            outcome_view(r) == games_page_reading(task@, *document, now),
    {
        match PageSelectors::compile() {
            Some(selectors) => {
                let groups = read_groups(document, &selectors);
                proof {
                    lemma_failures_are_fragments(groups.deep_view());
                }
                Self::parse_groups(task, &groups, now)
            },
            None => Err(TaskError::Other(SELECTOR_FAILURE.to_owned())),
        }
    }

    fn new_task(url: &str, href: &str) -> (r: ScraperTask) {
        ScraperTask { url: url.to_owned(), href: href.to_owned(), name: Self::my_name().to_owned() }
    }
}

/// A row with a final whistle and the numerals of two goal counts is a game
/// that finished with that score.
pub proof fn lemma_final_whistle_with_score(
    cells: CellsModel,
    league: Seq<char>,
    stage: Option<Seq<char>>,
    date: Ymd,
    home: nat,
    away: nat,
)
    requires
        cells.status is Some,
        is_final_whistle(cells.status->0),
        cells.home_score == Some(numeral(home)),
        cells.away_score == Some(numeral(away)),
        home <= i32::MAX,
        away <= i32::MAX,
        cells.teams.len() >= 2,
    ensures
        game_of(cells, league, stage, date) is Ok,
        game_of(cells, league, stage, date)->Ok_0.status == StatusModel::Finished(
            home as int,
            away as int,
        ),
{
    lemma_decimal_i32_of_numeral(home as int);
    lemma_decimal_i32_of_numeral(away as int);
}

/// A row whose status is a kick-off time is a scheduled game, whatever its
/// score markers hold.
pub proof fn lemma_kick_off_time(
    cells: CellsModel,
    league: Seq<char>,
    stage: Option<Seq<char>>,
    date: Ymd,
)
    requires
        cells.status is Some,
        !is_final_whistle(cells.status->0),
        clock_of(cells.status->0) is Some,
        cells.teams.len() >= 2,
    ensures
        game_of(cells, league, stage, date) is Ok,
        game_of(cells, league, stage, date)->Ok_0.status == StatusModel::Scheduled(
            clock_of(cells.status->0)->0,
        ),
{
}

/// The state that is read from a row is scheduled or finished, never
/// postponed or in play.
pub proof fn lemma_status_is_scheduled_or_finished(cells: CellsModel)
    requires
        status_of(cells) is Ok,
    ensures
        status_of(cells)->Ok_0 is Scheduled || status_of(cells)->Ok_0 is Finished,
{
}

/// A game row under a date adds its game to the games found, with the
/// league and stage that the pass carries.
pub proof fn lemma_game_row_is_kept(scan: ScanModel, row: RowModel)
    requires
        is_game_row(row),
        scan.state.date is Some,
        game_of(row.cells, scan.state.league, scan.state.stage, scan.state.date->0) is Ok,
    ensures
        scan_row(scan, row) == Ok::<ScanModel, ErrorModel>(
            ScanModel {
                state: scan.state,
                games: scan.games.push(
                    game_of(
                        row.cells,
                        scan.state.league,
                        scan.state.stage,
                        scan.state.date->0,
                    )->Ok_0,
                ),
            },
        ),
{
}

/// Whether a row is a game and no separator.
pub open spec fn is_game_row(row: RowModel) -> bool {
    row.league_header is None && row.stage_header is None
}

/// Whether a row lacks what a game needs: a readable score that is not
/// negative, where the game is over, and two team names.
pub open spec fn breaks_a_rule(cells: CellsModel) -> bool {
    ||| cells.status is Some && is_final_whistle(cells.status->0) && score_of(cells) is None
    ||| cells.teams.len() < 2
}

/// A game row that breaks a rule fails, whatever the pass carries.
proof fn lemma_broken_row_fails(scan: ScanModel, row: RowModel)
    requires
        is_game_row(row),
        breaks_a_rule(row.cells),
    ensures
        scan_row(scan, row) is Err,
{
}

/// A run of rows with a game row that breaks a rule fails.
proof fn lemma_broken_row_fails_rows(scan: ScanModel, rows: Seq<RowModel>, i: int)
    requires
        0 <= i < rows.len(),
        is_game_row(rows[i]),
        breaks_a_rule(rows[i].cells),
    ensures
        scan_rows(scan, rows) is Err,
{
    assert(rows.take(i + 1).drop_last() == rows.take(i));
    assert(rows.take(i + 1).last() == rows[i]);
    match scan_rows(scan, rows.take(i)) {
        Ok(earlier) => {
            lemma_broken_row_fails(earlier, rows[i]);
        },
        Err(_) => {},
    }
    lemma_scan_rows_failure(scan, rows, i + 1);
}

/// One game row with a missing, unreadable or negative score, or with
/// fewer than two team names, fails the whole page with a fragment
/// failure: no game of the page is handed out.
pub proof fn lemma_broken_row_fails_page(
    task: TaskModel,
    groups: Seq<GroupModel>,
    now: Timestamp,
    g: int,
    i: int,
)
    requires
        0 <= g < groups.len(),
        0 <= i < groups[g].rows.len(),
        is_game_row(groups[g].rows[i]),
        breaks_a_rule(groups[g].rows[i].cells),
    ensures
        games_page_outcome(task, groups, now) is Err,
        games_page_outcome(task, groups, now)->Err_0 is Fragment,
{
    assert(groups.take(g + 1).drop_last() == groups.take(g));
    assert(groups.take(g + 1).last() == groups[g]);
    match scan_groups(initial_scan(), groups.take(g)) {
        Ok(earlier) => {
            let entry = ScanModel {
                state: group_entry(earlier.state, groups[g].dates),
                games: earlier.games,
            };
            lemma_broken_row_fails_rows(entry, groups[g].rows, i);
        },
        Err(_) => {},
    }
    lemma_scan_groups_failure(initial_scan(), groups, g + 1);
    lemma_failures_are_fragments(groups);
}

/// Whether the goals of every game are counted from zero.
pub open spec fn scores_from_zero(games: Seq<GameModel>) -> bool {
    forall|k: int| 0 <= k < games.len() ==> (#[trigger] games[k]).status.well_formed()
}

/// A pass over rows finds no game with a negative score.
proof fn lemma_rows_keep_scores_from_zero(scan: ScanModel, rows: Seq<RowModel>)
    requires
        scores_from_zero(scan.games),
        scan_rows(scan, rows) is Ok,
    ensures
        scores_from_zero(scan_rows(scan, rows)->Ok_0.games),
    decreases rows.len(),
{
    if rows.len() > 0 {
        lemma_rows_keep_scores_from_zero(scan, rows.drop_last());
    }
}

/// No game of a games page has a negative score.
pub proof fn lemma_scores_are_counted_from_zero(groups: Seq<GroupModel>)
    requires
        scan_groups(initial_scan(), groups) is Ok,
    ensures
        scores_from_zero(scan_groups(initial_scan(), groups)->Ok_0.games),
    decreases groups.len(),
{
    if groups.len() > 0 {
        lemma_scores_are_counted_from_zero(groups.drop_last());
        let earlier = scan_groups(initial_scan(), groups.drop_last())->Ok_0;
        let entry = ScanModel {
            state: group_entry(earlier.state, groups.last().dates),
            games: earlier.games,
        };
        lemma_rows_keep_scores_from_zero(entry, groups.last().rows);
    }
}

/// Every failure of a single row is a fragment failure.
pub proof fn lemma_row_failure_is_fragment(state: StateModel, row: RowModel)
    requires
        row_step(state, row) is Err,
    ensures
        row_step(state, row)->Err_0 is Fragment,
{
}

/// Every failure of a run of rows is a fragment failure.
pub proof fn lemma_rows_failure_is_fragment(scan: ScanModel, rows: Seq<RowModel>)
    requires
        scan_rows(scan, rows) is Err,
    ensures
        scan_rows(scan, rows)->Err_0 is Fragment,
    decreases rows.len(),
{
    if rows.len() > 0 {
        match scan_rows(scan, rows.drop_last()) {
            Ok(earlier) => {
                lemma_row_failure_is_fragment(earlier.state, rows.last());
            },
            Err(_) => {
                lemma_rows_failure_is_fragment(scan, rows.drop_last());
            },
        }
    }
}

/// Every failure of a games page is a fragment failure.
pub proof fn lemma_failures_are_fragments(groups: Seq<GroupModel>)
    ensures
        scan_groups(initial_scan(), groups) is Err ==> scan_groups(
            initial_scan(),
            groups,
        )->Err_0 is Fragment,
    decreases groups.len(),
{
    if groups.len() > 0 {
        lemma_failures_are_fragments(groups.drop_last());
        match scan_groups(initial_scan(), groups.drop_last()) {
            Ok(earlier) => {
                let entry = ScanModel {
                    state: group_entry(earlier.state, groups.last().dates),
                    games: earlier.games,
                };
                if scan_rows(entry, groups.last().rows) is Err {
                    lemma_rows_failure_is_fragment(entry, groups.last().rows);
                }
            },
            Err(_) => {},
        }
    }
}

} // verus!
