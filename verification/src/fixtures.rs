//! What a games page holds, as plain records: fixture groups, their rows
//! and the cells of a game row; and the readers that fill them from markup.

use vstd::prelude::*;

use crate::markup::compile_selector;
use crate::markup::element_html;
use crate::markup::element_inner_html;
use crate::markup::element_text;
use crate::markup::select_in_document;
use crate::markup::select_in_element;
use crate::markup::compiled_selector;
use crate::markup::inner_markup_of;
use crate::markup::markup_of;
use crate::markup::matches_in_document;
use crate::markup::matches_in_element;
use crate::markup::text_in;
use crate::markup::texts_in;
use crate::markup::texts_of;

verus! {

/// Selects the containers that group the rows of a games page.
pub const FIXTURE_GROUPS: &'static str = "div.xb > div.bb, div.xf";

/// Selects the date headers of a container.
pub const DATE_HEADER: &'static str = "span.cb";

/// Selects the rows of a container.
pub const GAME_ROW: &'static str = "a.qd";

/// Selects the stage header of a row.
pub const STAGE_HEADER: &'static str = "span.fb";

/// Selects the league header of a row.
pub const LEAGUE_HEADER: &'static str = "span.eb";

/// Selects the status or kick-off time of a row.
pub const STATUS_MARKER: &'static str = "span.Pg";

/// Selects the host's goals in a row.
pub const HOME_SCORE: &'static str = "span.hh";

/// Selects the guest's goals in a row.
pub const AWAY_SCORE: &'static str = "span.ih";

/// Selects the team names of a row: the host's first, the guest's second.
pub const TEAM_NAME: &'static str = "span.eh";

/// What game extraction reads of a row: the text of its first status
/// marker and of its first score markers, where it has them, the texts of
/// its team-name markers, and its markup with and without its own tag.
#[derive(Debug, PartialEq, Eq)]
pub struct GameCells {
    pub status: Option<String>,
    pub home_score: Option<String>,
    pub away_score: Option<String>,
    pub teams: Vec<String>,
    pub html: String,
    pub inner_html: String,
}

/// [`GameCells`] as plain sequences.
pub struct CellsModel {
    pub status: Option<Seq<char>>,
    pub home_score: Option<Seq<char>>,
    pub away_score: Option<Seq<char>>,
    pub teams: Seq<Seq<char>>,
    pub html: Seq<char>,
    pub inner_html: Seq<char>,
}

impl View for GameCells {
    type V = CellsModel;

    open spec fn view(&self) -> CellsModel {
        CellsModel {
            status: self.status.deep_view(),
            home_score: self.home_score.deep_view(),
            away_score: self.away_score.deep_view(),
            teams: self.teams.deep_view(),
            html: self.html@,
            inner_html: self.inner_html@,
        }
    }
}

impl DeepView for GameCells {
    type V = CellsModel;

    open spec fn deep_view(&self) -> CellsModel {
        self@
    }
}

/// One row of a fixture group: the text of its league header and of its
/// stage header, where it has them, and its cells.
#[derive(Debug, PartialEq, Eq)]
pub struct FixtureRow {
    pub league_header: Option<String>,
    pub stage_header: Option<String>,
    pub cells: GameCells,
}

/// [`FixtureRow`] as plain sequences.
pub struct RowModel {
    pub league_header: Option<Seq<char>>,
    pub stage_header: Option<Seq<char>>,
    pub cells: CellsModel,
}

impl View for FixtureRow {
    type V = RowModel;

    open spec fn view(&self) -> RowModel {
        RowModel {
            league_header: self.league_header.deep_view(),
            stage_header: self.stage_header.deep_view(),
            cells: self.cells@,
        }
    }
}

impl DeepView for FixtureRow {
    type V = RowModel;

    open spec fn deep_view(&self) -> RowModel {
        self@
    }
}

/// One container of a games page: the texts of its date headers and its
/// rows, both in document order.
#[derive(Debug, PartialEq, Eq)]
pub struct FixtureGroup {
    pub dates: Vec<String>,
    pub rows: Vec<FixtureRow>,
}

/// [`FixtureGroup`] as plain sequences.
pub struct GroupModel {
    pub dates: Seq<Seq<char>>,
    pub rows: Seq<RowModel>,
}

impl View for FixtureGroup {
    type V = GroupModel;

    open spec fn view(&self) -> GroupModel {
        GroupModel { dates: self.dates.deep_view(), rows: self.rows.deep_view() }
    }
}

impl DeepView for FixtureGroup {
    type V = GroupModel;

    open spec fn deep_view(&self) -> GroupModel {
        self@
    }
}

/// The compiled selectors of a game row.
pub struct CellSelectors {
    pub status: scraper::Selector,
    pub home_score: scraper::Selector,
    pub away_score: scraper::Selector,
    pub team: scraper::Selector,
}

/// The compiled selectors of a games page.
pub struct PageSelectors {
    pub groups: scraper::Selector,
    pub date: scraper::Selector,
    pub row: scraper::Selector,
    pub league: scraper::Selector,
    pub stage: scraper::Selector,
    pub cells: CellSelectors,
}

/// The selectors of a game row, compiled, if all four compile.
pub open spec fn compiled_cell_selectors() -> Option<CellSelectors> {
    if compiled_selector(STATUS_MARKER@) is Some && compiled_selector(HOME_SCORE@) is Some
        && compiled_selector(AWAY_SCORE@) is Some && compiled_selector(TEAM_NAME@) is Some {
        Some(
            CellSelectors {
                status: compiled_selector(STATUS_MARKER@)->0,
                home_score: compiled_selector(HOME_SCORE@)->0,
                away_score: compiled_selector(AWAY_SCORE@)->0,
                team: compiled_selector(TEAM_NAME@)->0,
            },
        )
    } else {
        None
    }
}

/// The selectors of a games page, compiled, if all of them compile.
pub open spec fn compiled_page_selectors() -> Option<PageSelectors> {
    if compiled_selector(FIXTURE_GROUPS@) is Some && compiled_selector(DATE_HEADER@) is Some
        && compiled_selector(GAME_ROW@) is Some && compiled_selector(LEAGUE_HEADER@) is Some
        && compiled_selector(STAGE_HEADER@) is Some && compiled_cell_selectors() is Some {
        Some(
            PageSelectors {
                groups: compiled_selector(FIXTURE_GROUPS@)->0,
                date: compiled_selector(DATE_HEADER@)->0,
                row: compiled_selector(GAME_ROW@)->0,
                league: compiled_selector(LEAGUE_HEADER@)->0,
                stage: compiled_selector(STAGE_HEADER@)->0,
                cells: compiled_cell_selectors()->0,
            },
        )
    } else {
        None
    }
}

/// The text of the first descendant of `element` that `selector` finds, if
/// it finds one.
pub open spec fn first_text_in(element: scraper::ElementRef, selector: scraper::Selector) -> Option<
    Seq<char>,
> {
    let found = matches_in_element(element, selector);
    if found.len() > 0 {
        Some(text_in(found[0]))
    } else {
        None
    }
}

/// The cells of the row `element`: the text of its first status marker and
/// of its first score markers, the texts of all its team-name markers, and
/// its markup.
pub open spec fn cells_in(element: scraper::ElementRef, selectors: CellSelectors) -> CellsModel {
    CellsModel {
        status: first_text_in(element, selectors.status),
        home_score: first_text_in(element, selectors.home_score),
        away_score: first_text_in(element, selectors.away_score),
        teams: texts_in(matches_in_element(element, selectors.team)),
        html: markup_of(element),
        inner_html: inner_markup_of(element),
    }
}

/// The row `element` of a fixture group: the text of its first league
/// header and of its first stage header, and its cells.
pub open spec fn row_in(element: scraper::ElementRef, selectors: PageSelectors) -> RowModel {
    RowModel {
        league_header: first_text_in(element, selectors.league),
        stage_header: first_text_in(element, selectors.stage),
        cells: cells_in(element, selectors.cells),
    }
}

/// The rows that the given elements are, in their order.
pub open spec fn rows_in(elements: Seq<scraper::ElementRef>, selectors: PageSelectors) -> Seq<
    RowModel,
> {
    Seq::new(elements.len(), |j: int| row_in(elements[j], selectors))
}

/// The fixture group that the container `element` holds: the texts of its
/// date headers and its rows.
pub open spec fn group_in(element: scraper::ElementRef, selectors: PageSelectors) -> GroupModel {
    GroupModel {
        dates: texts_in(matches_in_element(element, selectors.date)),
        rows: rows_in(matches_in_element(element, selectors.row), selectors),
    }
}

/// The fixture groups that the given containers hold, in their order.
pub open spec fn groups_of(containers: Seq<scraper::ElementRef>, selectors: PageSelectors) -> Seq<
    GroupModel,
> {
    Seq::new(containers.len(), |i: int| group_in(containers[i], selectors))
}

/// The fixture groups of `document`: one for each container that the group
/// selector finds, in its order.
pub open spec fn groups_in(document: &scraper::Html, selectors: PageSelectors) -> Seq<GroupModel> {
    groups_of(matches_in_document(document, selectors.groups), selectors)
}

impl CellSelectors {
    /// Compiles the selectors of a game row, if all of them compile.
    pub(crate) fn compile() -> (r: Option<CellSelectors>)
        ensures
            r == compiled_cell_selectors(),
    {
        let status = compile_selector(STATUS_MARKER)?;
        let home_score = compile_selector(HOME_SCORE)?;
        let away_score = compile_selector(AWAY_SCORE)?;
        let team = compile_selector(TEAM_NAME)?;
        Some(CellSelectors { status, home_score, away_score, team })
    }
}

impl PageSelectors {
    /// Compiles the selectors of a games page, if all of them compile.
    pub(crate) fn compile() -> (r: Option<PageSelectors>)
        ensures
            r == compiled_page_selectors(),
    {
        let groups = compile_selector(FIXTURE_GROUPS)?;
        let date = compile_selector(DATE_HEADER)?;
        let row = compile_selector(GAME_ROW)?;
        let league = compile_selector(LEAGUE_HEADER)?;
        let stage = compile_selector(STAGE_HEADER)?;
        let cells = CellSelectors::compile()?;
        Some(PageSelectors { groups, date, row, league, stage, cells })
    }
}

/// The text of the first descendant of `element` that `selector` finds.
fn first_text(element: scraper::ElementRef<'_>, selector: &scraper::Selector) -> (r: Option<
    String,
>)
    ensures
        r.deep_view() == first_text_in(element, *selector),
{
    let found = select_in_element(element, selector);
    if found.len() > 0 {
        Some(element_text(found[0]))
    } else {
        None
    }
}

/// Reads the cells of the row `element`.
pub(crate) fn read_cells(element: scraper::ElementRef<'_>, selectors: &CellSelectors) -> (r: GameCells)
    ensures
        r@ == cells_in(element, *selectors),
{
    let teams = select_in_element(element, &selectors.team);
    GameCells {
        status: first_text(element, &selectors.status),
        home_score: first_text(element, &selectors.home_score),
        away_score: first_text(element, &selectors.away_score),
        teams: texts_of(&teams),
        html: element_html(element),
        inner_html: element_inner_html(element),
    }
}

/// Reads the row `element` of a fixture group.
pub(crate) fn read_row(element: scraper::ElementRef<'_>, selectors: &PageSelectors) -> (r: FixtureRow)
    ensures
        r@ == row_in(element, *selectors),
{
    FixtureRow {
        league_header: first_text(element, &selectors.league),
        stage_header: first_text(element, &selectors.stage),
        cells: read_cells(element, &selectors.cells),
    }
}

/// Reads the fixture groups of `document`, in document order.
pub(crate) fn read_groups(document: &scraper::Html, selectors: &PageSelectors) -> (r: Vec<FixtureGroup>)
    ensures
        r.deep_view() == groups_in(document, *selectors),
{
    let containers = select_in_document(document, &selectors.groups);
    let mut groups: Vec<FixtureGroup> = Vec::new();
    let mut i: usize = 0;
    while i < containers.len()
        invariant
            i <= containers.len(),
            containers@ == matches_in_document(document, selectors.groups),
            groups.deep_view() == groups_of(containers@.take(i as int), *selectors),
        decreases containers.len() - i,
    {
        let ghost earlier = groups.deep_view();
        let container = containers[i];
        let headers = select_in_element(container, &selectors.date);
        let elements = select_in_element(container, &selectors.row);
        let mut rows: Vec<FixtureRow> = Vec::new();
        let mut j: usize = 0;
        while j < elements.len()
            invariant
                j <= elements.len(),
                rows.deep_view() == rows_in(elements@.take(j as int), *selectors),
            decreases elements.len() - j,
        {
            let ghost above = rows.deep_view();
            let row = read_row(elements[j], selectors);
            rows.push(row);
            proof {
                assert(rows.deep_view() == above.push(row@));
                assert(rows_in(elements@.take(j + 1), *selectors) == above.push(row@));
            }
            j += 1;
        }
        assert(elements@.take(j as int) == elements@);
        let group = FixtureGroup { dates: texts_of(&headers), rows };
        groups.push(group);
        proof {
            assert(group@ == group_in(container, *selectors));
            assert(groups.deep_view() == earlier.push(group@));
            assert(groups_of(containers@.take(i + 1), *selectors) == earlier.push(group@));
        }
        i += 1;
    }
    assert(containers@.take(i as int) == containers@);
    groups
}

} // verus!
