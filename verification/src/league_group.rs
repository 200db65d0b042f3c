//! The league-group page: the leagues of one group, each with its fixture
//! page.

use vstd::prelude::*;

use crate::clock::Timestamp;
use crate::games::GamesPage;
use crate::markup::all_linked;
use crate::markup::compile_selector;
use crate::markup::read_anchors;
use crate::markup::anchors_in;
use crate::markup::compiled_selector;
use crate::markup::Anchor;
use crate::markup::AnchorModel;
use crate::markup::LINK_TARGET;
use crate::markup::SELECTOR_FAILURE;
use crate::records::League;
use crate::records::LeagueModel;
use crate::task::outcome_view;
use crate::task::DataModel;
use crate::task::ErrorModel;
use crate::task::PageData;
use crate::task::ResultModel;
use crate::task::ScraperTask;
use crate::task::ScraperTaskResult;
use crate::task::ScripingFunction;
use crate::task::TaskError;
use crate::task::TaskModel;

verus! {

/// Selects the league links of a league-group page.
pub const LEAGUE_ANCHORS: &'static str = ".se li > ul > li > a";

/// The leagues listed on a league-group page, in document order.
#[derive(Debug, PartialEq, Eq)]
pub struct LeagueGroupPage {
    pub leagues: Vec<League>,
}

impl Default for LeagueGroupPage {
    fn default() -> (r: LeagueGroupPage)
        ensures
            r.leagues@.len() == 0,
    {
        LeagueGroupPage { leagues: Vec::new() }
    }
}

/// The league that a league link names.
pub open spec fn league_of(anchor: AnchorModel) -> LeagueModel {
    LeagueModel { name: anchor.text }
}

/// The task for the fixture page that a league link of the page at `url`
/// leads to.
pub open spec fn fixtures_task(url: Seq<char>, anchor: AnchorModel) -> TaskModel {
    TaskModel { url, href: anchor.href->0, name: GamesPage::page_type() }
}

/// What a league-group page yields, given its league links: a league and a
/// task for each link, in document order; or the document itself, where a
/// link has no target.
pub open spec fn league_group_outcome(
    task: TaskModel,
    document: scraper::Html,
    anchors: Seq<AnchorModel>,
    now: Timestamp,
) -> Result<ResultModel, ErrorModel> {
    if all_linked(anchors) {
        Ok(
            ResultModel {
                url: task.url,
                data: DataModel::Leagues(anchors.map_values(|anchor: AnchorModel| league_of(anchor))),
                success: true,
                last_update: now,
                new_urls: anchors.map_values(|anchor: AnchorModel| fixtures_task(task.url, anchor)),
            },
        )
    } else {
        Err(ErrorModel::Parsing(document))
    }
}

/// The leagues and the tasks of a league-group page are as many as its
/// links, and the league and the task at each position stem from the link
/// at that position.
pub proof fn lemma_leagues_match_tasks(
    task: TaskModel,
    document: scraper::Html,
    anchors: Seq<AnchorModel>,
    now: Timestamp,
)
    requires
        league_group_outcome(task, document, anchors, now) is Ok,
    ensures
        ({
            let result = league_group_outcome(task, document, anchors, now)->Ok_0;
            &&& result.data is Leagues
            &&& result.data->Leagues_0.len() == anchors.len()
            &&& result.new_urls.len() == anchors.len()
            &&& forall|i: int|
                0 <= i < anchors.len() ==> {
                    &&& (#[trigger] result.data->Leagues_0[i]).name == anchors[i].text
                    &&& result.new_urls[i].href == anchors[i].href->0
                    &&& result.new_urls[i].url == task.url
                    &&& result.new_urls[i].name == GamesPage::page_type()
                }
        }),
{
}

/// What reading the league-group page `document` yields: the outcome for
/// the links that the league selector finds in it, or `Other` where that
/// selector does not compile.
pub open spec fn league_group_reading(
    task: TaskModel,
    document: scraper::Html,
    now: Timestamp,
) -> Result<ResultModel, ErrorModel> {
    match compiled_selector(LEAGUE_ANCHORS@) {
        Some(selector) => league_group_outcome(
            task,
            document,
            anchors_in(&document, selector, LINK_TARGET@),
            now,
        ),
        None => Err(ErrorModel::Other(SELECTOR_FAILURE@)),
    }
}

impl LeagueGroupPage {
    pub fn my_name() -> (r: &'static str)
        ensures
            r@ == "league_group"@,
    {
        "league_group"
    }

    /// Turns the league links of the page that `task` names into leagues
    /// and tasks.
    pub fn parse_anchors(
        task: &ScraperTask,
        document: &scraper::Html,
        anchors: &Vec<Anchor>,
        now: Timestamp,
    ) -> (r: Result<ScraperTaskResult, TaskError>)
        ensures
            outcome_view(r) == league_group_outcome(task@, *document, anchors.deep_view(), now),
    {
        let ghost links = anchors.deep_view();
        let mut leagues: Vec<League> = Vec::new();
        let mut new_tasks: Vec<ScraperTask> = Vec::new();
        let mut i: usize = 0;
        while i < anchors.len()
            invariant
                i <= anchors.len(),
                links == anchors.deep_view(),
                all_linked(links.take(i as int)),
                leagues.deep_view() == links.take(i as int).map_values(
                    |anchor: AnchorModel| league_of(anchor),
                ),
                new_tasks.deep_view() == links.take(i as int).map_values(
                    |anchor: AnchorModel| fixtures_task(task@.url, anchor),
                ),
            decreases anchors.len() - i,
        {
            assert(links[i as int] == anchors[i as int]@);
            let ghost earlier_leagues = leagues.deep_view();
            let ghost earlier_tasks = new_tasks.deep_view();
            match &anchors[i].href {
                Some(href) => {
                    let league = League { name: anchors[i].text.clone() };
                    let next = GamesPage::new_task(task.url.as_str(), href.as_str());
                    leagues.push(league);
                    new_tasks.push(next);
                    proof {
                        assert(leagues.deep_view() == earlier_leagues.push(league@));
                        assert(new_tasks.deep_view() == earlier_tasks.push(next@));
                        assert(links.take(i + 1).map_values(
                            |anchor: AnchorModel| league_of(anchor),
                        ) == earlier_leagues.push(league@));
                        assert(links.take(i + 1).map_values(
                            |anchor: AnchorModel| fixtures_task(task@.url, anchor),
                        ) == earlier_tasks.push(next@));
                    }
                },
                None => {
                    assert(!all_linked(links)) by {
                        assert(links[i as int].href is None);
                    }
                    return Err(TaskError::Parsing(document.clone()));
                },
            }
            assert(all_linked(links.take(i + 1))) by {
                assert forall|k: int| 0 <= k < i + 1 implies (#[trigger] links.take(
                    i + 1,
                )[k]).href is Some by {
                    if k < i {
                        assert(links.take(i as int)[k] == links.take(i + 1)[k]);
                    }
                }
            }
            i += 1;
        }
        assert(links.take(i as int) == links);
        Ok(
            ScraperTaskResult {
                url: task.url.clone(),
                data: PageData::Leagues(LeagueGroupPage { leagues }),
                success: true,
                last_update: now,
                new_urls: new_tasks,
            },
        )
    }
}

impl ScripingFunction for LeagueGroupPage {
    open spec fn page_type() -> Seq<char> {
        "league_group"@
    }

    fn name(&self) -> (r: &'static str) {
        Self::my_name()
    }

    /// Reads the league links of `document` and turns them into leagues and
    /// tasks. Fails with `Other` exactly where the selector does not
    /// compile.
    fn parse(&self, task: &ScraperTask, document: &scraper::Html, now: Timestamp) -> (r: Result<
        ScraperTaskResult,
        TaskError,
    >)
        ensures
            outcome_view(r) == league_group_reading(task@, *document, now),
    {
        match compile_selector(LEAGUE_ANCHORS) {
            Some(selector) => {
                let anchors = read_anchors(document, &selector, LINK_TARGET);
                Self::parse_anchors(task, document, &anchors, now)
            },
            None => Err(TaskError::Other(SELECTOR_FAILURE.to_owned())),
        }
    }

    fn new_task(url: &str, href: &str) -> (r: ScraperTask) {
        ScraperTask { url: url.to_owned(), href: href.to_owned(), name: Self::my_name().to_owned() }
    }
}

} // verus!
