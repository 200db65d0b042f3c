//! The site's main page: its navigation links lead to the league groups.

use vstd::prelude::*;

use crate::clock::Timestamp;
use crate::league_group::LeagueGroupPage;
use crate::markup::all_linked;
use crate::markup::compile_selector;
use crate::markup::read_anchors;
use crate::markup::anchors_in;
use crate::markup::compiled_selector;
use crate::markup::Anchor;
use crate::markup::AnchorModel;
use crate::markup::LINK_TARGET;
use crate::markup::SELECTOR_FAILURE;
use crate::task::outcome_view;
use crate::task::DataModel;
use crate::task::ErrorModel;
use crate::task::PageData;
use crate::task::ResultModel;
use crate::task::ScraperTask;
use crate::task::ScraperTaskResult;
use crate::task::ScripingFunction;
use crate::task::TaskError;
use crate::task::TaskModel;

verus! {

/// Selects the navigation links of the main page.
pub const NAV_ANCHORS: &'static str = "a.ue";

/// The parser of the main page. It extracts no data, only links.
#[derive(Debug, PartialEq, Eq)]
pub struct MainPage {}

impl Default for MainPage {
    fn default() -> (r: MainPage) {
        MainPage {  }
    }
}

/// Whether a navigation link with this title leads to a league group: all
/// do but `Home`, `Live` and `Favourites`.
pub open spec fn leads_to_group(title: Seq<char>) -> bool {
    title != "Home"@ && title != "Live"@ && title != "Favourites"@
}

/// The task that a navigation link of the page at `url` gives rise to, if
/// any.
pub open spec fn follow_up(url: Seq<char>, anchor: AnchorModel) -> Option<TaskModel> {
    if leads_to_group(anchor.text) && anchor.href is Some {
        Some(TaskModel { url, href: anchor.href->0, name: LeagueGroupPage::page_type() })
    } else {
        None
    }
}

/// The tasks that the navigation links give rise to, in document order.
pub open spec fn follow_ups(url: Seq<char>, anchors: Seq<AnchorModel>) -> Seq<TaskModel> {
    anchors.filter_map(|anchor: AnchorModel| follow_up(url, anchor))
}

/// What the main page yields, given its navigation links: a task for each
/// link that leads to a league group, and no data; or the document itself,
/// where a link has no target.
pub open spec fn main_page_outcome(
    task: TaskModel,
    document: scraper::Html,
    anchors: Seq<AnchorModel>,
    now: Timestamp,
) -> Result<ResultModel, ErrorModel> {
    if all_linked(anchors) {
        Ok(
            ResultModel {
                url: task.url,
                data: DataModel::Empty,
                success: true,
                last_update: now,
                new_urls: follow_ups(task.url, anchors),
            },
        )
    } else {
        Err(ErrorModel::Parsing(document))
    }
}

/// Every task that the main page yields stems from a navigation link whose
/// title is none of `Home`, `Live` and `Favourites`.
pub proof fn lemma_tasks_stem_from_group_links(url: Seq<char>, anchors: Seq<AnchorModel>, j: int)
    requires
        0 <= j < follow_ups(url, anchors).len(),
    ensures
        exists|i: int|
            0 <= i < anchors.len() && leads_to_group((#[trigger] anchors[i]).text) && follow_up(
                url,
                anchors[i],
            ) == Some(follow_ups(url, anchors)[j]),
{
    let task = follow_ups(url, anchors)[j];
    assert(follow_ups(url, anchors).contains(task));
    anchors.lemma_filter_map_contains(|anchor: AnchorModel| follow_up(url, anchor), task);
    let anchor = choose|anchor: AnchorModel| #[trigger]
        anchors.contains(anchor) && follow_up(url, anchor) == Some(task);
    let i = choose|i: int| 0 <= i < anchors.len() && anchors[i] == anchor;
    assert(leads_to_group(anchors[i].text));
}

/// Links titled `Home`, `Live` or `Favourites` yield no task.
pub proof fn lemma_chrome_yields_no_task(url: Seq<char>, anchors: Seq<AnchorModel>)
    requires
        forall|i: int| 0 <= i < anchors.len() ==> !leads_to_group((#[trigger] anchors[i]).text),
    ensures
        follow_ups(url, anchors).len() == 0,
    decreases anchors.len(),
{
    if anchors.len() > 0 {
        let earlier = anchors.drop_last();
        assert forall|i: int| 0 <= i < earlier.len() implies !leads_to_group(
            (#[trigger] earlier[i]).text,
        ) by {
            assert(earlier[i] == anchors[i]);
        }
        lemma_chrome_yields_no_task(url, earlier);
        assert(!leads_to_group(anchors[anchors.len() - 1].text));
    }
}

/// What reading the main page `document` yields: the outcome for the links
/// that the navigation selector finds in it, or `Other` where that selector
/// does not compile.
pub open spec fn main_page_reading(task: TaskModel, document: scraper::Html, now: Timestamp) -> Result<
    ResultModel,
    ErrorModel,
> {
    match compiled_selector(NAV_ANCHORS@) {
        Some(selector) => main_page_outcome(
            task,
            document,
            anchors_in(&document, selector, LINK_TARGET@),
            now,
        ),
        None => Err(ErrorModel::Other(SELECTOR_FAILURE@)),
    }
}

impl MainPage {
    pub fn my_name() -> (r: &'static str)
        ensures
            r@ == "main"@,
    {
        "main"
    }

    /// Whether a navigation link with this title is followed.
    pub fn should_follow(title: &String) -> (r: bool)
        ensures
            r == leads_to_group(title@),
    {
        let home = "Home".to_owned();
        let live = "Live".to_owned();
        let favourites = "Favourites".to_owned();
        !(*title == home || *title == live || *title == favourites)
    }

    /// Turns the navigation links of the page that `task` names into tasks.
    pub fn parse_anchors(
        task: &ScraperTask,
        document: &scraper::Html,
        anchors: &Vec<Anchor>,
        now: Timestamp,
    ) -> (r: Result<ScraperTaskResult, TaskError>)
        ensures
            outcome_view(r) == main_page_outcome(task@, *document, anchors.deep_view(), now),
    {
        let ghost links = anchors.deep_view();
        let mut new_tasks: Vec<ScraperTask> = Vec::new();
        let mut i: usize = 0;
        while i < anchors.len()
            invariant
                i <= anchors.len(),
                links == anchors.deep_view(),
                all_linked(links.take(i as int)),
                new_tasks.deep_view() == follow_ups(task@.url, links.take(i as int)),
            decreases anchors.len() - i,
        {
            let ghost earlier = new_tasks.deep_view();
            proof {
                links.lemma_filter_map_take_succ(
                    |anchor: AnchorModel| follow_up(task@.url, anchor),
                    i as int,
                );
                assert(links[i as int] == anchors[i as int]@);
            }
            match &anchors[i].href {
                Some(href) => {
                    if Self::should_follow(&anchors[i].text) {
                        let next = LeagueGroupPage::new_task(task.url.as_str(), href.as_str());
                        new_tasks.push(next);
                        assert(new_tasks.deep_view() == earlier.push(next@));
                    }
                },
                None => {
                    assert(!all_linked(links)) by {
                        assert(links[i as int].href is None);
                    }
                    return Err(TaskError::Parsing(document.clone()));
                },
            }
            assert(all_linked(links.take(i + 1))) by {
                assert forall|k: int| 0 <= k < i + 1 implies (#[trigger] links.take(
                    i + 1,
                )[k]).href is Some by {
                    if k < i {
                        assert(links.take(i as int)[k] == links.take(i + 1)[k]);
                    }
                }
            }
            i += 1;
        }
        assert(links.take(i as int) == links);
        Ok(
            ScraperTaskResult {
                url: task.url.clone(),
                data: PageData::Empty,
                success: true,
                last_update: now,
                new_urls: new_tasks,
            },
        )
    }
}

impl ScripingFunction for MainPage {
    open spec fn page_type() -> Seq<char> {
        "main"@
    }

    fn name(&self) -> (r: &'static str) {
        Self::my_name()
    }

    /// Reads the navigation links of `document` and turns them into tasks.
    /// Fails with `Other` exactly where the selector does not compile.
    fn parse(&self, task: &ScraperTask, document: &scraper::Html, now: Timestamp) -> (r: Result<
        ScraperTaskResult,
        TaskError,
    >)
        ensures
            outcome_view(r) == main_page_reading(task@, *document, now),
    {
        match compile_selector(NAV_ANCHORS) {
            Some(selector) => {
                let anchors = read_anchors(document, &selector, LINK_TARGET);
                Self::parse_anchors(task, document, &anchors, now)
            },
            None => Err(TaskError::Other(SELECTOR_FAILURE.to_owned())),
        }
    }

    fn new_task(url: &str, href: &str) -> (r: ScraperTask) {
        ScraperTask { url: url.to_owned(), href: href.to_owned(), name: Self::my_name().to_owned() }
    }
}

} // verus!
