//! Crawl tasks, their results and their failures.

use vstd::prelude::*;
use vstd::string::StringExecFns;

use crate::clock::Timestamp;
use crate::games::GamesPage;
use crate::league_group::LeagueGroupPage;
use crate::records::GameModel;
use crate::records::LeagueModel;

verus! {

/// One page to fetch and the parser to apply to it. The page's address is
/// `url` followed by `href`, as they stand.
#[derive(Debug, PartialEq, Eq)]
pub struct ScraperTask {
    pub url: String,
    pub href: String,
    pub name: String,
}

/// [`ScraperTask`] as plain sequences.
pub struct TaskModel {
    pub url: Seq<char>,
    pub href: Seq<char>,
    pub name: Seq<char>,
}

impl View for ScraperTask {
    type V = TaskModel;

    open spec fn view(&self) -> TaskModel {
        TaskModel { url: self.url@, href: self.href@, name: self.name@ }
    }
}

impl DeepView for ScraperTask {
    type V = TaskModel;

    open spec fn deep_view(&self) -> TaskModel {
        self@
    }
}

impl ScraperTask {
    /// The address of the page: `url` followed by `href`, as they stand.
    pub fn address(&self) -> (r: String)
        ensures
            r@ == self.url@ + self.href@,
    {
        self.url.clone().concat(self.href.as_str())
    }
}

/// What a parser extracted from a page.
#[derive(Debug, PartialEq, Eq)]
pub enum PageData {
    /// Nothing but links.
    Empty,
    Leagues(LeagueGroupPage),
    Games(GamesPage),
}

/// [`PageData`] as plain sequences.
pub enum DataModel {
    Empty,
    Leagues(Seq<LeagueModel>),
    Games(Seq<GameModel>),
}

impl View for PageData {
    type V = DataModel;

    open spec fn view(&self) -> DataModel {
        match self {
            PageData::Empty => DataModel::Empty,
            PageData::Leagues(page) => DataModel::Leagues(page.leagues.deep_view()),
            PageData::Games(page) => DataModel::Games(page.games.deep_view()),
        }
    }
}

/// What parsing one page yields: its data and the tasks to follow.
#[derive(Debug, PartialEq, Eq)]
pub struct ScraperTaskResult {
    pub url: String,
    pub data: PageData,
    pub success: bool,
    pub last_update: Timestamp,
    pub new_urls: Vec<ScraperTask>,
}

/// [`ScraperTaskResult`] as plain sequences.
pub struct ResultModel {
    pub url: Seq<char>,
    pub data: DataModel,
    pub success: bool,
    pub last_update: Timestamp,
    pub new_urls: Seq<TaskModel>,
}

impl View for ScraperTaskResult {
    type V = ResultModel;

    open spec fn view(&self) -> ResultModel {
        ResultModel {
            url: self.url@,
            data: self.data@,
            success: self.success,
            last_update: self.last_update,
            new_urls: self.new_urls.deep_view(),
        }
    }
}

/// Why a task yielded no result.
#[derive(Debug, PartialEq, Eq)]
pub enum TaskError {
    /// The page could not be had, or another general failure.
    Other(String),
    /// The page lacks an element that its kind always has; the document is
    /// kept for inspection.
    Parsing(scraper::Html),
    /// One record broke an extraction rule: which rule, and the record's
    /// markup.
    Fragment(String, String),
    /// No parser is registered for the task's page type.
    NoParsingFunction(String),
}

/// [`TaskError`] as plain sequences.
pub enum ErrorModel {
    Other(Seq<char>),
    Parsing(scraper::Html),
    Fragment(Seq<char>, Seq<char>),
    NoParsingFunction(Seq<char>),
}

impl View for TaskError {
    type V = ErrorModel;

    open spec fn view(&self) -> ErrorModel {
        match self {
            TaskError::Other(message) => ErrorModel::Other(message@),
            TaskError::Parsing(document) => ErrorModel::Parsing(*document),
            TaskError::Fragment(rule, markup) => ErrorModel::Fragment(rule@, markup@),
            TaskError::NoParsingFunction(name) => ErrorModel::NoParsingFunction(name@),
        }
    }
}

impl DeepView for PageData {
    type V = DataModel;

    open spec fn deep_view(&self) -> DataModel {
        self@
    }
}

impl DeepView for ScraperTaskResult {
    type V = ResultModel;

    open spec fn deep_view(&self) -> ResultModel {
        self@
    }
}

impl DeepView for TaskError {
    type V = ErrorModel;

    open spec fn deep_view(&self) -> ErrorModel {
        self@
    }
}

/// A success or a failure as plain sequences.
pub open spec fn result_view<T: DeepView>(outcome: Result<T, TaskError>) -> Result<T::V, ErrorModel> {
    match outcome {
        Ok(value) => Ok(value.deep_view()),
        Err(error) => Err(error@),
    }
}

/// The outcome of a task as plain sequences.
pub open spec fn outcome_view(outcome: Result<ScraperTaskResult, TaskError>) -> Result<
    ResultModel,
    ErrorModel,
> {
    result_view(outcome)
}

/// What every page parser offers: its name, a task of its kind, and the
/// reading of a page.
pub trait ScripingFunction {
    /// The name under which the parser is registered and by which a task
    /// asks for it.
    spec fn page_type() -> Seq<char>;

    fn name(&self) -> (r: &'static str)
        ensures
            r@ == Self::page_type(),
    ;

    /// Reads `document`, the page that `task` names, at the instant `now`.
    fn parse(&self, task: &ScraperTask, document: &scraper::Html, now: Timestamp) -> (r: Result<
        ScraperTaskResult,
        TaskError,
    >)
        ensures
            r matches Ok(result) ==> result@.url == task@.url && result.success
                && result.last_update == now,
            r matches Err(error) ==> !(error is NoParsingFunction),
            r matches Err(TaskError::Parsing(kept)) ==> kept == *document,
    ;

    /// A task for the page at `url` followed by `href`, to be read by this
    /// parser.
    fn new_task(url: &str, href: &str) -> (r: ScraperTask) where Self: Sized
        ensures
            r@ == (TaskModel { url: url@, href: href@, name: Self::page_type() }),
    ;
}

} // verus!
