//! The crawl engine: the registry of page parsers, the handling of a
//! fetched page, and the stack of tasks still to do.

use vstd::prelude::*;

use crate::clock::Timestamp;
use crate::games::games_page_reading;
use crate::games::GamesPage;
use crate::league_group::league_group_reading;
use crate::league_group::LeagueGroupPage;
use crate::main_page::main_page_reading;
use crate::main_page::MainPage;
use crate::markup::parse_document;
use crate::markup::parsed_document;
use crate::task::outcome_view;
use crate::task::ErrorModel;
use crate::task::ResultModel;
use crate::task::ScraperTask;
use crate::task::ScraperTaskResult;
use crate::task::ScripingFunction;
use crate::task::TaskError;
use crate::task::TaskModel;

verus! {

/// The status with which a server hands out a page.
pub const STATUS_OK: u16 = 200;

/// Reported where a server answers with another status.
pub const FETCH_REJECTED: &'static str = "Something went wrong";

/// A page parser of one of the three kinds.
#[derive(Debug, PartialEq, Eq)]
pub enum PageParser {
    Main(MainPage),
    LeagueGroup(LeagueGroupPage),
    Games(GamesPage),
}

impl PageParser {
    /// The name under which the parser is registered.
    pub open spec fn page_type(&self) -> Seq<char> {
        match self {
            PageParser::Main(_) => MainPage::page_type(),
            PageParser::LeagueGroup(_) => LeagueGroupPage::page_type(),
            PageParser::Games(_) => GamesPage::page_type(),
        }
    }

    /// What reading `document` with this parser yields.
    pub open spec fn reading(&self, task: TaskModel, document: scraper::Html, now: Timestamp) -> Result<
        ResultModel,
        ErrorModel,
    > {
        match self {
            PageParser::Main(_) => main_page_reading(task, document, now),
            PageParser::LeagueGroup(_) => league_group_reading(task, document, now),
            PageParser::Games(_) => games_page_reading(task, document, now),
        }
    }

    pub fn name(&self) -> (r: &'static str)
        ensures
            r@ == self.page_type(),
    {
        match self {
            PageParser::Main(parser) => parser.name(),
            PageParser::LeagueGroup(parser) => parser.name(),
            PageParser::Games(parser) => parser.name(),
        }
    }

    /// Reads `document`, the page that `task` names, at the instant `now`.
    pub fn parse(&self, task: &ScraperTask, document: &scraper::Html, now: Timestamp) -> (r:
        Result<ScraperTaskResult, TaskError>)
        ensures
            outcome_view(r) == self.reading(task@, *document, now),
            r matches Ok(result) ==> result@.url == task@.url && result.success
                && result.last_update == now,
            r matches Err(error) ==> !(error is NoParsingFunction),
    {
        match self {
            PageParser::Main(parser) => parser.parse(task, document, now),
            PageParser::LeagueGroup(parser) => parser.parse(task, document, now),
            PageParser::Games(parser) => parser.parse(task, document, now),
        }
    }
}

/// What fetching a page came to.
#[derive(Debug, PartialEq, Eq)]
pub enum Fetched {
    /// The server handed out the page: its raw text.
    Document(String),
    /// The server answered with a status other than success.
    Rejected(u16),
    /// No answer came: the transport's own words.
    Failed(String),
}

/// The registry of page parsers, at most one under each name.
pub struct Scraper {
    parsers: Vec<PageParser>,
}

impl View for Scraper {
    type V = Map<Seq<char>, PageParser>;

    closed spec fn view(&self) -> Map<Seq<char>, PageParser> {
        Map::new(
            |name: Seq<char>| self.slot_of(name) is Some,
            |name: Seq<char>| self.parsers@[self.slot_of(name)->0],
        )
    }
}

impl Scraper {
    /// Where the parser with the given name stands, if one does.
    spec fn slot_of(&self, name: Seq<char>) -> Option<int> {
        if exists|i: int| 0 <= i < self.parsers@.len() && self.parsers@[i].page_type() == name {
            Some(choose|i: int| 0 <= i < self.parsers@.len() && self.parsers@[i].page_type() == name)
        } else {
            None
        }
    }

    #[verifier::type_invariant]
    spec fn names_differ(self) -> bool {
        forall|i: int, j: int|
            0 <= i < j < self.parsers@.len() ==> self.parsers@[i].page_type()
                != self.parsers@[j].page_type()
    }

    /// A registry without parsers.
    pub fn new() -> (r: Scraper)
        ensures
            r@ == Map::<Seq<char>, PageParser>::empty(),
    {
        let r = Scraper { parsers: Vec::new() };
        assert(r@ =~= Map::<Seq<char>, PageParser>::empty());
        r
    }

    /// Where the parser with the given name stands.
    fn find(&self, name: &str) -> (r: Option<usize>)
        ensures
            match r {
                Some(i) => i < self.parsers@.len() && self.parsers@[i as int].page_type() == name@
                    && self.slot_of(name@) == Some(i as int),
                None => self.slot_of(name@) is None,
            },
    {
        proof {
            use_type_invariant(self);
        }
        let wanted = name.to_owned();
        let mut i: usize = 0;
        while i < self.parsers.len()
            invariant
                i <= self.parsers@.len(),
                wanted@ == name@,
                self.names_differ(),
                forall|k: int| 0 <= k < i ==> self.parsers@[k].page_type() != name@,
            decreases self.parsers.len() - i,
        {
            if self.parsers[i].name().to_owned() == wanted {
                assert(self.parsers@[i as int].page_type() == name@);
                return Some(i);
            }
            i += 1;
        }
        None
    }

    /// Registers `f` under its name, in place of a parser that had it.
    pub fn add_scriping_function(&mut self, f: PageParser)
        ensures
            final(self)@ == old(self)@.insert(f.page_type(), f),
    {
        proof {
            use_type_invariant(&*self);
        }
        let ghost before = *self;
        let ghost name = f.page_type();
        let found = self.find(f.name());
        let mut parsers: Vec<PageParser> = Vec::new();
        core::mem::swap(&mut self.parsers, &mut parsers);
        match found {
            Some(i) => {
                parsers[i] = f;
            },
            None => {
                parsers.push(f);
            },
        }
        core::mem::swap(&mut self.parsers, &mut parsers);
        proof {
            let slot = match found {
                Some(i) => i as int,
                None => before.parsers@.len() as int,
            };
            assert(self.parsers@[slot].page_type() == name);
            assert forall|other: Seq<char>| name != other implies self.slot_of(other)
                == before.slot_of(other) by {
                if before.slot_of(other) is Some {
                    let k = before.slot_of(other)->0;
                    assert(self.parsers@[k].page_type() == other);
                }
            }
            assert(self@ =~= before@.insert(name, f));
        }
    }

    /// Whether a server's status says that it hands out the page.
    pub fn accepts(status: u16) -> (r: bool)
        ensures
            r == (status == STATUS_OK),
    {
        status == STATUS_OK
    }

    /// Handles what fetching the page of `task` came to: a document is read
    /// by the parser registered under the task's page type.
    pub fn scripe(&self, task: &ScraperTask, fetched: Fetched, now: Timestamp) -> (r: Result<
        ScraperTaskResult,
        TaskError,
    >)
        ensures
            match fetched {
                Fetched::Failed(message) => outcome_view(r) == Err::<ResultModel, ErrorModel>(
                    ErrorModel::Other(message@),
                ),
                Fetched::Rejected(_) => outcome_view(r) == Err::<ResultModel, ErrorModel>(
                    ErrorModel::Other(FETCH_REJECTED@),
                ),
                Fetched::Document(raw) => if self@.dom().contains(task.name@) {
                    outcome_view(r) == self@[task.name@].reading(
                        task@,
                        parsed_document(raw@),
                        now,
                    )
                } else {
                    outcome_view(r) == Err::<ResultModel, ErrorModel>(
                        ErrorModel::NoParsingFunction(task.name@),
                    )
                },
            },
    {
        match fetched {
            Fetched::Document(raw) => {
                let document = parse_document(raw.as_str());
                match self.find(task.name.as_str()) {
                    Some(i) => {
                        self.parsers[i].parse(task, &document, now)
                    },
                    None => Err(TaskError::NoParsingFunction(task.name.clone())),
                }
            },
            Fetched::Rejected(_) => Err(TaskError::Other(FETCH_REJECTED.to_owned())),
            Fetched::Failed(message) => Err(TaskError::Other(message)),
        }
    }
}

} // verus!
