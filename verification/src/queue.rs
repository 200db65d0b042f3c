//! The tasks still to do, as a stack, and what the crawl loop does with the
//! outcome of each.

use vstd::prelude::*;
use vstd::string::StringExecFns;

use crate::clock::Timestamp;
use crate::task::outcome_view;
use crate::task::DataModel;
use crate::task::ErrorModel;
use crate::task::PageData;
use crate::task::ResultModel;
use crate::task::ScraperTask;
use crate::task::ScraperTaskResult;
use crate::task::TaskError;
use crate::task::TaskModel;

verus! {

/// Appended to a page type to name the file that keeps a document.
pub const DUMP_SUFFIX: &'static str = ".html";

/// What the crawl loop does with the outcome of a task.
#[derive(Debug, PartialEq, Eq)]
pub enum Action {
    /// Show what the page yielded.
    Report { data: PageData, last_update: Timestamp, success: bool },
    /// Write the document to the named file, for inspection.
    KeepDocument { filename: String, document: scraper::Html },
    /// Tell which rule a record broke, with the record's markup.
    ReportFragment { rule: String, markup: String },
    /// Tell that no parser is registered for the page type.
    ReportMissingParser { page_type: String },
    /// Tell that the page could not be had.
    ReportFailure { message: String },
}

/// [`Action`] as plain sequences.
pub enum ActionModel {
    Report { data: DataModel, last_update: Timestamp, success: bool },
    KeepDocument { filename: Seq<char>, document: scraper::Html },
    ReportFragment { rule: Seq<char>, markup: Seq<char> },
    ReportMissingParser { page_type: Seq<char> },
    ReportFailure { message: Seq<char> },
}

impl View for Action {
    type V = ActionModel;

    open spec fn view(&self) -> ActionModel {
        match self {
            Action::Report { data, last_update, success } => ActionModel::Report {
                data: data@,
                last_update: *last_update,
                success: *success,
            },
            Action::KeepDocument { filename, document } => ActionModel::KeepDocument {
                filename: filename@,
                document: *document,
            },
            Action::ReportFragment { rule, markup } => ActionModel::ReportFragment {
                rule: rule@,
                markup: markup@,
            },
            Action::ReportMissingParser { page_type } => ActionModel::ReportMissingParser {
                page_type: page_type@,
            },
            Action::ReportFailure { message } => ActionModel::ReportFailure { message: message@ },
        }
    }
}

/// What follows the outcome of `task`. No failure is tried again.
pub open spec fn action_for(task: TaskModel, outcome: Result<ResultModel, ErrorModel>) -> ActionModel {
    match outcome {
        Ok(result) => ActionModel::Report {
            data: result.data,
            last_update: result.last_update,
            success: result.success,
        },
        Err(ErrorModel::Parsing(document)) => ActionModel::KeepDocument {
            filename: task.name + DUMP_SUFFIX@,
            document,
        },
        Err(ErrorModel::Fragment(rule, markup)) => ActionModel::ReportFragment { rule, markup },
        Err(ErrorModel::NoParsingFunction(page_type)) => ActionModel::ReportMissingParser {
            page_type,
        },
        Err(ErrorModel::Other(message)) => ActionModel::ReportFailure { message },
    }
}

/// The stack after the outcome of a task: the tasks of a successful result
/// lie on top, the last of them topmost.
pub open spec fn stack_after(stack: Seq<TaskModel>, outcome: Result<ResultModel, ErrorModel>) -> Seq<
    TaskModel,
> {
    match outcome {
        Ok(result) => if result.success {
            stack + result.new_urls
        } else {
            stack
        },
        Err(_) => stack,
    }
}

/// The tasks still to do. The task added last is done first.
#[derive(Debug, PartialEq, Eq)]
pub struct CrawlQueue {
    tasks: Vec<ScraperTask>,
}

impl View for CrawlQueue {
    type V = Seq<TaskModel>;

    closed spec fn view(&self) -> Seq<TaskModel> {
        self.tasks.deep_view()
    }
}

impl CrawlQueue {
    /// A stack without tasks.
    pub fn new() -> (r: CrawlQueue)
        ensures
            r@ == Seq::<TaskModel>::empty(),
    {
        let r = CrawlQueue { tasks: Vec::new() };
        assert(r@ =~= Seq::<TaskModel>::empty());
        r
    }

    pub fn len(&self) -> (r: usize)
        ensures
            r == self@.len(),
    {
        self.tasks.len()
    }

    /// Puts `task` on top.
    pub fn push(&mut self, task: ScraperTask)
        ensures
            final(self)@ == old(self)@.push(task@),
    {
        self.tasks.push(task);
        assert(self@ =~= old(self)@.push(task@));
    }

    /// Takes the topmost task off, if there is one.
    pub fn pop(&mut self) -> (r: Option<ScraperTask>)
        ensures
            old(self)@.len() == 0 ==> r is None && final(self)@ == old(self)@,
            old(self)@.len() > 0 ==> (r matches Some(task) && task@ == old(self)@.last()
                && final(self)@ == old(self)@.drop_last()),
    {
        let r = self.tasks.pop();
        assert(old(self)@.len() > 0 ==> self@ =~= old(self)@.drop_last());
        r
    }

    /// Takes in the outcome of `task`: puts the tasks that it found on top
    /// and says what to do with the rest of it.
    pub fn settle(&mut self, task: &ScraperTask, outcome: Result<ScraperTaskResult, TaskError>) -> (r:
        Action)
        ensures
            r@ == action_for(task@, outcome_view(outcome)),
            final(self)@ == stack_after(old(self)@, outcome_view(outcome)),
    {
        match outcome {
            Ok(result) => {
                if result.success {
                    let mut found = result.new_urls;
                    self.tasks.append(&mut found);
                    assert(self@ =~= old(self)@ + result@.new_urls);
                }
                Action::Report {
                    data: result.data,
                    last_update: result.last_update,
                    success: result.success,
                }
            },
            Err(TaskError::Parsing(document)) => Action::KeepDocument {
                filename: task.name.clone().concat(DUMP_SUFFIX),
                document,
            },
            Err(TaskError::Fragment(rule, markup)) => Action::ReportFragment { rule, markup },
            Err(TaskError::NoParsingFunction(page_type)) => Action::ReportMissingParser {
                page_type,
            },
            Err(TaskError::Other(message)) => Action::ReportFailure { message },
        }
    }
}

/// The stack after `count` tasks were taken off.
pub open spec fn after_pops(stack: Seq<TaskModel>, count: int) -> Seq<TaskModel> {
    stack.take(stack.len() - count)
}

/// The tasks that a page yields are done, the last of them first, before
/// any task that was waiting when they came; the stack then stands as it
/// stood before them.
pub proof fn lemma_found_tasks_are_done_first(
    stack: Seq<TaskModel>,
    outcome: Result<ResultModel, ErrorModel>,
    count: int,
)
    requires
        outcome matches Ok(result) && result.success,
        0 <= count <= outcome->Ok_0.new_urls.len(),
    ensures
        count < outcome->Ok_0.new_urls.len() ==> after_pops(stack_after(stack, outcome), count).last()
            == outcome->Ok_0.new_urls[outcome->Ok_0.new_urls.len() - 1 - count],
        count == outcome->Ok_0.new_urls.len() ==> after_pops(stack_after(stack, outcome), count)
            == stack,
{
    let found = outcome->Ok_0.new_urls;
    assert(after_pops(stack + found, found.len() as int) =~= stack);
}

} // verus!
