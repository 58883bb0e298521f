//! The texts that the tracker shows: what it asks for, and what it
//! answers to a line.

use crate::session::Output;
use crate::session::OutputView;
use crate::session::Phase;
use crate::task::Task;
use crate::task::TaskView;
use crate::tasks::task_views;
use vstd::prelude::*;
use vstd::string::StringExecFns;

verus! {

/// The help text.
pub const HELP: &'static str =
    "-Help and status-\n-Controls:\n - 'h' - open help text and current status, the current open task\n - 'n' or 's' - close current if one is open and create-new/start task\n - 'nc' - close current if one is open, new copy of a previous task\n - 'lunch' - close current if one is open and start lunch break\n - 'bio' - close current if one is open and start biobreak\n - 'd' - change current task description\n - 'dc' - copy the description from a previous task\n - 'a' - append description to current task description\n - 'show' - show all tasks\n - 'quit' - quit the application and save to CSV file\n \n";

/// The question for a command.
pub const ASK_COMMAND: &'static str =
    "Please enter commands ('h' for help, 'quit' to quit, etc.):\n\n";

/// The question for the description of a new task.
pub const ASK_DESCRIPTION: &'static str =
    "A new task will be created. Please write the description:\n";

/// The question for the identifier of a closed task.
pub const ASK_IDENTIFIER: &'static str =
    "Please write a valid id to copy the description from or 'q' exit: \n";

/// The question for another description of the open task.
pub const ASK_NEW_DESCRIPTION: &'static str = "Write the new description: \n";

/// The question for the text to add to the open task's description.
pub const ASK_APPEND: &'static str = "Write what you would like to append: \n";

/// What stands above the open task.
pub const CURRENT_TASK: &'static str = "The current open task is:\n";

/// What is shown when no task is open.
pub const NO_CURRENT_TASK: &'static str = "There is currently no open item\n\n";

/// What stands above a task that was closed.
pub const CLOSING_TASK: &'static str = "The current open item is\n";

/// What stands below a task that was closed.
pub const TASK_CLOSED: &'static str = "\nThe task was closed\n\n";

/// What is shown when no task was open to be closed.
pub const NOTHING_TO_CLOSE: &'static str = "There is currently no open item to close\n\n";

/// What stands above the description of a task that was started.
pub const TASK_STARTED: &'static str = "\nStarted a new task with description:\n";

/// What is shown before a new task gets the description of a closed one.
pub const COPY_FOR_NEW: &'static str =
    "This will create a new task with a previous description\n\n";

/// What is shown before the open task gets the description of a closed one.
pub const COPY_FOR_OPEN: &'static str =
    "This will copy a previous description to a currently open task\n";

/// The end of a line.
pub const LINE_END: &'static str = "\n";

/// The end of a line and an empty line.
pub const BLOCK_END: &'static str = "\n\n";

/// The rows of `tasks`, each on a line of its own; `None` where a
/// timestamp of one of them has no text.
pub open spec fn rows_text(tasks: Seq<TaskView>) -> Option<Seq<char>>
    decreases tasks.len(),
{
    if tasks.len() == 0 {
        Some(Seq::empty())
    } else {
        match (rows_text(tasks.drop_last()), tasks.last().row_text()) {
            (Some(above), Some(row)) => Some(above + row + LINE_END@),
            _ => None,
        }
    }
}

/// Where the first `k` tasks have no text, the whole sequence has none.
pub proof fn lemma_rows_text_fail(tasks: Seq<TaskView>, k: int)
    requires
        0 <= k <= tasks.len(),
        rows_text(tasks.take(k)) is None,
    ensures
        rows_text(tasks) is None,
    decreases tasks.len() - k,
{
    if k < tasks.len() {
        assert(tasks.take(k + 1).drop_last() =~= tasks.take(k));
        lemma_rows_text_fail(tasks, k + 1);
    } else {
        assert(tasks.take(k) =~= tasks);
    }
}

impl Phase {
    /// What the tracker asks for in this phase; nothing once the session
    /// has ended.
    pub open spec fn question(self) -> Option<Seq<char>> {
        match self {
            Phase::Command => Some(ASK_COMMAND@),
            Phase::NewDescription { .. } => Some(ASK_DESCRIPTION@),
            Phase::CopyForNew => Some(ASK_IDENTIFIER@),
            Phase::ReplaceDescription => Some(ASK_NEW_DESCRIPTION@),
            Phase::CopyForOpen => Some(ASK_IDENTIFIER@),
            Phase::AppendText => Some(ASK_APPEND@),
            Phase::Finished => None,
        }
    }

    /// What the tracker asks for in this phase.
    pub fn prompt(&self) -> (text: Option<&'static str>)
        ensures
            text matches Some(t) ==> self.question() == Some(t@),
            text is None ==> self.question() is None,
    {
        match self {
            Phase::Command => Some(ASK_COMMAND),
            Phase::NewDescription { .. } => Some(ASK_DESCRIPTION),
            Phase::CopyForNew => Some(ASK_IDENTIFIER),
            Phase::ReplaceDescription => Some(ASK_NEW_DESCRIPTION),
            Phase::CopyForOpen => Some(ASK_IDENTIFIER),
            Phase::AppendText => Some(ASK_APPEND),
            Phase::Finished => None,
        }
    }
}

impl OutputView {
    /// The text of the output; `None` where a timestamp of a task that it
    /// shows has no text.
    pub open spec fn text(self) -> Option<Seq<char>> {
        match self {
            OutputView::Help => Some(HELP@),
            OutputView::CurrentTask(task) => match task.row_text() {
                Some(row) => Some(CURRENT_TASK@ + row + BLOCK_END@),
                None => None,
            },
            OutputView::NoCurrentTask => Some(NO_CURRENT_TASK@),
            OutputView::Closed(task) => match task.row_text() {
                Some(row) => Some(CLOSING_TASK@ + row + TASK_CLOSED@),
                None => None,
            },
            OutputView::NothingToClose => Some(NOTHING_TO_CLOSE@),
            OutputView::Listing(tasks) => match rows_text(tasks) {
                Some(rows) => Some(rows + LINE_END@),
                None => None,
            },
            OutputView::Started(description) => Some(TASK_STARTED@ + description + BLOCK_END@),
            OutputView::CopyForNewIntro => Some(COPY_FOR_NEW@),
            OutputView::CopyForOpenIntro => Some(COPY_FOR_OPEN@),
        }
    }
}

/// `above`, the row of `task` and `below`, in this order.
fn framed_row(above: &str, task: &Task, below: &str) -> (text: Option<String>)
    ensures
        text matches Some(t) ==> task@.row_text() matches Some(row) && t@ == above@ + row + below@,
        text is None ==> task@.row_text() is None,
{
    match task.to_text() {
        Some(row) => {
            let mut text = String::from_str(above);
            text.append(row.as_str());
            text.append(below);
            Some(text)
        },
        None => None,
    }
}

/// The rows of `tasks`, each on a line of its own.
pub fn rows(tasks: &Vec<Task>) -> (text: Option<String>)
    ensures
        text matches Some(t) ==> rows_text(task_views(tasks@)) == Some(t@),
        text is None ==> rows_text(task_views(tasks@)) is None,
{
    let ghost all = task_views(tasks@);
    let mut text = String::new();
    let mut i: usize = 0;
    assert(all.take(0) =~= Seq::<TaskView>::empty());
    while i < tasks.len()
        invariant
            i <= tasks.len(),
            all == task_views(tasks@),
            rows_text(all.take(i as int)) == Some(text@),
        decreases tasks.len() - i,
    {
        proof {
            assert(all.take(i + 1).drop_last() =~= all.take(i as int));
            assert(all.take(i + 1).last() == tasks@[i as int]@);
        }
        match tasks[i].to_text() {
            Some(row) => {
                text.append(row.as_str());
                text.append(LINE_END);
            },
            None => {
                proof {
                    lemma_rows_text_fail(all, i + 1);
                }
                return None;
            },
        }
        i = i + 1;
    }
    assert(all.take(i as int) =~= all);
    Some(text)
}

impl Output {
    /// The text of the output, as it is shown.
    pub fn text(&self) -> (text: Option<String>)
        ensures
            text matches Some(t) ==> self@.text() == Some(t@),
            text is None ==> self@.text() is None,
    {
        match self {
            Output::Help => Some(String::from_str(HELP)),
            Output::CurrentTask(task) => framed_row(CURRENT_TASK, task, BLOCK_END),
            Output::NoCurrentTask => Some(String::from_str(NO_CURRENT_TASK)),
            Output::Closed(task) => framed_row(CLOSING_TASK, task, TASK_CLOSED),
            Output::NothingToClose => Some(String::from_str(NOTHING_TO_CLOSE)),
            Output::Listing(tasks) => match rows(tasks) {
                Some(mut text) => {
                    text.append(LINE_END);
                    Some(text)
                },
                None => None,
            },
            Output::Started(description) => {
                let mut text = String::from_str(TASK_STARTED);
                text.append(description.as_str());
                text.append(BLOCK_END);
                Some(text)
            },
            Output::CopyForNewIntro => Some(String::from_str(COPY_FOR_NEW)),
            Output::CopyForOpenIntro => Some(String::from_str(COPY_FOR_OPEN)),
        }
    }
}

} // verus!
