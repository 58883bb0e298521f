//! One unit of work: its identifier, its interval and its description.

use crate::text::decimal;
use crate::text::decimal_text;
use crate::timestamp::ClockError;
use crate::timestamp::Timestamp;
use vstd::prelude::*;
use vstd::string::StringExecFns;

verus! {

/// A task: created when work on it starts, closed once when it ends.
#[derive(Debug)]
pub struct Task {
    pub id: usize,
    pub start: Timestamp,
    pub end: Timestamp,
    pub description: String,
}

/// A task as contracts speak of it.
pub struct TaskView {
    pub id: nat,
    pub start: Timestamp,
    pub end: Timestamp,
    pub description: Seq<char>,
}

impl View for Task {
    type V = TaskView;

    open spec fn view(&self) -> TaskView {
        TaskView {
            id: self.id as nat,
            start: self.start,
            end: self.end,
            description: self.description@,
        }
    }
}

impl TaskView {
    /// The task that starts at `at`: until it is closed its end is its start.
    pub open spec fn started(id: nat, description: Seq<char>, at: Timestamp) -> TaskView {
        TaskView { id, start: at, end: at, description }
    }

    /// The time at which the task ends when it is closed at `at`: `at`,
    /// or the task's start where `at` is earlier, so that no task ends
    /// before it starts.
    pub open spec fn end_at(self, at: Timestamp) -> Timestamp {
        if at.not_before(self.start) {
            at
        } else {
            self.start
        }
    }

    /// The same task closed at `at`.
    pub open spec fn ended(self, at: Timestamp) -> TaskView {
        TaskView { end: self.end_at(at), ..self }
    }

    /// The same task under another description.
    pub open spec fn described(self, description: Seq<char>) -> TaskView {
        TaskView { description, ..self }
    }

    /// Whether the task ends no earlier than it starts.
    pub open spec fn in_order(self) -> bool {
        self.end.not_before(self.start)
    }

    /// The four fields of the task's row, given the texts of its two
    /// timestamps: identifier, start, end and description.
    pub open spec fn fields_with(self, start: Seq<char>, end: Seq<char>) -> Seq<Seq<char>> {
        seq![decimal(self.id), start, end, self.description]
    }

    /// The task's row on screen, given the texts of its two timestamps:
    /// the four fields with one space between them.
    pub open spec fn row_with(self, start: Seq<char>, end: Seq<char>) -> Seq<char> {
        decimal(self.id) + seq![' '] + start + seq![' '] + end + seq![' '] + self.description
    }

    /// The four fields of the task's row; `None` where a timestamp has no
    /// text.
    pub open spec fn fields(self) -> Option<Seq<Seq<char>>> {
        match (self.start.display_text(), self.end.display_text()) {
            (Some(start), Some(end)) => Some(self.fields_with(start, end)),
            _ => None,
        }
    }

    /// The task's row on screen; `None` where a timestamp has no text.
    pub open spec fn row_text(self) -> Option<Seq<char>> {
        match (self.start.display_text(), self.end.display_text()) {
            (Some(start), Some(end)) => Some(self.row_with(start, end)),
            _ => None,
        }
    }
}

impl Clone for Task {
    fn clone(&self) -> (copy: Task)
        ensures
            copy@ == self@,
    {
        Task {
            id: self.id,
            start: self.start,
            end: self.end,
            description: self.description.clone(),
        }
    }
}

impl Task {
    /// A task that starts at `date_time`.
    pub fn new_task_with_desc_and_time(
        id_to_assign: usize,
        description_to_assign: String,
        date_time: Timestamp,
    ) -> (task: Task)
        ensures
            task@ == TaskView::started(id_to_assign as nat, description_to_assign@, date_time),
    {
        Task {
            id: id_to_assign,
            start: date_time,
            end: date_time,
            description: description_to_assign,
        }
    }

    /// A task that starts at the time that was read from the clock. Where
    /// none was read there is no task, and the error is handed on.
    pub fn new_task_with_desc_at(
        id_to_assign: usize,
        description_to_assign: String,
        reading: Result<Timestamp, ClockError>,
    ) -> (made: Result<Task, ClockError>)
        ensures
            reading matches Ok(now) ==> (made matches Ok(task) && task@ == TaskView::started(
                id_to_assign as nat,
                description_to_assign@,
                now,
            )),
            reading matches Err(e) ==> made == Err::<Task, ClockError>(e),
    {
        match reading {
            Ok(now) => Ok(Task::new_task_with_desc_and_time(id_to_assign, description_to_assign, now)),
            Err(e) => Err(e),
        }
    }

    /// A task that starts now, by the local clock. When the clock cannot
    /// be read there is no task.
    pub fn new_task_with_desc(id_to_assign: usize, description_to_assign: String) -> (made: Result<
        Task,
        ClockError,
    >)
        ensures
            made matches Ok(task) ==> task@ == TaskView::started(
                id_to_assign as nat,
                description_to_assign@,
                task.start,
            ),
    {
        Task::new_task_with_desc_at(id_to_assign, description_to_assign, Timestamp::now())
    }

    /// The texts of the four fields of the task's row, given the texts
    /// of its two timestamps.
    pub fn fields_with(&self, start: String, end: String) -> (row: Vec<String>)
        ensures
            row@.map_values(|s: String| s@) == self@.fields_with(start@, end@),
    {
        let mut row: Vec<String> = Vec::new();
        row.push(decimal_text(self.id));
        row.push(start);
        row.push(end);
        row.push(self.description.clone());
        assert(row@.map_values(|s: String| s@) =~= self@.fields_with(start@, end@));
        row
    }

    /// The task's row on screen, given the texts of its two timestamps.
    pub fn row_with(&self, start: &str, end: &str) -> (text: String)
        ensures
            text@ == self@.row_with(start@, end@),
    {
        proof {
            reveal_strlit(" ");
            assert(" "@ =~= seq![' ']);
        }
        let mut text = decimal_text(self.id);
        text.append(" ");
        text.append(start);
        text.append(" ");
        text.append(end);
        text.append(" ");
        text.append(self.description.as_str());
        text
    }

    /// The texts of the four fields of the task's row.
    pub fn fields(&self) -> (row: Option<Vec<String>>)
        ensures
            row matches Some(f) ==> self@.fields() == Some(f@.map_values(|s: String| s@)),
            row is None ==> self@.fields() is None,
    {
        match self.start.display() {
            Some(start) => match self.end.display() {
                Some(end) => Some(self.fields_with(start, end)),
                None => None,
            },
            None => None,
        }
    }

    /// The task's row on screen.
    pub fn to_text(&self) -> (text: Option<String>)
        ensures
            text matches Some(s) ==> self@.row_text() == Some(s@),
            text is None ==> self@.row_text() is None,
    {
        match self.start.display() {
            Some(start) => match self.end.display() {
                Some(end) => Some(self.row_with(start.as_str(), end.as_str())),
                None => None,
            },
            None => None,
        }
    }
}

} // verus!
