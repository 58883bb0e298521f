//! The store of tasks: those that are closed, in the order in which they
//! were closed, the one that is open, if any, and the next identifier.

use crate::laws::law_close_keeps_the_tasks_in_order;
use crate::laws::law_operations_keep_the_store_well_formed;
use crate::task::Task;
use crate::task::TaskView;
use crate::timestamp::ClockError;
use crate::timestamp::Timestamp;
use vstd::prelude::*;
use vstd::string::StringExecFns;

verus! {

/// The tasks of one session.
#[derive(Debug)]
pub struct Tasks {
    list: Vec<Task>,
    current_max_id: usize,
    current_open_task: Option<Task>,
}

/// The store as contracts speak of it.
pub struct TasksView {
    /// The closed tasks, in the order in which they were closed.
    pub closed: Seq<TaskView>,
    /// The task that is being worked on.
    pub open: Option<TaskView>,
    /// The identifier that the next task gets.
    pub next_id: nat,
}

impl TasksView {
    /// The store before any task was created.
    pub open spec fn empty() -> TasksView {
        TasksView { closed: Seq::empty(), open: None, next_id: 0 }
    }

    /// Every task of the store: the closed ones, then the open one.
    pub open spec fn snapshot(self) -> Seq<TaskView> {
        match self.open {
            Some(task) => self.closed.push(task),
            None => self.closed,
        }
    }

    /// What holds of every store that the operations below can reach: the
    /// tasks carry the identifiers 0, 1, 2, ... in the order of the
    /// snapshot, `next_id` counts them, no closed task ends before it
    /// starts, and the open task has not ended.
    pub open spec fn wf(self) -> bool {
        &&& self.next_id == self.snapshot().len()
        &&& forall|i: int| 0 <= i < self.snapshot().len() ==> (#[trigger] self.snapshot()[i]).id == i
        &&& self.in_order()
        &&& self.open matches Some(task) ==> task.end == task.start
    }

    /// Whether every closed task ends no earlier than it starts.
    pub open spec fn in_order(self) -> bool {
        forall|i: int| 0 <= i < self.closed.len() ==> (#[trigger] self.closed[i]).in_order()
    }

    /// The store after a task was opened at `start`.
    pub open spec fn open_new(self, description: Seq<char>, start: Timestamp) -> TasksView {
        TasksView {
            closed: self.closed,
            open: Some(TaskView::started(self.next_id, description, start)),
            next_id: self.next_id + 1,
        }
    }

    /// The store after the open task, if there is one, was closed at
    /// `end`: it ends then, or at its start where `end` is earlier.
    pub open spec fn close_open(self, end: Timestamp) -> TasksView {
        match self.open {
            Some(task) => TasksView {
                closed: self.closed.push(task.ended(end)),
                open: None,
                next_id: self.next_id,
            },
            None => self,
        }
    }

    /// The store after a task was created and closed in the same instant.
    pub open spec fn record(self, description: Seq<char>, at: Timestamp) -> TasksView {
        TasksView {
            closed: self.closed.push(TaskView::started(self.next_id, description, at)),
            open: self.open,
            next_id: self.next_id + 1,
        }
    }

    /// The store after the open task, if there is one, got a new description.
    pub open spec fn replace_open_description(self, description: Seq<char>) -> TasksView {
        match self.open {
            Some(task) => TasksView { open: Some(task.described(description)), ..self },
            None => self,
        }
    }

    /// The store after `extra` was added to the open task's description.
    pub open spec fn append_to_open_description(self, extra: Seq<char>) -> TasksView {
        match self.open {
            Some(task) => self.replace_open_description(task.description + extra),
            None => self,
        }
    }

    /// The description of the closed task at index `id`.
    pub open spec fn description_of(self, id: nat) -> Option<Seq<char>> {
        if id < self.closed.len() {
            Some(self.closed[id as int].description)
        } else {
            None
        }
    }
}

/// The views of a vector of tasks, in order.
pub open spec fn task_views(tasks: Seq<Task>) -> Seq<TaskView> {
    tasks.map_values(|t: Task| t@)
}

/// The view of a task that may be absent.
pub open spec fn optional_view(task: Option<Task>) -> Option<TaskView> {
    match task {
        Some(t) => Some(t@),
        None => None,
    }
}

impl View for Tasks {
    type V = TasksView;

    closed spec fn view(&self) -> TasksView {
        TasksView {
            closed: task_views(self.list@),
            open: optional_view(self.current_open_task),
            next_id: self.current_max_id as nat,
        }
    }
}

impl Default for Tasks {
    fn default() -> (tasks: Tasks)
        ensures
            tasks@ == TasksView::empty(),
            tasks@.wf(),
    {
        Tasks::new()
    }
}

impl Tasks {
    /// A store without tasks.
    pub fn new() -> (tasks: Tasks)
        ensures
            tasks@ == TasksView::empty(),
            tasks@.wf(),
    {
        proof {
            law_operations_keep_the_store_well_formed(TasksView::empty(), Seq::empty(), arbitrary());
        }
        let tasks = Tasks { list: Vec::new(), current_max_id: 0, current_open_task: None };
        assert(tasks@.closed =~= Seq::<TaskView>::empty());
        tasks
    }

    /// The number of closed tasks.
    pub fn closed_count(&self) -> (n: usize)
        ensures
            n == self@.closed.len(),
    {
        self.list.len()
    }

    /// Whether a task is open.
    pub fn has_open_task(&self) -> (open: bool)
        ensures
            open == self@.open is Some,
    {
        self.current_open_task.is_some()
    }

    /// The identifier that the next task gets.
    pub fn next_id(&self) -> (id: usize)
        ensures
            id == self@.next_id,
    {
        self.current_max_id
    }

    /// The open task.
    pub fn open_task(&self) -> (task: Option<&Task>)
        ensures
            task matches Some(t) ==> self@.open == Some(t@),
            task is None ==> self@.open is None,
    {
        self.current_open_task.as_ref()
    }

    /// The closed task at `index`.
    pub fn closed_task(&self, index: usize) -> (task: Option<&Task>)
        ensures
            task matches Some(t) ==> index < self@.closed.len() && self@.closed[index as int] == t@,
            task is None ==> index >= self@.closed.len(),
    {
        if index < self.list.len() {
            Some(&self.list[index])
        } else {
            None
        }
    }

    /// Opens a task that starts at `start`. No task may be open: close it
    /// first.
    pub fn open_new(&mut self, description: String, start: Timestamp)
        requires
            old(self)@.open is None,
            old(self)@.next_id < usize::MAX,
        ensures
            final(self)@ == old(self)@.open_new(description@, start),
            old(self)@.wf() ==> final(self)@.wf(),
    {
        proof {
            if old(self)@.wf() {
                law_operations_keep_the_store_well_formed(old(self)@, description@, start);
            }
        }
        let task = Task::new_task_with_desc_and_time(self.current_max_id, description, start);
        self.current_open_task = Some(task);
        self.current_max_id = self.current_max_id + 1;
    }

    /// Closes the open task at `end` and hands a copy of it back; `None`,
    /// and nothing changes, when no task is open. The task ends at
    /// `end`, or at its start where `end` is earlier: no closed task ends
    /// before it starts.
    pub fn close_open(&mut self, end: Timestamp) -> (closed: Option<Task>)
        ensures
            final(self)@ == old(self)@.close_open(end),
            optional_view(closed) == match old(self)@.open {
                Some(task) => Some(task.ended(end)),
                None => None,
            },
            old(self)@.in_order() ==> final(self)@.in_order(),
            old(self)@.wf() ==> final(self)@.wf(),
    {
        proof {
            law_close_keeps_the_tasks_in_order(old(self)@, end);
            if old(self)@.wf() {
                law_operations_keep_the_store_well_formed(old(self)@, Seq::empty(), end);
            }
        }
        match self.current_open_task.take() {
            Some(mut task) => {
                task.end = if end.is_not_before(&task.start) {
                    end
                } else {
                    task.start
                };
                let copy = task.clone();
                self.list.push(task);
                assert(final(self)@.closed =~= old(self)@.closed.push(copy@));
                Some(copy)
            },
            None => None,
        }
    }

    /// Adds a task that starts and ends at `at` to the closed tasks. No
    /// task may be open.
    pub fn record(&mut self, description: String, at: Timestamp)
        requires
            old(self)@.open is None,
            old(self)@.next_id < usize::MAX,
        ensures
            final(self)@ == old(self)@.record(description@, at),
            old(self)@.wf() ==> final(self)@.wf(),
    {
        proof {
            if old(self)@.wf() {
                law_operations_keep_the_store_well_formed(old(self)@, description@, at);
            }
        }
        let task = Task::new_task_with_desc_and_time(self.current_max_id, description, at);
        let ghost added = task@;
        self.list.push(task);
        self.current_max_id = self.current_max_id + 1;
        assert(final(self)@.closed =~= old(self)@.closed.push(added));
    }

    /// Gives the open task another description; `false`, and nothing
    /// changes, when no task is open.
    pub fn replace_open_description(&mut self, new_text: String) -> (done: bool)
        ensures
            final(self)@ == old(self)@.replace_open_description(new_text@),
            done == old(self)@.open is Some,
            old(self)@.wf() ==> final(self)@.wf(),
    {
        proof {
            if old(self)@.wf() {
                law_operations_keep_the_store_well_formed(old(self)@, new_text@, arbitrary());
            }
        }
        match self.current_open_task.take() {
            Some(mut task) => {
                task.description = new_text;
                self.current_open_task = Some(task);
                true
            },
            None => false,
        }
    }

    /// Adds `extra` to the end of the open task's description; `false`,
    /// and nothing changes, when no task is open.
    pub fn append_to_open_description(&mut self, extra: &str) -> (done: bool)
        ensures
            final(self)@ == old(self)@.append_to_open_description(extra@),
            done == old(self)@.open is Some,
            old(self)@.wf() ==> final(self)@.wf(),
    {
        proof {
            if old(self)@.wf() {
                law_operations_keep_the_store_well_formed(old(self)@, extra@, arbitrary());
            }
        }
        match self.current_open_task.take() {
            Some(mut task) => {
                task.description.append(extra);
                self.current_open_task = Some(task);
                true
            },
            None => false,
        }
    }

    /// A copy of the description of the closed task at index `id`.
    pub fn description_of(&self, id: usize) -> (description: Option<String>)
        ensures
            description matches Some(d) ==> self@.description_of(id as nat) == Some(d@),
            description is None ==> self@.description_of(id as nat) is None,
    {
        if id < self.list.len() {
            Some(self.list[id].description.clone())
        } else {
            None
        }
    }

    /// Copies of the closed tasks, in the order in which they were closed.
    pub fn closed_tasks(&self) -> (tasks: Vec<Task>)
        ensures
            task_views(tasks@) == self@.closed,
    {
        let mut tasks: Vec<Task> = Vec::new();
        let mut i: usize = 0;
        while i < self.list.len()
            invariant
                i <= self.list.len(),
                tasks@.len() == i,
                forall|k: int| 0 <= k < i ==> (#[trigger] tasks@[k])@ == self.list@[k]@,
            decreases self.list.len() - i,
        {
            tasks.push(self.list[i].clone());
            i = i + 1;
        }
        assert(task_views(tasks@) =~= task_views(self.list@));
        tasks
    }

    /// Copies of all tasks as they are written out: the closed ones in the
    /// order in which they were closed, then the open one.
    pub fn snapshot(&self) -> (tasks: Vec<Task>)
        ensures
            task_views(tasks@) == self@.snapshot(),
    {
        let mut tasks = self.closed_tasks();
        match &self.current_open_task {
            Some(task) => {
                tasks.push(task.clone());
                assert(task_views(tasks@) =~= self@.snapshot());
            },
            None => {},
        }
        tasks
    }

    /// Opens a task that starts at the time that was read from the clock.
    /// Where none was read nothing changes, and the error is handed on.
    pub fn open_new_with(&mut self, description: String, reading: Result<Timestamp, ClockError>) -> (opened:
        Result<Timestamp, ClockError>)
        requires
            old(self)@.open is None,
            old(self)@.next_id < usize::MAX,
        ensures
            opened == reading,
            reading matches Ok(now) ==> final(self)@ == old(self)@.open_new(description@, now),
            reading is Err ==> final(self)@ == old(self)@,
            old(self)@.wf() ==> final(self)@.wf(),
    {
        match reading {
            Ok(now) => {
                self.open_new(description, now);
                Ok(now)
            },
            Err(e) => Err(e),
        }
    }

    /// Opens a task that starts now, by the local clock. When the clock
    /// cannot be read nothing changes.
    pub fn open_new_now(&mut self, description: String) -> (opened: Result<Timestamp, ClockError>)
        requires
            old(self)@.open is None,
            old(self)@.next_id < usize::MAX,
        ensures
            opened matches Ok(now) ==> final(self)@ == old(self)@.open_new(description@, now),
            opened is Err ==> final(self)@ == old(self)@,
            old(self)@.wf() ==> final(self)@.wf(),
    {
        self.open_new_with(description, Timestamp::now())
    }

    /// Closes the open task at the time that was read from the clock, and
    /// hands a copy of it back. With no task open nothing changes and
    /// there is nothing to hand back, whatever was read; with one open
    /// and no time read nothing changes, and the error is handed on.
    pub fn close_open_with(&mut self, reading: Result<Timestamp, ClockError>) -> (closed: Result<
        Option<Task>,
        ClockError,
    >)
        ensures
            old(self)@.open is None ==> (closed matches Ok(None)),
            old(self)@.open is None ==> final(self)@ == old(self)@,
            old(self)@.open matches Some(was) ==> match reading {
                Ok(now) => closed matches Ok(Some(task)) && task@ == was.ended(now) && final(self)@
                    == old(self)@.close_open(now),
                Err(e) => closed == Err::<Option<Task>, ClockError>(e) && final(self)@ == old(
                    self,
                )@,
            },
            old(self)@.in_order() ==> final(self)@.in_order(),
            old(self)@.wf() ==> final(self)@.wf(),
    {
        if !self.has_open_task() {
            return Ok(None);
        }
        match reading {
            Ok(now) => Ok(self.close_open(now)),
            Err(e) => Err(e),
        }
    }

    /// Closes the open task now, by the local clock, and hands a copy of
    /// it back. With no task open the clock is not read: nothing changes
    /// and there is nothing to hand back. With one open, when the clock
    /// cannot be read nothing changes.
    pub fn close_open_now(&mut self) -> (closed: Result<Option<Task>, ClockError>)
        ensures
            old(self)@.open is None ==> (closed matches Ok(None)),
            old(self)@.open is None ==> final(self)@ == old(self)@,
            closed matches Ok(Some(task)) ==> old(self)@.open matches Some(was) && task@
                == was.ended(task.end) && final(self)@ == old(self)@.close_open(task.end),
            closed matches Ok(None) ==> old(self)@.open is None && final(self)@ == old(self)@,
            closed is Err ==> old(self)@.open is Some && final(self)@ == old(self)@,
            old(self)@.in_order() ==> final(self)@.in_order(),
            old(self)@.wf() ==> final(self)@.wf(),
    {
        if self.has_open_task() {
            self.close_open_with(Timestamp::now())
        } else {
            Ok(None)
        }
    }

    /// Adds a task that starts and ends at the time that was read from
    /// the clock to the closed tasks. Where none was read nothing
    /// changes, and the error is handed on.
    pub fn record_with(&mut self, description: String, reading: Result<Timestamp, ClockError>) -> (recorded:
        Result<Timestamp, ClockError>)
        requires
            old(self)@.open is None,
            old(self)@.next_id < usize::MAX,
        ensures
            recorded == reading,
            reading matches Ok(now) ==> final(self)@ == old(self)@.record(description@, now),
            reading is Err ==> final(self)@ == old(self)@,
            old(self)@.wf() ==> final(self)@.wf(),
    {
        match reading {
            Ok(now) => {
                self.record(description, now);
                Ok(now)
            },
            Err(e) => Err(e),
        }
    }

    /// Adds a task that starts and ends now, by the local clock, to the
    /// closed tasks. When the clock cannot be read nothing changes.
    pub fn record_now(&mut self, description: String) -> (recorded: Result<Timestamp, ClockError>)
        requires
            old(self)@.open is None,
            old(self)@.next_id < usize::MAX,
        ensures
            recorded matches Ok(now) ==> final(self)@ == old(self)@.record(description@, now),
            recorded is Err ==> final(self)@ == old(self)@,
            old(self)@.wf() ==> final(self)@.wf(),
    {
        self.record_with(description, Timestamp::now())
    }
}

} // verus!
