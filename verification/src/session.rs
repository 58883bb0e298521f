//! The session: what each line of input does to the store of tasks, and
//! what is shown in answer.

use crate::laws::law_react_keeps_the_session_well_formed;
use crate::laws::law_time_matters_only_where_needed;
use crate::laws::law_start_is_well_formed;
use crate::task::Task;
use crate::task::TaskView;
use crate::tasks::task_views;
use crate::tasks::Tasks;
use crate::tasks::TasksView;
use crate::text::index_below;
use crate::text::parse_index;
use crate::text::same_text;
use crate::text::trim;
use crate::text::trim_end;
use crate::text::trimmed;
use crate::text::trimmed_end;
use crate::timestamp::ClockError;
use crate::timestamp::Timestamp;
use vstd::prelude::*;
use vstd::string::StringExecFns;

verus! {

/// What a line means when the session waits for a command.
#[derive(Clone, Copy, Debug, PartialEq, Eq, Structural)]
pub enum Command {
    /// `h`: show the help text and the open task.
    Help,
    /// `n` or `s`: close the open task and start one with a new description.
    New,
    /// `nc`: start a task under the description of a closed one.
    NewCopy,
    /// `lunch`: close the open task and start the lunch break.
    Lunch,
    /// `bio`: close the open task and start a biobreak.
    Biobreak,
    /// `d`: give the open task another description.
    Describe,
    /// `dc`: give the open task the description of a closed one.
    DescribeCopy,
    /// `a`: add to the open task's description.
    Append,
    /// `show`: list all tasks.
    Show,
    /// `quit`: close the open task and end the session.
    Quit,
    /// Anything else: ignored.
    Unknown,
}

/// The command that `text` names. The match is exact: upper case, a
/// prefix or a longer word names no command.
pub open spec fn command_of(text: Seq<char>) -> Command {
    if text == "h"@ {
        Command::Help
    } else if text == "n"@ || text == "s"@ {
        Command::New
    } else if text == "nc"@ {
        Command::NewCopy
    } else if text == "lunch"@ {
        Command::Lunch
    } else if text == "bio"@ {
        Command::Biobreak
    } else if text == "d"@ {
        Command::Describe
    } else if text == "dc"@ {
        Command::DescribeCopy
    } else if text == "a"@ {
        Command::Append
    } else if text == "show"@ {
        Command::Show
    } else if text == "quit"@ {
        Command::Quit
    } else {
        Command::Unknown
    }
}

/// The word that leaves the choice of an identifier without choosing.
pub const ABORT: &'static str = "q";

/// The description of the task that a lunch break is.
pub const LUNCH: &'static str = "Lunch";

/// The description of the task that a biobreak is.
pub const BIOBREAK: &'static str = "Biobreak";

/// The description of the task that marks the start of a session.
pub const START_UP: &'static str = "Start up of time tracking cli";

/// The description of the task that marks the end of a session.
pub const SHUT_DOWN: &'static str = "Shut down of time tracking cli";

/// Reads a trimmed line as a command.
pub fn read_command(text: &str) -> (command: Command)
    ensures
        command == command_of(text@),
{
    if same_text(text, "h") {
        Command::Help
    } else if same_text(text, "n") || same_text(text, "s") {
        Command::New
    } else if same_text(text, "nc") {
        Command::NewCopy
    } else if same_text(text, "lunch") {
        Command::Lunch
    } else if same_text(text, "bio") {
        Command::Biobreak
    } else if same_text(text, "d") {
        Command::Describe
    } else if same_text(text, "dc") {
        Command::DescribeCopy
    } else if same_text(text, "a") {
        Command::Append
    } else if same_text(text, "show") {
        Command::Show
    } else if same_text(text, "quit") {
        Command::Quit
    } else {
        Command::Unknown
    }
}

/// What the session waits for.
#[derive(Clone, Copy, Debug, PartialEq, Eq, Structural)]
pub enum Phase {
    /// A command.
    Command,
    /// The description of the task that `n` or `s` asked for at `started`.
    NewDescription { started: Timestamp },
    /// The identifier of the closed task whose description a new task gets.
    CopyForNew,
    /// The new description of the open task.
    ReplaceDescription,
    /// The identifier of the closed task whose description the open task gets.
    CopyForOpen,
    /// The text to add to the open task's description.
    AppendText,
    /// Nothing: the session has ended.
    Finished,
}

/// Something to show in answer to a line.
#[derive(Debug)]
pub enum Output {
    /// The help text.
    Help,
    /// The open task.
    CurrentTask(Task),
    /// That no task is open.
    NoCurrentTask,
    /// The task that was just closed.
    Closed(Task),
    /// That no task was open to be closed.
    NothingToClose,
    /// The closed tasks.
    Listing(Vec<Task>),
    /// That a task was started, with its description.
    Started(String),
    /// What `nc` is about to do.
    CopyForNewIntro,
    /// What `dc` is about to do.
    CopyForOpenIntro,
}

/// An output as contracts speak of it.
pub enum OutputView {
    Help,
    CurrentTask(TaskView),
    NoCurrentTask,
    Closed(TaskView),
    NothingToClose,
    Listing(Seq<TaskView>),
    Started(Seq<char>),
    CopyForNewIntro,
    CopyForOpenIntro,
}

impl View for Output {
    type V = OutputView;

    open spec fn view(&self) -> OutputView {
        match self {
            Output::Help => OutputView::Help,
            Output::CurrentTask(task) => OutputView::CurrentTask(task@),
            Output::NoCurrentTask => OutputView::NoCurrentTask,
            Output::Closed(task) => OutputView::Closed(task@),
            Output::NothingToClose => OutputView::NothingToClose,
            Output::Listing(tasks) => OutputView::Listing(task_views(tasks@)),
            Output::Started(description) => OutputView::Started(description@),
            Output::CopyForNewIntro => OutputView::CopyForNewIntro,
            Output::CopyForOpenIntro => OutputView::CopyForOpenIntro,
        }
    }
}

/// The views of a vector of outputs, in order.
pub open spec fn output_views(outputs: Seq<Output>) -> Seq<OutputView> {
    outputs.map_values(|o: Output| o@)
}

impl TasksView {
    /// The output that shows the open task, or that there is none.
    pub open spec fn current_notice(self) -> OutputView {
        match self.open {
            Some(task) => OutputView::CurrentTask(task),
            None => OutputView::NoCurrentTask,
        }
    }

    /// The output that shows the task as closed at `end`, or that there
    /// was none to close.
    pub open spec fn closing_notice(self, end: Timestamp) -> OutputView {
        match self.open {
            Some(task) => OutputView::Closed(task.ended(end)),
            None => OutputView::NothingToClose,
        }
    }

    /// The output that lists the closed tasks.
    pub open spec fn listing(self) -> OutputView {
        OutputView::Listing(self.closed)
    }

    /// The store after the open task, if any, was closed at `now` and a
    /// task under `description` was opened in the same instant.
    pub open spec fn switch_to(self, description: Seq<char>, now: Timestamp) -> TasksView {
        self.close_open(now).open_new(description, now)
    }
}

/// The session as contracts speak of it.
pub struct SessionView {
    pub tasks: TasksView,
    pub phase: Phase,
}

/// What a line leads to: the session after it, and what is shown.
pub struct Reaction {
    pub next: SessionView,
    pub outputs: Seq<OutputView>,
}

impl SessionView {
    /// What holds of every session that `react` can reach from a start:
    /// the store is well formed, a description or the end is awaited only
    /// with no task open, and a change of the open task only with one.
    pub open spec fn wf(self) -> bool {
        &&& self.tasks.wf()
        &&& (self.phase is NewDescription || self.phase is Finished) ==> self.tasks.open is None
        &&& (self.phase is ReplaceDescription || self.phase is CopyForOpen || self.phase
            is AppendText) ==> self.tasks.open is Some
    }

    /// The session over `tasks` that waits for a command.
    pub open spec fn over(tasks: TasksView) -> SessionView {
        SessionView { tasks, phase: Phase::Command }
    }

    /// The session that starts at `now`: its first task records the start.
    pub open spec fn started(now: Timestamp) -> SessionView {
        SessionView::over(TasksView::empty().record(START_UP@, now))
    }

    /// The same session in another phase.
    pub open spec fn awaiting(self, phase: Phase) -> SessionView {
        SessionView { phase, ..self }
    }

    /// The phase after a command that changes the open task: `wanted`
    /// where a task is open, else the session goes on waiting for commands.
    pub open spec fn phase_if_open(self, wanted: Phase) -> Phase {
        if self.tasks.open is Some {
            wanted
        } else {
            Phase::Command
        }
    }

    /// What the command `command` leads to at `now`.
    pub open spec fn on_command(self, command: Command, now: Timestamp) -> Reaction {
        let tasks = self.tasks;
        match command {
            Command::Help => Reaction {
                next: self,
                outputs: seq![OutputView::Help, tasks.current_notice()],
            },
            Command::New => Reaction {
                next: SessionView {
                    tasks: tasks.close_open(now),
                    phase: Phase::NewDescription { started: now },
                },
                outputs: seq![tasks.closing_notice(now)],
            },
            Command::NewCopy => Reaction {
                next: self.awaiting(Phase::CopyForNew),
                outputs: seq![OutputView::CopyForNewIntro, tasks.listing()],
            },
            Command::Lunch => Reaction {
                next: SessionView::over(tasks.switch_to(LUNCH@, now)),
                outputs: seq![tasks.closing_notice(now), OutputView::Started(LUNCH@)],
            },
            Command::Biobreak => Reaction {
                next: SessionView::over(tasks.switch_to(BIOBREAK@, now)),
                outputs: seq![
                    tasks.closing_notice(now),
                    OutputView::Started(BIOBREAK@),
                ],
            },
            Command::Describe => Reaction {
                next: self.awaiting(self.phase_if_open(Phase::ReplaceDescription)),
                outputs: seq![tasks.current_notice()],
            },
            Command::DescribeCopy => Reaction {
                next: self.awaiting(self.phase_if_open(Phase::CopyForOpen)),
                outputs: seq![
                    OutputView::CopyForOpenIntro,
                    tasks.listing(),
                    tasks.current_notice(),
                ],
            },
            Command::Append => Reaction {
                next: self.awaiting(self.phase_if_open(Phase::AppendText)),
                outputs: seq![tasks.current_notice()],
            },
            Command::Show => Reaction {
                next: self,
                outputs: seq![tasks.listing(), tasks.current_notice()],
            },
            Command::Quit => Reaction {
                next: SessionView {
                    tasks: tasks.close_open(now).record(SHUT_DOWN@, now),
                    phase: Phase::Finished,
                },
                outputs: seq![tasks.closing_notice(now)],
            },
            Command::Unknown => Reaction { next: self, outputs: seq![] },
        }
    }

    /// What the answer `entry` to the question for an identifier leads to
    /// when a new task is to get the description: the abort word changes
    /// nothing, the index of a closed task closes the open task at `now`
    /// and opens one under that description, and after anything else the
    /// question stands.
    pub open spec fn on_choice_for_new(self, entry: Seq<char>, now: Timestamp) -> Reaction {
        if entry == ABORT@ {
            Reaction { next: self.awaiting(Phase::Command), outputs: seq![] }
        } else {
            match index_below(entry, self.tasks.closed.len()) {
                Some(id) => {
                    let description = self.tasks.closed[id as int].description;
                    Reaction {
                        next: SessionView::over(self.tasks.switch_to(description, now)),
                        outputs: seq![
                            self.tasks.closing_notice(now),
                            OutputView::Started(description),
                        ],
                    }
                },
                None => Reaction { next: self, outputs: seq![] },
            }
        }
    }

    /// What the answer `entry` to the question for an identifier leads to
    /// when the open task is to get the description.
    pub open spec fn on_choice_for_open(self, entry: Seq<char>) -> Reaction {
        if entry == ABORT@ {
            Reaction { next: self.awaiting(Phase::Command), outputs: seq![] }
        } else {
            match index_below(entry, self.tasks.closed.len()) {
                Some(id) => Reaction {
                    next: SessionView::over(
                        self.tasks.replace_open_description(
                            self.tasks.closed[id as int].description,
                        ),
                    ),
                    outputs: seq![],
                },
                None => Reaction { next: self, outputs: seq![] },
            }
        }
    }

    /// Whether what the line `line` leads to depends on the time at which
    /// it is read: it does where the line closes or opens a task, which
    /// the commands `n`, `s`, `lunch`, `bio` and `quit` do, and the index
    /// of a closed task given for a new task.
    pub open spec fn needs_clock(self, line: Seq<char>) -> bool {
        match self.phase {
            Phase::Command => {
                let command = command_of(trimmed(line));
                command == Command::New || command == Command::Lunch || command
                    == Command::Biobreak || command == Command::Quit
            },
            Phase::CopyForNew => trimmed(line) != ABORT@ && index_below(
                trimmed(line),
                self.tasks.closed.len(),
            ) is Some,
            _ => false,
        }
    }

    /// Whether the line `line` creates a task: the commands `lunch`,
    /// `bio` and `quit` do, the description that `n` or `s` asked for,
    /// and the index of a closed task given for a new task.
    pub open spec fn creates_task(self, line: Seq<char>) -> bool {
        match self.phase {
            Phase::Command => {
                let command = command_of(trimmed(line));
                command == Command::Lunch || command == Command::Biobreak || command
                    == Command::Quit
            },
            Phase::NewDescription { .. } => true,
            Phase::CopyForNew => trimmed(line) != ABORT@ && index_below(
                trimmed(line),
                self.tasks.closed.len(),
            ) is Some,
            _ => false,
        }
    }

    /// What the line `line`, read at `now`, leads to.
    pub open spec fn react(self, line: Seq<char>, now: Timestamp) -> Reaction {
        match self.phase {
            Phase::Command => self.on_command(command_of(trimmed(line)), now),
            Phase::NewDescription { started } => Reaction {
                next: SessionView::over(self.tasks.open_new(trimmed(line), started)),
                outputs: seq![OutputView::Started(trimmed(line))],
            },
            Phase::CopyForNew => self.on_choice_for_new(trimmed(line), now),
            Phase::ReplaceDescription => Reaction {
                next: SessionView::over(self.tasks.replace_open_description(trimmed(line))),
                outputs: seq![],
            },
            Phase::CopyForOpen => self.on_choice_for_open(trimmed(line)),
            Phase::AppendText => Reaction {
                next: SessionView::over(self.tasks.append_to_open_description(trimmed_end(line))),
                outputs: seq![],
            },
            Phase::Finished => Reaction { next: self, outputs: seq![] },
        }
    }
}

/// A session of the tracker.
#[derive(Debug)]
pub struct Session {
    tasks: Tasks,
    phase: Phase,
}

impl View for Session {
    type V = SessionView;

    closed spec fn view(&self) -> SessionView {
        SessionView { tasks: self.tasks@, phase: self.phase }
    }
}

/// The output that shows the open task, or that there is none.
fn current_notice(tasks: &Tasks) -> (output: Output)
    ensures
        output@ == tasks@.current_notice(),
{
    match tasks.open_task() {
        Some(task) => Output::CurrentTask(task.clone()),
        None => Output::NoCurrentTask,
    }
}

/// Closes the open task, if any, and gives the output that says so.
fn close_with_notice(tasks: &mut Tasks, now: Timestamp) -> (output: Output)
    ensures
        final(tasks)@ == old(tasks)@.close_open(now),
        output@ == old(tasks)@.closing_notice(now),
{
    match tasks.close_open(now) {
        Some(task) => Output::Closed(task),
        None => Output::NothingToClose,
    }
}

/// Closes the open task, if any, opens one under `description`, and
/// gives the two outputs that say so.
fn switch_with_notices(tasks: &mut Tasks, description: String, now: Timestamp) -> (outputs: Vec<
    Output,
>)
    requires
        old(tasks)@.next_id < usize::MAX,
    ensures
        final(tasks)@ == old(tasks)@.switch_to(description@, now),
        output_views(outputs@) == seq![
            old(tasks)@.closing_notice(now),
            OutputView::Started(description@),
        ],
{
    let mut outputs: Vec<Output> = Vec::new();
    outputs.push(close_with_notice(tasks, now));
    outputs.push(Output::Started(description.clone()));
    tasks.open_new(description, now);
    assert(output_views(outputs@) =~= seq![
        old(tasks)@.closing_notice(now),
        OutputView::Started(description@),
    ]);
    outputs
}

impl Session {
    /// A session over `tasks` that waits for a command.
    pub fn over(tasks: Tasks) -> (session: Session)
        ensures
            session@ == SessionView::over(tasks@),
            tasks@.wf() ==> session@.wf(),
    {
        Session { tasks, phase: Phase::Command }
    }

    /// A session that starts at `now`: its store holds the task that
    /// records the start.
    pub fn start(now: Timestamp) -> (session: Session)
        ensures
            session@ == SessionView::started(now),
            session@.wf(),
    {
        proof {
            law_start_is_well_formed(now);
        }
        let mut tasks = Tasks::new();
        tasks.record(String::from_str(START_UP), now);
        Session::over(tasks)
    }

    /// A session that starts at the time that was read from the clock.
    /// Where none was read there is no session, and the error is handed
    /// on.
    pub fn start_with(reading: Result<Timestamp, ClockError>) -> (session: Result<
        Session,
        ClockError,
    >)
        ensures
            reading matches Ok(now) ==> (session matches Ok(s) && s@ == SessionView::started(now)
                && s@.wf()),
            reading matches Err(e) ==> (session matches Err(f) && f == e),
    {
        match reading {
            Ok(now) => Ok(Session::start(now)),
            Err(e) => Err(e),
        }
    }

    /// A session that starts now, by the local clock.
    pub fn start_now() -> (session: Result<Session, ClockError>)
        ensures
            session matches Ok(s) ==> s@.wf() && exists|now: Timestamp|
                s@ == SessionView::started(now),
    {
        let reading = Timestamp::now();
        let session = Session::start_with(reading);
        proof {
            if let Ok(now) = reading {
                assert(session->Ok_0@ == SessionView::started(now));
            }
        }
        session
    }

    /// The store of the session.
    pub fn tasks(&self) -> (tasks: &Tasks)
        ensures
            tasks@ == self@.tasks,
    {
        &self.tasks
    }

    /// What the session waits for.
    pub fn phase(&self) -> (phase: Phase)
        ensures
            phase == self@.phase,
    {
        self.phase
    }

    /// Whether the session has ended.
    pub fn is_finished(&self) -> (finished: bool)
        ensures
            finished == (self@.phase == Phase::Finished),
    {
        match self.phase {
            Phase::Finished => true,
            _ => false,
        }
    }

    /// Carries out a command.
    fn on_command(&mut self, command: Command, now: Timestamp) -> (outputs: Vec<Output>)
        requires
            old(self)@.phase == Phase::Command,
            (command == Command::Lunch || command == Command::Biobreak || command == Command::Quit)
                ==> old(self)@.tasks.next_id < usize::MAX,
        ensures
            final(self)@ == old(self)@.on_command(command, now).next,
            output_views(outputs@) == old(self)@.on_command(command, now).outputs,
    {
        let mut outputs: Vec<Output> = Vec::new();
        match command {
            Command::Help => {
                outputs.push(Output::Help);
                outputs.push(current_notice(&self.tasks));
            },
            Command::New => {
                outputs.push(close_with_notice(&mut self.tasks, now));
                self.phase = Phase::NewDescription { started: now };
            },
            Command::NewCopy => {
                outputs.push(Output::CopyForNewIntro);
                outputs.push(Output::Listing(self.tasks.closed_tasks()));
                self.phase = Phase::CopyForNew;
            },
            Command::Lunch => {
                outputs = switch_with_notices(&mut self.tasks, String::from_str(LUNCH), now);
            },
            Command::Biobreak => {
                outputs = switch_with_notices(&mut self.tasks, String::from_str(BIOBREAK), now);
            },
            Command::Describe => {
                outputs.push(current_notice(&self.tasks));
                if self.tasks.has_open_task() {
                    self.phase = Phase::ReplaceDescription;
                }
            },
            Command::DescribeCopy => {
                outputs.push(Output::CopyForOpenIntro);
                outputs.push(Output::Listing(self.tasks.closed_tasks()));
                outputs.push(current_notice(&self.tasks));
                if self.tasks.has_open_task() {
                    self.phase = Phase::CopyForOpen;
                }
            },
            Command::Append => {
                outputs.push(current_notice(&self.tasks));
                if self.tasks.has_open_task() {
                    self.phase = Phase::AppendText;
                }
            },
            Command::Show => {
                outputs.push(Output::Listing(self.tasks.closed_tasks()));
                outputs.push(current_notice(&self.tasks));
            },
            Command::Quit => {
                outputs.push(close_with_notice(&mut self.tasks, now));
                self.tasks.record(String::from_str(SHUT_DOWN), now);
                self.phase = Phase::Finished;
            },
            Command::Unknown => {},
        }
        assert(output_views(outputs@) =~= old(self)@.on_command(command, now).outputs);
        outputs
    }

    /// Takes the answer to the question for an identifier, where a new
    /// task is to get the description.
    fn on_choice_for_new(&mut self, entry: &str, now: Timestamp) -> (outputs: Vec<Output>)
        requires
            (entry@ != ABORT@ && index_below(entry@, old(self)@.tasks.closed.len()) is Some)
                ==> old(self)@.tasks.next_id < usize::MAX,
        ensures
            final(self)@ == old(self)@.on_choice_for_new(entry@, now).next,
            output_views(outputs@) == old(self)@.on_choice_for_new(entry@, now).outputs,
    {
        if same_text(entry, ABORT) {
            self.phase = Phase::Command;
            return Vec::new();
        }
        let chosen = match parse_index(entry, self.tasks.closed_count()) {
            Some(id) => self.tasks.description_of(id),
            None => None,
        };
        match chosen {
            Some(description) => {
                self.phase = Phase::Command;
                switch_with_notices(&mut self.tasks, description, now)
            },
            None => Vec::new(),
        }
    }

    /// Takes the answer to the question for an identifier, where the open
    /// task is to get the description.
    fn on_choice_for_open(&mut self, entry: &str) -> (outputs: Vec<Output>)
        ensures
            final(self)@ == old(self)@.on_choice_for_open(entry@).next,
            output_views(outputs@) == old(self)@.on_choice_for_open(entry@).outputs,
    {
        if same_text(entry, ABORT) {
            self.phase = Phase::Command;
            return Vec::new();
        }
        let chosen = match parse_index(entry, self.tasks.closed_count()) {
            Some(id) => self.tasks.description_of(id),
            None => None,
        };
        match chosen {
            Some(description) => {
                self.tasks.replace_open_description(description);
                self.phase = Phase::Command;
            },
            None => {},
        }
        Vec::new()
    }

    /// Takes one line of input, read at `now`: changes the session as the
    /// line asks and hands back what is to be shown.
    pub fn step(&mut self, line: &str, now: Timestamp) -> (outputs: Vec<Output>)
        requires
            old(self)@.wf(),
            old(self)@.creates_task(line@) ==> old(self)@.tasks.next_id < usize::MAX,
        ensures
            final(self)@ == old(self)@.react(line@, now).next,
            output_views(outputs@) == old(self)@.react(line@, now).outputs,
            outputs@.len() == old(self)@.react(line@, now).outputs.len(),
            final(self)@.wf(),
            final(self)@.tasks.in_order(),
    {
        proof {
            law_react_keeps_the_session_well_formed(old(self)@, line@, now);
        }
        match self.phase {
            Phase::Command => {
                let command = read_command(trim(line));
                self.on_command(command, now)
            },
            Phase::NewDescription { started } => {
                let description = String::from_str(trim(line));
                let mut outputs: Vec<Output> = Vec::new();
                outputs.push(Output::Started(description.clone()));
                self.tasks.open_new(description, started);
                self.phase = Phase::Command;
                assert(output_views(outputs@) =~= old(self)@.react(line@, now).outputs);
                outputs
            },
            Phase::CopyForNew => self.on_choice_for_new(trim(line), now),
            Phase::ReplaceDescription => {
                self.tasks.replace_open_description(String::from_str(trim(line)));
                self.phase = Phase::Command;
                Vec::new()
            },
            Phase::CopyForOpen => self.on_choice_for_open(trim(line)),
            Phase::AppendText => {
                self.tasks.append_to_open_description(trim_end(line));
                self.phase = Phase::Command;
                Vec::new()
            },
            Phase::Finished => Vec::new(),
        }
    }

    /// Tells whether `line` creates a task.
    pub fn creates_task(&self, line: &str) -> (created: bool)
        ensures
            created == self@.creates_task(line@),
    {
        match self.phase {
            Phase::Command => {
                match read_command(trim(line)) {
                    Command::Lunch => true,
                    Command::Biobreak => true,
                    Command::Quit => true,
                    _ => false,
                }
            },
            Phase::NewDescription { .. } => true,
            Phase::CopyForNew => {
                let entry = trim(line);
                !same_text(entry, ABORT) && parse_index(entry, self.tasks.closed_count()).is_some()
            },
            _ => false,
        }
    }

    /// Tells whether what `line` leads to depends on the time at which it
    /// is read.
    pub fn needs_clock(&self, line: &str) -> (needed: bool)
        ensures
            needed == self@.needs_clock(line@),
    {
        match self.phase {
            Phase::Command => {
                match read_command(trim(line)) {
                    Command::New => true,
                    Command::Lunch => true,
                    Command::Biobreak => true,
                    Command::Quit => true,
                    _ => false,
                }
            },
            Phase::CopyForNew => {
                let entry = trim(line);
                !same_text(entry, ABORT) && parse_index(entry, self.tasks.closed_count()).is_some()
            },
            _ => false,
        }
    }

    /// Takes one line of input that does not depend on the time.
    fn step_untimed(&mut self, line: &str) -> (outputs: Vec<Output>)
        requires
            old(self)@.wf(),
            old(self)@.creates_task(line@) ==> old(self)@.tasks.next_id < usize::MAX,
            !old(self)@.needs_clock(line@),
        ensures
            forall|now: Timestamp|
                {
                    &&& final(self)@ == (#[trigger] old(self)@.react(line@, now)).next
                    &&& output_views(outputs@) == old(self)@.react(line@, now).outputs
                },
            final(self)@.wf(),
    {
        let any = Timestamp { unix_nanos: 0, offset_seconds: 0 };
        proof {
            assert forall|now: Timestamp|
                (#[trigger] old(self)@.react(line@, now)) == old(self)@.react(line@, any) by {
                law_time_matters_only_where_needed(old(self)@, line@, now, any);
            }
        }
        self.step(line, any)
    }

    /// Takes one line of input together with what was read from the
    /// clock. Where the line does not depend on the time, it is taken
    /// whatever was read. Where it does, it is taken at the time that was
    /// read; with no time read nothing changes, and the error is handed
    /// on.
    pub fn step_with(&mut self, line: &str, reading: Result<Timestamp, ClockError>) -> (outputs:
        Result<Vec<Output>, ClockError>)
        requires
            old(self)@.wf(),
            old(self)@.creates_task(line@) ==> old(self)@.tasks.next_id < usize::MAX,
        ensures
            !old(self)@.needs_clock(line@) ==> (outputs matches Ok(shown) && forall|now: Timestamp|
                {
                    &&& final(self)@ == (#[trigger] old(self)@.react(line@, now)).next
                    &&& output_views(shown@) == old(self)@.react(line@, now).outputs
                }),
            old(self)@.needs_clock(line@) ==> match reading {
                Ok(now) => outputs matches Ok(shown) && final(self)@ == old(self)@.react(
                    line@,
                    now,
                ).next && output_views(shown@) == old(self)@.react(line@, now).outputs,
                Err(e) => (outputs matches Err(f) && f == e) && final(self)@ == old(self)@,
            },
            final(self)@.wf(),
    {
        if self.needs_clock(line) {
            match reading {
                Ok(now) => Ok(self.step(line, now)),
                Err(e) => Err(e),
            }
        } else {
            Ok(self.step_untimed(line))
        }
    }

    /// Takes one line of input, read now by the local clock. The clock is
    /// read only where the line depends on the time; when it cannot be
    /// read then, nothing changes.
    pub fn step_now(&mut self, line: &str) -> (outputs: Result<Vec<Output>, ClockError>)
        requires
            old(self)@.wf(),
            old(self)@.creates_task(line@) ==> old(self)@.tasks.next_id < usize::MAX,
        ensures
            !old(self)@.needs_clock(line@) ==> (outputs matches Ok(shown) && forall|now: Timestamp|
                {
                    &&& final(self)@ == (#[trigger] old(self)@.react(line@, now)).next
                    &&& output_views(shown@) == old(self)@.react(line@, now).outputs
                }),
            outputs matches Ok(shown) ==> exists|now: Timestamp|
                {
                    &&& final(self)@ == (#[trigger] old(self)@.react(line@, now)).next
                    &&& output_views(shown@) == old(self)@.react(line@, now).outputs
                },
            outputs is Err ==> old(self)@.needs_clock(line@) && final(self)@ == old(self)@,
            final(self)@.wf(),
    {
        if self.needs_clock(line) {
            self.step_with(line, Timestamp::now())
        } else {
            let outputs = self.step_untimed(line);
            proof {
                let any = Timestamp { unix_nanos: 0, offset_seconds: 0 };
                assert(final(self)@ == old(self)@.react(line@, any).next);
            }
            Ok(outputs)
        }
    }
}

} // verus!
