//! What holds of the store and of the session whatever lines are read.

use crate::export::export_records;
use crate::session::command_of;
use crate::session::Command;
use crate::session::OutputView;
use crate::session::Phase;
use crate::session::SessionView;
use crate::session::ABORT;
use crate::session::BIOBREAK;
use crate::session::LUNCH;
use crate::session::SHUT_DOWN;
use crate::session::START_UP;
use crate::tasks::TasksView;
use crate::text::index_below;
use crate::text::lemma_white_bounds;
use crate::text::trimmed;
use crate::text::trimmed_end;
use crate::timestamp::Timestamp;
use vstd::prelude::*;

verus! {

/// One line of input together with the time at which it was read.
pub struct Input {
    pub line: Seq<char>,
    pub at: Timestamp,
}

/// The session after the lines `inputs` were read one after the other.
pub open spec fn run(session: SessionView, inputs: Seq<Input>) -> SessionView
    decreases inputs.len(),
{
    if inputs.len() == 0 {
        session
    } else {
        run(session, inputs.drop_last()).react(inputs.last().line, inputs.last().at).next
    }
}

/// In a well-formed store the next identifier is the number of tasks
/// created so far, the tasks carry the identifiers 0, 1, 2, ... without
/// gap or repeat, and at most one of them is open: it is none of the
/// closed ones.
pub proof fn law_identifiers_count_the_tasks(store: TasksView)
    requires
        store.wf(),
    ensures
        store.next_id == store.snapshot().len(),
        store.closed.len() <= store.snapshot().len() <= store.closed.len() + 1,
        forall|n: nat| n < store.next_id ==> (#[trigger] store.snapshot()[n as int]).id == n,
        forall|i: int, j: int|
            0 <= i < j < store.snapshot().len() ==> store.snapshot()[i].id != store.snapshot()[j].id,
        forall|i: int|
            0 <= i < store.closed.len() && store.open is Some ==> (#[trigger] store.closed[i]).id
                != store.open->0.id,
{
    assert forall|i: int|
        0 <= i < store.closed.len() && store.open is Some implies (#[trigger] store.closed[i]).id
        != store.open->0.id by {
        assert(store.snapshot()[i] == store.closed[i]);
        assert(store.snapshot()[store.closed.len() as int] == store.open->0);
    }
}

/// The empty store is well formed, and every operation on a well-formed
/// store gives a well-formed store. To create a task raises the next
/// identifier by one and gives the task the old one; nothing else changes
/// the next identifier.
pub proof fn law_operations_keep_the_store_well_formed(
    store: TasksView,
    text: Seq<char>,
    at: Timestamp,
)
    requires
        store.wf(),
    ensures
        TasksView::empty().wf(),
        TasksView::empty().next_id == 0,
        store.close_open(at).wf(),
        store.close_open(at).next_id == store.next_id,
        store.replace_open_description(text).wf(),
        store.replace_open_description(text).next_id == store.next_id,
        store.append_to_open_description(text).wf(),
        store.append_to_open_description(text).next_id == store.next_id,
        store.open is None ==> {
            &&& store.open_new(text, at).wf()
            &&& store.open_new(text, at).next_id == store.next_id + 1
            &&& store.open_new(text, at).open->0.id == store.next_id
            &&& store.record(text, at).wf()
            &&& store.record(text, at).next_id == store.next_id + 1
            &&& store.record(text, at).closed.last().id == store.next_id
        },
{
    assert(TasksView::empty().snapshot() =~= Seq::empty());
    law_close_keeps_the_tasks_in_order(store, at);
    match store.open {
        Some(task) => {
            assert(store.close_open(at).snapshot() =~= store.closed.push(task.ended(at)));
            assert forall|i: int| 0 <= i < store.close_open(at).snapshot().len() implies (
            #[trigger] store.close_open(at).snapshot()[i]).id == i by {
                assert(store.snapshot()[i].id == i);
            }
            let replaced = store.replace_open_description(text);
            assert forall|i: int| 0 <= i < replaced.snapshot().len() implies (
            #[trigger] replaced.snapshot()[i]).id == i by {
                assert(store.snapshot()[i].id == i);
            }
            let appended = store.append_to_open_description(text);
            assert forall|i: int| 0 <= i < appended.snapshot().len() implies (
            #[trigger] appended.snapshot()[i]).id == i by {
                assert(store.snapshot()[i].id == i);
            }
        },
        None => {
            let opened = store.open_new(text, at);
            assert forall|i: int| 0 <= i < opened.snapshot().len() implies (
            #[trigger] opened.snapshot()[i]).id == i by {
                if i < store.closed.len() {
                    assert(store.snapshot()[i].id == i);
                }
            }
            let recorded = store.record(text, at);
            assert forall|i: int| 0 <= i < recorded.snapshot().len() implies (
            #[trigger] recorded.snapshot()[i]).id == i by {
                if i < store.closed.len() {
                    assert(store.snapshot()[i].id == i);
                }
            }
            assert forall|i: int| 0 <= i < recorded.closed.len() implies (
            #[trigger] recorded.closed[i]).in_order() by {
                if i < store.closed.len() {
                    assert(recorded.closed[i] == store.closed[i]);
                }
            }
        },
    }
}

/// A task that is closed ends no earlier than it starts, whatever the
/// time at which it is closed: it ends then, or at its start where that
/// time is earlier. So to close the open task keeps every closed task in
/// order.
pub proof fn law_close_keeps_the_tasks_in_order(store: TasksView, end: Timestamp)
    ensures
        store.open matches Some(task) ==> {
            &&& task.ended(end).in_order()
            &&& task.ended(end).start == task.start
            &&& end.not_before(task.start) ==> task.ended(end).end == end
            &&& !end.not_before(task.start) ==> task.ended(end).end == task.start
        },
        store.in_order() ==> store.close_open(end).in_order(),
{
    let after = store.close_open(end);
    if store.in_order() {
        assert forall|i: int| 0 <= i < after.closed.len() implies (
        #[trigger] after.closed[i]).in_order() by {
            if i < store.closed.len() {
                assert(after.closed[i] == store.closed[i]);
            }
        }
    }
}

/// To close the open task puts it, with its end set, at the tail of the
/// closed tasks, once: the tasks closed before stay as they were, in
/// their places, and none of them has its identifier. The closed task
/// ends no earlier than it starts, and the store stays well formed.
pub proof fn law_close_appends_the_task(store: TasksView, end: Timestamp)
    requires
        store.wf(),
        store.open is Some,
    ensures
        store.close_open(end).wf(),
        store.close_open(end).open is None,
        store.close_open(end).closed == store.closed.push(store.open->0.ended(end)),
        store.close_open(end).closed.last() == store.open->0.ended(end),
        store.close_open(end).closed.last().end == store.open->0.end_at(end),
        store.close_open(end).closed.last().start == store.open->0.start,
        store.close_open(end).closed.last().in_order(),
        store.closed.is_prefix_of(store.close_open(end).closed),
        forall|i: int|
            0 <= i < store.closed.len() ==> (#[trigger] store.close_open(end).closed[i]).id
                != store.open->0.id,
{
    law_identifiers_count_the_tasks(store);
    law_operations_keep_the_store_well_formed(store, Seq::empty(), end);
    let after = store.close_open(end);
    assert forall|i: int| 0 <= i < store.closed.len() implies (#[trigger] after.closed[i]).id
        != store.open->0.id by {
        assert(after.closed[i] == store.closed[i]);
    }
}

/// To add `extra` to the open task's description gives exactly the old
/// description followed by `extra`: the old one stays in front, and
/// nothing is taken from either. Nothing else changes.
pub proof fn law_append_keeps_the_description_in_front(store: TasksView, extra: Seq<char>)
    requires
        store.open is Some,
    ensures
        store.append_to_open_description(extra).open->0.description == store.open->0.description
            + extra,
        store.open->0.description.is_prefix_of(
            store.append_to_open_description(extra).open->0.description,
        ),
        store.append_to_open_description(extra).open->0 == store.open->0.described(
            store.open->0.description + extra,
        ),
        store.append_to_open_description(extra).closed == store.closed,
        store.append_to_open_description(extra).next_id == store.next_id,
{
}

/// To copy the description of the closed task at `index` into the open
/// task gives the open task that very description, and the closed task
/// keeps it whatever the open task's description is changed to later.
pub proof fn law_copy_takes_the_description(store: TasksView, index: nat, later: Seq<char>)
    requires
        store.open is Some,
        index < store.closed.len(),
    ensures
        store.description_of(index) == Some(store.closed[index as int].description),
        store.replace_open_description(store.closed[index as int].description).open->0.description
            == store.closed[index as int].description,
        store.replace_open_description(store.closed[index as int].description).closed
            == store.closed,
        store.replace_open_description(
            store.closed[index as int].description,
        ).replace_open_description(later).closed[index as int].description
            == store.closed[index as int].description,
        store.replace_open_description(
            store.closed[index as int].description,
        ).append_to_open_description(later).closed[index as int].description
            == store.closed[index as int].description,
{
}

/// Each of the eleven command words names its command, and the empty
/// line names none.
pub proof fn law_command_words()
    ensures
        command_of("h"@) == Command::Help,
        command_of("n"@) == Command::New,
        command_of("s"@) == Command::New,
        command_of("nc"@) == Command::NewCopy,
        command_of("lunch"@) == Command::Lunch,
        command_of("bio"@) == Command::Biobreak,
        command_of("d"@) == Command::Describe,
        command_of("dc"@) == Command::DescribeCopy,
        command_of("a"@) == Command::Append,
        command_of("show"@) == Command::Show,
        command_of("quit"@) == Command::Quit,
        command_of(""@) == Command::Unknown,
{
    reveal_strlit("h");
    reveal_strlit("n");
    reveal_strlit("s");
    reveal_strlit("nc");
    reveal_strlit("lunch");
    reveal_strlit("bio");
    reveal_strlit("d");
    reveal_strlit("dc");
    reveal_strlit("a");
    reveal_strlit("show");
    reveal_strlit("quit");
    reveal_strlit("");
    assert("h"@.len() == 1 && "n"@.len() == 1 && "s"@.len() == 1 && "d"@.len() == 1 && "a"@.len()
        == 1);
    assert("nc"@.len() == 2 && "dc"@.len() == 2);
    assert("h"@[0] == 'h' && "n"@[0] == 'n' && "s"@[0] == 's' && "d"@[0] == 'd' && "a"@[0] == 'a');
    assert("nc"@[0] == 'n' && "dc"@[0] == 'd');
    assert("bio"@.len() == 3 && "show"@.len() == 4 && "quit"@.len() == 4 && "lunch"@.len() == 5);
    assert("show"@[0] == 's' && "quit"@[0] == 'q');
    assert(""@.len() == 0);
}

/// The commands that only show something, `h` and `show`, leave the
/// session as it was: its store, and so the snapshot and the records
/// that are written out, are the same before and after.
pub proof fn law_showing_changes_nothing(session: SessionView, line: Seq<char>, now: Timestamp)
    requires
        session.phase == Phase::Command,
        command_of(trimmed(line)) == Command::Help || command_of(trimmed(line)) == Command::Show,
    ensures
        session.react(line, now).next == session,
        session.react(line, now).next.tasks.snapshot() == session.tasks.snapshot(),
        export_records(session.react(line, now).next.tasks) == export_records(session.tasks),
{
}

/// A line that names no command leaves the session as it was and shows
/// nothing.
pub proof fn law_unknown_commands_are_ignored(
    session: SessionView,
    line: Seq<char>,
    now: Timestamp,
)
    requires
        session.phase == Phase::Command,
        command_of(trimmed(line)) == Command::Unknown,
    ensures
        session.react(line, now).next == session,
        session.react(line, now).outputs == Seq::<OutputView>::empty(),
{
}

/// The commands that change the open task, `d`, `dc` and `a`, ask for
/// nothing and change nothing when no task is open: the session goes on
/// waiting for commands.
pub proof fn law_no_open_task_no_question(session: SessionView, line: Seq<char>, now: Timestamp)
    requires
        session.phase == Phase::Command,
        session.tasks.open is None,
        command_of(trimmed(line)) == Command::Describe || command_of(trimmed(line))
            == Command::DescribeCopy || command_of(trimmed(line)) == Command::Append,
    ensures
        session.react(line, now).next == session,
{
}

/// The abort word, given where an identifier is asked for, leaves the
/// store as it was and brings the session back to waiting for commands.
pub proof fn law_abort_changes_nothing(session: SessionView, line: Seq<char>, now: Timestamp)
    requires
        session.phase == Phase::CopyForNew || session.phase == Phase::CopyForOpen,
        trimmed(line) == ABORT@,
    ensures
        session.react(line, now).next.tasks == session.tasks,
        session.react(line, now).next.phase == Phase::Command,
        session.react(line, now).outputs == Seq::<OutputView>::empty(),
{
}

/// To ask for a new task under the description of a closed one and then
/// to give the abort word leaves the session as it was: no task is
/// closed, none is created, and the task that was open is still open.
pub proof fn law_new_copy_aborted(
    session: SessionView,
    command: Seq<char>,
    answer: Seq<char>,
    asked: Timestamp,
    answered: Timestamp,
)
    requires
        session.phase == Phase::Command,
        command_of(trimmed(command)) == Command::NewCopy || command_of(trimmed(command))
            == Command::DescribeCopy,
        trimmed(answer) == ABORT@,
    ensures
        session.react(command, asked).next.tasks == session.tasks,
        session.react(command, asked).next.react(answer, answered).next == session,
{
    law_command_words();
    reveal_strlit("q");
    reveal_strlit("h");
    reveal_strlit("n");
    reveal_strlit("s");
    reveal_strlit("nc");
    reveal_strlit("lunch");
    reveal_strlit("bio");
    reveal_strlit("d");
    reveal_strlit("dc");
    reveal_strlit("a");
    reveal_strlit("show");
    reveal_strlit("quit");
    assert(command_of(ABORT@) == Command::Unknown);
}

/// The text that `a` adds is the line without its trailing white space:
/// the open task's description afterwards is the old one followed by
/// that text, with the white space in front of it and inside it kept.
pub proof fn law_append_line(session: SessionView, line: Seq<char>, now: Timestamp)
    requires
        session.phase == Phase::AppendText,
        session.tasks.open is Some,
    ensures
        session.react(line, now).next.tasks.open->0.description
            == session.tasks.open->0.description + trimmed_end(line),
        trimmed_end(line).is_prefix_of(line),
        session.react(line, now).next.tasks.closed == session.tasks.closed,
{
    lemma_white_bounds(line);
}

/// A line that neither closes nor opens a task leads to the same session
/// and the same outputs at whatever time it is read.
pub proof fn law_time_matters_only_where_needed(
    session: SessionView,
    line: Seq<char>,
    now: Timestamp,
    other: Timestamp,
)
    requires
        !session.needs_clock(line),
    ensures
        session.react(line, now) == session.react(line, other),
{
}

/// Every line leaves a well-formed session well formed, keeps the closed
/// tasks as they were and in their places, and creates at most one task.
pub proof fn law_react_keeps_the_session_well_formed(
    session: SessionView,
    line: Seq<char>,
    now: Timestamp,
)
    requires
        session.wf(),
    ensures
        session.react(line, now).next.wf(),
        session.tasks.closed.is_prefix_of(session.react(line, now).next.tasks.closed),
        session.tasks.next_id <= session.react(line, now).next.tasks.next_id <= session.tasks.next_id
            + 1,
{
    let tasks = session.tasks;
    let entry = trimmed(line);
    law_operations_keep_the_store_well_formed(tasks, entry, now);
    let closed = tasks.close_open(now);
    match session.phase {
        Phase::Command => {
            law_operations_keep_the_store_well_formed(closed, LUNCH@, now);
            law_operations_keep_the_store_well_formed(
                closed,
                BIOBREAK@,
                now,
            );
            law_operations_keep_the_store_well_formed(
                closed,
                SHUT_DOWN@,
                now,
            );
        },
        Phase::NewDescription { started } => {
            law_operations_keep_the_store_well_formed(tasks, entry, started);
        },
        Phase::CopyForNew => {
            match index_below(entry, tasks.closed.len()) {
                Some(id) => {
                    law_operations_keep_the_store_well_formed(
                        closed,
                        tasks.closed[id as int].description,
                        now,
                    );
                },
                None => {},
            }
        },
        Phase::CopyForOpen => {
            match index_below(entry, tasks.closed.len()) {
                Some(id) => {
                    law_operations_keep_the_store_well_formed(
                        tasks,
                        tasks.closed[id as int].description,
                        now,
                    );
                },
                None => {},
            }
        },
        Phase::AppendText => {
            law_operations_keep_the_store_well_formed(tasks, trimmed_end(line), now);
        },
        _ => {},
    }
}

/// Whatever lines are read, and whatever the clock gives while they are
/// read, a well-formed session stays well formed: after them the next
/// identifier is the number of tasks created, the tasks carry the
/// identifiers 0, 1, 2, ... without gap or repeat, every closed task
/// ends no earlier than it starts, and the tasks that were closed before
/// are still there, unchanged and in their places.
pub proof fn law_run_keeps_the_session_well_formed(session: SessionView, inputs: Seq<Input>)
    requires
        session.wf(),
    ensures
        run(session, inputs).wf(),
        run(session, inputs).tasks.in_order(),
        run(session, inputs).tasks.next_id == run(session, inputs).tasks.snapshot().len(),
        forall|n: nat|
            n < run(session, inputs).tasks.next_id ==> (#[trigger] run(
                session,
                inputs,
            ).tasks.snapshot()[n as int]).id == n,
        session.tasks.closed.is_prefix_of(run(session, inputs).tasks.closed),
        session.tasks.next_id <= run(session, inputs).tasks.next_id <= session.tasks.next_id
            + inputs.len(),
    decreases inputs.len(),
{
    if inputs.len() > 0 {
        let before = run(session, inputs.drop_last());
        law_run_keeps_the_session_well_formed(session, inputs.drop_last());
        law_react_keeps_the_session_well_formed(before, inputs.last().line, inputs.last().at);
    }
    law_identifiers_count_the_tasks(run(session, inputs).tasks);
}

/// A session that has just started is well formed and holds one task,
/// closed, that starts and ends at the start of the session.
pub proof fn law_start_is_well_formed(now: Timestamp)
    ensures
        SessionView::started(now).wf(),
        SessionView::started(now).tasks.in_order(),
        SessionView::started(now).tasks.next_id == 1,
        SessionView::started(now).tasks.open is None,
        SessionView::started(now).tasks.closed.len() == 1,
{
    law_operations_keep_the_store_well_formed(
        TasksView::empty(),
        START_UP@,
        now,
    );
}

} // verus!
