use time_tracking::session::read_command;
use time_tracking::session::Command;
use time_tracking::session::Output;
use time_tracking::session::Phase;
use time_tracking::session::Session;
use time_tracking::task::Task;
use time_tracking::tasks::Tasks;
use time_tracking::timestamp::ClockError;
use time_tracking::timestamp::Timestamp;

fn at(seconds: i128) -> Timestamp {
    Timestamp { unix_nanos: seconds * 1_000_000_000, offset_seconds: 0 }
}

fn descriptions(tasks: &[Task]) -> Vec<String> {
    tasks.iter().map(|t| t.description.clone()).collect()
}

fn ids(tasks: &[Task]) -> Vec<usize> {
    tasks.iter().map(|t| t.id).collect()
}

fn with_open_task() -> Session {
    let mut session = Session::start(at(0));
    session.step("n\n", at(10));
    session.step("Write spec\n", at(20));
    session
}

#[test]
fn command_words_are_matched_exactly() {
    assert_eq!(read_command("h"), Command::Help);
    assert_eq!(read_command("n"), Command::New);
    assert_eq!(read_command("s"), Command::New);
    assert_eq!(read_command("nc"), Command::NewCopy);
    assert_eq!(read_command("lunch"), Command::Lunch);
    assert_eq!(read_command("bio"), Command::Biobreak);
    assert_eq!(read_command("d"), Command::Describe);
    assert_eq!(read_command("dc"), Command::DescribeCopy);
    assert_eq!(read_command("a"), Command::Append);
    assert_eq!(read_command("show"), Command::Show);
    assert_eq!(read_command("quit"), Command::Quit);
    for other in ["", "H", "N", "Quit", "QUIT", "q", "sh", "shows", "lunch ", " h", "help", "nd"] {
        assert_eq!(read_command(other), Command::Unknown, "{:?}", other);
    }
}

#[test]
fn start_records_the_start_up_task() {
    let session = Session::start(at(5));
    assert_eq!(session.phase(), Phase::Command);
    assert!(!session.is_finished());
    let tasks = session.tasks();
    assert_eq!(tasks.closed_count(), 1);
    assert!(!tasks.has_open_task());
    assert_eq!(tasks.next_id(), 1);
    let first = tasks.closed_task(0).unwrap();
    assert_eq!(first.id, 0);
    assert_eq!(first.start, at(5));
    assert_eq!(first.end, at(5));
    assert_eq!(first.description, "Start up of time tracking cli");
}

#[test]
fn start_now_starts_or_fails() {
    match Session::start_now() {
        Ok(session) => {
            assert_eq!(session.tasks().closed_count(), 1);
            assert_eq!(session.phase(), Phase::Command);
        }
        Err(_) => {}
    }
}

#[test]
fn new_task_then_show_lists_one_open_task_and_no_closed_ones() {
    let mut session = Session::over(Tasks::new());
    let asked = session.step("n\n", at(10));
    assert_eq!(asked.len(), 1);
    assert!(matches!(asked[0], Output::NothingToClose));
    assert_eq!(session.phase(), Phase::NewDescription { started: at(10) });
    let started = session.step("Write spec\n", at(25));
    assert_eq!(started.len(), 1);
    assert!(matches!(&started[0], Output::Started(d) if d == "Write spec"));
    assert_eq!(session.phase(), Phase::Command);

    let shown = session.step("show\n", at(30));
    assert_eq!(shown.len(), 2);
    assert!(matches!(&shown[0], Output::Listing(closed) if closed.is_empty()));
    match &shown[1] {
        Output::CurrentTask(task) => {
            assert_eq!(task.id, 0);
            assert_eq!(task.description, "Write spec");
            assert_eq!(task.start, at(10));
            assert_eq!(task.end, at(10));
        }
        other => panic!("unexpected output {:?}", other),
    }
    assert_eq!(session.tasks().closed_count(), 0);
    assert!(session.tasks().has_open_task());
}

#[test]
fn session_from_start_to_quit_holds_three_tasks_in_order() {
    let mut session = Session::start(at(0));
    session.step("n\n", at(10));
    session.step("Write spec\n", at(20));
    let outputs = session.step("quit\n", at(30));
    assert!(session.is_finished());
    assert_eq!(session.phase(), Phase::Finished);
    assert_eq!(outputs.len(), 1);
    assert!(matches!(&outputs[0], Output::Closed(task) if task.description == "Write spec"
        && task.end == at(30)));
    let snapshot = session.tasks().snapshot();
    assert_eq!(
        descriptions(&snapshot),
        vec!["Start up of time tracking cli", "Write spec", "Shut down of time tracking cli"]
    );
    assert_eq!(ids(&snapshot), vec![0, 1, 2]);
    assert_eq!(snapshot[1].start, at(10));
    assert_eq!(snapshot[1].end, at(30));
    assert_eq!(snapshot[2].start, at(30));
    assert_eq!(snapshot[2].end, at(30));
    assert!(!session.tasks().has_open_task());
    assert_eq!(session.tasks().next_id(), 3);
}

#[test]
fn new_copy_aborted_leaves_the_open_task_open() {
    let mut session = with_open_task();
    let before = session.tasks().snapshot();
    let intro = session.step("nc\n", at(30));
    assert_eq!(session.phase(), Phase::CopyForNew);
    assert_eq!(intro.len(), 2);
    assert!(matches!(intro[0], Output::CopyForNewIntro));
    assert!(matches!(&intro[1], Output::Listing(closed) if closed.len() == 1));
    let outputs = session.step("q\n", at(40));
    assert!(outputs.is_empty());
    assert_eq!(session.phase(), Phase::Command);
    let after = session.tasks().snapshot();
    assert_eq!(ids(&after), ids(&before));
    assert_eq!(descriptions(&after), descriptions(&before));
    assert_eq!(session.tasks().next_id(), 2);
    assert_eq!(session.tasks().closed_count(), 1);
    let open = session.tasks().open_task().unwrap();
    assert_eq!(open.id, 1);
    assert_eq!(open.description, "Write spec");
    assert_eq!(open.start, at(10));
    assert_eq!(open.end, at(10));
}

#[test]
fn describe_copy_without_open_task_asks_nothing() {
    let mut session = Session::start(at(0));
    let outputs = session.step("dc\n", at(10));
    assert_eq!(session.phase(), Phase::Command);
    assert_eq!(session.phase().prompt(), Phase::Command.prompt());
    assert_eq!(outputs.len(), 3);
    assert!(matches!(outputs[0], Output::CopyForOpenIntro));
    assert!(matches!(&outputs[1], Output::Listing(closed) if closed.len() == 1));
    assert!(matches!(outputs[2], Output::NoCurrentTask));
    assert_eq!(session.tasks().closed_count(), 1);
    assert!(!session.tasks().has_open_task());
    assert_eq!(session.tasks().next_id(), 1);
    // the next line is read as a command again, not as an identifier
    session.step("0\n", at(20));
    assert!(!session.tasks().has_open_task());
    assert_eq!(session.tasks().next_id(), 1);
}

#[test]
fn describe_and_append_without_open_task_ask_nothing() {
    for word in ["d", "a"] {
        let mut session = Session::start(at(0));
        let outputs = session.step(word, at(10));
        assert_eq!(session.phase(), Phase::Command);
        assert_eq!(outputs.len(), 1);
        assert!(matches!(outputs[0], Output::NoCurrentTask));
        assert_eq!(session.tasks().next_id(), 1);
        assert!(!session.tasks().has_open_task());
    }
}

#[test]
fn help_and_show_change_nothing() {
    for word in ["h\n", "show\n", "  h  ", "\tshow"] {
        let mut session = with_open_task();
        let before = session.tasks().snapshot();
        session.step(word, at(99));
        let after = session.tasks().snapshot();
        assert_eq!(session.phase(), Phase::Command);
        assert_eq!(ids(&after), ids(&before));
        assert_eq!(descriptions(&after), descriptions(&before));
        for (a, b) in after.iter().zip(before.iter()) {
            assert_eq!(a.start, b.start);
            assert_eq!(a.end, b.end);
        }
        assert_eq!(session.tasks().next_id(), 2);
    }
}

#[test]
fn help_shows_the_help_text_and_the_open_task() {
    let mut session = with_open_task();
    let outputs = session.step("h", at(30));
    assert_eq!(outputs.len(), 2);
    assert!(matches!(outputs[0], Output::Help));
    assert!(matches!(&outputs[1], Output::CurrentTask(task) if task.description == "Write spec"));
    let mut idle = Session::start(at(0));
    let outputs = idle.step("h", at(30));
    assert_eq!(outputs.len(), 2);
    assert!(matches!(outputs[0], Output::Help));
    assert!(matches!(outputs[1], Output::NoCurrentTask));
}

#[test]
fn unknown_commands_are_ignored() {
    for line in ["", "\n", "help", "N", "Show", "quit now", "q", "42"] {
        let mut session = with_open_task();
        let outputs = session.step(line, at(50));
        assert!(outputs.is_empty());
        assert_eq!(session.phase(), Phase::Command);
        assert_eq!(session.tasks().next_id(), 2);
        assert_eq!(session.tasks().closed_count(), 1);
        assert_eq!(session.tasks().open_task().unwrap().description, "Write spec");
    }
}

#[test]
fn new_closes_the_open_task_and_starts_at_the_time_of_the_command() {
    let mut session = with_open_task();
    let outputs = session.step("s\n", at(100));
    assert_eq!(outputs.len(), 1);
    assert!(matches!(&outputs[0], Output::Closed(task) if task.id == 1 && task.end == at(100)));
    assert_eq!(session.phase(), Phase::NewDescription { started: at(100) });
    assert!(!session.tasks().has_open_task());
    assert_eq!(session.tasks().closed_count(), 2);
    session.step("  Read the draft \n", at(160));
    let open = session.tasks().open_task().unwrap();
    assert_eq!(open.id, 2);
    assert_eq!(open.description, "Read the draft");
    assert_eq!(open.start, at(100));
    assert_eq!(open.end, at(100));
    assert_eq!(session.tasks().next_id(), 3);
}

#[test]
fn new_description_may_be_empty_or_a_command_word() {
    let mut session = Session::start(at(0));
    session.step("n", at(1));
    session.step("quit\n", at(2));
    assert!(!session.is_finished());
    assert_eq!(session.tasks().open_task().unwrap().description, "quit");
    session.step("n", at(3));
    session.step("   \n", at(4));
    assert_eq!(session.tasks().open_task().unwrap().description, "");
}

#[test]
fn lunch_and_bio_switch_to_a_fixed_description() {
    let mut session = with_open_task();
    let outputs = session.step("lunch\n", at(50));
    assert_eq!(outputs.len(), 2);
    assert!(matches!(&outputs[0], Output::Closed(task) if task.description == "Write spec"
        && task.end == at(50)));
    assert!(matches!(&outputs[1], Output::Started(d) if d == "Lunch"));
    let open = session.tasks().open_task().unwrap();
    assert_eq!(open.id, 2);
    assert_eq!(open.description, "Lunch");
    assert_eq!(open.start, at(50));
    assert_eq!(session.phase(), Phase::Command);

    let outputs = session.step("bio\n", at(70));
    assert_eq!(outputs.len(), 2);
    assert!(matches!(&outputs[0], Output::Closed(task) if task.description == "Lunch"));
    assert!(matches!(&outputs[1], Output::Started(d) if d == "Biobreak"));
    let open = session.tasks().open_task().unwrap();
    assert_eq!(open.id, 3);
    assert_eq!(open.description, "Biobreak");
    assert_eq!(session.tasks().closed_count(), 3);
}

#[test]
fn lunch_without_open_task_says_that_nothing_was_closed() {
    let mut session = Session::start(at(0));
    let outputs = session.step("lunch", at(5));
    assert_eq!(outputs.len(), 2);
    assert!(matches!(outputs[0], Output::NothingToClose));
    assert!(matches!(&outputs[1], Output::Started(d) if d == "Lunch"));
    assert_eq!(session.tasks().closed_count(), 1);
    assert_eq!(session.tasks().open_task().unwrap().id, 1);
}

#[test]
fn describe_replaces_the_description() {
    let mut session = with_open_task();
    let outputs = session.step("d\n", at(30));
    assert_eq!(outputs.len(), 1);
    assert!(matches!(&outputs[0], Output::CurrentTask(task) if task.description == "Write spec"));
    assert_eq!(session.phase(), Phase::ReplaceDescription);
    let outputs = session.step("  Write the spec again \n", at(40));
    assert!(outputs.is_empty());
    assert_eq!(session.phase(), Phase::Command);
    let open = session.tasks().open_task().unwrap();
    assert_eq!(open.description, "Write the spec again");
    assert_eq!(open.id, 1);
    assert_eq!(open.start, at(10));
    assert_eq!(session.tasks().next_id(), 2);
}

#[test]
fn append_adds_the_line_without_its_trailing_white_space() {
    let mut session = with_open_task();
    session.step("a\n", at(30));
    assert_eq!(session.phase(), Phase::AppendText);
    let outputs = session.step("  and  read it \n", at(40));
    assert!(outputs.is_empty());
    assert_eq!(session.phase(), Phase::Command);
    assert_eq!(session.tasks().open_task().unwrap().description, "Write spec  and  read it");
}

#[test]
fn describe_copy_copies_a_closed_description() {
    let mut session = with_open_task();
    session.step("lunch", at(30));
    let outputs = session.step("dc\n", at(40));
    assert_eq!(outputs.len(), 3);
    assert!(matches!(&outputs[1], Output::Listing(closed) if closed.len() == 2));
    assert!(matches!(&outputs[2], Output::CurrentTask(task) if task.description == "Lunch"));
    assert_eq!(session.phase(), Phase::CopyForOpen);
    // what is no identifier of a closed task is asked for again
    for wrong in ["", "x", "2", "-1", "1.5", "99999999999999999999999"] {
        let outputs = session.step(wrong, at(41));
        assert!(outputs.is_empty());
        assert_eq!(session.phase(), Phase::CopyForOpen);
        assert_eq!(session.tasks().open_task().unwrap().description, "Lunch");
    }
    let outputs = session.step(" 1 \n", at(50));
    assert!(outputs.is_empty());
    assert_eq!(session.phase(), Phase::Command);
    let open = session.tasks().open_task().unwrap();
    assert_eq!(open.description, "Write spec");
    assert_eq!(open.id, 2);
    assert_eq!(open.start, at(30));
    assert_eq!(session.tasks().closed_task(1).unwrap().description, "Write spec");
    // a later change of the open task leaves the closed one alone
    session.step("a", at(60));
    session.step(" more", at(61));
    assert_eq!(session.tasks().open_task().unwrap().description, "Write spec more");
    assert_eq!(session.tasks().closed_task(1).unwrap().description, "Write spec");
}

#[test]
fn describe_copy_aborted_changes_nothing() {
    let mut session = with_open_task();
    session.step("dc", at(30));
    let outputs = session.step("q", at(31));
    assert!(outputs.is_empty());
    assert_eq!(session.phase(), Phase::Command);
    assert_eq!(session.tasks().open_task().unwrap().description, "Write spec");
    assert_eq!(session.tasks().next_id(), 2);
}

#[test]
fn new_copy_closes_the_open_task_and_copies_the_description() {
    let mut session = with_open_task();
    session.step("nc", at(30));
    // the open task is not closed yet, so only the first task can be chosen
    let outputs = session.step("1", at(31));
    assert!(outputs.is_empty());
    assert_eq!(session.phase(), Phase::CopyForNew);
    assert!(session.tasks().has_open_task());
    let outputs = session.step("0\n", at(40));
    assert_eq!(outputs.len(), 2);
    assert!(matches!(&outputs[0], Output::Closed(task) if task.description == "Write spec"
        && task.end == at(40)));
    assert!(matches!(&outputs[1], Output::Started(d) if d == "Start up of time tracking cli"));
    assert_eq!(session.phase(), Phase::Command);
    let open = session.tasks().open_task().unwrap();
    assert_eq!(open.id, 2);
    assert_eq!(open.description, "Start up of time tracking cli");
    assert_eq!(open.start, at(40));
    assert_eq!(open.end, at(40));
    assert_eq!(session.tasks().closed_count(), 2);
    assert_eq!(session.tasks().next_id(), 3);
}

#[test]
fn new_copy_with_no_closed_task_can_only_be_aborted() {
    let mut session = Session::over(Tasks::new());
    session.step("nc", at(1));
    for entry in ["0", "1", "x"] {
        session.step(entry, at(2));
        assert_eq!(session.phase(), Phase::CopyForNew);
    }
    session.step("q", at(3));
    assert_eq!(session.phase(), Phase::Command);
    assert_eq!(session.tasks().next_id(), 0);
}

#[test]
fn quit_without_open_task_records_the_shut_down() {
    let mut session = Session::start(at(0));
    let outputs = session.step("quit", at(9));
    assert_eq!(outputs.len(), 1);
    assert!(matches!(outputs[0], Output::NothingToClose));
    assert!(session.is_finished());
    let snapshot = session.tasks().snapshot();
    assert_eq!(
        descriptions(&snapshot),
        vec!["Start up of time tracking cli", "Shut down of time tracking cli"]
    );
    assert_eq!(snapshot[1].start, at(9));
    assert_eq!(snapshot[1].end, at(9));
}

#[test]
fn finished_session_ignores_every_line() {
    let mut session = Session::start(at(0));
    session.step("quit", at(1));
    for line in ["n", "lunch", "quit", "show", ""] {
        let outputs = session.step(line, at(2));
        assert!(outputs.is_empty());
        assert!(session.is_finished());
        assert_eq!(session.tasks().next_id(), 2);
        assert!(!session.tasks().has_open_task());
    }
}

#[test]
fn identifiers_follow_the_order_of_creation_through_a_session() {
    let mut session = Session::start(at(0));
    let lines = [
        "n", "one", "lunch", "bio", "nc", "1", "d", "renamed", "dc", "0", "a", " more", "show", "h",
        "bogus", "s", "two", "nc", "q", "quit",
    ];
    let mut now = 1;
    for line in lines {
        session.step(line, at(now));
        now += 1;
        let snapshot = session.tasks().snapshot();
        assert_eq!(session.tasks().next_id(), snapshot.len());
        for (index, task) in snapshot.iter().enumerate() {
            assert_eq!(task.id, index);
            assert!(task.end.is_not_before(&task.start));
        }
    }
    assert!(session.is_finished());
    assert_eq!(
        descriptions(&session.tasks().snapshot()),
        vec![
            "Start up of time tracking cli",
            "one",
            "Lunch",
            "Biobreak",
            "Start up of time tracking cli more",
            "two",
            "Shut down of time tracking cli",
        ]
    );
}

#[test]
fn step_now_steps_or_changes_nothing() {
    let mut session = Session::start(at(0));
    match session.step_now("lunch") {
        Ok(outputs) => {
            assert_eq!(outputs.len(), 2);
            assert_eq!(session.tasks().open_task().unwrap().description, "Lunch");
        }
        Err(_) => {
            assert!(!session.tasks().has_open_task());
            assert_eq!(session.tasks().next_id(), 1);
        }
    }
}

#[test]
fn start_with_a_reading_starts_then_or_hands_the_error_on() {
    let session = Session::start_with(Ok(at(5))).unwrap();
    assert_eq!(session.phase(), Phase::Command);
    assert_eq!(session.tasks().closed_count(), 1);
    let first = session.tasks().closed_task(0).unwrap();
    assert_eq!(first.start, at(5));
    assert_eq!(first.end, at(5));
    assert_eq!(first.description, "Start up of time tracking cli");
    assert!(matches!(Session::start_with(Err(ClockError)), Err(ClockError)));
}

#[test]
fn clock_is_needed_where_a_task_is_closed_or_opened() {
    let session = with_open_task();
    for line in ["n", "s\n", " lunch ", "bio", "quit"] {
        assert!(session.needs_clock(line), "{:?}", line);
    }
    for line in ["h", "show", "d", "dc", "a", "nc", "", "bogus", "q", "0"] {
        assert!(!session.needs_clock(line), "{:?}", line);
    }
    let mut choosing = with_open_task();
    choosing.step("nc", at(30));
    assert!(choosing.needs_clock("0"));
    assert!(choosing.needs_clock(" +0\n"));
    for line in ["q", "1", "x", "", "lunch"] {
        assert!(!choosing.needs_clock(line), "{:?}", line);
    }
    let mut describing = Session::start(at(0));
    describing.step("n", at(1));
    for line in ["lunch", "quit", "anything", "0"] {
        assert!(!describing.needs_clock(line), "{:?}", line);
    }
    let mut finished = Session::start(at(0));
    finished.step("quit", at(1));
    assert!(!finished.needs_clock("lunch"));
}

#[test]
fn step_without_a_reading_fails_only_where_the_clock_is_needed() {
    for line in ["n", "lunch", "bio", "quit"] {
        let mut session = with_open_task();
        assert!(matches!(session.step_with(line, Err(ClockError)), Err(ClockError)));
        assert_eq!(session.phase(), Phase::Command);
        assert_eq!(session.tasks().next_id(), 2);
        assert_eq!(session.tasks().closed_count(), 1);
        assert_eq!(session.tasks().open_task().unwrap().description, "Write spec");
    }
    let mut session = with_open_task();
    let shown = session.step_with("show", Err(ClockError)).unwrap();
    assert_eq!(shown.len(), 2);
    let asked = session.step_with("d", Err(ClockError)).unwrap();
    assert_eq!(asked.len(), 1);
    assert_eq!(session.phase(), Phase::ReplaceDescription);
    session.step_with("Other words", Err(ClockError)).unwrap();
    assert_eq!(session.tasks().open_task().unwrap().description, "Other words");
    session.step_with("nc", Err(ClockError)).unwrap();
    assert_eq!(session.phase(), Phase::CopyForNew);
    session.step_with("7", Err(ClockError)).unwrap();
    assert_eq!(session.phase(), Phase::CopyForNew);
    assert!(matches!(session.step_with("0", Err(ClockError)), Err(ClockError)));
    assert_eq!(session.phase(), Phase::CopyForNew);
    assert_eq!(session.tasks().next_id(), 2);
    session.step_with("q", Err(ClockError)).unwrap();
    assert_eq!(session.phase(), Phase::Command);
    assert_eq!(session.tasks().open_task().unwrap().description, "Other words");
}

#[test]
fn step_with_a_reading_steps_at_that_time() {
    let mut session = with_open_task();
    let outputs = session.step_with("lunch", Ok(at(50))).unwrap();
    assert_eq!(outputs.len(), 2);
    assert_eq!(session.tasks().closed_task(1).unwrap().end, at(50));
    let open = session.tasks().open_task().unwrap();
    assert_eq!(open.description, "Lunch");
    assert_eq!(open.start, at(50));
    let shown = session.step_with("show", Ok(at(60))).unwrap();
    assert_eq!(shown.len(), 2);
    assert_eq!(session.tasks().open_task().unwrap().start, at(50));
}

#[test]
fn step_now_always_takes_lines_that_do_not_need_the_clock() {
    let mut session = with_open_task();
    assert_eq!(session.step_now("show").unwrap().len(), 2);
    assert_eq!(session.step_now("h").unwrap().len(), 2);
    assert!(session.step_now("bogus").unwrap().is_empty());
    assert_eq!(session.step_now("a").unwrap().len(), 1);
    assert!(session.step_now(" and more \n").unwrap().is_empty());
    assert_eq!(session.tasks().open_task().unwrap().description, "Write spec and more");
    assert_eq!(session.step_now("nc").unwrap().len(), 2);
    assert!(session.step_now("q").unwrap().is_empty());
    assert_eq!(session.phase(), Phase::Command);
    assert_eq!(session.tasks().next_id(), 2);
    assert_eq!(session.tasks().open_task().unwrap().start, at(10));
}

#[test]
fn closed_tasks_never_end_before_they_start_when_the_clock_runs_back() {
    let mut session = Session::start(at(1000));
    let lines = ["n", "one", "lunch", "bio", "nc", "1", "s", "two", "quit"];
    let mut now = 900;
    for line in lines {
        session.step(line, at(now));
        now -= 100;
        for task in session.tasks().snapshot() {
            assert!(task.end.is_not_before(&task.start), "{:?}", task);
        }
    }
    assert!(session.is_finished());
    let snapshot = session.tasks().snapshot();
    assert_eq!(snapshot.len(), 7);
    // the task opened at 900 was closed at a reading of 700: it ends at its start
    assert_eq!(snapshot[1].start, at(900));
    assert_eq!(snapshot[1].end, at(900));
}

#[test]
fn closing_through_a_command_ends_at_the_start_on_an_earlier_reading() {
    let mut session = with_open_task();
    let outputs = session.step("lunch", at(4));
    assert!(matches!(&outputs[0], Output::Closed(task) if task.start == at(10)
        && task.end == at(10)));
    assert_eq!(session.tasks().closed_task(1).unwrap().end, at(10));
    let open = session.tasks().open_task().unwrap();
    assert_eq!(open.start, at(4));
    assert_eq!(open.end, at(4));
}

#[test]
fn task_is_created_by_the_lines_that_open_or_record_one() {
    let session = with_open_task();
    for line in ["lunch", " bio\n", "quit"] {
        assert!(session.creates_task(line), "{:?}", line);
    }
    for line in ["n", "s", "h", "show", "d", "dc", "a", "nc", "", "bogus", "0"] {
        assert!(!session.creates_task(line), "{:?}", line);
    }
    let mut describing = with_open_task();
    describing.step("n", at(30));
    for line in ["anything", "", "q"] {
        assert!(describing.creates_task(line), "{:?}", line);
    }
    let mut choosing = with_open_task();
    choosing.step("nc", at(30));
    assert!(choosing.creates_task("0"));
    for line in ["q", "1", "x"] {
        assert!(!choosing.creates_task(line), "{:?}", line);
    }
    let mut changing = with_open_task();
    changing.step("d", at(30));
    assert!(!changing.creates_task("lunch"));
}
