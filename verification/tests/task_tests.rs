use taskoto::taskoto::{set_style, Colour, Effect};
use taskoto::calendar::format_date;
use taskoto::project::Project;
use taskoto::task::{get_date, sort_tasks, Filter, Task, TaskStatus, Urgency};

// Wednesday, January 15, 2025.
const TODAY: i32 = 739266;

fn task_with(id: i32, due: Option<i32>, started: bool) -> Task {
    let mut t = Task::new();
    t.id = id;
    t.due = due;
    t._is_started = started;
    t
}

#[test]
fn new_task() {
    let t = Task::new();
    assert_eq!(t.id, 1);
    assert_eq!(t.name, "default_name");
    assert!(t.status == TaskStatus::Pending);
    assert_eq!(t.due, None);
    assert_eq!(t.project_id, None);
    assert!(!t._is_started);
    assert_eq!(t._urgent, Urgency { num: 1, den: 1 });
}

#[test]
fn weekday_words_count_to_the_next_such_day() {
    let mut t = Task::new();
    t.set_date(Some(String::from("monday")), 0, TODAY, 1);
    assert_eq!(t.due, Some(TODAY + 5));
    t.set_date(Some(String::from("Mon")), 0, TODAY, 1);
    assert_eq!(t.due, Some(TODAY + 5));
    t.set_date(Some(String::from("wed")), 0, TODAY, 1);
    assert_eq!(t.due, Some(TODAY + 7));
    t.set_date(Some(String::from("thursday")), 1, TODAY, 1);
    assert_eq!(t.scheduled, Some(TODAY + 1));
    t.set_date(Some(String::from("SUNDAY")), 1, TODAY, 1);
    assert_eq!(t.scheduled, Some(TODAY + 4));
    t.set_date(Some(String::from("tue")), 1, TODAY, 1);
    assert_eq!(t.scheduled, Some(TODAY + 6));
}

#[test]
fn the_misspelt_wednesday_is_the_keyword() {
    let mut t = Task::new();
    t.set_date(Some(String::from("wednsday")), 0, TODAY, 1);
    assert_eq!(t.due, Some(TODAY + 7));
    t.set_date(Some(String::from("wednesday")), 0, TODAY, 1);
    assert_eq!(t.due, None);
}

#[test]
fn relative_and_explicit_dates() {
    let mut t = Task::new();
    t.set_date(Some(String::from("TODAY")), 0, TODAY, 1);
    assert_eq!(t.due, Some(TODAY));
    t.set_date(Some(String::from("now")), 0, TODAY, 1);
    assert_eq!(t.due, Some(TODAY));
    t.set_date(Some(String::from("later")), 0, TODAY, 1);
    assert_eq!(t.due, Some(TODAY + 1));
    t.set_date(Some(String::from("Tomorrow")), 2, TODAY, 1);
    assert_eq!(t.start_time, Some(TODAY + 1));
    t.set_date(Some(String::from("2025-02-01")), 3, TODAY, 1);
    assert_eq!(t.end_time, Some(739283));
    t.set_date(Some(String::from("02-01-2025")), 3, TODAY, 2);
    assert_eq!(t.end_time, Some(739283));
    t.set_date(Some(String::from("Feb 01")), 3, TODAY, 11);
    assert_eq!(t.end_time, Some(739283));
    t.set_date(Some(String::from("not a date")), 0, TODAY, 1);
    assert_eq!(t.due, None);
    t.set_date(None, 2, TODAY, 1);
    assert_eq!(t.start_time, None);
    t.set_date(Some(String::from("today")), 7, TODAY, 1);
    assert_eq!(t.due, None);
    assert_eq!(t.scheduled, None);
    assert_eq!(t.end_time, Some(739283));
}

#[test]
fn status_codes() {
    let mut t = Task::new();
    t.set_status(4);
    assert!(t.status == TaskStatus::Failed);
    t.set_status(9);
    assert!(t.status == TaskStatus::Failed);
    t.set_status(-1);
    assert!(t.status == TaskStatus::Failed);
    t.set_status(1);
    assert!(t.status == TaskStatus::Canceled);
    t.set_status(0);
    assert!(t.status == TaskStatus::Pending);
}

#[test]
fn projects_of_tasks() {
    let mut t = Task::new();
    let mut p = Project::new();
    p.id = 7;
    p.set_name(String::from("Home"));
    t.set_project(Some(p));
    assert_eq!(t.project_id, Some(7));
    assert_eq!(t.project, Some(String::from("Home")));
    t.set_project(None);
    assert_eq!(t.project_id, None);
    assert_eq!(t.project, None);
}

#[test]
fn start_stop_done_delete() {
    let mut t = Task::new();
    t.start(TODAY, 1);
    assert!(t._is_started);
    assert_eq!(t.start_time, Some(TODAY));
    t.start_time = None;
    t.start(TODAY + 1, 1);
    assert_eq!(t.start_time, None);
    t.stop(TODAY + 2, 1);
    assert!(!t._is_started);
    assert_eq!(t.end_time, Some(TODAY + 2));
    t.end_time = None;
    t.stop(TODAY + 3, 1);
    assert_eq!(t.end_time, None);
    t.start(TODAY, 1);
    t.done(TODAY + 4, 1);
    assert!(t.status == TaskStatus::Completed);
    assert!(!t._is_started);
    assert_eq!(t.end_time, Some(TODAY + 4));
    t.start(TODAY, 1);
    t.delete();
    assert!(t.status == TaskStatus::Canceled);
    assert!(!t._is_started);
}

#[test]
fn start_reads_today_in_the_configured_format() {
    let mut t = Task::new();
    t.start(TODAY, 2);
    assert!(t._is_started);
    assert_eq!(t.start_time, None);
}

#[test]
fn verify_fails_and_expires() {
    let mut t = task_with(1, Some(TODAY - 1), false);
    t.verify(TODAY);
    assert!(t.status == TaskStatus::Failed);
    assert_eq!(t._urgent, Urgency { num: 0, den: 1 });

    let mut t = Task::new();
    t.scheduled = Some(TODAY - 1);
    t.verify(TODAY);
    assert!(t.status == TaskStatus::Expired);

    let mut t = task_with(1, Some(TODAY + 3), false);
    t.scheduled = Some(TODAY - 1);
    t.verify(TODAY);
    assert!(t.status == TaskStatus::Pending);

    let mut t = task_with(1, Some(TODAY - 5), false);
    t.status = TaskStatus::Canceled;
    t.verify(TODAY);
    assert!(t.status == TaskStatus::Canceled);
}

#[test]
fn urgency_values() {
    let mut t = task_with(1, Some(TODAY), false);
    t.verify(TODAY);
    assert_eq!(t._urgent, Urgency { num: 4, den: 2 });
    assert!(t.is_urgent());

    let mut t = task_with(1, Some(TODAY + 1), true);
    t.verify(TODAY);
    assert_eq!(t._urgent, Urgency { num: 12, den: 4 });
    assert!(t.is_urgent());

    let mut t = task_with(1, None, false);
    t.verify(TODAY);
    assert_eq!(t._urgent, Urgency { num: 2, den: 2 });
    assert!(!t.is_urgent());

    let mut t = task_with(1, None, true);
    t.verify(TODAY);
    assert_eq!(t._urgent, Urgency { num: 5, den: 2 });
    assert!(!t.is_urgent());

    let mut t = task_with(1, None, false);
    t.status = TaskStatus::Completed;
    t.verify(TODAY);
    assert_eq!(t._urgent, Urgency { num: 1, den: 2 });
}

#[test]
fn urgent_within_two_days() {
    for (offset, urgent) in [(0, true), (1, true), (2, true), (3, false), (30, false)] {
        for started in [false, true] {
            let mut t = task_with(1, Some(TODAY + offset), started);
            t.verify(TODAY);
            assert_eq!(t.is_urgent(), urgent, "offset {} started {}", offset, started);
            assert_eq!(t.filtered(&Filter::Urgent, TODAY), urgent);
            assert_eq!(t.get_state_word() & 1 == 1, urgent);
        }
    }
}

#[test]
fn verify_twice_is_verify_once() {
    let mut a = task_with(3, Some(TODAY - 2), true);
    a.scheduled = Some(TODAY - 9);
    a.verify(TODAY);
    let (status, urgent) = (a.status, a._urgent);
    a.verify(TODAY);
    assert!(a.status == status);
    assert_eq!(a._urgent, urgent);
}

#[test]
fn state_words() {
    let mut t = task_with(1, Some(TODAY), true);
    t.verify(TODAY);
    assert_eq!(t.get_state_word(), 3);
    let mut t = Task::new();
    t.status = TaskStatus::Canceled;
    assert_eq!(t.get_state_word(), 4);
    t.status = TaskStatus::Completed;
    assert_eq!(t.get_state_word(), 8);
    t.status = TaskStatus::Failed;
    assert_eq!(t.get_state_word(), 16);
    t.status = TaskStatus::Expired;
    t._is_started = true;
    assert_eq!(t.get_state_word(), 18);
    t.status = TaskStatus::Pending;
    t._is_started = false;
    assert_eq!(t.get_state_word(), 0);
}

#[test]
fn filters() {
    let today_task = task_with(1, Some(TODAY), false);
    let tomorrow_task = task_with(2, Some(TODAY + 1), true);
    assert!(today_task.filtered(&Filter::Today, TODAY));
    assert!(!today_task.filtered(&Filter::Tomorrow, TODAY));
    assert!(tomorrow_task.filtered(&Filter::Tomorrow, TODAY));
    assert!(!tomorrow_task.filtered(&Filter::Today, TODAY));
    assert!(tomorrow_task.filtered(&Filter::Started, TODAY));
    assert!(!tomorrow_task.filtered(&Filter::NotStarted, TODAY));
    assert!(today_task.filtered(&Filter::NotStarted, TODAY));
    let mut done = task_with(3, Some(TODAY), true);
    done.status = TaskStatus::Completed;
    assert!(done.filtered(&Filter::Done, TODAY));
    assert!(!done.filtered(&Filter::Today, TODAY));
    assert!(!done.filtered(&Filter::Started, TODAY));
    assert!(!done.filtered(&Filter::NotStarted, TODAY));
    done.status = TaskStatus::Failed;
    assert!(done.filtered(&Filter::Failed, TODAY));
    done.status = TaskStatus::Expired;
    assert!(done.filtered(&Filter::Expired, TODAY));
    done.status = TaskStatus::Canceled;
    assert!(done.filtered(&Filter::Canceled, TODAY));
    assert!(!done.filtered(&Filter::Expired, TODAY));
}

#[test]
fn sorting_by_falling_urgency_keeps_ties_in_order() {
    let mut tasks = Vec::new();
    for (id, offset) in [(1, None), (2, Some(0)), (3, Some(5)), (4, None), (5, Some(1))] {
        let mut t = task_with(id, offset.map(|o| TODAY + o), false);
        t.verify(TODAY);
        tasks.push(t);
    }
    let mut done = task_with(6, None, false);
    done.status = TaskStatus::Completed;
    done.verify(TODAY);
    tasks.insert(0, done);
    sort_tasks(&mut tasks);
    let ids: Vec<i32> = tasks.iter().map(|t| t.id).collect();
    assert_eq!(ids, vec![2, 5, 3, 1, 4, 6]);
    let mut empty: Vec<Task> = Vec::new();
    sort_tasks(&mut empty);
    assert!(empty.is_empty());
}

#[test]
fn table_cells() {
    let mut t = task_with(12, Some(TODAY), false);
    t.name = String::from("Write report");
    let mut p = Project::new();
    p.id = 3;
    p.name = String::from("Work");
    t.set_project(Some(p));
    assert_eq!(
        t.fields(1),
        vec!["12", "[3]Work", "2025-01-15", " - ", "Write report", "P"]
    );
    t.scheduled = Some(TODAY + 1);
    t.status = TaskStatus::Expired;
    t.set_project(None);
    assert_eq!(
        t.fields(5),
        vec!["12", "-", "January 15, 2025", "January 16, 2025", "Write report", "E"]
    );
    assert_eq!(
        Task::headers(),
        vec!["ID", "Project", "D", "S", "Description", "Status"]
    );
    assert_eq!(get_date(&None, 3), " - ");
    assert_eq!(get_date(&Some(TODAY), 3), "25-01-15");
    assert_eq!(get_date(&Some(TODAY), 11), format_date(TODAY, "%b %d"));
}

#[test]
fn row_style_follows_the_state_word() {
    let mut urgent_started = task_with(1, Some(TODAY), true);
    urgent_started.verify(TODAY);
    let style = set_style(urgent_started.get_state_word(), true);
    assert_eq!(style.colour, Colour::Red);
    assert_eq!(style.effect, Effect::Blink);
    let mut canceled = Task::new();
    canceled.delete();
    assert_eq!(set_style(canceled.get_state_word(), false).effect, Effect::Strikethrough);
    assert_eq!(set_style(canceled.get_state_word(), false).colour, Colour::White);
    let mut done = Task::new();
    done.done(TODAY, 1);
    done.verify(TODAY);
    assert_eq!(set_style(done.get_state_word(), false).effect, Effect::Dimmed);
    let mut failed = task_with(2, Some(TODAY - 3), false);
    failed.verify(TODAY);
    assert_eq!(set_style(failed.get_state_word(), false).effect, Effect::Strikethrough);
    let pending = Task::new();
    assert_eq!(set_style(pending.get_state_word(), false).effect, Effect::Normal);
}

#[test]
fn the_code_of_each_status() {
    assert_eq!(TaskStatus::Pending.code(), 0);
    assert_eq!(TaskStatus::Canceled.code(), 1);
    assert_eq!(TaskStatus::Completed.code(), 2);
    assert_eq!(TaskStatus::Expired.code(), 3);
    assert_eq!(TaskStatus::Failed.code(), 4);
    let mut t = Task::new();
    for s in [TaskStatus::Canceled, TaskStatus::Expired, TaskStatus::Pending] {
        t.set_status(s.code() as i32);
        assert!(t.status == s);
    }
}

#[test]
fn done_and_deleted_stay_through_verify() {
    let mut t = task_with(1, Some(TODAY), true);
    t.done(TODAY, 1);
    t.verify(TODAY + 10);
    assert!(t.status == TaskStatus::Completed);
    assert_eq!(t._urgent, Urgency { num: 1, den: 2 });
    assert!(!t.is_urgent());
    let mut t = task_with(2, Some(TODAY - 4), true);
    t.delete();
    t.delete();
    t.verify(TODAY);
    assert!(t.status == TaskStatus::Canceled);
    assert!(!t._is_started);
    assert!(!t.is_urgent());
}

#[test]
fn by_the_clock() {
    let today = taskoto::calendar::local_today();
    let mut a = task_with(1, Some(today), false);
    a.verify_now();
    let mut b = task_with(1, Some(today), false);
    b.verify(today);
    assert_eq!(a._urgent, b._urgent);
    assert!(a.filtered_now(&Filter::Today));
    let mut t = Task::new();
    t.set_date_now(Some(String::from("today")), 0, 1);
    assert_eq!(t.due, Some(today));
    t.start_now(1);
    assert!(t._is_started);
    t.stop_now(1);
    assert!(!t._is_started);
    t.done_now(1);
    assert!(t.status == TaskStatus::Completed);
    let mut p = Project::new();
    p.set_deadline_now(Some(String::from("2025-02-01")), 1);
    assert_eq!(p.deadline, Some(739283));
}
