use tabled::builder::Builder;
use taskoto::calendar::MAX_DAY;
use taskoto::task::fits_today;
use tabled::settings::Style;
use taskoto::parser::{Cli, Command};
use taskoto::taskoto::{info_line, taskoto_run, Action};
use taskoto::project::Project;
use taskoto::table::render_table;
use taskoto::task::{Filter, Task, TaskStatus};
use ansi_term::Colour as Paint;
use taskoto::taskoto::{
    paint_header, paint_row, paint_table, set_style, show_table, split_lines, Background, Colour, Effect,
    RowKind, RowStyle,
};

// Wednesday, January 15, 2025.
const TODAY: i32 = 739266;

fn drawn(rows: Vec<Vec<&str>>) -> String {
    let records: Vec<Vec<String>> = rows
        .into_iter()
        .map(|r| r.into_iter().map(String::from).collect())
        .collect();
    let mut table = Builder::from(records).build();
    table.with(Style::empty());
    table.to_string()
}

const HEADERS: [&str; 6] = ["ID", "Project", "D", "S", "Description", "Status"];

fn task(id: i32, name: &str, due: Option<i32>, status: TaskStatus, project: Option<(i32, &str)>) -> Task {
    let mut t = Task::new();
    t.id = id;
    t.name = String::from(name);
    t.due = due;
    t.status = status;
    if let Some((pid, pname)) = project {
        t.project_id = Some(pid);
        t.project = Some(String::from(pname));
    }
    t.verify(TODAY);
    t
}

#[test]
fn drawing_a_table() {
    let s = render_table(vec![
        vec![String::from("ID"), String::from("Name")],
        vec![String::from("1"), String::from("x")],
    ]);
    assert_eq!(s, " ID  Name \n 1   x    ");
}

#[test]
fn show_one_task() {
    let mut words = Vec::new();
    let t = task(4, "Call", Some(TODAY), TaskStatus::Pending, None);
    let s = Command::show(Some(4), false, None, Some(t), Vec::new(), &mut words, TODAY, 1);
    let mut expected = vec![HEADERS.to_vec()];
    expected.push(vec!["4", "-", "2025-01-15", " - ", "Call", "P"]);
    assert_eq!(s, drawn(expected));
    assert_eq!(words, vec![1]);

    let mut words = vec![9];
    let s = Command::show(Some(4), false, None, None, Vec::new(), &mut words, TODAY, 1);
    assert_eq!(s, "No Matches.");
    assert_eq!(words, vec![9]);
}

#[test]
fn show_empty_lists() {
    let mut words = Vec::new();
    assert_eq!(Command::show(None, false, None, None, Vec::new(), &mut words, TODAY, 1), "No Matches.");
    assert_eq!(Command::show(None, true, None, None, Vec::new(), &mut words, TODAY, 1), "No Match.");
    assert!(words.is_empty());
}

#[test]
fn show_pending_sorted() {
    let tasks = vec![
        task(1, "Later", None, TaskStatus::Pending, None),
        task(2, "Gone", None, TaskStatus::Canceled, None),
        task(3, "Soon", Some(TODAY), TaskStatus::Pending, None),
    ];
    let mut words = Vec::new();
    let s = Command::show(None, false, None, None, tasks, &mut words, TODAY, 1);
    let expected = vec![
        HEADERS.to_vec(),
        vec!["3", "-", "2025-01-15", " - ", "Soon", "P"],
        vec!["1", "-", " - ", " - ", "Later", "P"],
    ];
    assert_eq!(s, drawn(expected));
    assert_eq!(words, vec![1, 0]);
}

#[test]
fn show_all_and_filtered() {
    let make = || {
        vec![
            task(1, "Later", None, TaskStatus::Pending, None),
            task(2, "Gone", None, TaskStatus::Canceled, None),
            task(3, "Soon", Some(TODAY + 1), TaskStatus::Pending, None),
        ]
    };
    let mut words = Vec::new();
    let s = Command::show(None, true, Some(Filter::Canceled), None, make(), &mut words, TODAY, 1);
    let expected = vec![
        HEADERS.to_vec(),
        vec!["3", "-", "2025-01-16", " - ", "Soon", "P"],
        vec!["1", "-", " - ", " - ", "Later", "P"],
        vec!["2", "-", " - ", " - ", "Gone", "C"],
    ];
    assert_eq!(s, drawn(expected));
    assert_eq!(words, vec![1, 0, 4]);

    let mut words = Vec::new();
    let s = Command::show(None, false, Some(Filter::Tomorrow), None, make(), &mut words, TODAY, 1);
    let expected = vec![HEADERS.to_vec(), vec!["3", "-", "2025-01-16", " - ", "Soon", "P"]];
    assert_eq!(s, drawn(expected));
    assert_eq!(words, vec![1]);

    let mut words = Vec::new();
    let s = Command::show(None, false, Some(Filter::Failed), None, make(), &mut words, TODAY, 1);
    assert_eq!(s, drawn(vec![HEADERS.to_vec()]));
    assert!(words.is_empty());
}

#[test]
fn show_with_project() {
    let tasks = vec![
        task(1, "A", None, TaskStatus::Pending, Some((2, "Home"))),
        task(2, "B", Some(TODAY), TaskStatus::Pending, Some((2, "Home"))),
        task(3, "C", Some(TODAY), TaskStatus::Pending, Some((5, "Work"))),
    ];
    let mut words = Vec::new();
    let s = Command::show_with_project(Some(2), None, tasks, &Vec::new(), &mut words, TODAY, 1);
    let expected = vec![
        HEADERS.to_vec(),
        vec!["2", "[2]Home", "2025-01-15", " - ", "B", "P"],
        vec!["1", "[2]Home", " - ", " - ", "A", "P"],
    ];
    assert_eq!(s, drawn(expected));
    assert_eq!(words, vec![1, 0]);

    let tasks = vec![
        task(1, "A", None, TaskStatus::Pending, Some((2, "Home"))),
        task(2, "B", Some(TODAY), TaskStatus::Pending, Some((2, "Home"))),
    ];
    let mut words = Vec::new();
    let s = Command::show_with_project(Some(2), Some(Filter::Urgent), tasks, &Vec::new(), &mut words, TODAY, 1);
    let expected = vec![HEADERS.to_vec(), vec!["2", "[2]Home", "2025-01-15", " - ", "B", "P"]];
    assert_eq!(s, drawn(expected));

    let mut words = Vec::new();
    assert_eq!(
        Command::show_with_project(Some(2), None, Vec::new(), &Vec::new(), &mut words, TODAY, 1),
        "No Match."
    );
    assert_eq!(
        Command::show_with_project(None, None, Vec::new(), &Vec::new(), &mut words, TODAY, 1),
        "No Matches."
    );

    let mut p = Project::new();
    p.id = 2;
    p.name = String::from("Home");
    p.deadline = Some(TODAY);
    let projects = vec![p, Project::new()];
    let mut words = vec![7];
    let s = Command::show_with_project(None, None, Vec::new(), &projects, &mut words, TODAY, 1);
    let expected = vec![
        vec!["ID", "Project", "D"],
        vec!["2", "Home", "2025-01-15"],
        vec!["1", "Default Project", "-"],
    ];
    assert_eq!(s, drawn(expected));
    assert_eq!(words, vec![7, 0, 0]);
}

#[test]
fn change_commands() {
    let t = task(1, "A", None, TaskStatus::Pending, None);
    let (out, msg) = Command::change(Some(t), 2, TODAY, 1);
    let t = out.unwrap();
    assert_eq!(msg, "Task Start.");
    assert!(t._is_started);
    assert_eq!(t.start_time, Some(TODAY));
    let (out, msg) = Command::change(Some(t), 3, TODAY + 1, 1);
    let t = out.unwrap();
    assert_eq!(msg, "Task Stop.");
    assert_eq!(t.end_time, Some(TODAY + 1));
    let (out, msg) = Command::change(Some(t), 1, TODAY + 2, 1);
    let t = out.unwrap();
    assert_eq!(msg, "Task Completed.");
    assert!(t.status == TaskStatus::Completed);
    let (out, msg) = Command::change(Some(t), 0, TODAY, 1);
    let t = out.unwrap();
    assert_eq!(msg, "Task Canceled.");
    assert!(t.status == TaskStatus::Canceled);
    let (out, msg) = Command::change(Some(t), 9, TODAY, 1);
    assert_eq!(msg, "");
    assert!(out.unwrap().status == TaskStatus::Canceled);
    let (out, msg) = Command::change(None, 1, TODAY, 1);
    assert!(out.is_none());
    assert_eq!(msg, "No Matches");
}

#[test]
fn modify_command() {
    let mut t = task(5, "Old", Some(TODAY + 3), TaskStatus::Pending, Some((2, "Home")));
    t.scheduled = Some(TODAY + 1);
    let (out, msg) = Command::modify(
        Some(t),
        Some(String::from("New")),
        Some(String::from("")),
        Some(String::from("tomorrow")),
        Some(0),
        None,
        TODAY,
        1,
    );
    let t = out.unwrap();
    assert_eq!(msg, "Task Modified.");
    assert_eq!(t.name, "New");
    assert_eq!(t.due, None);
    assert_eq!(t.scheduled, Some(TODAY + 1));
    assert_eq!(t.project_id, None);
    assert_eq!(t.project, None);

    let mut p = Project::new();
    p.id = 8;
    p.name = String::from("Work");
    let (out, _) = Command::modify(
        Some(t),
        None,
        Some(String::from("yesterday")),
        None,
        Some(8),
        Some(p),
        TODAY,
        1,
    );
    let t = out.unwrap();
    assert_eq!(t.name, "New");
    assert_eq!(t.due, None);
    assert_eq!(t.project_id, Some(8));
    assert_eq!(t.project, Some(String::from("Work")));

    let (out, _) = Command::modify(Some(t), None, Some(String::from("2025-01-14")), None, None, None, TODAY, 1);
    let t = out.unwrap();
    assert_eq!(t.due, Some(TODAY - 1));
    assert!(t.status == TaskStatus::Failed);

    let (out, msg) = Command::modify(None, None, None, None, None, None, TODAY, 1);
    assert!(out.is_none());
    assert_eq!(msg, "No Matches.");
}

#[test]
fn add_commands() {
    let mut p = Project::new();
    p.id = 4;
    p.name = String::from("Garden");
    let (t, msg) = Command::add(
        String::from("Dig"),
        Some(String::from("today")),
        Some(String::from("bogus")),
        Some(p),
        TODAY,
        1,
    );
    assert_eq!(msg, "Task Added.");
    assert_eq!(t.name, "Dig");
    assert_eq!(t.due, Some(TODAY));
    assert_eq!(t.scheduled, None);
    assert_eq!(t.project_id, Some(4));
    assert!(t.is_urgent());

    let (p, msg) = Command::add_project(
        String::from("Garden"),
        Some(String::from("2025-02-01")),
        Some(String::from("outside")),
        TODAY,
        1,
    );
    assert_eq!(msg, "Project Added.");
    assert_eq!(p.name, "Garden");
    assert_eq!(p.deadline, Some(739283));
    assert_eq!(p.description, Some(String::from("outside")));
    assert!(!p.is_done);

    let (p, _) = Command::add_project(String::from("X"), Some(String::from("soon")), None, TODAY, 1);
    assert_eq!(p.deadline, None);
    assert_eq!(p.description, None);
}

#[test]
fn modify_project_command() {
    let mut p = Project::new();
    p.deadline = Some(TODAY);
    p.description = Some(String::from("d"));
    let (out, msg) = Command::modify_project(
        Some(p),
        Some(String::from("Renamed")),
        Some(String::from("bad date")),
        Some(String::from("")),
        TODAY,
        1,
    );
    let p = out.unwrap();
    assert_eq!(msg, "Project Modified.");
    assert_eq!(p.name, "Renamed");
    assert_eq!(p.deadline, Some(TODAY));
    assert_eq!(p.description, None);
    let (out, _) = Command::modify_project(Some(p), None, Some(String::from("")), Some(String::from("e")), TODAY, 1);
    let p = out.unwrap();
    assert_eq!(p.deadline, None);
    assert_eq!(p.description, Some(String::from("e")));
    let (out, msg) = Command::modify_project(None, None, None, None, TODAY, 1);
    assert!(out.is_none());
    assert_eq!(msg, "No Matches.");
}

#[test]
fn project_members() {
    let tasks = vec![
        task(1, "A", None, TaskStatus::Pending, Some((2, "Home"))),
        task(300, "B", None, TaskStatus::Pending, Some((2, "Home"))),
        task(3, "C", None, TaskStatus::Pending, Some((5, "Work"))),
        task(4, "D", None, TaskStatus::Pending, None),
    ];
    assert_eq!(Command::destroy_project(&tasks, 2), vec![1, 300]);
    assert_eq!(Command::complete_project(&tasks, 2), vec![1, 44]);
    assert_eq!(Command::destroy_project(&tasks, 9), Vec::<i32>::new());
    let out = Command::delele_project(tasks, 5);
    assert_eq!(out.len(), 1);
    assert_eq!(out[0].id, 3);
    assert_eq!(out[0].project_id, None);
    assert_eq!(out[0].project, None);
}

#[test]
fn clear_answers() {
    assert_eq!(Command::clear(Some(String::from("Yes\n"))), (true, String::from("Database Cleared.")));
    assert_eq!(Command::clear(Some(String::from("y\n"))), (false, String::from("Operation Canceled.")));
    assert_eq!(Command::clear(None), (false, String::from("Operation Canceled.")));
}

#[test]
fn project_methods() {
    let mut p = Project::new();
    assert_eq!(p.id, 1);
    assert_eq!(p.name, "Default Project");
    assert_eq!(p._progress, 0);
    p.set_deadline(Some(String::from("01-20")), TODAY, 9);
    assert_eq!(p.deadline, Some(739271));
    p.set_deadline(Some(String::from("nonsense")), TODAY, 9);
    assert_eq!(p.deadline, Some(739271));
    p.set_deadline(None, TODAY, 9);
    assert_eq!(p.deadline, None);
    p.set_description(String::from("text"));
    assert_eq!(p.description, Some(String::from("text")));
    p.project_done();
    assert!(p.is_done);
    assert_eq!(p.fields(), vec!["1", "Default Project", "-"]);
    assert_eq!(Project::headers(), vec!["ID", "Project", "D"]);
}

#[test]
fn row_styles() {
    assert_eq!(set_style(0, true), RowStyle { colour: Colour::White, effect: Effect::Normal, background: Background::Black });
    assert_eq!(set_style(3, false), RowStyle { colour: Colour::Red, effect: Effect::Blink, background: Background::DarkGrey });
    assert_eq!(set_style(4, true).effect, Effect::Strikethrough);
    assert_eq!(set_style(8, true).effect, Effect::Dimmed);
    assert_eq!(set_style(16, true).effect, Effect::Strikethrough);
    assert_eq!(set_style(17, true).colour, Colour::Red);
    let kinds = show_table(5, &vec![0, 1, 8]);
    assert_eq!(
        kinds,
        vec![
            RowKind::Header,
            RowKind::Body(set_style(0, true)),
            RowKind::Body(set_style(1, false)),
            RowKind::Body(set_style(8, true)),
            RowKind::Body(set_style(0, true)),
        ]
    );
    assert!(show_table(0, &vec![]).is_empty());
}

#[test]
fn steps_of_a_run() {
    let step = |c: Option<Command>| taskoto_run(Cli { command: c });
    assert!(matches!(step(None), Action::Show { id: None, all: false, filter: None }));
    assert!(matches!(
        step(Some(Command::Delete { id: 3, project: false })),
        Action::Change { id: 3, command_type: 0 }
    ));
    assert!(matches!(step(Some(Command::Delete { id: 3, project: true })), Action::DeleteProject { id: 3 }));
    assert!(matches!(
        step(Some(Command::Done { id: 4, project: false })),
        Action::Change { id: 4, command_type: 1 }
    ));
    assert!(matches!(step(Some(Command::Done { id: 4, project: true })), Action::CompleteProject { id: 4 }));
    assert!(matches!(step(Some(Command::Start { id: 5 })), Action::Change { id: 5, command_type: 2 }));
    assert!(matches!(step(Some(Command::Stop { id: 5 })), Action::Change { id: 5, command_type: 3 }));
    assert!(matches!(step(Some(Command::Destroy { id: 6, project: false })), Action::DestroyTask { id: 6 }));
    assert!(matches!(step(Some(Command::Destroy { id: 6, project: true })), Action::DestroyProject { id: 6 }));
    assert!(matches!(
        step(Some(Command::Show { id: Some(1), filter: Some(Filter::Urgent), project: true, all: true })),
        Action::ShowWithProject { id: Some(1), filter: Some(Filter::Urgent) }
    ));
    assert!(matches!(
        step(Some(Command::Show { id: None, filter: None, project: false, all: true })),
        Action::Show { id: None, all: true, filter: None }
    ));
    assert!(matches!(step(Some(Command::Info {})), Action::Info));
    assert!(matches!(step(Some(Command::Clear { project: true })), Action::Clear { project: true }));
    assert_eq!(info_line(), "I have too much to say, but I can't fit a line.");
}

#[test]
fn the_last_days_of_the_calendar() {
    let last = MAX_DAY - 3;
    assert!(fits_today(&String::from("2025-01-01"), last));
    assert!(fits_today(&String::from("today"), MAX_DAY));
    assert!(!fits_today(&String::from("Tomorrow"), MAX_DAY));
    assert!(fits_today(&String::from("tomorrow"), MAX_DAY - 1));
    assert!(fits_today(&String::from("sun"), last + 1));
    assert!(!fits_today(&String::from("fri"), last + 1));

    let t = task(1, "A", None, TaskStatus::Pending, None);
    let (out, msg) = Command::change(Some(t), 2, last, 1);
    assert_eq!(msg, "Task Start.");
    let t = out.unwrap();
    assert!(t._is_started);
    let (out, msg) = Command::try_change(Some(t), 1, last, 1).unwrap();
    assert_eq!(msg, "Task Completed.");
    assert!(out.unwrap().status == TaskStatus::Completed);
    let (out, msg) = Command::change(None, 2, MAX_DAY, 1);
    assert!(out.is_none());
    assert_eq!(msg, "No Matches");

    assert!(Command::try_add(String::from("A"), Some(String::from("tomorrow")), None, None, MAX_DAY, 1).is_none());
    let (t, _) = Command::try_add(String::from("A"), Some(String::from("2025-01-01")), None, None, MAX_DAY, 1).unwrap();
    assert_eq!(t.due, Some(739252));
    let (t, _) = Command::add(String::from("B"), Some(String::from("today")), None, None, MAX_DAY, 1);
    assert_eq!(t.due, Some(MAX_DAY));

    let t = task(1, "A", None, TaskStatus::Pending, None);
    assert!(Command::try_modify(Some(t), None, Some(String::from("later")), None, None, None, MAX_DAY, 1).is_none());
    let t = task(1, "A", Some(TODAY), TaskStatus::Pending, None);
    let (out, _) = Command::try_modify(Some(t), None, Some(String::from("")), None, None, None, MAX_DAY, 1).unwrap();
    assert_eq!(out.unwrap().due, None);
    let (out, msg) = Command::try_modify(None, None, Some(String::from("later")), None, None, None, MAX_DAY, 1).unwrap();
    assert!(out.is_none());
    assert_eq!(msg, "No Matches.");
}

#[test]
fn painting_rows() {
    let style = set_style(1, true);
    assert_eq!(paint_row("x", style), Paint::Red.normal().on(Paint::Black).paint("x").to_string());
    let style = set_style(8, false);
    assert_eq!(
        paint_row("row", style),
        Paint::White.dimmed().on(Paint::RGB(32, 32, 32)).paint("row").to_string()
    );
    assert_ne!(paint_row("row", style), "row");
    assert_eq!(paint_header("ID"), Paint::White.bold().underline().paint("ID").to_string());
    assert_eq!(split_lines("a\nb\n"), vec!["a", "b", ""]);
    let lines = paint_table(&String::from("H\nr1\nr2"), &vec![1, 2]);
    assert_eq!(
        lines,
        vec![
            paint_header("H"),
            paint_row("r1", set_style(1, true)),
            paint_row("r2", set_style(2, false)),
        ]
    );
}

#[test]
fn answers_from_the_database() {
    assert_eq!(Command::destroy_task_message(true), "Task Destroyed.");
    assert_eq!(Command::destroy_task_message(false), "No Matches.");
    assert_eq!(Command::destroy_project_message(true), "Project Destroyed.");
    assert_eq!(Command::destroy_project_message(false), "No Matches.");
    assert_eq!(Command::delele_project_message(true), "Project Deleted");
    assert_eq!(Command::delele_project_message(false), "No Matches.");
    let (p, msg) = Command::finish_project(Some(Project::new()));
    assert_eq!(msg, "Project Done.");
    assert!(p.unwrap().is_done);
    let (p, msg) = Command::finish_project(None);
    assert!(p.is_none());
    assert_eq!(msg, "No Matches.");
}
