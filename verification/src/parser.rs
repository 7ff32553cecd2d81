//! The commands of the tracker and what each decides.  Reading and writing
//! the database is the caller's part: a command takes what was read and
//! hands back what is to be written and the message to print.

use crate::calendar::{format_date, is_calendar_day};
use crate::config::{is_valid_format_index, Config};
use crate::project::{opt_view, Project};
use crate::table::{all_projects_wf, all_displayable, project_table, spec_project_table, spec_task_table, task_table};
use crate::config::parse_with_format;
use crate::task::{
    less_urgent, lemma_sorted_descending, lemma_sorted_permutation, urgencies_wf, urgency_descending, date_fits, fits_today, lemma_sorted_keeps, resolve_date, today_text, word_fits, sort_tasks, sorted_by_urgency, spec_urgency, Filter, StateWord, Task, TaskStatus,
    Urgency,
};
use vstd::prelude::*;

verus! {

/// The command line: a command, or none for the list of pending tasks.
pub struct Cli {
    pub command: Option<Command>,
}

/// The commands.
#[allow(inconsistent_fields)]
pub enum Command {
    Config { path: Option<String>, date_format: Option<usize> },
    ShowConfig {},
    Init {},
    Add { name: String, due: Option<String>, scheduled: Option<String>, project_id: Option<i32> },
    AddProject { name: String, deadline: Option<String>, description: Option<String> },
    Show { id: Option<u8>, filter: Option<Filter>, project: bool, all: bool },
    Modify {
        id: u8,
        name: Option<String>,
        due: Option<String>,
        scheduled: Option<String>,
        project_id: Option<i32>,
    },
    ModifyProject {
        id: u8,
        name: Option<String>,
        deadline: Option<String>,
        description: Option<String>,
    },
    Delete { id: u8, project: bool },
    Destroy { id: u8, project: bool },
    Clear { project: bool },
    Done { id: u8, project: bool },
    Start { id: u8 },
    Stop { id: u8 },
    Info {},
}

/// Which tasks a listing shows.
#[derive(Clone, Copy, Debug, PartialEq, Eq, Structural)]
pub enum Selection {
    /// Every task.
    Everything,
    /// The pending tasks.
    Pending,
    /// The tasks that pass a filter.
    ByFilter(Filter),
    /// The tasks of a project.
    InProject(i32),
    /// The tasks of a project that pass a filter.
    InProjectByFilter(Filter, i32),
}

/// Task `t` is shown by `sel` on `today`.
pub open spec fn selects(sel: Selection, t: Task, today: int) -> bool {
    match sel {
        Selection::Everything => true,
        Selection::Pending => t.status == TaskStatus::Pending,
        Selection::ByFilter(f) => t.spec_filtered(f, today),
        Selection::InProject(p) => t.project_id == Some(p),
        Selection::InProjectByFilter(f, p) => t.spec_filtered(f, today) && t.project_id == Some(p),
    }
}

/// The tasks of `s` that `sel` shows, in their order.
pub open spec fn select_rows(s: Seq<Task>, sel: Selection, today: int) -> Seq<Task> {
    s.filter(|t: Task| selects(sel, t, today))
}

/// The state words of `s`, in order.
pub open spec fn state_words_of(s: Seq<Task>) -> Seq<StateWord> {
    s.map_values(|t: Task| t.spec_state_word() as u8)
}

/// The selection of a plain listing: a filter if one is given, else the
/// pending tasks.
pub open spec fn listing_selection(filter: Option<Filter>) -> Selection {
    match filter {
        Some(f) => Selection::ByFilter(f),
        None => Selection::Pending,
    }
}

/// The selection of a project's listing.
pub open spec fn project_selection(filter: Option<Filter>, id: u8) -> Selection {
    match filter {
        Some(f) => Selection::InProjectByFilter(f, id as i32),
        None => Selection::InProject(id as i32),
    }
}

/// Picks the tasks that `sel` shows, in order, and appends their state
/// words.
fn select<'a>(tasks: &'a Vec<Task>, sel: Selection, today: i32, state_words: &mut Vec<StateWord>) -> (rows: Vec<&'a Task>)
    requires
        all_displayable(tasks@),
    ensures
        rows@.map_values(|t: &Task| *t) == select_rows(tasks@, sel, today as int),
        forall|k: int| 0 <= k < rows@.len() ==> (#[trigger] rows@[k]).displayable(),
        final(state_words)@ == old(state_words)@ + state_words_of(select_rows(tasks@, sel, today as int)),
{
    let mut rows: Vec<&Task> = Vec::new();
    let mut i: usize = 0;
    while i < tasks.len()
        invariant
            i <= tasks@.len(),
            all_displayable(tasks@),
            rows@.map_values(|t: &Task| *t) == select_rows(tasks@.take(i as int), sel, today as int),
            forall|k: int| 0 <= k < rows@.len() ==> (#[trigger] rows@[k]).displayable(),
            state_words@ == old(state_words)@ + state_words_of(
                select_rows(tasks@.take(i as int), sel, today as int),
            ),
        decreases tasks.len() - i,
    {
        let t = &tasks[i];
        let keep = match sel {
            Selection::Everything => true,
            Selection::Pending => t.status == TaskStatus::Pending,
            Selection::ByFilter(f) => t.filtered(&f, today),
            Selection::InProject(p) => t.project_id == Some(p),
            Selection::InProjectByFilter(f, p) => t.filtered(&f, today) && t.project_id == Some(p),
        };
        proof {
            reveal_with_fuel(Seq::<_>::filter, 1);
            let next = tasks@.take(i + 1);
            assert(next.drop_last() =~= tasks@.take(i as int));
            assert(next.last() == tasks@[i as int]);
        }
        if keep {
            let ghost before = rows@;
            rows.push(t);
            let w = t.get_state_word();
            state_words.push(w);
            proof {
                assert(rows@.map_values(|t: &Task| *t) =~= before.map_values(|t: &Task| *t).push(
                    *t,
                ));
            }
        }
        i = i + 1;
        proof {
            let prev = select_rows(tasks@.take(i - 1), sel, today as int);
            if keep {
                assert(state_words_of(prev.push(tasks@[i - 1])) =~= state_words_of(prev).push(
                    tasks@[i - 1].spec_state_word() as u8,
                ));
            }
        }
    }
    assert(tasks@.take(i as int) =~= tasks@);
    rows
}

impl Command {
    /// The `show` command.  With a task number it shows the task read by
    /// that number, `by_id`; otherwise `tasks`, all tasks read, sorted by
    /// urgency: every one with `a`, else those that pass `filter`, else the
    /// pending ones.  The state word of each task shown is appended.
    pub fn show(
        id: Option<u8>,
        a: bool,
        filter: Option<Filter>,
        by_id: Option<Task>,
        tasks: Vec<Task>,
        state_words: &mut Vec<StateWord>,
        today: i32,
        index: usize,
    ) -> (r: String)
        requires
            by_id matches Some(t) ==> t.displayable(),
            all_displayable(tasks@),
        ensures
            id is Some ==> match by_id {
                Some(t) => r@ == spec_task_table(seq![t], index as int) && final(state_words)@ == old(state_words)@.push(t.spec_state_word() as u8),
                None => r@ == "No Matches."@ && final(state_words)@ == old(state_words)@,
            },
            id is None && tasks@.len() == 0 ==> final(state_words)@ == old(state_words)@ && r@ == (
            if a {
                "No Match."@
            } else {
                "No Matches."@
            }),
            id is None && tasks@.len() > 0 ==> {
                let sel = if a {
                    Selection::Everything
                } else {
                    listing_selection(filter)
                };
                let rows = select_rows(sorted_by_urgency(tasks@), sel, today as int);
                &&& r@ == spec_task_table(rows, index as int)
                &&& final(state_words)@ == old(state_words)@ + state_words_of(rows)
            },
    {
        if let Some(_) = id {
            match by_id {
                Some(task) => {
                    state_words.push(task.get_state_word());
                    let mut shown: Vec<&Task> = Vec::new();
                    shown.push(&task);
                    proof {
                        assert(shown@.map_values(|t: &Task| *t) =~= seq![task]);
                    }
                    task_table(&shown, index)
                },
                None => String::from_str("No Matches."),
            }
        } else if tasks.len() == 0 {
            if !a {
                String::from_str("No Matches.")
            } else {
                String::from_str("No Match.")
            }
        } else {
            let ghost orig = tasks@;
            let mut tasks = tasks;
            sort_tasks(&mut tasks);
            proof {
                lemma_sorted_keeps(orig, |t: Task| t.displayable());
            }
            let sel = if a {
                Selection::Everything
            } else {
                match filter {
                    Some(f) => Selection::ByFilter(f),
                    None => Selection::Pending,
                }
            };
            let rows = select(&tasks, sel, today, state_words);
            task_table(&rows, index)
        }
    }

    /// The `show --project` command.  With a project number it shows, sorted
    /// by urgency, the tasks of `tasks` in that project (that pass `filter`
    /// when one is given); without one it shows `projects`, appending a
    /// state word 0 for each.
    pub fn show_with_project(
        id: Option<u8>,
        filter: Option<Filter>,
        tasks: Vec<Task>,
        projects: &Vec<Project>,
        state_words: &mut Vec<StateWord>,
        today: i32,
        index: usize,
    ) -> (r: String)
        requires
            all_displayable(tasks@),
            all_projects_wf(projects@),
        ensures
            id is Some && tasks@.len() == 0 ==> r@ == "No Match."@ && final(state_words)@ == old(state_words)@,
            id matches Some(p) ==> (tasks@.len() > 0 ==> {
                let rows = select_rows(
                    sorted_by_urgency(tasks@),
                    project_selection(filter, p),
                    today as int,
                );
                &&& r@ == spec_task_table(rows, index as int)
                &&& final(state_words)@ == old(state_words)@ + state_words_of(rows)
            }),
            id is None && projects@.len() == 0 ==> r@ == "No Matches."@ && final(state_words)@ == old(state_words)@,
            id is None && projects@.len() > 0 ==> r@ == spec_project_table(projects@) && final(state_words)@ == old(state_words)@ + Seq::new(projects@.len(), |i: int| 0u8),
    {
        if let Some(p) = id {
            if tasks.len() == 0 {
                String::from_str("No Match.")
            } else {
                let ghost orig = tasks@;
                let mut tasks = tasks;
                sort_tasks(&mut tasks);
                proof {
                    lemma_sorted_keeps(orig, |t: Task| t.displayable());
                }
                let sel = match filter {
                    Some(f) => Selection::InProjectByFilter(f, p as i32),
                    None => Selection::InProject(p as i32),
                };
                let rows = select(&tasks, sel, today, state_words);
                task_table(&rows, index)
            }
        } else if projects.len() == 0 {
            String::from_str("No Matches.")
        } else {
            let mut i: usize = 0;
            while i < projects.len()
                invariant
                    i <= projects@.len(),
                    state_words@ == old(state_words)@ + Seq::new(i as nat, |k: int| 0u8),
                decreases projects.len() - i,
            {
                state_words.push(0);
                i = i + 1;
                assert(state_words@ =~= old(state_words)@ + Seq::new(i as nat, |k: int| 0u8));
            }
            project_table(projects)
        }
    }
}

/// The task that `change` leaves for command type `command_type`: 0
/// cancels, 1 completes, 2 starts, 3 stops, any other changes nothing.
pub open spec fn spec_change(t: Task, command_type: int, today: int, index: int) -> Task {
    if command_type == 0 {
        t.spec_delete()
    } else if command_type == 1 {
        t.spec_done(today, index)
    } else if command_type == 2 {
        t.spec_start(today, index)
    } else if command_type == 3 {
        t.spec_stop(today, index)
    } else {
        t
    }
}

/// The message of `change` for command type `command_type`.
pub open spec fn change_message(command_type: int) -> Seq<char> {
    if command_type == 0 {
        "Task Canceled."@
    } else if command_type == 1 {
        "Task Completed."@
    } else if command_type == 2 {
        "Task Start."@
    } else if command_type == 3 {
        "Task Stop."@
    } else {
        ""@
    }
}

/// A date argument of `modify`: the empty text clears the date.
pub open spec fn date_argument(d: String) -> Option<Seq<char>> {
    if d@.len() == 0 {
        None
    } else {
        Some(d@)
    }
}

/// The task that `modify` leaves: project number 0 takes the task out of
/// its project and another puts it in `project`; a due or scheduled date
/// is set (the empty text clears it); the name is set; then the task is
/// verified.
pub open spec fn spec_modify(
    t: Task,
    name: Option<String>,
    due: Option<String>,
    scheduled: Option<String>,
    project_id: Option<i32>,
    project: Option<Project>,
    today: int,
    index: int,
) -> Task {
    let t1 = match project_id {
        Some(p) => if p == 0 {
            t.spec_set_project(None)
        } else {
            t.spec_set_project(project)
        },
        None => t,
    };
    let t2 = match due {
        Some(d) => t1.spec_set_date(date_argument(d), 0, today, index),
        None => t1,
    };
    let t3 = match scheduled {
        Some(d) => t2.spec_set_date(date_argument(d), 1, today, index),
        None => t2,
    };
    let t4 = match name {
        Some(n) => Task { name: n, ..t3 },
        None => t3,
    };
    t4.spec_verify(today)
}

/// The task that `add` makes: a new task with the name, dates and project
/// given, verified.
pub open spec fn spec_add(
    name: String,
    due: Option<String>,
    scheduled: Option<String>,
    project: Option<Project>,
    today: int,
    index: int,
) -> Task {
    Task {
        id: 1,
        name: name,
        status: TaskStatus::Pending,
        due: resolve_date(opt_view(due), today, index),
        scheduled: resolve_date(opt_view(scheduled), today, index),
        start_time: None,
        end_time: None,
        project_id: match project {
            Some(p) => Some(p.id),
            None => None,
        },
        project: match project {
            Some(p) => Some(p.name),
            None => None,
        },
        _is_started: false,
        _urgent: Urgency { num: 1, den: 1 },
    }.spec_verify(today)
}

/// The project that `modify_project` leaves: the name is set; a deadline
/// is set as `set_deadline` does (the empty text clears it); a description
/// is set (the empty text clears it).
pub open spec fn spec_modify_project(
    p: Project,
    name: Option<String>,
    deadline: Option<String>,
    description: Option<String>,
    today: int,
    index: int,
) -> Project {
    let p1 = match name {
        Some(n) => Project { name: n, ..p },
        None => p,
    };
    let p2 = match deadline {
        Some(d) => p1.spec_set_deadline(date_argument(d), today, index),
        None => p1,
    };
    match description {
        Some(c) => if c@.len() == 0 {
            Project { description: None, ..p2 }
        } else {
            Project { description: Some(c), ..p2 }
        },
        None => p2,
    }
}

/// The tasks of `s` in project `id`, in order.
pub open spec fn project_members(s: Seq<Task>, id: u8) -> Seq<Task> {
    select_rows(s, Selection::InProject(id as i32), 0)
}

/// `change` counts no day past the last one chrono can represent: where it
/// sets a date from today's text (completing, starting a task not started,
/// stopping a started one), that text fits (see `word_fits`).
pub open spec fn change_fits(task: Option<Task>, command_type: int, today: int) -> bool {
    match task {
        Some(t) => (command_type == 1 || (command_type == 2 && !t._is_started) || (command_type == 3
            && t._is_started)) ==> word_fits(today_text(today), today),
        None => true,
    }
}

/// A date argument of `modify` fits: the empty text, which clears the date,
/// always does; another one as `word_fits` says.
pub open spec fn argument_fits(d: Option<String>, today: int) -> bool {
    d matches Some(x) ==> (x@.len() > 0 ==> word_fits(x@, today))
}

/// Tests `argument_fits`.
fn argument_fits_exec(d: &Option<String>, today: i32) -> (r: bool)
    requires
        is_calendar_day(today as int),
    ensures
        r == argument_fits(*d, today as int),
{
    match d {
        Some(x) => is_empty_text(x) || fits_today(x, today),
        None => true,
    }
}

/// Tests `date_fits`.
fn date_fits_exec(d: &Option<String>, today: i32) -> (r: bool)
    requires
        is_calendar_day(today as int),
    ensures
        r == date_fits(opt_view(*d), today as int),
{
    match d {
        Some(x) => fits_today(x, today),
        None => true,
    }
}

/// An empty text.
fn is_empty_text(s: &String) -> (r: bool)
    ensures
        r == (s@.len() == 0),
{
    let empty = String::new();
    proof {
        if s@.len() == 0 {
            assert(s@ =~= empty@);
        }
    }
    *s == empty
}

impl Command {
    /// The `delete`, `done`, `start` and `stop` commands on the task read
    /// by number, `task`: the task to write back and the message.  With no
    /// such task nothing is written and the message is `No Matches`.
    pub fn change(task: Option<Task>, command_type: u8, today: i32, index: usize) -> (r: (
        Option<Task>,
        String,
    ))
        requires
            is_calendar_day(today as int),
            change_fits(task, command_type as int, today as int),
        ensures
            match task {
                Some(t) => r.0 == Some(spec_change(t, command_type as int, today as int, index as int))
                    && r.1@ == change_message(command_type as int),
                None => r.0 is None && r.1@ == "No Matches"@,
            },
            task matches Some(t) && t.wf() ==> r.0->0.wf(),
    {
        let mut task = match task {
            Some(p) => p,
            None => return (None, String::from_str("No Matches")),
        };
        let res = match command_type {
            0 => {
                task.delete();
                String::from_str("Task Canceled.")
            },
            1 => {
                task.done(today, index);
                String::from_str("Task Completed.")
            },
            2 => {
                task.start(today, index);
                String::from_str("Task Start.")
            },
            3 => {
                task.stop(today, index);
                String::from_str("Task Stop.")
            },
            _ => String::from_str(""),
        };
        (Some(task), res)
    }

    /// The `modify` command on the task read by number, `task`; `project`
    /// is the project read by a nonzero `project_id`.  Gives the task to
    /// write back and the message.
    pub fn modify(
        task: Option<Task>,
        name: Option<String>,
        due: Option<String>,
        scheduled: Option<String>,
        project_id: Option<i32>,
        project: Option<Project>,
        today: i32,
        index: usize,
    ) -> (r: (Option<Task>, String))
        requires
            is_calendar_day(today as int),
            task is Some ==> argument_fits(due, today as int) && argument_fits(scheduled, today as int),
            task is Some ==> (project_id matches Some(p) && p != 0 ==> project is Some),
        ensures
            match task {
                Some(t) => r.0 == Some(
                    spec_modify(
                        t,
                        name,
                        due,
                        scheduled,
                        project_id,
                        project,
                        today as int,
                        index as int,
                    ),
                ) && r.1@ == "Task Modified."@,
                None => r.0 is None && r.1@ == "No Matches."@,
            },
            task matches Some(t) && t.wf() ==> r.0->0.wf(),
    {
        match task {
            Some(mut task) => {
                if let Some(id) = project_id {
                    if id == 0 {
                        task.set_project(None);
                    } else {
                        task.set_project(project);
                    }
                }
                if let Some(due) = due {
                    if is_empty_text(&due) {
                        task.set_date(None, 0, today, index);
                    } else {
                        task.set_date(Some(due), 0, today, index);
                    }
                }
                if let Some(scheduled) = scheduled {
                    if is_empty_text(&scheduled) {
                        task.set_date(None, 1, today, index);
                    } else {
                        task.set_date(Some(scheduled), 1, today, index);
                    }
                }
                if let Some(name) = name {
                    task.set_name(name);
                }
                task.verify(today);
                (Some(task), String::from_str("Task Modified."))
            },
            None => (None, String::from_str("No Matches.")),
        }
    }

    /// The `add` command: the new task to write and the message; `project`
    /// is the project read by the project number given, if any.
    pub fn add(
        name: String,
        due: Option<String>,
        scheduled: Option<String>,
        project: Option<Project>,
        today: i32,
        index: usize,
    ) -> (r: (Task, String))
        requires
            is_calendar_day(today as int),
            date_fits(opt_view(due), today as int),
            date_fits(opt_view(scheduled), today as int),
        ensures
            r.0 == spec_add(name, due, scheduled, project, today as int, index as int),
            r.0.wf(),
            r.1@ == "Task Added."@,
    {
        let mut task = Task::new();
        task.set_name(name);
        task.set_date(due, 0, today, index);
        task.set_date(scheduled, 1, today, index);
        task.set_project(project);
        task.verify(today);
        (task, String::from_str("Task Added."))
    }

    /// The `add-project` command: the new project to write and the message.
    pub fn add_project(
        name: String,
        deadline: Option<String>,
        description: Option<String>,
        today: i32,
        index: usize,
    ) -> (r: (Project, String))
        requires
            is_calendar_day(today as int),
        ensures
            r.0 == (Project {
                id: 1,
                name: name,
                _progress: 0,
                deadline: match deadline {
                    Some(d) => parse_with_format(d@, today as int, index as int),
                    None => None,
                },
                description: description,
                is_done: false,
            }),
            r.0.wf(),
            r.1@ == "Project Added."@,
    {
        let mut pro = Project::new();
        pro.set_name(name);
        pro.set_deadline(deadline, today, index);
        if let Some(contents) = description {
            pro.set_description(contents);
        }
        (pro, String::from_str("Project Added."))
    }

    /// The `modify-project` command on the project read by number: the
    /// project to write back and the message.
    pub fn modify_project(
        project: Option<Project>,
        name: Option<String>,
        deadline: Option<String>,
        description: Option<String>,
        today: i32,
        index: usize,
    ) -> (r: (Option<Project>, String))
        requires
            is_calendar_day(today as int),
        ensures
            match project {
                Some(p) => r.0 == Some(
                    spec_modify_project(p, name, deadline, description, today as int, index as int),
                ) && r.1@ == "Project Modified."@,
                None => r.0 is None && r.1@ == "No Matches."@,
            },
            project matches Some(p) && p.wf() ==> r.0->0.wf(),
    {
        match project {
            Some(mut pro) => {
                if let Some(name) = name {
                    pro.set_name(name);
                }
                if let Some(deadline) = deadline {
                    if is_empty_text(&deadline) {
                        pro.set_deadline(None, today, index);
                    } else {
                        pro.set_deadline(Some(deadline), today, index);
                    }
                }
                if let Some(contents) = description {
                    if is_empty_text(&contents) {
                        pro.description = None;
                    } else {
                        pro.set_description(contents);
                    }
                }
                (Some(pro), String::from_str("Project Modified."))
            },
            None => (None, String::from_str("No Matches.")),
        }
    }

    /// The `config` command: takes a new path and date format into
    /// `config` and says whether it changed (and is to be written back).
    pub fn config(config: &mut Config, path: Option<String>, date_format: Option<usize>) -> (r: (
        bool,
        String,
    ))
        ensures
            final(config).path@ == (match path {
                Some(p) => p@,
                None => old(config).path@,
            }),
            final(config).date_format == (match date_format {
                Some(f) if is_valid_format_index(f as int) => f,
                _ => old(config).date_format,
            }),
            r.0 == (path is Some || (date_format matches Some(f) && is_valid_format_index(f as int))),
            r.1@ == (if r.0 {
                "Configuration Done."@
            } else {
                "Nothing Changed."@
            }),
    {
        let modified_flag = config.apply(path, date_format);
        if modified_flag {
            (true, String::from_str("Configuration Done."))
        } else {
            (false, String::from_str("Nothing Changed."))
        }
    }

    /// The closing line of the `show-config` command.
    pub fn show_config(config_dir: &String) -> (s: String)
        ensures
            s@ == "You can change the configuration in "@ + config_dir@
                + ", or use the config command."@,
    {
        String::from_str("You can change the configuration in ").concat(config_dir.as_str()).concat(
            ", or use the config command.",
        )
    }

    /// The `clear` command's answer: `answer` is the line read, `None` when
    /// reading failed.  Clears when the line begins with `Y`.
    pub fn clear(answer: Option<String>) -> (r: (bool, String))
        requires
            answer matches Some(a) ==> a@.len() > 0,
        ensures
            r.0 == (answer matches Some(a) && a@[0] == 'Y'),
            r.1@ == (if r.0 {
                "Database Cleared."@
            } else {
                "Operation Canceled."@
            }),
    {
        match answer {
            Some(make_sure) => {
                if make_sure.as_str().get_char(0) == 'Y' {
                    (true, String::from_str("Database Cleared."))
                } else {
                    (false, String::from_str("Operation Canceled."))
                }
            },
            None => (false, String::from_str("Operation Canceled.")),
        }
    }

    /// The `destroy --project` command: the numbers of the tasks of `tasks`
    /// in project `id`, which are to be deleted with it.
    pub fn destroy_project(tasks: &Vec<Task>, id: u8) -> (ids: Vec<i32>)
        ensures
            ids@ == project_members(tasks@, id).map_values(|t: Task| t.id),
    {
        let mut ids: Vec<i32> = Vec::new();
        let mut i: usize = 0;
        while i < tasks.len()
            invariant
                i <= tasks@.len(),
                ids@ == project_members(tasks@.take(i as int), id).map_values(|t: Task| t.id),
            decreases tasks.len() - i,
        {
            proof {
                reveal_with_fuel(Seq::<_>::filter, 1);
                let next = tasks@.take(i + 1);
                assert(next.drop_last() =~= tasks@.take(i as int));
                assert(next.last() == tasks@[i as int]);
            }
            if let Some(pro_id) = tasks[i].project_id {
                if pro_id == id as i32 {
                    ids.push(tasks[i].id);
                }
            }
            i = i + 1;
            assert(ids@ =~= project_members(tasks@.take(i as int), id).map_values(|t: Task| t.id));
        }
        assert(tasks@.take(i as int) =~= tasks@);
        ids
    }

    /// The `done --project` command: the numbers, cut to a byte as the
    /// commands take them, of the tasks of `tasks` in project `id`, which
    /// are to be completed.
    pub fn complete_project(tasks: &Vec<Task>, id: u8) -> (ids: Vec<u8>)
        ensures
            ids@ == project_members(tasks@, id).map_values(|t: Task| t.id as u8),
    {
        let mut ids: Vec<u8> = Vec::new();
        let mut i: usize = 0;
        while i < tasks.len()
            invariant
                i <= tasks@.len(),
                ids@ == project_members(tasks@.take(i as int), id).map_values(|t: Task| t.id as u8),
            decreases tasks.len() - i,
        {
            proof {
                reveal_with_fuel(Seq::<_>::filter, 1);
                let next = tasks@.take(i + 1);
                assert(next.drop_last() =~= tasks@.take(i as int));
                assert(next.last() == tasks@[i as int]);
            }
            if let Some(pro_id) = tasks[i].project_id {
                if pro_id == id as i32 {
                    ids.push(tasks[i].id as u8);
                }
            }
            i = i + 1;
            assert(ids@ =~= project_members(tasks@.take(i as int), id).map_values(
                |t: Task| t.id as u8,
            ));
        }
        assert(tasks@.take(i as int) =~= tasks@);
        ids
    }

    /// The `delete --project` command: the tasks of `tasks` in project `id`,
    /// taken out of it, which are to be written back.
    pub fn delele_project(tasks: Vec<Task>, id: u8) -> (out: Vec<Task>)
        ensures
            out@ == project_members(tasks@, id).map_values(|t: Task| t.spec_set_project(None)),
    {
        let ghost orig = tasks@;
        let total: usize = tasks.len();
        let mut tasks = tasks;
        let mut out: Vec<Task> = Vec::new();
        let mut done_count: usize = 0;
        assert(orig.skip(0) =~= orig);
        while tasks.len() > 0
            invariant
                done_count <= orig.len(),
                orig.len() == total,
                tasks@ == orig.skip(done_count as int),
                out@ == project_members(orig.take(done_count as int), id).map_values(
                    |t: Task| t.spec_set_project(None),
                ),
            decreases tasks.len(),
        {
            assert(tasks@.len() == orig.len() - done_count);
            let mut task = tasks.remove(0);
            proof {
                reveal_with_fuel(Seq::<_>::filter, 1);
                let next = orig.take(done_count + 1);
                assert(next.drop_last() =~= orig.take(done_count as int));
                assert(next.last() == task);
            }
            let in_project = match task.project_id {
                Some(pro_id) => pro_id == id as i32,
                None => false,
            };
            if in_project {
                task.set_project(None);
                out.push(task);
            }
            done_count = done_count + 1;
            assert(tasks@ =~= orig.skip(done_count as int));
            assert(out@ =~= project_members(orig.take(done_count as int), id).map_values(
                |t: Task| t.spec_set_project(None),
            ));
        }
        assert(orig.take(done_count as int) =~= orig);
        out
    }
}

impl Command {
    /// `change` where it counts no day past chrono's range (see
    /// `change_fits`); `None` where it would.
    pub fn try_change(task: Option<Task>, command_type: u8, today: i32, index: usize) -> (r: Option<
        (Option<Task>, String),
    >)
        requires
            is_calendar_day(today as int),
        ensures
            r is Some <==> change_fits(task, command_type as int, today as int),
            r matches Some(x) ==> match task {
                Some(t) => x.0 == Some(spec_change(t, command_type as int, today as int, index as int))
                    && x.1@ == change_message(command_type as int),
                None => x.0 is None && x.1@ == "No Matches"@,
            },
    {
        let needs_text = match &task {
            Some(t) => command_type == 1 || (command_type == 2 && !t._is_started) || (command_type
                == 3 && t._is_started),
            None => false,
        };
        if needs_text {
            let text = format_date(today, "%Y-%m-%d");
            if !fits_today(&text, today) {
                return None;
            }
        }
        Some(Command::change(task, command_type, today, index))
    }

    /// `modify` where its date arguments count no day past chrono's range
    /// (see `argument_fits`); `None` where they would.
    pub fn try_modify(
        task: Option<Task>,
        name: Option<String>,
        due: Option<String>,
        scheduled: Option<String>,
        project_id: Option<i32>,
        project: Option<Project>,
        today: i32,
        index: usize,
    ) -> (r: Option<(Option<Task>, String)>)
        requires
            is_calendar_day(today as int),
            task is Some ==> (project_id matches Some(p) && p != 0 ==> project is Some),
        ensures
            r is Some <==> (task is Some ==> argument_fits(due, today as int) && argument_fits(
                scheduled,
                today as int,
            )),
            r matches Some(x) ==> match task {
                Some(t) => x.0 == Some(
                    spec_modify(
                        t,
                        name,
                        due,
                        scheduled,
                        project_id,
                        project,
                        today as int,
                        index as int,
                    ),
                ) && x.1@ == "Task Modified."@,
                None => x.0 is None && x.1@ == "No Matches."@,
            },
    {
        if task.is_some() {
            if !argument_fits_exec(&due, today) || !argument_fits_exec(&scheduled, today) {
                return None;
            }
        }
        Some(Command::modify(task, name, due, scheduled, project_id, project, today, index))
    }

    /// `add` where its date arguments count no day past chrono's range (see
    /// `date_fits`); `None` where they would.
    pub fn try_add(
        name: String,
        due: Option<String>,
        scheduled: Option<String>,
        project: Option<Project>,
        today: i32,
        index: usize,
    ) -> (r: Option<(Task, String)>)
        requires
            is_calendar_day(today as int),
        ensures
            r is Some <==> date_fits(opt_view(due), today as int) && date_fits(
                opt_view(scheduled),
                today as int,
            ),
            r matches Some(x) ==> x.0 == spec_add(name, due, scheduled, project, today as int, index as int)
                && x.0.wf() && x.1@ == "Task Added."@,
    {
        if !date_fits_exec(&due, today) || !date_fits_exec(&scheduled, today) {
            return None;
        }
        Some(Command::add(name, due, scheduled, project, today, index))
    }
}

impl Command {
    /// The answer of `destroy` for one task: whether the database took the
    /// delete.
    pub fn destroy_task_message(deleted: bool) -> (s: String)
        ensures
            s@ == (if deleted {
                "Task Destroyed."@
            } else {
                "No Matches."@
            }),
    {
        if deleted {
            String::from_str("Task Destroyed.")
        } else {
            String::from_str("No Matches.")
        }
    }

    /// The answer of `destroy --project`, once the project's tasks are
    /// deleted: whether the database took the project's delete.
    pub fn destroy_project_message(deleted: bool) -> (s: String)
        ensures
            s@ == (if deleted {
                "Project Destroyed."@
            } else {
                "No Matches."@
            }),
    {
        if deleted {
            String::from_str("Project Destroyed.")
        } else {
            String::from_str("No Matches.")
        }
    }

    /// The answer of `delete --project`, once the project's tasks are taken
    /// out of it: whether the database took the project's delete.
    pub fn delele_project_message(deleted: bool) -> (s: String)
        ensures
            s@ == (if deleted {
                "Project Deleted"@
            } else {
                "No Matches."@
            }),
    {
        if deleted {
            String::from_str("Project Deleted")
        } else {
            String::from_str("No Matches.")
        }
    }

    /// The end of `done --project`, once the project's tasks are completed:
    /// the project read by number is marked done, or the answer is
    /// `No Matches.` when there is none.
    pub fn finish_project(project: Option<Project>) -> (r: (Option<Project>, String))
        ensures
            match project {
                Some(p) => r.0 == Some(Project { is_done: true, ..p }) && r.1@ == "Project Done."@,
                None => r.0 is None && r.1@ == "No Matches."@,
            },
    {
        match project {
            Some(mut pro) => {
                pro.project_done();
                (Some(pro), String::from_str("Project Done."))
            },
            None => (None, String::from_str("No Matches.")),
        }
    }
}

/// Filtering keeps each kept task as often as the input holds it.
proof fn lemma_filter_counts(s: Seq<Task>, p: spec_fn(Task) -> bool)
    ensures
        forall|t: Task|
            #[trigger] s.filter(p).to_multiset().count(t) == (if p(t) {
                s.to_multiset().count(t)
            } else {
                0
            }),
    decreases s.len(),
{
    broadcast use vstd::seq_lib::group_to_multiset_ensures;
    broadcast use vstd::multiset::group_multiset_axioms;

    reveal_with_fuel(Seq::<_>::filter, 1);
    if s.len() == 0 {
        assert(s.filter(p) =~= s);
    } else {
        let init = s.drop_last();
        let last = s.last();
        lemma_filter_counts(init, p);
        assert(init.push(last) =~= s);
        assert(s.to_multiset() == init.to_multiset().insert(last));
        if p(last) {
            assert(s.filter(p) == init.filter(p).push(last));
            assert(s.filter(p).to_multiset() == init.filter(p).to_multiset().insert(last));
        } else {
            assert(s.filter(p) == init.filter(p));
        }
    }
}

/// Filtering a list in falling urgency keeps it in falling urgency.
proof fn lemma_filter_descending(s: Seq<Task>, p: spec_fn(Task) -> bool)
    requires
        urgency_descending(s),
    ensures
        urgency_descending(s.filter(p)),
    decreases s.len(),
{
    reveal_with_fuel(Seq::<_>::filter, 1);
    if s.len() > 0 {
        let init = s.drop_last();
        let last = s.last();
        assert forall|i: int, j: int| 0 <= i < j < init.len() implies !less_urgent(
            #[trigger] init[i]._urgent,
            #[trigger] init[j]._urgent,
        ) by {
            assert(init[i] == s[i] && init[j] == s[j]);
        }
        lemma_filter_descending(init, p);
        let fi = init.filter(p);
        if p(last) {
            let out = fi.push(last);
            assert forall|i: int, j: int| 0 <= i < j < out.len() implies !less_urgent(
                #[trigger] out[i]._urgent,
                #[trigger] out[j]._urgent,
            ) by {
                if j < fi.len() {
                    assert(out[i] == fi[i] && out[j] == fi[j]);
                } else {
                    assert(out[i] == fi[i] && out[j] == last);
                    assert(fi.contains(fi[i]));
                    init.lemma_filter_contains_rev(p, fi[i]);
                    let k = choose|k: int| 0 <= k < init.len() && init[k] == fi[i];
                    assert(s[k] == init[k] && s[s.len() - 1] == last);
                }
            }
        }
    }
}

/// A listing shows the selected tasks in falling urgency, each as often
/// as the tasks read hold it, and no other.
pub proof fn lemma_listing(s: Seq<Task>, sel: Selection, today: int)
    requires
        urgencies_wf(s),
    ensures
        urgency_descending(select_rows(sorted_by_urgency(s), sel, today)),
        forall|t: Task|
            #[trigger] select_rows(sorted_by_urgency(s), sel, today).to_multiset().count(t) == (if selects(
                sel,
                t,
                today,
            ) {
                s.to_multiset().count(t)
            } else {
                0
            }),
{
    let p = |t: Task| selects(sel, t, today);
    lemma_sorted_permutation(s);
    lemma_sorted_descending(s);
    lemma_filter_descending(sorted_by_urgency(s), p);
    lemma_filter_counts(sorted_by_urgency(s), p);
}

/// The day a date argument of `modify` leaves in a date field that held
/// `old`: no argument keeps it, the empty text clears it, another text
/// gives the day it resolves to.
pub open spec fn modified_day(arg: Option<String>, old: Option<i32>, today: int, index: int) -> Option<i32> {
    match arg {
        None => old,
        Some(d) => if d@.len() == 0 {
            None
        } else {
            resolve_date(Some(d@), today, index)
        },
    }
}

/// What `modify` does to each field of a task: the number, the start and
/// end days and the started state stay; the name is the one given, if any;
/// the due day and the scheduled day each follow their own argument alone
/// (so a date argument left out keeps its day, and clearing one date
/// clears no other); a project number 0 takes the task out of its project,
/// another puts it in the project given; the status is then brought up to
/// today and the urgency computed from the new status and due day.
pub proof fn lemma_modify_fields(
    t: Task,
    name: Option<String>,
    due: Option<String>,
    scheduled: Option<String>,
    project_id: Option<i32>,
    project: Option<Project>,
    today: int,
    index: int,
)
    ensures
        ({
            let m = spec_modify(t, name, due, scheduled, project_id, project, today, index);
            let nd = modified_day(due, t.due, today, index);
            let ns = modified_day(scheduled, t.scheduled, today, index);
            &&& m.id == t.id
            &&& m.start_time == t.start_time
            &&& m.end_time == t.end_time
            &&& m._is_started == t._is_started
            &&& m.name == (match name {
                Some(n) => n,
                None => t.name,
            })
            &&& m.due == nd
            &&& m.scheduled == ns
            &&& due is None ==> m.due == t.due
            &&& scheduled is None ==> m.scheduled == t.scheduled
            &&& m.project_id == (match project_id {
                None => t.project_id,
                Some(k) => if k == 0 {
                    None
                } else {
                    match project {
                        Some(q) => Some(q.id),
                        None => None,
                    }
                },
            })
            &&& m.project == (match project_id {
                None => t.project,
                Some(k) => if k == 0 {
                    None
                } else {
                    match project {
                        Some(q) => Some(q.name),
                        None => None,
                    }
                },
            })
            &&& m.status == (Task { due: nd, scheduled: ns, ..t }).status_on(today)
            &&& m._urgent == spec_urgency(m.status, nd, t._is_started, today)
        }),
{
}

/// What `add` makes: task number 1 with the name given, not started, with
/// no start or end day; its due day is the day its due argument resolves
/// to and its scheduled day the day its scheduled argument resolves to,
/// each whatever the other is; its project is the one given.  It is
/// pending unless its due day has passed (failed), or, with no due day,
/// its scheduled day has passed (expired); its urgency is computed from
/// that status and its due day.
pub proof fn lemma_add_fields(
    name: String,
    due: Option<String>,
    scheduled: Option<String>,
    project: Option<Project>,
    today: int,
    index: int,
)
    ensures
        ({
            let a = spec_add(name, due, scheduled, project, today, index);
            let d = resolve_date(opt_view(due), today, index);
            let s = resolve_date(opt_view(scheduled), today, index);
            &&& a.id == 1
            &&& a.name == name
            &&& a.due == d
            &&& a.scheduled == s
            &&& a.start_time is None && a.end_time is None
            &&& !a._is_started
            &&& a.project_id == (match project {
                Some(q) => Some(q.id),
                None => None,
            })
            &&& a.project == (match project {
                Some(q) => Some(q.name),
                None => None,
            })
            &&& a.status == (match d {
                Some(x) => if x < today {
                    TaskStatus::Failed
                } else {
                    TaskStatus::Pending
                },
                None => match s {
                    Some(y) => if y < today {
                        TaskStatus::Expired
                    } else {
                        TaskStatus::Pending
                    },
                    None => TaskStatus::Pending,
                },
            })
            &&& a._urgent == spec_urgency(a.status, d, false, today)
        }),
{
}

/// What `modify_project` does to each field of a project: the number, the
/// progress and the done flag stay; the name is the one given, if any; a
/// deadline argument left out keeps the deadline, the empty text clears
/// it, and another text that reads in date format `index` sets it to the
/// day it reads as (as `set_deadline` does), while one that does not read
/// keeps it; a description argument left out keeps the description, the
/// empty text clears it, another sets it.
pub proof fn lemma_modify_project_fields(
    p: Project,
    name: Option<String>,
    deadline: Option<String>,
    description: Option<String>,
    today: int,
    index: int,
)
    ensures
        ({
            let r = spec_modify_project(p, name, deadline, description, today, index);
            &&& r.id == p.id
            &&& r._progress == p._progress
            &&& r.is_done == p.is_done
            &&& r.name == (match name {
                Some(n) => n,
                None => p.name,
            })
            &&& r.deadline == (match deadline {
                None => p.deadline,
                Some(d) => if d@.len() == 0 {
                    None
                } else {
                    match parse_with_format(d@, today, index) {
                        Some(x) => Some(x),
                        None => p.deadline,
                    }
                },
            })
            &&& deadline is Some && deadline->0@.len() > 0 ==> r.deadline == p.spec_set_deadline(
                Some(deadline->0@),
                today,
                index,
            ).deadline
            &&& r.description == (match description {
                None => p.description,
                Some(c) => if c@.len() == 0 {
                    None
                } else {
                    Some(c)
                },
            })
        }),
{
}

/// What `change` does to a task: command type 0 cancels it and 1
/// completes it, each leaving it not started, 1 with its end day today; 2
/// starts a task not started, its start day today; 3 stops a started
/// one, its end day today; any other type, and starting a started task or
/// stopping one not started, leaves the task as it was.  No type touches
/// the number, the name, the due or scheduled day, the project or the
/// urgency.
pub proof fn lemma_change_fields(t: Task, command_type: int, today: int, index: int)
    ensures
        ({
            let c = spec_change(t, command_type, today, index);
            let now = resolve_date(Some(today_text(today)), today, index);
            &&& c.id == t.id && c.name == t.name && c.due == t.due && c.scheduled == t.scheduled
            &&& c.project_id == t.project_id && c.project == t.project && c._urgent == t._urgent
            &&& command_type == 0 ==> c.status == TaskStatus::Canceled && !c._is_started
                && c.start_time == t.start_time && c.end_time == t.end_time
            &&& command_type == 1 ==> c.status == TaskStatus::Completed && !c._is_started
                && c.start_time == t.start_time && c.end_time == now
            &&& command_type == 2 ==> c.status == t.status && c._is_started && c.end_time
                == t.end_time && c.start_time == (if t._is_started {
                t.start_time
            } else {
                now
            })
            &&& command_type == 3 ==> c.status == t.status && !c._is_started && c.start_time
                == t.start_time && c.end_time == (if t._is_started {
                now
            } else {
                t.end_time
            })
            &&& !(0 <= command_type <= 3) ==> c == t
        }),
{
}

/// What a listing shows: `show --all` every task; `show` with a filter
/// the tasks that pass it, without one the pending tasks; `show --project`
/// with a project number the tasks of that project, and of them only those
/// that pass the filter when one is given.
pub proof fn lemma_selections(t: Task, filter: Option<Filter>, id: u8, today: int)
    ensures
        selects(Selection::Everything, t, today),
        selects(listing_selection(filter), t, today) == (match filter {
            Some(f) => t.spec_filtered(f, today),
            None => t.status == TaskStatus::Pending,
        }),
        selects(project_selection(filter, id), t, today) == (t.project_id == Some(id as i32) && (match filter {
            Some(f) => t.spec_filtered(f, today),
            None => true,
        })),
{
}

} // verus!
