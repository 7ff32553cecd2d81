//! What a run of the program does for its command line, and how the rows
//! of the table it prints are styled on the terminal.

use crate::parser::{Cli, Command};
use ansi_term::{Colour as Paint, Style};
use crate::task::{lemma_state_word_of, Filter, StateWord, Task, TaskStatus};
use vstd::prelude::*;

verus! {

/// The foreground colour of a row.
#[derive(Clone, Copy, Debug, PartialEq, Eq, Structural)]
pub enum Colour {
    Red,
    White,
}

/// The text effect of a row.
#[derive(Clone, Copy, Debug, PartialEq, Eq, Structural)]
pub enum Effect {
    Blink,
    Strikethrough,
    Dimmed,
    Normal,
}

/// The background of a body row.
#[derive(Clone, Copy, Debug, PartialEq, Eq, Structural)]
pub enum Background {
    /// Black.
    Black,
    /// The grey of red, green and blue 32.
    DarkGrey,
}

/// The style of a body row; rows alternate between the black background
/// and the dark grey one.
#[derive(Clone, Copy, Debug, PartialEq, Eq, Structural)]
pub struct RowStyle {
    pub colour: Colour,
    pub effect: Effect,
    pub background: Background,
}

/// The background that `flag` picks: black when set, else dark grey.
pub open spec fn background_of(flag: bool) -> Background {
    if flag {
        Background::Black
    } else {
        Background::DarkGrey
    }
}

/// How a row of the drawn table is printed.
#[derive(Clone, Copy, Debug, PartialEq, Eq, Structural)]
pub enum RowKind {
    /// White, bold and underlined.
    Header,
    /// A task or project row.
    Body(RowStyle),
}

/// The style of a row of state word `state`: red when urgent, else white;
/// blinking when started, else struck through when canceled, else dimmed
/// when completed, else struck through when failed or expired, else plain.
pub open spec fn spec_style(state: StateWord, flag: bool) -> RowStyle {
    RowStyle {
        colour: if state & 1 != 0 {
            Colour::Red
        } else {
            Colour::White
        },
        effect: if state & 2 != 0 {
            Effect::Blink
        } else if state & 4 != 0 {
            Effect::Strikethrough
        } else if state & 8 != 0 {
            Effect::Dimmed
        } else if state & 16 != 0 {
            Effect::Strikethrough
        } else {
            Effect::Normal
        },
        background: background_of(flag),
    }
}

/// How row `i` of a table of `states.len()` task rows is printed: the
/// first row is the header, row `i` shows task `i - 1` with the black
/// background on odd rows, and rows past the tasks are plain.
pub open spec fn spec_row_kind(i: int, states: Seq<StateWord>) -> RowKind {
    if i > states.len() {
        RowKind::Body(spec_style(0, true))
    } else if i == 0 {
        RowKind::Header
    } else {
        RowKind::Body(spec_style(states[i - 1], i % 2 == 1))
    }
}

/// A task's row is red exactly when the task is urgent and blinks exactly
/// when it is started; a task not started is struck through when canceled,
/// failed or expired, dimmed when completed, and plain when pending.
pub proof fn lemma_task_row_style(t: Task, flag: bool)
    ensures
        (spec_style(t.spec_state_word() as u8, flag).colour == Colour::Red) == t.spec_is_urgent(),
        (spec_style(t.spec_state_word() as u8, flag).effect == Effect::Blink) == t._is_started,
        !t._is_started ==> (spec_style(t.spec_state_word() as u8, flag).effect
            == Effect::Strikethrough) == (t.status == TaskStatus::Canceled || t.status
            == TaskStatus::Failed || t.status == TaskStatus::Expired),
        !t._is_started ==> (spec_style(t.spec_state_word() as u8, flag).effect == Effect::Dimmed)
            == (t.status == TaskStatus::Completed),
        !t._is_started ==> (spec_style(t.spec_state_word() as u8, flag).effect == Effect::Normal)
            == (t.status == TaskStatus::Pending),
        spec_style(t.spec_state_word() as u8, flag).background == background_of(flag),
{
    lemma_state_word_of(t);
    let w = t.spec_state_word() as u8;
    assert((w & 1 == 1) == (w & 1 != 0)) by (bit_vector);
    assert((w & 2 == 2) == (w & 2 != 0)) by (bit_vector);
    assert((w & 4 == 4) == (w & 4 != 0)) by (bit_vector);
    assert((w & 8 == 8) == (w & 8 != 0)) by (bit_vector);
    assert((w & 16 == 16) == (w & 16 != 0)) by (bit_vector);
}

/// The style of a row of state word `state`.
pub fn set_style(state: StateWord, flag: bool) -> (s: RowStyle)
    ensures
        s == spec_style(state, flag),
{
    assert((1u8 << 1u8) == 2u8 && (1u8 << 2u8) == 4u8 && (1u8 << 3u8) == 8u8 && (1u8 << 4u8) == 16u8)
        by (bit_vector);
    let colour = if state & 1 != 0 {
        Colour::Red
    } else {
        Colour::White
    };
    let effect = if state & (1 << 1) != 0 {
        Effect::Blink
    } else if state & (1 << 2) != 0 {
        Effect::Strikethrough
    } else if state & (1 << 3) != 0 {
        Effect::Dimmed
    } else if state & (1 << 4) != 0 {
        Effect::Strikethrough
    } else {
        Effect::Normal
    };
    let background = if flag {
        Background::Black
    } else {
        Background::DarkGrey
    };
    RowStyle { colour, effect, background }
}

/// How each of `n_rows` rows of a drawn table is printed, `states` being
/// the state words of the rows after the header.
pub fn show_table(n_rows: usize, states: &Vec<StateWord>) -> (kinds: Vec<RowKind>)
    ensures
        kinds@.len() == n_rows,
        forall|i: int| 0 <= i < n_rows ==> #[trigger] kinds@[i] == spec_row_kind(i, states@),
{
    let n = states.len();
    let mut kinds: Vec<RowKind> = Vec::new();
    let mut flag: bool = false;
    let mut is_header = true;
    let mut i: usize = 0;
    while i < n_rows
        invariant
            i <= n_rows,
            n == states@.len(),
            kinds@.len() == i,
            forall|k: int| 0 <= k < i ==> #[trigger] kinds@[k] == spec_row_kind(k, states@),
            is_header == (i == 0),
            i <= n + 1 ==> flag == (i > 0 && (i - 1) % 2 == 1),
        decreases n_rows - i,
    {
        if i > n {
            kinds.push(RowKind::Body(set_style(0, true)));
        } else if is_header {
            is_header = false;
            kinds.push(RowKind::Header);
        } else if flag {
            flag = false;
            kinds.push(RowKind::Body(set_style(states[i - 1], flag)));
        } else {
            flag = true;
            kinds.push(RowKind::Body(set_style(states[i - 1], flag)));
        }
        i = i + 1;
    }
    kinds
}

/// The step a run takes for its command line; the caller reads and writes
/// the database around the command that the step names, and prints the
/// table it gives.
#[allow(inconsistent_fields)]
pub enum Action {
    Config { path: Option<String>, date_format: Option<usize> },
    ShowConfig,
    Init,
    Add { name: String, due: Option<String>, scheduled: Option<String>, project_id: Option<i32> },
    AddProject { name: String, deadline: Option<String>, description: Option<String> },
    /// `Command::show`.
    Show { id: Option<u8>, all: bool, filter: Option<Filter> },
    /// `Command::show_with_project`.
    ShowWithProject { id: Option<u8>, filter: Option<Filter> },
    Modify {
        id: u8,
        name: Option<String>,
        due: Option<String>,
        scheduled: Option<String>,
        project_id: Option<i32>,
    },
    ModifyProject {
        id: u8,
        name: Option<String>,
        deadline: Option<String>,
        description: Option<String>,
    },
    /// `Command::change` with a command type: 0 cancel, 1 complete, 2
    /// start, 3 stop.
    Change { id: u8, command_type: u8 },
    /// `Command::delele_project`.
    DeleteProject { id: u8 },
    /// Deleting one task from the database.
    DestroyTask { id: u8 },
    /// `Command::destroy_project`.
    DestroyProject { id: u8 },
    /// `Command::complete_project`.
    CompleteProject { id: u8 },
    Clear { project: bool },
    /// `info_line`.
    Info,
}

/// The step for a command line: no command lists the pending tasks;
/// `delete`, `done`, `destroy` act on a project with `--project` and on a
/// task otherwise; `start` and `stop` change a task; `info` answers with a
/// fixed line.
pub open spec fn spec_action(args: Cli) -> Action {
    match args.command {
        None => Action::Show { id: None, all: false, filter: None },
        Some(command) => match command {
            Command::Config { path, date_format } => Action::Config { path, date_format },
            Command::ShowConfig {  } => Action::ShowConfig,
            Command::Init {  } => Action::Init,
            Command::Add { name, due, scheduled, project_id } => Action::Add {
                name,
                due,
                scheduled,
                project_id,
            },
            Command::AddProject { name, deadline, description } => Action::AddProject {
                name,
                deadline,
                description,
            },
            Command::Show { id, filter, project, all } => if project {
                Action::ShowWithProject { id, filter }
            } else {
                Action::Show { id, all, filter }
            },
            Command::Modify { id, name, due, scheduled, project_id } => Action::Modify {
                id,
                name,
                due,
                scheduled,
                project_id,
            },
            Command::ModifyProject { id, name, deadline, description } => Action::ModifyProject {
                id,
                name,
                deadline,
                description,
            },
            Command::Delete { id, project } => if project {
                Action::DeleteProject { id }
            } else {
                Action::Change { id, command_type: 0 }
            },
            Command::Destroy { id, project } => if project {
                Action::DestroyProject { id }
            } else {
                Action::DestroyTask { id }
            },
            Command::Clear { project } => Action::Clear { project },
            Command::Done { id, project } => if project {
                Action::CompleteProject { id }
            } else {
                Action::Change { id, command_type: 1 }
            },
            Command::Start { id } => Action::Change { id, command_type: 2 },
            Command::Stop { id } => Action::Change { id, command_type: 3 },
            Command::Info {  } => Action::Info,
        },
    }
}

/// The answer of the `info` command.
pub fn info_line() -> (s: String)
    ensures
        s@ == "I have too much to say, but I can't fit a line."@,
{
    String::from_str("I have too much to say, but I can't fit a line.")
}

/// Decides the step of a run from its command line.
pub fn taskoto_run(args: Cli) -> (action: Action)
    ensures
        action == spec_action(args),
{
    match args.command {
        None => Action::Show { id: None, all: false, filter: None },
        Some(command) => match command {
            Command::Config { path, date_format } => Action::Config { path, date_format },
            Command::ShowConfig {  } => Action::ShowConfig,
            Command::Init {  } => Action::Init,
            Command::Add { name, due, scheduled, project_id } => Action::Add {
                name,
                due,
                scheduled,
                project_id,
            },
            Command::AddProject { name, deadline, description } => Action::AddProject {
                name,
                deadline,
                description,
            },
            Command::Show { id, filter, project, all } => {
                if project {
                    Action::ShowWithProject { id, filter }
                } else {
                    Action::Show { id, all, filter }
                }
            },
            Command::Modify { id, name, due, scheduled, project_id } => Action::Modify {
                id,
                name,
                due,
                scheduled,
                project_id,
            },
            Command::ModifyProject { id, name, deadline, description } => Action::ModifyProject {
                id,
                name,
                deadline,
                description,
            },
            Command::Delete { id, project } => {
                if project {
                    Action::DeleteProject { id }
                } else {
                    Action::Change { id, command_type: 0 }
                }
            },
            Command::Destroy { id, project } => {
                if project {
                    Action::DestroyProject { id }
                } else {
                    Action::DestroyTask { id }
                }
            },
            Command::Clear { project } => Action::Clear { project },
            Command::Done { id, project } => {
                if project {
                    Action::CompleteProject { id }
                } else {
                    Action::Change { id, command_type: 1 }
                }
            },
            Command::Start { id } => Action::Change { id, command_type: 2 },
            Command::Stop { id } => Action::Change { id, command_type: 3 },
            Command::Info {  } => Action::Info,
        },
    }
}

/// What ansi_term writes for `text` painted in a row style.
pub uninterp spec fn spec_paint_row(text: Seq<char>, style: RowStyle) -> Seq<char>;

/// What ansi_term writes for `text` painted white, bold and underlined.
pub uninterp spec fn spec_paint_header(text: Seq<char>) -> Seq<char>;

/// What std's `str::split` on `'\n'` gives for a text.
pub uninterp spec fn spec_split_lines(text: Seq<char>) -> Seq<Seq<char>>;

/// Paints `text` in a row style through ansi_term: the colour's `blink`,
/// `strikethrough`, `dimmed` or `normal` style, `on` the background, then
/// `paint` and `to_string`.
#[verifier::external_body]
pub fn paint_row(text: &str, style: RowStyle) -> (s: String)
    ensures
        s@ == spec_paint_row(text@, style),
{
    let colour = match style.colour {
        Colour::Red => Paint::Red,
        Colour::White => Paint::White,
    };
    let styled: Style = match style.effect {
        Effect::Blink => colour.blink(),
        Effect::Strikethrough => colour.strikethrough(),
        Effect::Dimmed => colour.dimmed(),
        Effect::Normal => colour.normal(),
    };
    let background = match style.background {
        Background::Black => Paint::Black,
        Background::DarkGrey => Paint::RGB(32, 32, 32),
    };
    styled.on(background).paint(text).to_string()
}

/// Paints `text` white, bold and underlined through ansi_term's `bold`,
/// `underline`, `paint` and `to_string`.
#[verifier::external_body]
pub fn paint_header(text: &str) -> (s: String)
    ensures
        s@ == spec_paint_header(text@),
{
    Paint::White.bold().underline().paint(text).to_string()
}

/// The lines of a text, through std's `str::split` on `'\n'`.
#[verifier::external_body]
pub fn split_lines(text: &str) -> (lines: Vec<String>)
    ensures
        lines.deep_view() == spec_split_lines(text@),
{
    text.split('\n').map(String::from).collect()
}

/// A row of the table painted as `kind` says.
pub open spec fn painted(text: Seq<char>, kind: RowKind) -> Seq<char> {
    match kind {
        RowKind::Header => spec_paint_header(text),
        RowKind::Body(style) => spec_paint_row(text, style),
    }
}

/// The lines to print for a drawn table whose task rows have the state
/// words `states`: each line of the table painted as `show_table` says.
pub fn paint_table(table: &String, states: &Vec<StateWord>) -> (lines: Vec<String>)
    ensures
        lines@.len() == spec_split_lines(table@).len(),
        forall|i: int|
            0 <= i < lines@.len() ==> (#[trigger] lines@[i])@ == painted(
                spec_split_lines(table@)[i],
                spec_row_kind(i, states@),
            ),
{
    let rows = split_lines(table.as_str());
    let kinds = show_table(rows.len(), states);
    let mut lines: Vec<String> = Vec::new();
    let mut i: usize = 0;
    while i < rows.len()
        invariant
            i <= rows@.len(),
            rows.deep_view() == spec_split_lines(table@),
            kinds@.len() == rows@.len(),
            forall|k: int| 0 <= k < rows@.len() ==> #[trigger] kinds@[k] == spec_row_kind(k, states@),
            lines@.len() == i,
            forall|k: int|
                0 <= k < i ==> (#[trigger] lines@[k])@ == painted(
                    spec_split_lines(table@)[k],
                    spec_row_kind(k, states@),
                ),
        decreases rows@.len() - i,
    {
        assert(rows.deep_view()[i as int] == rows@[i as int]@);
        let line = match kinds[i] {
            RowKind::Header => paint_header(rows[i].as_str()),
            RowKind::Body(style) => paint_row(rows[i].as_str(), style),
        };
        lines.push(line);
        i = i + 1;
    }
    lines
}

} // verus!
