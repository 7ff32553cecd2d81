//! Projects: named groups of tasks with an optional deadline.

use crate::calendar::{
    decimal, format_date, is_calendar_day, local_today, spec_decimal, spec_format_date,
};
use crate::config::{parse_user_date, parse_with_format};
use vstd::prelude::*;

verus! {

/// A project.  `deadline` is a day number (see `calendar`).
pub struct Project {
    pub id: i32,
    pub name: String,
    pub _progress: i32,
    pub deadline: Option<i32>,
    pub description: Option<String>,
    pub is_done: bool,
}

/// The text of an optional string.
pub open spec fn opt_view(s: Option<String>) -> Option<Seq<char>> {
    match s {
        Some(x) => Some(x@),
        None => None,
    }
}

impl Project {
    /// The deadline, when there is one, is a day chrono can represent.
    pub open spec fn wf(self) -> bool {
        self.deadline matches Some(d) ==> is_calendar_day(d as int)
    }

    /// The project that `set_deadline` leaves: no date clears the deadline,
    /// a date text that reads in the configured format sets it, and one that
    /// does not read leaves it as it was.
    pub open spec fn spec_set_deadline(self, date: Option<Seq<char>>, today: int, index: int) -> Project {
        match date {
            Some(text) => match parse_with_format(text, today, index) {
                Some(d) => Project { deadline: Some(d), ..self },
                None => self,
            },
            None => Project { deadline: None, ..self },
        }
    }

    /// The cells of a project's row in the project table: its number,
    /// its name and its deadline in the storage format, or `-`.
    pub open spec fn spec_fields(self) -> Seq<Seq<char>> {
        seq![
            spec_decimal(self.id as int),
            self.name@,
            match self.deadline {
                Some(d) => spec_format_date(d as int, "%Y-%m-%d"@),
                None => "-"@,
            },
        ]
    }

    /// A new project, numbered 1 and named "Default Project".
    pub fn new() -> (p: Project)
        ensures
            p.id == 1,
            p.name@ == "Default Project"@,
            p._progress == 0,
            p.deadline is None,
            p.description is None,
            !p.is_done,
            p.wf(),
    {
        Project {
            id: 1,
            name: String::from_str("Default Project"),
            _progress: 0,
            deadline: None,
            description: None,
            is_done: false,
        }
    }

    /// Renames the project.
    pub fn set_name(&mut self, name: String)
        ensures
            *final(self) == (Project { name: name, ..*old(self) }),
    {
        self.name = name;
    }

    /// Sets the deadline from a user's date text in date format `index`.
    pub fn set_deadline(&mut self, date: Option<String>, today: i32, index: usize)
        requires
            is_calendar_day(today as int),
        ensures
            *final(self) == old(self).spec_set_deadline(opt_view(date), today as int, index as int),
            old(self).wf() ==> final(self).wf(),
    {
        match date {
            Some(d) => {
                match parse_user_date(&d, today, index) {
                    Some(nd) => self.deadline = Some(nd),
                    None => {},
                }
            },
            None => self.deadline = None,
        }
    }

    /// `set_deadline` for today by the system clock.
    pub fn set_deadline_now(&mut self, date: Option<String>, index: usize)
        ensures
            exists|d: int|
                is_calendar_day(d) && *final(self) == #[trigger] old(self).spec_set_deadline(
                    opt_view(date),
                    d,
                    index as int,
                ),
            old(self).wf() ==> final(self).wf(),
    {
        let today = local_today();
        self.set_deadline(date, today, index);
    }

    /// Sets the description.
    pub fn set_description(&mut self, contents: String)
        ensures
            *final(self) == (Project { description: Some(contents), ..*old(self) }),
    {
        self.description = Some(contents);
    }

    /// Marks the project done.
    pub fn project_done(&mut self)
        ensures
            *final(self) == (Project { is_done: true, ..*old(self) }),
    {
        self.is_done = true;
    }

    /// The cells of a project's row in the project table.
    pub fn fields(&self) -> (cells: Vec<String>)
        requires
            self.wf(),
        ensures
            cells.deep_view() == self.spec_fields(),
    {
        let mut cells: Vec<String> = Vec::new();
        cells.push(decimal(self.id));
        cells.push(self.name.clone());
        match self.deadline {
            Some(d) => cells.push(format_date(d, "%Y-%m-%d")),
            None => cells.push(String::from_str("-")),
        }
        assert(cells.deep_view() =~= self.spec_fields());
        cells
    }

    /// The headers of the project table.
    pub fn headers() -> (cells: Vec<String>)
        ensures
            cells.deep_view() == seq!["ID"@, "Project"@, "D"@],
    {
        let mut cells: Vec<String> = Vec::new();
        cells.push(String::from_str("ID"));
        cells.push(String::from_str("Project"));
        cells.push(String::from_str("D"));
        assert(cells.deep_view() =~= seq!["ID"@, "Project"@, "D"@]);
        cells
    }
}

} // verus!
