//! Tasks: their status, dates, urgency, state word and filters.
//!
//! A task's dates are day numbers (see `calendar`).  Its urgency is held as
//! an exact fraction `num / den`.

use crate::calendar::{
    add_days, decimal, format_date, is_calendar_day, local_today, lowercase, spec_decimal, spec_format_date,
    spec_to_lowercase, spec_weekday, weekday_of, MAX_DAY,
};
use crate::config::{date_format_pattern, parse_user_date, parse_with_format, spec_date_pattern};
use crate::project::{opt_view, Project};
use vstd::prelude::*;

verus! {

/// The display state of a task as bits: 0 urgent, 1 started, 2 canceled,
/// 3 completed, 4 failed or expired; 5 to 7 are reserved.
pub type StateWord = u8;

/// Where a task stands.
#[derive(Clone, Copy, Debug, PartialEq, Eq, Structural, PartialOrd, Ord)]
pub enum TaskStatus {
    Pending,
    Canceled,
    Completed,
    Expired,
    Failed,
}

/// The selections of the `show` command.
#[derive(Clone, Copy, Debug, PartialEq, Eq, Structural, PartialOrd, Ord)]
pub enum Filter {
    Urgent,
    Failed,
    Done,
    Canceled,
    Expired,
    Started,
    NotStarted,
    Today,
    Tomorrow,
}

/// An urgency as the fraction `num / den`.
#[derive(Clone, Copy, Debug, PartialEq, Eq, Structural)]
pub struct Urgency {
    pub num: u64,
    pub den: u64,
}

/// A task.
pub struct Task {
    /// Its number in the database.
    pub id: i32,
    pub name: String,
    pub status: TaskStatus,
    /// The day it is due.
    pub due: Option<i32>,
    /// The day it is scheduled for.
    pub scheduled: Option<i32>,
    /// The day it was last started.
    pub start_time: Option<i32>,
    /// The day it was last stopped or completed.
    pub end_time: Option<i32>,
    /// The number and the name of its project.
    pub project_id: Option<i32>,
    pub project: Option<String>,
    /// It is being worked on.
    pub _is_started: bool,
    /// Its urgency as `verify` last computed it.
    pub _urgent: Urgency,
}

/// An optional day is absent or one chrono can represent.
pub open spec fn day_ok(d: Option<i32>) -> bool {
    d matches Some(x) ==> is_calendar_day(x as int)
}

/// The status that status code `code` stands for: 0 pending, 1 canceled,
/// 2 completed, 3 expired, 4 failed.
pub open spec fn status_of_code(code: int) -> Option<TaskStatus> {
    if code == 0 {
        Some(TaskStatus::Pending)
    } else if code == 1 {
        Some(TaskStatus::Canceled)
    } else if code == 2 {
        Some(TaskStatus::Completed)
    } else if code == 3 {
        Some(TaskStatus::Expired)
    } else if code == 4 {
        Some(TaskStatus::Failed)
    } else {
        None
    }
}

/// Days from weekday `from` to the next weekday `to` (Monday 1 to Sunday
/// 7), a whole week when they are the same.
pub open spec fn days_until(from: int, to: int) -> int {
    if from < to {
        to - from
    } else {
        7 - from + to
    }
}

/// The offset from today that a lower-case date word names, given today's
/// weekday; `None` for a word that names no relative day.
pub open spec fn relative_offset(word: Seq<char>, weekday: int) -> Option<int> {
    if word == "mon"@ || word == "monday"@ {
        Some(days_until(weekday, 1))
    } else if word == "tue"@ || word == "tuesday"@ {
        Some(days_until(weekday, 2))
    } else if word == "wed"@ || word == "wednsday"@ {
        Some(days_until(weekday, 3))
    } else if word == "thu"@ || word == "thursday"@ {
        Some(days_until(weekday, 4))
    } else if word == "fri"@ || word == "friday"@ {
        Some(days_until(weekday, 5))
    } else if word == "sat"@ || word == "saturday"@ {
        Some(days_until(weekday, 6))
    } else if word == "sun"@ || word == "sunday"@ {
        Some(days_until(weekday, 7))
    } else if word == "now"@ || word == "today"@ {
        Some(0)
    } else if word == "later"@ || word == "tomorrow"@ {
        Some(1)
    } else {
        None
    }
}

/// The day that a date argument sets: none for no argument; a weekday name,
/// `now`, `today`, `later` or `tomorrow` (in any case) counts from today;
/// any other text is read in date format `index`, and none when it does not
/// read.
pub open spec fn resolve_date(date: Option<Seq<char>>, today: int, index: int) -> Option<i32> {
    match date {
        None => None,
        Some(text) => match relative_offset(spec_to_lowercase(text), spec_weekday(today)) {
            Some(k) => Some((today + k) as i32),
            None => parse_with_format(text, today, index),
        },
    }
}

/// The storage form of today, which `start`, `stop` and `done` hand to
/// `set_date`.
pub open spec fn today_text(today: int) -> Seq<char> {
    spec_format_date(today, "%Y-%m-%d"@)
}

/// The urgency of a task in `status`, with `due` and `started`, on `today`:
/// a pending task has 1, plus `1 / (days left + 1)` when it is due, plus
/// `3 / 2` when it is started; a completed one `1 / 2`; the others 0.  A
/// pending task due yesterday divides by zero: its urgency is infinite, held
/// as `1 / 0`, which no fraction exceeds.
pub open spec fn spec_urgency(status: TaskStatus, due: Option<i32>, started: bool, today: int) -> Urgency {
    match status {
        TaskStatus::Pending => match due {
            Some(d) => {
                let q: int = d - today + 1;
                if q > 0 {
                    let start_part: int = if started {
                        3 * q
                    } else {
                        0
                    };
                    Urgency { num: (2 * q + 2 + start_part) as u64, den: (2 * q) as u64 }
                } else if q < 0 {
                    let m: int = -q;
                    let start_part: int = if started {
                        3 * m
                    } else {
                        0
                    };
                    Urgency { num: (2 * m - 2 + start_part) as u64, den: (2 * m) as u64 }
                } else {
                    Urgency { num: 1, den: 0 }
                }
            },
            None => Urgency {
                num: if started {
                    5
                } else {
                    2
                },
                den: 2,
            },
        },
        TaskStatus::Completed => Urgency { num: 1, den: 2 },
        _ => Urgency { num: 0, den: 1 },
    }
}

/// `a` is less urgent than `b`.
pub open spec fn less_urgent(a: Urgency, b: Urgency) -> bool {
    a.num * b.den < b.num * a.den
}

/// The status letter of the task table.
pub open spec fn status_letter(s: TaskStatus) -> Seq<char> {
    match s {
        TaskStatus::Pending => "P"@,
        TaskStatus::Canceled => "C"@,
        TaskStatus::Completed => "D"@,
        TaskStatus::Expired => "E"@,
        TaskStatus::Failed => "F"@,
    }
}

/// The date cell of the task table: the day in display format `index`, or
/// ` - `.
pub open spec fn date_cell(d: Option<i32>, index: int) -> Seq<char> {
    match d {
        Some(x) => spec_format_date(x as int, spec_date_pattern(index).1),
        None => " - "@,
    }
}

impl Task {
    /// The task's dates are days chrono can represent, a project number
    /// comes with a project name, and the urgency has a positive
    /// denominator.
    pub open spec fn wf(self) -> bool {
        &&& self.displayable()
        &&& day_ok(self.start_time)
        &&& day_ok(self.end_time)
        &&& self._urgent.den > 0
    }

    /// What a row of the task table needs: the due and scheduled days are
    /// days chrono can represent and a project number comes with a project
    /// name.
    pub open spec fn displayable(self) -> bool {
        &&& day_ok(self.due)
        &&& day_ok(self.scheduled)
        &&& (self.project_id is Some ==> self.project is Some)
    }

    /// The task with date field `date_type` (0 due, 1 scheduled, 2 start,
    /// 3 end; others none) set to `value`.
    pub open spec fn with_date(self, date_type: int, value: Option<i32>) -> Task {
        if date_type == 0 {
            Task { due: value, ..self }
        } else if date_type == 1 {
            Task { scheduled: value, ..self }
        } else if date_type == 2 {
            Task { start_time: value, ..self }
        } else if date_type == 3 {
            Task { end_time: value, ..self }
        } else {
            self
        }
    }

    /// The task with the status of code `code`, or unchanged for a code that
    /// names no status.
    pub open spec fn with_status_code(self, code: int) -> Task {
        match status_of_code(code) {
            Some(s) => Task { status: s, ..self },
            None => self,
        }
    }

    /// The task that `set_date` leaves.
    pub open spec fn spec_set_date(self, date: Option<Seq<char>>, date_type: int, today: int, index: int) -> Task {
        self.with_date(date_type, resolve_date(date, today, index))
    }

    /// The task that `set_project` leaves.
    pub open spec fn spec_set_project(self, project: Option<Project>) -> Task {
        match project {
            Some(p) => Task { project_id: Some(p.id), project: Some(p.name), ..self },
            None => Task { project_id: None, project: None, ..self },
        }
    }

    /// The task that `start` leaves: a task not yet started becomes started
    /// and gets its start date from today's text; a started one is left.
    pub open spec fn spec_start(self, today: int, index: int) -> Task {
        if !self._is_started {
            Task { _is_started: true, ..self }.spec_set_date(Some(today_text(today)), 2, today, index)
        } else {
            self
        }
    }

    /// The task that `stop` leaves: a started task stops and gets its end
    /// date from today's text; one not started is left.
    pub open spec fn spec_stop(self, today: int, index: int) -> Task {
        if self._is_started {
            Task { _is_started: false, ..self }.spec_set_date(Some(today_text(today)), 3, today, index)
        } else {
            self
        }
    }

    /// The task that `done` leaves: completed, not started, with its end
    /// date from today's text.
    pub open spec fn spec_done(self, today: int, index: int) -> Task {
        Task {
            status: TaskStatus::Completed,
            _is_started: false,
            ..self
        }.spec_set_date(Some(today_text(today)), 3, today, index)
    }

    /// The task that `delete` leaves: canceled and not started.
    pub open spec fn spec_delete(self) -> Task {
        Task { status: TaskStatus::Canceled, _is_started: false, ..self }
    }

    /// The task with its urgency computed for `today`.
    pub open spec fn spec_calc_urgent(self, today: int) -> Task {
        Task { _urgent: spec_urgency(self.status, self.due, self._is_started, today), ..self }
    }

    /// The status that `verify` gives a task on `today`: a pending task
    /// whose due day has passed has failed; a pending task with no due day
    /// whose scheduled day has passed has expired; any other keeps its
    /// status.
    pub open spec fn status_on(self, today: int) -> TaskStatus {
        if self.status == TaskStatus::Pending {
            match self.due {
                Some(d) => if d < today {
                    TaskStatus::Failed
                } else {
                    self.status
                },
                None => match self.scheduled {
                    Some(s) => if s < today {
                        TaskStatus::Expired
                    } else {
                        self.status
                    },
                    None => self.status,
                },
            }
        } else {
            self.status
        }
    }

    /// The task that `verify` leaves: its status brought up to `today`,
    /// then its urgency computed.
    pub open spec fn spec_verify(self, today: int) -> Task {
        Task { status: self.status_on(today), ..self }.spec_calc_urgent(today)
    }

    /// The task counts as urgent: a started task above urgency 2.8, any
    /// other above 1.3.
    pub open spec fn spec_is_urgent(self) -> bool {
        if self._is_started {
            10 * self._urgent.num > 28 * self._urgent.den
        } else {
            10 * self._urgent.num > 13 * self._urgent.den
        }
    }

    /// The task passes `filter` on `today`.
    pub open spec fn spec_filtered(self, filter: Filter, today: int) -> bool {
        match filter {
            Filter::Urgent => self.spec_is_urgent(),
            Filter::Failed => self.status == TaskStatus::Failed,
            Filter::Done => self.status == TaskStatus::Completed,
            Filter::Canceled => self.status == TaskStatus::Canceled,
            Filter::Expired => self.status == TaskStatus::Expired,
            Filter::Started => self.status == TaskStatus::Pending && self._is_started,
            Filter::NotStarted => self.status == TaskStatus::Pending && !self._is_started,
            Filter::Today => self.status == TaskStatus::Pending && (self.due matches Some(d) && d
                - today == 0),
            Filter::Tomorrow => self.status == TaskStatus::Pending && (self.due matches Some(d) && d
                - today == 1),
        }
    }

    /// The cells of a task's row in the task table, dates in display
    /// format `index`: number, `[project number]project name` or `-`, due
    /// day, scheduled day, name and status letter.
    pub open spec fn spec_fields(self, index: int) -> Seq<Seq<char>> {
        seq![
            spec_decimal(self.id as int),
            match self.project_id {
                Some(i) => "["@ + spec_decimal(i as int) + "]"@ + self.project.unwrap()@,
                None => "-"@,
            },
            date_cell(self.due, index),
            date_cell(self.scheduled, index),
            self.name@,
            status_letter(self.status),
        ]
    }
}

impl TaskStatus {
    /// The status code of the status, as the database stores it.
    pub fn code(&self) -> (c: i64)
        ensures
            status_of_code(c as int) == Some(*self),
    {
        match self {
            TaskStatus::Pending => 0,
            TaskStatus::Canceled => 1,
            TaskStatus::Completed => 2,
            TaskStatus::Expired => 3,
            TaskStatus::Failed => 4,
        }
    }
}

/// Days from weekday `a` to the next weekday `b`, both in 1 to 7.
fn calc_duration(a: u8, b: u8) -> (d: u8)
    requires
        1 <= a <= 7,
        1 <= b <= 7,
    ensures
        d as int == days_until(a as int, b as int),
        1 <= d <= 7,
{
    if a < b {
        b - a
    } else {
        7 - a + b
    }
}

/// The text of a date argument in lower case is one of the two names given.
fn is_word(word: &String, short: &str, long: &str) -> (r: bool)
    ensures
        r == (word@ == short@ || word@ == long@),
{
    let a = String::from_str(short);
    let b = String::from_str(long);
    *word == a || *word == b
}

/// The day that a lower-case date word names counting from `today` (see
/// `relative_offset`), or `None` for a word that names no relative day.
pub fn relative_day(word: &String, today: i32) -> (r: Option<i32>)
    requires
        is_calendar_day(today as int),
        relative_offset(word@, spec_weekday(today as int)) matches Some(k) ==> today + k <= MAX_DAY,
    ensures
        r == (match relative_offset(word@, spec_weekday(today as int)) {
            Some(k) => Some((today + k) as i32),
            None => None,
        }),
{
    let weekday = weekday_of(today);
    match word_offset(word, weekday) {
        Some(k) => Some(add_days(today, k as u64).unwrap()),
        None => None,
    }
}

/// The offset from today that a lower-case date word names, given today's
/// weekday (see `relative_offset`).
fn word_offset(word: &String, weekday: u8) -> (r: Option<u8>)
    requires
        1 <= weekday <= 7,
    ensures
        match r {
            Some(k) => relative_offset(word@, weekday as int) == Some(k as int) && k <= 7,
            None => relative_offset(word@, weekday as int) is None,
        },
{
    let target: u8 = if is_word(word, "mon", "monday") {
        1
    } else if is_word(word, "tue", "tuesday") {
        2
    } else if is_word(word, "wed", "wednsday") {
        3
    } else if is_word(word, "thu", "thursday") {
        4
    } else if is_word(word, "fri", "friday") {
        5
    } else if is_word(word, "sat", "saturday") {
        6
    } else if is_word(word, "sun", "sunday") {
        7
    } else {
        0
    };
    if target != 0 {
        Some(calc_duration(weekday, target))
    } else if is_word(word, "now", "today") {
        Some(0)
    } else if is_word(word, "later", "tomorrow") {
        Some(1)
    } else {
        None
    }
}

/// A date text counts no relative day past the last day chrono can
/// represent: when it is, in lower case, a weekday name, `now`, `today`,
/// `later` or `tomorrow`, the day it names from `today` is within range.
pub open spec fn word_fits(text: Seq<char>, today: int) -> bool {
    relative_offset(spec_to_lowercase(text), spec_weekday(today)) matches Some(k) ==> today + k
        <= MAX_DAY
}

/// A date argument fits (see `word_fits`), or there is none.
pub open spec fn date_fits(date: Option<Seq<char>>, today: int) -> bool {
    date matches Some(text) ==> word_fits(text, today)
}

/// Tests `word_fits` for a date text.
pub fn fits_today(text: &String, today: i32) -> (r: bool)
    requires
        is_calendar_day(today as int),
    ensures
        r == word_fits(text@, today as int),
{
    let word = lowercase(text.as_str());
    let weekday = weekday_of(today);
    match word_offset(&word, weekday) {
        Some(k) => (today as i64) + (k as i64) <= MAX_DAY as i64,
        None => true,
    }
}

impl Task {
    /// A new pending task numbered 1, named `default_name`, with no dates or
    /// project, not started, of urgency 1.
    pub fn new() -> (t: Task)
        ensures
            t.id == 1,
            t.name@ == "default_name"@,
            t.status == TaskStatus::Pending,
            t.due is None,
            t.scheduled is None,
            t.start_time is None,
            t.end_time is None,
            t.project_id is None,
            t.project is None,
            !t._is_started,
            t._urgent == (Urgency { num: 1, den: 1 }),
            t.wf(),
    {
        Task {
            id: 1,
            name: String::from_str("default_name"),
            status: TaskStatus::Pending,
            due: None,
            scheduled: None,
            start_time: None,
            end_time: None,
            project_id: None,
            project: None,
            _is_started: false,
            _urgent: Urgency { num: 1, den: 1 },
        }
    }

    /// Renames the task.
    pub fn set_name(&mut self, name: String)
        ensures
            *final(self) == (Task { name: name, ..*old(self) }),
    {
        self.name = name;
    }

    /// Sets the status of code `status`; a code that names no status changes
    /// nothing.
    pub fn set_status(&mut self, status: i32)
        ensures
            *final(self) == old(self).with_status_code(status as int),
    {
        match status {
            0 => self.status = TaskStatus::Pending,
            1 => self.status = TaskStatus::Canceled,
            2 => self.status = TaskStatus::Completed,
            3 => self.status = TaskStatus::Expired,
            4 => self.status = TaskStatus::Failed,
            _ => {},
        }
    }

    /// Puts the task in a project, or in none.
    pub fn set_project(&mut self, project: Option<Project>)
        ensures
            *final(self) == old(self).spec_set_project(project),
            old(self).wf() ==> final(self).wf(),
    {
        if let Some(pro) = project {
            self.project_id = Some(pro.id);
            self.project = Some(pro.name);
        } else {
            self.project_id = None;
            self.project = None;
        }
    }

    /// Sets date field `date_type` (0 due, 1 scheduled, 2 start, 3 end) from
    /// a date argument (see `resolve_date`); another `date_type` changes
    /// nothing.
    pub fn set_date(&mut self, date: Option<String>, date_type: u8, today: i32, index: usize)
        requires
            is_calendar_day(today as int),
            date_fits(opt_view(date), today as int),
        ensures
            *final(self) == old(self).spec_set_date(
                opt_view(date),
                date_type as int,
                today as int,
                index as int,
            ),
            old(self).wf() ==> final(self).wf(),
    {
        let dds: Option<i32> = match date {
            Some(p) => {
                let word = lowercase(p.as_str());
                match relative_day(&word, today) {
                    Some(d) => Some(d),
                    None => parse_user_date(&p, today, index),
                }
            },
            None => None,
        };
        match date_type {
            0 => self.due = dds,
            1 => self.scheduled = dds,
            2 => self.start_time = dds,
            3 => self.end_time = dds,
            _ => {},
        }
    }

    /// Starts a task not yet started, its start date set from today's text.
    pub fn start(&mut self, today: i32, index: usize)
        requires
            is_calendar_day(today as int),
            !old(self)._is_started ==> word_fits(today_text(today as int), today as int),
        ensures
            *final(self) == old(self).spec_start(today as int, index as int),
            old(self).wf() ==> final(self).wf(),
    {
        if !self._is_started {
            self._is_started = true;
            let now = format_date(today, "%Y-%m-%d");
            self.set_date(Some(now), 2, today, index);
        }
    }

    /// Stops a started task, its end date set from today's text.
    pub fn stop(&mut self, today: i32, index: usize)
        requires
            is_calendar_day(today as int),
            old(self)._is_started ==> word_fits(today_text(today as int), today as int),
        ensures
            *final(self) == old(self).spec_stop(today as int, index as int),
            old(self).wf() ==> final(self).wf(),
    {
        if self._is_started {
            self._is_started = false;
            let now = format_date(today, "%Y-%m-%d");
            self.set_date(Some(now), 3, today, index);
        }
    }

    /// Completes the task: completed, not started, its end date set from
    /// today's text.
    pub fn done(&mut self, today: i32, index: usize)
        requires
            is_calendar_day(today as int),
            word_fits(today_text(today as int), today as int),
        ensures
            *final(self) == old(self).spec_done(today as int, index as int),
            old(self).wf() ==> final(self).wf(),
    {
        self.set_status(2);
        self._is_started = false;
        let now = format_date(today, "%Y-%m-%d");
        self.set_date(Some(now), 3, today, index);
    }

    /// Cancels the task: canceled and not started.
    pub fn delete(&mut self)
        ensures
            *final(self) == old(self).spec_delete(),
    {
        self.set_status(1);
        self._is_started = false;
    }
}

impl Task {
    /// Computes the urgency for `today` (see `spec_urgency`).
    fn calc_urgent(&mut self, today: i32)
        ensures
            *final(self) == old(self).spec_calc_urgent(today as int),
    {
        match self.status {
            TaskStatus::Pending => {
                match self.due {
                    Some(d) => {
                        let q: i64 = (d as i64) - (today as i64) + 1;
                        if q > 0 {
                            let m: u64 = q as u64;
                            let start_part: u64 = if self._is_started {
                                3 * m
                            } else {
                                0
                            };
                            self._urgent = Urgency { num: 2 * m + 2 + start_part, den: 2 * m };
                        } else if q < 0 {
                            let m: u64 = (0 - q) as u64;
                            let start_part: u64 = if self._is_started {
                                3 * m
                            } else {
                                0
                            };
                            self._urgent = Urgency { num: 2 * m - 2 + start_part, den: 2 * m };
                        } else {
                            self._urgent = Urgency { num: 1, den: 0 };
                        }
                    },
                    None => {
                        self._urgent = Urgency {
                            num: if self._is_started {
                                5
                            } else {
                                2
                            },
                            den: 2,
                        };
                    },
                }
            },
            TaskStatus::Completed => self._urgent = Urgency { num: 1, den: 2 },
            _ => self._urgent = Urgency { num: 0, den: 1 },
        }
    }

    /// Brings the status up to `today` (see `status_on`) and computes the
    /// urgency.
    pub fn verify(&mut self, today: i32)
        ensures
            *final(self) == old(self).spec_verify(today as int),
            old(self).wf() ==> final(self).wf(),
    {
        match self.status {
            TaskStatus::Pending => {
                if let Some(due) = self.due {
                    if due < today {
                        self.set_status(4);
                    }
                } else if let Some(sch) = self.scheduled {
                    if sch < today {
                        self.set_status(3);
                    }
                }
            },
            _ => {},
        }
        self.calc_urgent(today);
    }

    /// The task counts as urgent (see `spec_is_urgent`).
    pub fn is_urgent(&self) -> (r: bool)
        ensures
            r == self.spec_is_urgent(),
    {
        let num: u128 = self._urgent.num as u128;
        let den: u128 = self._urgent.den as u128;
        if self._is_started {
            10 * num > 28 * den
        } else {
            10 * num > 13 * den
        }
    }

    /// The state word of the task: bit 0 urgent, bit 1 started, bit 2
    /// canceled, bit 3 completed, bit 4 expired or failed.
    pub fn get_state_word(&self) -> (w: StateWord)
        ensures
            w as int == self.spec_state_word(),
            (w & 1 == 1) == self.spec_is_urgent(),
            (w & 2 == 2) == self._is_started,
            (w & 4 == 4) == (self.status == TaskStatus::Canceled),
            (w & 8 == 8) == (self.status == TaskStatus::Completed),
            (w & 16 == 16) == (self.status == TaskStatus::Expired || self.status
                == TaskStatus::Failed),
            w < 32,
    {
        let mut state_word: StateWord = 0;
        proof {
            lemma_or_adds(state_word, 1);
        }
        if self.is_urgent() {
            state_word = state_word | 1;
        }
        proof {
            lemma_or_adds(state_word, 2);
        }
        if self._is_started {
            state_word = state_word | 2;
        }
        proof {
            lemma_or_adds(state_word, 4);
            lemma_or_adds(state_word, 8);
            lemma_or_adds(state_word, 16);
        }
        match self.status {
            TaskStatus::Canceled => state_word = state_word | 4,
            TaskStatus::Completed => state_word = state_word | 8,
            TaskStatus::Pending => {},
            _ => state_word = state_word | 16,
        }
        proof {
            lemma_state_word_bits(
                state_word,
                self.spec_is_urgent(),
                self._is_started,
                self.status == TaskStatus::Canceled,
                self.status == TaskStatus::Completed,
                self.status == TaskStatus::Expired || self.status == TaskStatus::Failed,
            );
        }
        state_word
    }

    /// The task passes `filter` on `today` (see `spec_filtered`).
    pub fn filtered(&self, filter: &Filter, today: i32) -> (r: bool)
        ensures
            r == self.spec_filtered(*filter, today as int),
    {
        match filter {
            Filter::Urgent => self.is_urgent(),
            Filter::Failed => self.status == TaskStatus::Failed,
            Filter::Done => self.status == TaskStatus::Completed,
            Filter::Canceled => self.status == TaskStatus::Canceled,
            Filter::Expired => self.status == TaskStatus::Expired,
            Filter::Started => self.status == TaskStatus::Pending && self._is_started,
            Filter::NotStarted => self.status == TaskStatus::Pending && !self._is_started,
            Filter::Today => {
                if self.status != TaskStatus::Pending {
                    false
                } else {
                    match self.due {
                        Some(due) => (due as i64) - (today as i64) == 0,
                        None => false,
                    }
                }
            },
            Filter::Tomorrow => {
                if self.status != TaskStatus::Pending {
                    false
                } else {
                    match self.due {
                        Some(due) => (due as i64) - (today as i64) == 1,
                        None => false,
                    }
                }
            },
        }
    }

    /// The state word as a number: 1 if urgent, plus 2 if started, plus 4
    /// if canceled, 8 if completed, 16 if expired or failed.
    pub open spec fn spec_state_word(self) -> int {
        (if self.spec_is_urgent() {
            1int
        } else {
            0int
        }) + (if self._is_started {
            2int
        } else {
            0int
        }) + match self.status {
            TaskStatus::Pending => 0int,
            TaskStatus::Canceled => 4int,
            TaskStatus::Completed => 8int,
            _ => 16int,
        }
    }

    /// The cells of a task's row in the task table.
    pub fn fields(&self, index: usize) -> (cells: Vec<String>)
        requires
            self.displayable(),
        ensures
            cells.deep_view() == self.spec_fields(index as int),
    {
        let mut cells: Vec<String> = Vec::new();
        cells.push(decimal(self.id));
        match self.project_id {
            Some(i) => {
                let name = self.project.clone().unwrap();
                let cell = String::from_str("[").concat(decimal(i).as_str()).concat("]").concat(
                    name.as_str(),
                );
                cells.push(cell);
            },
            None => cells.push(String::from_str("-")),
        }
        cells.push(get_date(&self.due, index));
        cells.push(get_date(&self.scheduled, index));
        cells.push(self.name.clone());
        let letter = match self.status {
            TaskStatus::Pending => String::from_str("P"),
            TaskStatus::Canceled => String::from_str("C"),
            TaskStatus::Completed => String::from_str("D"),
            TaskStatus::Expired => String::from_str("E"),
            TaskStatus::Failed => String::from_str("F"),
        };
        cells.push(letter);
        assert(cells.deep_view() =~= self.spec_fields(index as int));
        cells
    }

    /// The headers of the task table.
    pub fn headers() -> (cells: Vec<String>)
        ensures
            cells.deep_view() == task_headers(),
    {
        let mut cells: Vec<String> = Vec::new();
        cells.push(String::from_str("ID"));
        cells.push(String::from_str("Project"));
        cells.push(String::from_str("D"));
        cells.push(String::from_str("S"));
        cells.push(String::from_str("Description"));
        cells.push(String::from_str("Status"));
        assert(cells.deep_view() =~= task_headers());
        cells
    }
}

impl Task {
    /// `verify` for today by the system clock.
    pub fn verify_now(&mut self)
        ensures
            exists|d: int| is_calendar_day(d) && *final(self) == #[trigger] old(self).spec_verify(d),
            old(self).wf() ==> final(self).wf(),
    {
        let today = local_today();
        self.verify(today);
    }

    /// `filtered` for today by the system clock.
    pub fn filtered_now(&self, filter: &Filter) -> (r: bool)
        ensures
            exists|d: int| is_calendar_day(d) && r == #[trigger] self.spec_filtered(*filter, d),
    {
        let today = local_today();
        self.filtered(filter, today)
    }

    /// `set_date` for today by the system clock.  Where a relative date
    /// word would count past the last day chrono can represent, the task is
    /// left as it was.
    pub fn set_date_now(&mut self, date: Option<String>, date_type: u8, index: usize)
        ensures
            exists|d: int|
                is_calendar_day(d) && (if date_fits(opt_view(date), d) {
                    *final(self) == #[trigger] old(self).spec_set_date(
                        opt_view(date),
                        date_type as int,
                        d,
                        index as int,
                    )
                } else {
                    *final(self) == *old(self)
                }),
            old(self).wf() ==> final(self).wf(),
    {
        let today = local_today();
        let fits = match &date {
            Some(p) => fits_today(p, today),
            None => true,
        };
        if fits {
            self.set_date(date, date_type, today, index);
        }
    }

    /// `start` for today by the system clock; left as it was where today's
    /// text would count past the last day chrono can represent.
    pub fn start_now(&mut self, index: usize)
        ensures
            exists|d: int|
                is_calendar_day(d) && (if !old(self)._is_started ==> word_fits(today_text(d), d) {
                    *final(self) == #[trigger] old(self).spec_start(d, index as int)
                } else {
                    *final(self) == *old(self)
                }),
            old(self).wf() ==> final(self).wf(),
    {
        let today = local_today();
        if !self._is_started {
            let text = format_date(today, "%Y-%m-%d");
            if fits_today(&text, today) {
                self.start(today, index);
            }
        }
        assert(is_calendar_day(today as int) && (if !old(self)._is_started ==> word_fits(
            today_text(today as int),
            today as int,
        ) {
            *self == old(self).spec_start(today as int, index as int)
        } else {
            *self == *old(self)
        }));
    }

    /// `stop` for today by the system clock; left as it was where today's
    /// text would count past the last day chrono can represent.
    pub fn stop_now(&mut self, index: usize)
        ensures
            exists|d: int|
                is_calendar_day(d) && (if old(self)._is_started ==> word_fits(today_text(d), d) {
                    *final(self) == #[trigger] old(self).spec_stop(d, index as int)
                } else {
                    *final(self) == *old(self)
                }),
            old(self).wf() ==> final(self).wf(),
    {
        let today = local_today();
        if self._is_started {
            let text = format_date(today, "%Y-%m-%d");
            if fits_today(&text, today) {
                self.stop(today, index);
            }
        }
        assert(is_calendar_day(today as int) && (if old(self)._is_started ==> word_fits(
            today_text(today as int),
            today as int,
        ) {
            *self == old(self).spec_stop(today as int, index as int)
        } else {
            *self == *old(self)
        }));
    }

    /// `done` for today by the system clock; left as it was where today's
    /// text would count past the last day chrono can represent.
    pub fn done_now(&mut self, index: usize)
        ensures
            exists|d: int|
                is_calendar_day(d) && (if word_fits(today_text(d), d) {
                    *final(self) == #[trigger] old(self).spec_done(d, index as int)
                } else {
                    *final(self) == *old(self)
                }),
            old(self).wf() ==> final(self).wf(),
    {
        let today = local_today();
        let text = format_date(today, "%Y-%m-%d");
        if fits_today(&text, today) {
            self.done(today, index);
        }
    }
}

/// The headers of the task table.
pub open spec fn task_headers() -> Seq<Seq<char>> {
    seq!["ID"@, "Project"@, "D"@, "S"@, "Description"@, "Status"@]
}

/// An or with a single higher bit adds it.
proof fn lemma_or_adds(w: u8, b: u8)
    requires
        b == 1 || b == 2 || b == 4 || b == 8 || b == 16,
        w < b,
    ensures
        w | b == w + b,
{
    assert(w < b && (b == 1 || b == 2 || b == 4 || b == 8 || b == 16) ==> w | b == w + b) by (bit_vector);
}

/// The bits of a task's state word: bit 0 urgent, bit 1 started, bit 2
/// canceled, bit 3 completed, bit 4 failed or expired.
pub proof fn lemma_state_word_of(t: Task)
    ensures
        (t.spec_state_word() as u8) & 1 == 1 <==> t.spec_is_urgent(),
        (t.spec_state_word() as u8) & 2 == 2 <==> t._is_started,
        (t.spec_state_word() as u8) & 4 == 4 <==> t.status == TaskStatus::Canceled,
        (t.spec_state_word() as u8) & 8 == 8 <==> t.status == TaskStatus::Completed,
        (t.spec_state_word() as u8) & 16 == 16 <==> (t.status == TaskStatus::Expired || t.status
            == TaskStatus::Failed),
        t.spec_state_word() < 32,
{
    let a = t.spec_is_urgent();
    let b = t._is_started;
    let c = t.status == TaskStatus::Canceled;
    let d = t.status == TaskStatus::Completed;
    let e = t.status == TaskStatus::Expired || t.status == TaskStatus::Failed;
    let w = t.spec_state_word() as u8;
    assert(w == (if a {
        1u8
    } else {
        0u8
    }) + (if b {
        2u8
    } else {
        0u8
    }) + (if c {
        4u8
    } else if d {
        8u8
    } else if e {
        16u8
    } else {
        0u8
    }));
    lemma_state_word_bits(w, a, b, c, d, e);
}

/// The bits of a state word made of the five flags.
proof fn lemma_state_word_bits(w: u8, a: bool, b: bool, c: bool, d: bool, e: bool)
    requires
        w == (if a {
            1u8
        } else {
            0u8
        }) + (if b {
            2u8
        } else {
            0u8
        }) + (if c {
            4u8
        } else if d {
            8u8
        } else if e {
            16u8
        } else {
            0u8
        }),
        !(c && d),
        !(c && e),
        !(d && e),
    ensures
        (w & 1 == 1) == a,
        (w & 2 == 2) == b,
        (w & 4 == 4) == c,
        (w & 8 == 8) == d,
        (w & 16 == 16) == e,
        w < 32,
{
    assert(w == (if a {
        1u8
    } else {
        0u8
    }) + (if b {
        2u8
    } else {
        0u8
    }) + (if c {
        4u8
    } else if d {
        8u8
    } else if e {
        16u8
    } else {
        0u8
    }) && !(c && d) && !(c && e) && !(d && e) ==> (w & 1 == 1) == a && (w & 2 == 2) == b && (w
        & 4 == 4) == c && (w & 8 == 8) == d && (w & 16 == 16) == e && w < 32) by (bit_vector);
}

/// The date cell of the task table for `date` in display format `index`.
pub fn get_date(date: &Option<i32>, index: usize) -> (cell: String)
    requires
        day_ok(*date),
    ensures
        cell@ == date_cell(*date, index as int),
{
    match date {
        Some(p) => {
            let (_, display_format) = date_format_pattern(index);
            format_date(*p, display_format.as_str())
        },
        None => String::from_str(" - "),
    }
}

/// `t` put into `s` before the first task less urgent than it.
pub open spec fn insert_by_urgency(s: Seq<Task>, t: Task) -> Seq<Task>
    decreases s.len(),
{
    if s.len() == 0 {
        seq![t]
    } else if less_urgent(s[0]._urgent, t._urgent) {
        seq![t] + s
    } else {
        seq![s[0]] + insert_by_urgency(s.drop_first(), t)
    }
}

/// The tasks in order of falling urgency: each task in turn, first to last,
/// put before the first task less urgent than it, so that tasks of equal
/// urgency keep their order.
pub open spec fn sorted_by_urgency(s: Seq<Task>) -> Seq<Task>
    decreases s.len(),
{
    if s.len() == 0 {
        Seq::empty()
    } else {
        insert_by_urgency(sorted_by_urgency(s.drop_last()), s.last())
    }
}

/// The place where `insert_by_urgency` puts `t`.
pub open spec fn insert_index(s: Seq<Task>, t: Task) -> int
    decreases s.len(),
{
    if s.len() == 0 {
        0
    } else if less_urgent(s[0]._urgent, t._urgent) {
        0
    } else {
        1 + insert_index(s.drop_first(), t)
    }
}

/// No task comes before one more urgent than it.
pub open spec fn urgency_descending(s: Seq<Task>) -> bool {
    forall|i: int, j: int|
        0 <= i < j < s.len() ==> !less_urgent(#[trigger] s[i]._urgent, #[trigger] s[j]._urgent)
}

/// Every urgency of `s` has a positive denominator.
pub open spec fn urgencies_wf(s: Seq<Task>) -> bool {
    forall|i: int| 0 <= i < s.len() ==> #[trigger] s[i]._urgent.den > 0
}

proof fn lemma_insert_index(s: Seq<Task>, t: Task)
    ensures
        0 <= insert_index(s, t) <= s.len(),
        insert_by_urgency(s, t) == s.insert(insert_index(s, t), t),
        forall|i: int| 0 <= i < insert_index(s, t) ==> !less_urgent(#[trigger] s[i]._urgent, t._urgent),
        insert_index(s, t) < s.len() ==> less_urgent(s[insert_index(s, t)]._urgent, t._urgent),
    decreases s.len(),
{
    if s.len() == 0 {
        assert(insert_by_urgency(s, t) =~= s.insert(0, t));
    } else if less_urgent(s[0]._urgent, t._urgent) {
        assert(insert_by_urgency(s, t) =~= s.insert(0, t));
    } else {
        let rest = s.drop_first();
        lemma_insert_index(rest, t);
        let k = insert_index(rest, t);
        assert(insert_by_urgency(s, t) =~= s.insert(k + 1, t));
        assert forall|i: int| 0 <= i < k + 1 implies !less_urgent(#[trigger] s[i]._urgent, t._urgent) by {
            if i > 0 {
                assert(s[i] == rest[i - 1]);
            }
        }
    }
}

/// The first place `j` with no more urgent task before it than `t` and a
/// less urgent one at it (or the end) is where `insert_by_urgency` puts `t`.
proof fn lemma_insert_index_at(s: Seq<Task>, t: Task, j: int)
    requires
        0 <= j <= s.len(),
        forall|i: int| 0 <= i < j ==> !less_urgent(#[trigger] s[i]._urgent, t._urgent),
        j == s.len() || less_urgent(s[j]._urgent, t._urgent),
    ensures
        insert_index(s, t) == j,
    decreases j,
{
    if j > 0 {
        assert(!less_urgent(s[0]._urgent, t._urgent));
        let rest = s.drop_first();
        assert forall|i: int| 0 <= i < j - 1 implies !less_urgent(#[trigger] rest[i]._urgent, t._urgent) by {
            assert(rest[i] == s[i + 1]);
        }
        if j < s.len() {
            assert(rest[j - 1] == s[j]);
        }
        lemma_insert_index_at(rest, t, j - 1);
    }
}

/// `a` is at least as urgent as `b`, `b` as `c`: then `a` as `c`.
proof fn lemma_urgency_order(a: Urgency, b: Urgency, c: Urgency)
    requires
        a.den > 0,
        b.den > 0,
        c.den > 0,
        !less_urgent(a, b),
        !less_urgent(b, c),
    ensures
        !less_urgent(a, c),
{
    let an = a.num as int;
    let ad = a.den as int;
    let bn = b.num as int;
    let bd = b.den as int;
    let cn = c.num as int;
    let cd = c.den as int;
    assert(an * bd >= bn * ad);
    assert(bn * cd >= cn * bd);
    assert(an * bd * cd >= bn * ad * cd) by (nonlinear_arith)
        requires
            an * bd >= bn * ad,
            cd > 0,
    ;
    assert(bn * cd * ad >= cn * bd * ad) by (nonlinear_arith)
        requires
            bn * cd >= cn * bd,
            ad > 0,
    ;
    assert(an * cd >= cn * ad) by (nonlinear_arith)
        requires
            an * bd * cd >= bn * ad * cd,
            bn * cd * ad >= cn * bd * ad,
            bd > 0,
    ;
}

/// Sorting by urgency keeps the tasks: the result is a permutation.
pub proof fn lemma_sorted_permutation(s: Seq<Task>)
    ensures
        sorted_by_urgency(s).to_multiset() == s.to_multiset(),
        sorted_by_urgency(s).len() == s.len(),
    decreases s.len(),
{
    broadcast use vstd::seq_lib::group_to_multiset_ensures;

    if s.len() > 0 {
        let init = s.drop_last();
        lemma_sorted_permutation(init);
        let r = sorted_by_urgency(init);
        lemma_insert_index(r, s.last());
        assert(init.push(s.last()) =~= s);
    }
}

/// Sorting by urgency puts no task before a more urgent one.
pub proof fn lemma_sorted_descending(s: Seq<Task>)
    requires
        urgencies_wf(s),
    ensures
        urgency_descending(sorted_by_urgency(s)),
        urgencies_wf(sorted_by_urgency(s)),
    decreases s.len(),
{
    broadcast use vstd::seq_lib::group_to_multiset_ensures;

    if s.len() > 0 {
        let init = s.drop_last();
        let t = s.last();
        assert(urgencies_wf(init));
        lemma_sorted_descending(init);
        let r = sorted_by_urgency(init);
        lemma_insert_index(r, t);
        let k = insert_index(r, t);
        let out = r.insert(k, t);
        assert(t._urgent.den > 0);
        assert forall|i: int| 0 <= i < out.len() implies #[trigger] out[i]._urgent.den > 0 by {
            if i > k {
                assert(out[i] == r[i - 1]);
            } else if i < k {
                assert(out[i] == r[i]);
            }
        }
        assert forall|i: int, j: int| 0 <= i < j < out.len() implies !less_urgent(
            #[trigger] out[i]._urgent,
            #[trigger] out[j]._urgent,
        ) by {
            if j < k {
                assert(out[i] == r[i] && out[j] == r[j]);
            } else if j == k {
                assert(out[i] == r[i]);
            } else if i > k {
                assert(out[i] == r[i - 1] && out[j] == r[j - 1]);
            } else if i == k {
                assert(out[j] == r[j - 1]);
                assert(less_urgent(r[k]._urgent, t._urgent));
                if j - 1 > k {
                    assert(!less_urgent(r[k]._urgent, r[j - 1]._urgent));
                }
                lemma_urgency_order(t._urgent, r[k]._urgent, r[j - 1]._urgent);
            } else {
                assert(out[i] == r[i] && out[j] == r[j - 1]);
            }
        }
    }
}

/// Sorts tasks by falling urgency, tasks of equal urgency in their order.
pub fn sort_tasks(tasks: &mut Vec<Task>)
    ensures
        final(tasks)@ == sorted_by_urgency(old(tasks)@),
{
    let ghost orig = tasks@;
    let total: usize = tasks.len();
    let mut sorted: Vec<Task> = Vec::new();
    let mut done_count: usize = 0;
    assert(orig.skip(0) =~= orig);
    assert(orig.take(0) =~= Seq::<Task>::empty());
    while tasks.len() > 0
        invariant
            done_count <= orig.len(),
            orig.len() == total,
            tasks@ == orig.skip(done_count as int),
            sorted@ == sorted_by_urgency(orig.take(done_count as int)),
        decreases tasks.len(),
    {
        assert(tasks@.len() == orig.len() - done_count);
        let t = tasks.remove(0);
        let mut j: usize = 0;
        while j < sorted.len() && !less_urgent_exec(&sorted[j]._urgent, &t._urgent)
            invariant
                j <= sorted.len(),
                forall|i: int| 0 <= i < j ==> !less_urgent(#[trigger] sorted@[i]._urgent, t._urgent),
            decreases sorted.len() - j,
        {
            j = j + 1;
        }
        proof {
            lemma_insert_index_at(sorted@, t, j as int);
            lemma_insert_index(sorted@, t);
            let next = orig.take(done_count + 1);
            assert(next.drop_last() =~= orig.take(done_count as int));
            assert(next.last() == t);
        }
        sorted.insert(j, t);
        done_count = done_count + 1;
        assert(tasks@ =~= orig.skip(done_count as int));
    }
    assert(orig.take(done_count as int) =~= orig);
    *tasks = sorted;
}

/// `a` is less urgent than `b`, compared without overflow.
fn less_urgent_exec(a: &Urgency, b: &Urgency) -> (r: bool)
    ensures
        r == less_urgent(*a, *b),
{
    let an: u128 = a.num as u128;
    let ad: u128 = a.den as u128;
    let bn: u128 = b.num as u128;
    let bd: u128 = b.den as u128;
    proof {
        lemma_product_fits(an, bd);
        lemma_product_fits(bn, ad);
    }
    an * bd < bn * ad
}

proof fn lemma_product_fits(x: u128, y: u128)
    requires
        x <= u64::MAX,
        y <= u64::MAX,
    ensures
        x * y <= u128::MAX,
{
    assert(x * y <= u64::MAX as int * u64::MAX as int) by (nonlinear_arith)
        requires
            x <= u64::MAX,
            y <= u64::MAX,
    ;
}

/// The short and the long name of weekday `w` (Monday 1 to Sunday 7) that
/// a date argument may use.
pub open spec fn weekday_names(w: int) -> (Seq<char>, Seq<char>) {
    if w == 1 {
        ("mon"@, "monday"@)
    } else if w == 2 {
        ("tue"@, "tuesday"@)
    } else if w == 3 {
        ("wed"@, "wednsday"@)
    } else if w == 4 {
        ("thu"@, "thursday"@)
    } else if w == 5 {
        ("fri"@, "friday"@)
    } else if w == 6 {
        ("sat"@, "saturday"@)
    } else {
        ("sun"@, "sunday"@)
    }
}

/// The date words of `relative_offset` differ in length or in one of their
/// first two letters.
proof fn lemma_date_words()
    ensures
        "mon"@.len() == 3 && "mon"@[0] == 'm' && "mon"@[1] == 'o',
        "monday"@.len() == 6 && "monday"@[0] == 'm' && "monday"@[1] == 'o',
        "tue"@.len() == 3 && "tue"@[0] == 't' && "tue"@[1] == 'u',
        "tuesday"@.len() == 7 && "tuesday"@[0] == 't' && "tuesday"@[1] == 'u',
        "wed"@.len() == 3 && "wed"@[0] == 'w' && "wed"@[1] == 'e',
        "wednsday"@.len() == 8 && "wednsday"@[0] == 'w' && "wednsday"@[1] == 'e',
        "thu"@.len() == 3 && "thu"@[0] == 't' && "thu"@[1] == 'h',
        "thursday"@.len() == 8 && "thursday"@[0] == 't' && "thursday"@[1] == 'h',
        "fri"@.len() == 3 && "fri"@[0] == 'f' && "fri"@[1] == 'r',
        "friday"@.len() == 6 && "friday"@[0] == 'f' && "friday"@[1] == 'r',
        "sat"@.len() == 3 && "sat"@[0] == 's' && "sat"@[1] == 'a',
        "saturday"@.len() == 8 && "saturday"@[0] == 's' && "saturday"@[1] == 'a',
        "sun"@.len() == 3 && "sun"@[0] == 's' && "sun"@[1] == 'u',
        "sunday"@.len() == 6 && "sunday"@[0] == 's' && "sunday"@[1] == 'u',
        "now"@.len() == 3 && "now"@[0] == 'n' && "now"@[1] == 'o',
        "today"@.len() == 5 && "today"@[0] == 't' && "today"@[1] == 'o',
        "later"@.len() == 5 && "later"@[0] == 'l' && "later"@[1] == 'a',
        "tomorrow"@.len() == 8 && "tomorrow"@[0] == 't' && "tomorrow"@[1] == 'o',
{
    reveal_strlit("mon");
    assert("mon"@.len() == 3 && "mon"@[0] == 'm' && "mon"@[1] == 'o');
    reveal_strlit("monday");
    assert("monday"@.len() == 6 && "monday"@[0] == 'm' && "monday"@[1] == 'o');
    reveal_strlit("tue");
    assert("tue"@.len() == 3 && "tue"@[0] == 't' && "tue"@[1] == 'u');
    reveal_strlit("tuesday");
    assert("tuesday"@.len() == 7 && "tuesday"@[0] == 't' && "tuesday"@[1] == 'u');
    reveal_strlit("wed");
    assert("wed"@.len() == 3 && "wed"@[0] == 'w' && "wed"@[1] == 'e');
    reveal_strlit("wednsday");
    assert("wednsday"@.len() == 8 && "wednsday"@[0] == 'w' && "wednsday"@[1] == 'e');
    reveal_strlit("thu");
    assert("thu"@.len() == 3 && "thu"@[0] == 't' && "thu"@[1] == 'h');
    reveal_strlit("thursday");
    assert("thursday"@.len() == 8 && "thursday"@[0] == 't' && "thursday"@[1] == 'h');
    reveal_strlit("fri");
    assert("fri"@.len() == 3 && "fri"@[0] == 'f' && "fri"@[1] == 'r');
    reveal_strlit("friday");
    assert("friday"@.len() == 6 && "friday"@[0] == 'f' && "friday"@[1] == 'r');
    reveal_strlit("sat");
    assert("sat"@.len() == 3 && "sat"@[0] == 's' && "sat"@[1] == 'a');
    reveal_strlit("saturday");
    assert("saturday"@.len() == 8 && "saturday"@[0] == 's' && "saturday"@[1] == 'a');
    reveal_strlit("sun");
    assert("sun"@.len() == 3 && "sun"@[0] == 's' && "sun"@[1] == 'u');
    reveal_strlit("sunday");
    assert("sunday"@.len() == 6 && "sunday"@[0] == 's' && "sunday"@[1] == 'u');
    reveal_strlit("now");
    assert("now"@.len() == 3 && "now"@[0] == 'n' && "now"@[1] == 'o');
    reveal_strlit("today");
    assert("today"@.len() == 5 && "today"@[0] == 't' && "today"@[1] == 'o');
    reveal_strlit("later");
    assert("later"@.len() == 5 && "later"@[0] == 'l' && "later"@[1] == 'a');
    reveal_strlit("tomorrow");
    assert("tomorrow"@.len() == 8 && "tomorrow"@[0] == 't' && "tomorrow"@[1] == 'o');
}

/// Counting the days to the next weekday `target` from day `today` lands on
/// a day of that weekday, one to seven days on.
pub proof fn lemma_days_until_weekday(today: int, target: int)
    requires
        1 <= target <= 7,
    ensures
        1 <= days_until(spec_weekday(today), target) <= 7,
        spec_weekday(today + days_until(spec_weekday(today), target)) == target,
{
    let w = spec_weekday(today);
    let k = days_until(w, target);
    assert(1 <= w <= 7);
    assert((today + k - 1) % 7 == target - 1);
}

/// A date argument that names a weekday, in any case, sets the next day of
/// that weekday, one to seven days after today.
pub proof fn lemma_weekday_argument(text: Seq<char>, today: int, index: int, target: int)
    requires
        1 <= target <= 7,
        spec_to_lowercase(text) == weekday_names(target).0 || spec_to_lowercase(text)
            == weekday_names(target).1,
        is_calendar_day(today),
    ensures
        resolve_date(Some(text), today, index) matches Some(d) && 1 <= d - today <= 7
            && spec_weekday(d as int) == target,
{
    lemma_date_words();
    lemma_days_until_weekday(today, target);
    let w = spec_weekday(today);
    let word = spec_to_lowercase(text);
    assert(relative_offset(word, w) == Some(days_until(w, target)));
}

/// `now` and `today` set today; `later` and `tomorrow` set the day after.
pub proof fn lemma_relative_day_argument(text: Seq<char>, today: int, index: int)
    requires
        is_calendar_day(today),
    ensures
        spec_to_lowercase(text) == "now"@ || spec_to_lowercase(text) == "today"@ ==> resolve_date(
            Some(text),
            today,
            index,
        ) == Some(today as i32),
        spec_to_lowercase(text) == "later"@ || spec_to_lowercase(text) == "tomorrow"@
            ==> resolve_date(Some(text), today, index) == Some((today + 1) as i32),
{
    lemma_date_words();
}

/// Setting the status code of a status sets that status.
pub proof fn lemma_status_code(t: Task, s: TaskStatus, code: int)
    requires
        status_of_code(code) == Some(s),
    ensures
        t.with_status_code(code) == (Task { status: s, ..t }),
{
}

/// Distinct statuses have distinct codes.
pub proof fn lemma_status_code_injective(s1: TaskStatus, s2: TaskStatus, c1: int, c2: int)
    requires
        status_of_code(c1) == Some(s1),
        status_of_code(c2) == Some(s2),
        s1 != s2,
    ensures
        c1 != c2,
{
}

/// Verifying twice on the same day is verifying once.
pub proof fn lemma_verify_idempotent(t: Task, today: int)
    ensures
        t.spec_verify(today).spec_verify(today) == t.spec_verify(today),
{
}

/// After `verify`, a pending task that is due is not overdue, and the task
/// is urgent exactly when it is pending and due within two days.
pub proof fn lemma_urgent_after_verify(t: Task, today: int)
    requires
        is_calendar_day(today),
    ensures
        t.spec_verify(today).status == TaskStatus::Pending && t.spec_verify(today).due is Some
            ==> t.spec_verify(today).due->0 >= today,
        t.spec_verify(today).spec_is_urgent() <==> (t.spec_verify(today).status
            == TaskStatus::Pending && (t.spec_verify(today).due matches Some(d) && d - today <= 2)),
{
}

/// A pending task passes exactly one of `Started` and `NotStarted`; any
/// other passes neither.  No task is due both today and tomorrow.
pub proof fn lemma_started_partition(t: Task, today: int)
    ensures
        t.status == TaskStatus::Pending ==> (t.spec_filtered(Filter::Started, today)
            != t.spec_filtered(Filter::NotStarted, today)),
        t.status != TaskStatus::Pending ==> !t.spec_filtered(Filter::Started, today)
            && !t.spec_filtered(Filter::NotStarted, today),
        !(t.spec_filtered(Filter::Today, today) && t.spec_filtered(Filter::Tomorrow, today)),
{
}

/// Starting a started task changes nothing, and stopping a task leaves it
/// not started.
pub proof fn lemma_start_stop(t: Task, today: int, index: int)
    ensures
        t.spec_start(today, index).spec_start(today, index) == t.spec_start(today, index),
        t.spec_start(today, index)._is_started,
        !t.spec_stop(today, index)._is_started,
        t.spec_stop(today, index).spec_stop(today, index) == t.spec_stop(today, index),
{
}

/// A completed or canceled task keeps its status through `verify` and is
/// never urgent; a completed one has urgency one half.
pub proof fn lemma_done_stays_done(t: Task, today: int, index: int)
    ensures
        t.spec_done(today, index).spec_verify(today).status == TaskStatus::Completed,
        t.spec_done(today, index).spec_verify(today)._urgent == (Urgency { num: 1, den: 2 }),
        !t.spec_done(today, index).spec_verify(today).spec_is_urgent(),
        t.spec_delete().spec_verify(today).status == TaskStatus::Canceled,
        !t.spec_delete().spec_verify(today).spec_is_urgent(),
        t.spec_delete().spec_delete() == t.spec_delete(),
{
}

/// Whatever holds of every task of `s` holds of every task of its sorted
/// order.
pub proof fn lemma_sorted_keeps(s: Seq<Task>, p: spec_fn(Task) -> bool)
    requires
        forall|i: int| 0 <= i < s.len() ==> p(#[trigger] s[i]),
    ensures
        forall|i: int|
            0 <= i < sorted_by_urgency(s).len() ==> p(#[trigger] sorted_by_urgency(s)[i]),
{
    broadcast use vstd::seq_lib::group_to_multiset_ensures;

    lemma_sorted_permutation(s);
    let r = sorted_by_urgency(s);
    assert forall|i: int| 0 <= i < r.len() implies p(#[trigger] r[i]) by {
        assert(r.contains(r[i]));
        assert(s.to_multiset().count(r[i]) > 0);
        assert(s.contains(r[i]));
        let j = choose|j: int| 0 <= j < s.len() && s[j] == r[i];
        assert(p(s[j]));
    }
}

/// The urgency `verify` gives, as a number: a pending task due on day `d`
/// (not before today) has `1 + 1 / (d - today + 1)`, plus `3 / 2` when
/// started; a pending task with no due day 1, or `5 / 2` when started; a
/// completed task `1 / 2`; any other 0.  Every such urgency has a positive
/// denominator.
pub proof fn lemma_urgency_value(t: Task, today: int)
    requires
        is_calendar_day(today),
    ensures
        ({
            let v = t.spec_verify(today);
            let u = v._urgent;
            &&& u.den > 0
            &&& v.status == TaskStatus::Pending && v.due is Some ==> {
                let q = v.due->0 - today + 1;
                &&& q >= 1
                &&& u.num * (2 * q) == u.den * (2 * q + 2 + (if v._is_started {
                    3 * q
                } else {
                    0
                }))
            }
            &&& v.status == TaskStatus::Pending && v.due is None ==> u.num * 2 == u.den * (if v._is_started {
                5int
            } else {
                2int
            })
            &&& v.status == TaskStatus::Completed ==> u.num * 2 == u.den
            &&& v.status != TaskStatus::Pending && v.status != TaskStatus::Completed ==> u.num == 0
        }),
{
    let v = t.spec_verify(today);
    let u = v._urgent;
    if v.status == TaskStatus::Pending && v.due is Some {
        let q = v.due->0 - today + 1;
        let a = u.num as int;
        let b = u.den as int;
        let c = 2 * q + 2 + (if v._is_started {
            3 * q
        } else {
            0
        });
        assert(a == c && b == 2 * q);
        assert(a * (2 * q) == b * c) by (nonlinear_arith)
            requires
                a == c,
                b == 2 * q,
        ;
    }
}

/// Of two pending tasks in the same started state, due on or after today,
/// the one due earlier is strictly more urgent after `verify`.
pub proof fn lemma_earlier_due_more_urgent(t1: Task, t2: Task, today: int)
    requires
        is_calendar_day(today),
        t1.status == TaskStatus::Pending,
        t2.status == TaskStatus::Pending,
        t1._is_started == t2._is_started,
        t1.due matches Some(d1) && t2.due matches Some(d2) && today <= d1 < d2,
    ensures
        less_urgent(t2.spec_verify(today)._urgent, t1.spec_verify(today)._urgent),
        !less_urgent(t1.spec_verify(today)._urgent, t2.spec_verify(today)._urgent),
{
    let d1 = t1.due->0 as int;
    let d2 = t2.due->0 as int;
    let q1 = d1 - today + 1;
    let q2 = d2 - today + 1;
    let u1 = t1.spec_verify(today)._urgent;
    let u2 = t2.spec_verify(today)._urgent;
    let s: int = if t1._is_started {
        3
    } else {
        0
    };
    assert(u1.num == 2 * q1 + 2 + s * q1 && u1.den == 2 * q1);
    assert(u2.num == 2 * q2 + 2 + s * q2 && u2.den == 2 * q2);
    let n1 = u1.num as int;
    let e1 = u1.den as int;
    let n2 = u2.num as int;
    let e2 = u2.den as int;
    assert(n2 * e1 < n1 * e2) by (nonlinear_arith)
        requires
            n1 == 2 * q1 + 2 + s * q1,
            e1 == 2 * q1,
            n2 == 2 * q2 + 2 + s * q2,
            e2 == 2 * q2,
            1 <= q1 < q2,
            s == 0 || s == 3,
    ;
}

/// What each filter passes: `Done` exactly the completed tasks, `Failed`,
/// `Canceled` and `Expired` exactly the tasks of that status, `Started` and
/// `NotStarted` the pending tasks that are and are not started, `Today` and
/// `Tomorrow` the pending tasks due today and tomorrow, `Urgent` the urgent
/// ones.
pub proof fn lemma_filters(t: Task, today: int)
    ensures
        t.spec_filtered(Filter::Done, today) == (t.status == TaskStatus::Completed),
        t.spec_filtered(Filter::Failed, today) == (t.status == TaskStatus::Failed),
        t.spec_filtered(Filter::Canceled, today) == (t.status == TaskStatus::Canceled),
        t.spec_filtered(Filter::Expired, today) == (t.status == TaskStatus::Expired),
        t.spec_filtered(Filter::Started, today) == (t.status == TaskStatus::Pending
            && t._is_started),
        t.spec_filtered(Filter::NotStarted, today) == (t.status == TaskStatus::Pending
            && !t._is_started),
        t.spec_filtered(Filter::Today, today) == (t.status == TaskStatus::Pending && (t.due matches Some(
            d,
        ) && d == today)),
        t.spec_filtered(Filter::Tomorrow, today) == (t.status == TaskStatus::Pending && (t.due matches Some(
            d,
        ) && d == today + 1)),
        t.spec_filtered(Filter::Urgent, today) == (if t._is_started {
            10 * t._urgent.num > 28 * t._urgent.den
        } else {
            10 * t._urgent.num > 13 * t._urgent.den
        }),
{
}

/// `set_date` changes only the date field it is given (0 due, 1 scheduled,
/// 2 start, 3 end), and sets it to the day the argument resolves to.
pub proof fn lemma_set_date_fields(t: Task, date: Option<Seq<char>>, date_type: int, today: int, index: int)
    ensures
        ({
            let r = t.spec_set_date(date, date_type, today, index);
            let v = resolve_date(date, today, index);
            &&& r.id == t.id && r.name == t.name && r.status == t.status
            &&& r.project_id == t.project_id && r.project == t.project
            &&& r._is_started == t._is_started && r._urgent == t._urgent
            &&& r.due == (if date_type == 0 {
                v
            } else {
                t.due
            })
            &&& r.scheduled == (if date_type == 1 {
                v
            } else {
                t.scheduled
            })
            &&& r.start_time == (if date_type == 2 {
                v
            } else {
                t.start_time
            })
            &&& r.end_time == (if date_type == 3 {
                v
            } else {
                t.end_time
            })
        }),
        date is None ==> resolve_date(date, today, index) is None,
{
}

/// The urgency `calc_urgent` gives on any day, as a number: a pending task
/// due on day `d` has `1 + 1 / (d - today + 1)`, plus `3 / 2` when started,
/// the fraction negative for a day already past and infinite (held as a
/// positive numerator over 0) for yesterday; a pending task with no due day
/// 1, or `5 / 2` when started; a completed task `1 / 2`; any other 0.  No
/// other field changes.
pub proof fn lemma_calc_urgent_value(t: Task, today: int)
    requires
        i32::MIN <= today <= i32::MAX,
    ensures
        ({
            let c = t.spec_calc_urgent(today);
            let u = c._urgent;
            &&& c == Task { _urgent: u, ..t }
            &&& t.status == TaskStatus::Pending && t.due is Some ==> {
                let q = t.due->0 - today + 1;
                &&& q != 0 ==> u.den > 0 && u.num * (2 * q) == u.den * (2 * q + 2 + (if t._is_started {
                    3 * q
                } else {
                    0
                }))
                &&& q == 0 ==> u.den == 0 && u.num > 0
            }
            &&& t.status == TaskStatus::Pending && t.due is None ==> u.den > 0 && u.num * 2 == u.den * (
            if t._is_started {
                5int
            } else {
                2int
            })
            &&& t.status == TaskStatus::Completed ==> u.den > 0 && u.num * 2 == u.den
            &&& t.status != TaskStatus::Pending && t.status != TaskStatus::Completed ==> u.num == 0
                && u.den > 0
        }),
{
    let u = t.spec_calc_urgent(today)._urgent;
    if t.status == TaskStatus::Pending && t.due is Some {
        let q = t.due->0 - today + 1;
        let a = u.num as int;
        let b = u.den as int;
        let s: int = if t._is_started {
            3
        } else {
            0
        };
        if q > 0 {
            assert(a == 2 * q + 2 + s * q && b == 2 * q);
            assert(a * (2 * q) == b * (2 * q + 2 + s * q)) by (nonlinear_arith)
                requires
                    a == 2 * q + 2 + s * q,
                    b == 2 * q,
            ;
        } else if q < 0 {
            let m = -q;
            assert(a == 2 * m - 2 + s * m && b == 2 * m);
            assert(a * (2 * q) == b * (2 * q + 2 + s * q)) by (nonlinear_arith)
                requires
                    a == 2 * m - 2 + s * m,
                    b == 2 * m,
                    m == -q,
            ;
        }
    }
}

/// What `verify` does to a task's status on `today`: a task that is not
/// pending keeps its status; a pending task due on day `d` fails exactly
/// when `d` is before today and else stays pending; a pending task with no
/// due day expires exactly when its scheduled day is before today and
/// else stays pending.  No field but the status and the urgency changes.
pub proof fn lemma_verify_status(t: Task, today: int)
    ensures
        ({
            let v = t.spec_verify(today);
            &&& v == Task { status: v.status, _urgent: v._urgent, ..t }
            &&& t.status != TaskStatus::Pending ==> v.status == t.status
            &&& t.status == TaskStatus::Pending && t.due is Some ==> v.status == (if t.due->0 < today {
                TaskStatus::Failed
            } else {
                TaskStatus::Pending
            })
            &&& t.status == TaskStatus::Pending && t.due is None && t.scheduled is Some ==> v.status == (
            if t.scheduled->0 < today {
                TaskStatus::Expired
            } else {
                TaskStatus::Pending
            })
            &&& t.status == TaskStatus::Pending && t.due is None && t.scheduled is None ==> v.status
                == TaskStatus::Pending
        }),
{
}

} // verus!
