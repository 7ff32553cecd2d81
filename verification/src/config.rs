//! The configuration: where the database lives and which of the eleven date
//! formats the user writes and reads dates in.

use crate::calendar::{
    decimal, is_calendar_day, lemma_year_of, parse_date, spec_decimal, spec_parse_date, spec_year_of,
    year_of,
};
use vstd::prelude::*;

verus! {

/// The configuration of the tracker.
pub struct Config {
    pub path: String,
    pub date_format: usize,
}

/// The strftime pattern of date format `index`, and whether it leaves the
/// year out.  Formats 1 to 8 carry the year, 9 to 11 do not; any other
/// index stands for the default, format 1.
pub open spec fn spec_date_pattern(index: int) -> (bool, Seq<char>) {
    if index == 2 {
        (false, "%m-%d-%Y"@)
    } else if index == 3 {
        (false, "%y-%m-%d"@)
    } else if index == 4 {
        (false, "%m-%d-%y"@)
    } else if index == 5 {
        (false, "%B %d, %Y"@)
    } else if index == 6 {
        (false, "%B %d, %y"@)
    } else if index == 7 {
        (false, "%b %d, %Y"@)
    } else if index == 8 {
        (false, "%b %d, %y"@)
    } else if index == 9 {
        (true, "%m-%d"@)
    } else if index == 10 {
        (true, "%B %d"@)
    } else if index == 11 {
        (true, "%b %d"@)
    } else {
        (false, "%Y-%m-%d"@)
    }
}

/// A date format index that the `config` command accepts.
pub open spec fn is_valid_format_index(index: int) -> bool {
    1 <= index <= 11
}

/// The day that a user's date text stands for in date format `index`: a
/// format without a year is read with the year of `today` put in front.
pub open spec fn parse_with_format(text: Seq<char>, today: int, index: int) -> Option<i32> {
    let (no_year, fmt) = spec_date_pattern(index);
    if no_year {
        spec_parse_date(spec_decimal(spec_year_of(today)) + "-"@ + text, "%Y-"@ + fmt)
    } else {
        spec_parse_date(text, fmt)
    }
}

impl Config {
    /// The default configuration, with its path at `config_dir`.
    pub fn default_at(config_dir: String) -> (c: Config)
        ensures
            c.path@ == config_dir@,
            c.date_format == 1,
    {
        Config { path: config_dir, date_format: 1 }
    }

    /// Takes a new database path and a new date format; a date format
    /// outside 1 to 11 is ignored.  Returns whether anything was taken.
    pub fn apply(&mut self, path: Option<String>, date_format: Option<usize>) -> (modified: bool)
        ensures
            final(self).path@ == (match path {
                Some(p) => p@,
                None => old(self).path@,
            }),
            final(self).date_format == (match date_format {
                Some(f) if is_valid_format_index(f as int) => f,
                _ => old(self).date_format,
            }),
            modified == (path is Some || (date_format matches Some(f) && is_valid_format_index(
                f as int,
            ))),
    {
        let mut modified_flag = false;
        if let Some(p) = path {
            self.path = p;
            modified_flag = true;
        }
        if let Some(f) = date_format {
            if f > 0 && f <= 11 {
                self.date_format = f;
                modified_flag = true;
            }
        }
        modified_flag
    }
}

/// The directory of the database.
pub fn get_database_dir(config: &Config) -> (dir: String)
    ensures
        dir@ == config.path@,
{
    config.path.clone()
}

/// The index of the configured date format.
pub fn get_date_format(config: &Config) -> (index: usize)
    ensures
        index == config.date_format,
{
    config.date_format
}

/// A fixed phrase.
pub fn what_the_fuck() -> (s: String)
    ensures
        s@ == "What the fuck!"@,
{
    String::from_str("What the fuck!")
}

/// The pattern of date format `index` and whether it leaves the year out.
pub fn date_format_pattern(index: usize) -> (r: (bool, String))
    ensures
        r.0 == spec_date_pattern(index as int).0,
        r.1@ == spec_date_pattern(index as int).1,
{
    if index == 2 {
        (false, String::from_str("%m-%d-%Y"))
    } else if index == 3 {
        (false, String::from_str("%y-%m-%d"))
    } else if index == 4 {
        (false, String::from_str("%m-%d-%y"))
    } else if index == 5 {
        (false, String::from_str("%B %d, %Y"))
    } else if index == 6 {
        (false, String::from_str("%B %d, %y"))
    } else if index == 7 {
        (false, String::from_str("%b %d, %Y"))
    } else if index == 8 {
        (false, String::from_str("%b %d, %y"))
    } else if index == 9 {
        (true, String::from_str("%m-%d"))
    } else if index == 10 {
        (true, String::from_str("%B %d"))
    } else if index == 11 {
        (true, String::from_str("%b %d"))
    } else {
        (false, String::from_str("%Y-%m-%d"))
    }
}

/// Reads a user's date text in date format `index`; a format without a year
/// gets the year of `today` in front of the text and `%Y-` in front of the
/// pattern.
pub fn parse_user_date(text: &String, today: i32, index: usize) -> (r: Option<i32>)
    requires
        is_calendar_day(today as int),
    ensures
        r == parse_with_format(text@, today as int, index as int),
        r matches Some(d) ==> is_calendar_day(d as int),
{
    let (no_year, fmt) = date_format_pattern(index);
    if no_year {
        let year = year_of(today);
        proof {
            lemma_year_of(today as int, year as int);
        }
        let input = decimal(year).concat("-").concat(text.as_str());
        let pattern = String::from_str("%Y-").concat(fmt.as_str());
        parse_date(input.as_str(), pattern.as_str())
    } else {
        parse_date(text.as_str(), fmt.as_str())
    }
}

} // verus!
