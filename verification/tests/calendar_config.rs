use taskoto::calendar::{
    add_days, decimal, format_date, lowercase, parse_date, weekday_of, year_of, MAX_DAY, MIN_DAY,
};
use taskoto::config::{
    date_format_pattern, get_database_dir, get_date_format, parse_user_date, what_the_fuck, Config,
};
use taskoto::parser::Command;

const JAN_15_2025: i32 = 739266;

#[test]
fn decimal_forms() {
    assert_eq!(decimal(0), "0");
    assert_eq!(decimal(42), "42");
    assert_eq!(decimal(-123), "-123");
    assert_eq!(decimal(i32::MIN), "-2147483648");
    assert_eq!(decimal(i32::MAX), "2147483647");
}

#[test]
fn weekdays_and_years() {
    assert_eq!(weekday_of(1), 1);
    assert_eq!(weekday_of(JAN_15_2025), 3);
    assert_eq!(weekday_of(0), 7);
    assert_eq!(weekday_of(MIN_DAY), 4);
    assert_eq!(weekday_of(MAX_DAY), 1);
    assert_eq!(year_of(JAN_15_2025), 2025);
    assert_eq!(year_of(1), 1);
}

#[test]
fn adding_days() {
    assert_eq!(add_days(JAN_15_2025, 5), Some(JAN_15_2025 + 5));
    assert_eq!(add_days(MAX_DAY, 0), Some(MAX_DAY));
    assert_eq!(add_days(MAX_DAY, 1), None);
    assert_eq!(add_days(MIN_DAY, u64::MAX), None);
}

#[test]
fn parsing_and_formatting() {
    assert_eq!(parse_date("2025-01-15", "%Y-%m-%d"), Some(JAN_15_2025));
    assert_eq!(parse_date("01-15-2025", "%m-%d-%Y"), Some(JAN_15_2025));
    assert_eq!(parse_date("January 15, 2025", "%B %d, %Y"), Some(JAN_15_2025));
    assert_eq!(parse_date("garbage", "%Y-%m-%d"), None);
    assert_eq!(parse_date("2025-02-30", "%Y-%m-%d"), None);
    assert_eq!(format_date(JAN_15_2025, "%Y-%m-%d"), "2025-01-15");
    assert_eq!(format_date(JAN_15_2025, "%B %d, %Y"), "January 15, 2025");
    assert_eq!(format_date(JAN_15_2025, "%b %d"), "Jan 15");
    assert_eq!(format_date(1, "%Y-%m-%d"), "0001-01-01");
}

#[test]
fn lower_case() {
    assert_eq!(lowercase("MonDAY"), "monday");
    assert_eq!(lowercase("today"), "today");
}

#[test]
fn date_format_table() {
    assert_eq!(date_format_pattern(1), (false, String::from("%Y-%m-%d")));
    assert_eq!(date_format_pattern(2), (false, String::from("%m-%d-%Y")));
    assert_eq!(date_format_pattern(8), (false, String::from("%b %d, %y")));
    assert_eq!(date_format_pattern(9), (true, String::from("%m-%d")));
    assert_eq!(date_format_pattern(11), (true, String::from("%b %d")));
    assert_eq!(date_format_pattern(0), (false, String::from("%Y-%m-%d")));
    assert_eq!(date_format_pattern(12), (false, String::from("%Y-%m-%d")));
}

#[test]
fn user_dates_without_year_take_this_year() {
    let today = JAN_15_2025;
    assert_eq!(parse_user_date(&String::from("01-20"), today, 9), Some(739271));
    assert_eq!(parse_user_date(&String::from("February 01"), today, 10), Some(739283));
    assert_eq!(parse_user_date(&String::from("2025-01-20"), today, 1), Some(739271));
    assert_eq!(parse_user_date(&String::from("2025-01-20"), today, 2), None);
    assert_eq!(parse_user_date(&String::from("13-45"), today, 9), None);
}

#[test]
fn config_accessors() {
    let c = Config::default_at(String::from("/home/me/.taskotorc"));
    assert_eq!(get_database_dir(&c), "/home/me/.taskotorc");
    assert_eq!(get_date_format(&c), 1);
    assert_eq!(what_the_fuck(), "What the fuck!");
}

#[test]
fn config_command() {
    let mut c = Config::default_at(String::from("/a/"));
    assert_eq!(
        Command::config(&mut c, None, Some(12)),
        (false, String::from("Nothing Changed."))
    );
    assert_eq!(c.date_format, 1);
    assert_eq!(
        Command::config(&mut c, None, Some(0)),
        (false, String::from("Nothing Changed."))
    );
    assert_eq!(
        Command::config(&mut c, None, Some(11)),
        (true, String::from("Configuration Done."))
    );
    assert_eq!(c.date_format, 11);
    assert_eq!(
        Command::config(&mut c, Some(String::from("/b/")), Some(42)),
        (true, String::from("Configuration Done."))
    );
    assert_eq!(c.path, "/b/");
    assert_eq!(c.date_format, 11);
    assert_eq!(Command::config(&mut c, None, None), (false, String::from("Nothing Changed.")));
}

#[test]
fn show_config_line() {
    assert_eq!(
        Command::show_config(&String::from("/home/me/.taskotorc")),
        "You can change the configuration in /home/me/.taskotorc, or use the config command."
    );
}

#[test]
fn the_eleven_documented_formats_read_their_examples() {
    // December 31, 2025, as the help text of `config` writes it in each format.
    let dec_31_2025 = parse_date("2025-12-31", "%Y-%m-%d").unwrap();
    let examples = [
        "2025-12-31",
        "12-31-2025",
        "25-12-31",
        "12-31-25",
        "December 31, 2025",
        "December 31, 25",
        "Dec 31, 2025",
        "Dec 31, 25",
        "12-31",
        "December 31",
        "Dec 31",
    ];
    for (i, example) in examples.iter().enumerate() {
        let index = i + 1;
        assert_eq!(
            parse_user_date(&String::from(*example), JAN_15_2025, index),
            Some(dec_31_2025),
            "format {}",
            index
        );
        assert_eq!(format_date(dec_31_2025, &date_format_pattern(index).1), *example);
    }
}

#[test]
fn years_of_days() {
    assert_eq!(year_of(365), 1);
    assert_eq!(year_of(366), 2);
    assert_eq!(year_of(0), 0);
    assert_eq!(year_of(-365), 0);
    assert_eq!(year_of(-366), -1);
    assert_eq!(year_of(MIN_DAY), -262143);
    assert_eq!(year_of(MAX_DAY), 262142);
}
