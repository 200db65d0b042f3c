use livescores::parse_date;
use livescores::Date;

fn ymd(date: Date) -> (i32, u32, u32) {
    (date.year(), date.month(), date.day())
}

#[test]
fn test_parse_games_page_date_header() {
    assert_eq!(
        parse_date("February 19", 2023).unwrap(),
        Date::from_ymd_opt(2023, 2, 19).unwrap()
    );
    assert_eq!(
        parse_date("October 11, 2022", 2023).unwrap(),
        Date::from_ymd_opt(2022, 10, 11).unwrap()
    );
    assert_eq!(
        parse_date("September 6, 2022", 2023).unwrap(),
        Date::from_ymd_opt(2022, 9, 6).unwrap()
    );
    assert_eq!(
        parse_date("July 12, 2022", 2023).unwrap(),
        Date::from_ymd_opt(2022, 7, 12).unwrap()
    );
    assert_eq!(
        parse_date("December 10, 2020", 2023).unwrap(),
        Date::from_ymd_opt(2020, 12, 10).unwrap()
    );
}

#[test]
fn date_agrees_with_chrono() {
    let ours = parse_date("October 11, 2022", 2023).unwrap();
    let theirs = chrono::NaiveDate::from_ymd_opt(2022, 10, 11).unwrap();
    assert_eq!(ymd(ours), (2022, 10, 11));
    assert_eq!(
        chrono::NaiveDate::from_ymd_opt(ours.year(), ours.month(), ours.day()),
        Some(theirs)
    );
}

#[test]
fn explicit_year_overrides_default() {
    for default_year in [1999, 2023, -5, 262142] {
        let date = parse_date("March 31, 2021", default_year).unwrap();
        assert_eq!(ymd(date), (2021, 3, 31));
    }
}

#[test]
fn missing_year_falls_back_to_default() {
    assert_eq!(ymd(parse_date("May 1", 2019).unwrap()), (2019, 5, 1));
    assert_eq!(ymd(parse_date("May 1", 2031).unwrap()), (2031, 5, 1));
    assert_eq!(ymd(parse_date("May 1,", 2031).unwrap()), (2031, 5, 1));
}

#[test]
fn unreadable_year_falls_back_to_default() {
    assert_eq!(ymd(parse_date("June 2, soon", 2024).unwrap()), (2024, 6, 2));
    assert_eq!(ymd(parse_date("June 2, 99999999999", 2024).unwrap()), (2024, 6, 2));
}

#[test]
fn year_is_read_from_fourth_field_only() {
    assert_eq!(ymd(parse_date("June 2 2020", 2024).unwrap()), (2024, 6, 2));
    assert_eq!(ymd(parse_date("June 2  2020", 2024).unwrap()), (2020, 6, 2));
    assert_eq!(ymd(parse_date("June,2,,2020,1999", 2024).unwrap()), (2020, 6, 2));
}

#[test]
fn month_names_are_case_sensitive_and_exact() {
    assert_eq!(parse_date("february 19", 2023), None);
    assert_eq!(parse_date("Feb 19", 2023), None);
    assert_eq!(parse_date("FEBRUARY 19", 2023), None);
    assert_eq!(parse_date("Februaryy 19", 2023), None);
    assert_eq!(parse_date(" February 19", 2023), None);
}

#[test]
fn every_month_name_is_known() {
    let names = [
        "January",
        "February",
        "March",
        "April",
        "May",
        "June",
        "July",
        "August",
        "September",
        "October",
        "November",
        "December",
    ];
    for (i, name) in names.iter().enumerate() {
        let date = parse_date(&format!("{} 15, 2022", name), 2023).unwrap();
        assert_eq!(ymd(date), (2022, i as u32 + 1, 15));
    }
}

#[test]
fn impossible_days_give_no_date() {
    assert_eq!(parse_date("April 31, 2022", 2023), None);
    assert_eq!(parse_date("February 29, 2023", 2023), None);
    assert_eq!(parse_date("February 30", 2024), None);
    assert_eq!(parse_date("January 0", 2023), None);
    assert_eq!(parse_date("January 32", 2023), None);
    assert_eq!(parse_date("January", 2023), None);
    assert_eq!(parse_date("January x", 2023), None);
    assert_eq!(parse_date("", 2023), None);
    assert_eq!(parse_date("11 October", 2023), None);
}

#[test]
fn leap_days() {
    assert_eq!(ymd(parse_date("February 29, 2024", 2023).unwrap()), (2024, 2, 29));
    assert_eq!(ymd(parse_date("February 29, 2000", 2023).unwrap()), (2000, 2, 29));
    assert_eq!(parse_date("February 29, 1900", 2023), None);
    assert_eq!(ymd(parse_date("February 29, -4", 2023).unwrap()), (-4, 2, 29));
}

#[test]
fn signs_in_numerals() {
    assert_eq!(ymd(parse_date("May +7, +2020", 2023).unwrap()), (2020, 5, 7));
    assert_eq!(parse_date("May -7, 2020", 2023), None);
    assert_eq!(ymd(parse_date("May 007, 02020", 2023).unwrap()), (2020, 5, 7));
    assert_eq!(ymd(parse_date("May 7, -0", 2023).unwrap()), (0, 5, 7));
    assert_eq!(ymd(parse_date("May 7, +-1", 2023).unwrap()), (2023, 5, 7));
    assert_eq!(ymd(parse_date("May 7, -", 2023).unwrap()), (2023, 5, 7));
}

#[test]
fn years_at_the_edge_of_the_calendar() {
    assert_eq!(ymd(Date::from_ymd_opt(262142, 12, 31).unwrap()), (262142, 12, 31));
    assert_eq!(Date::from_ymd_opt(262143, 1, 1), None);
    assert_eq!(ymd(Date::from_ymd_opt(-262143, 1, 1).unwrap()), (-262143, 1, 1));
    assert_eq!(Date::from_ymd_opt(-262144, 12, 31), None);
    assert_eq!(parse_date("January 1, 262143", 2023), None);
    assert_eq!(parse_date("January 1", 262143), None);
}

#[test]
fn date_validity_agrees_with_chrono_on_a_grid() {
    for year in [-262144, -262143, -401, -400, -100, -4, -1, 0, 1, 1900, 2000, 2023, 2024, 262142, 262143] {
        for month in 0..=13u32 {
            for day in 0..=32u32 {
                let ours = Date::from_ymd_opt(year, month, day);
                let theirs = chrono::NaiveDate::from_ymd_opt(year, month, day);
                assert_eq!(ours.is_some(), theirs.is_some());
                if let Some(date) = ours {
                    assert_eq!(ymd(date), (year, month, day));
                }
            }
        }
    }
}
