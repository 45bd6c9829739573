use musicbrainz_cuesheet::date::{ReleaseDate, MAX_YEAR, MIN_YEAR};

fn date(year: i32, month: u32, day: u32) -> ReleaseDate {
    ReleaseDate::new(year, month, day).unwrap()
}

#[test]
fn a_date_keeps_its_numbers() {
    let d = date(2015, 9, 8);
    assert_eq!((d.year(), d.month(), d.day()), (2015, 9, 8));
}

#[test]
fn days_that_the_calendar_lacks_are_refused() {
    assert!(ReleaseDate::new(2015, 3, 14).is_some());
    assert!(ReleaseDate::new(2015, 0, 14).is_none());
    assert!(ReleaseDate::new(2015, 13, 1).is_none());
    assert!(ReleaseDate::new(2015, 1, 0).is_none());
    assert!(ReleaseDate::new(2015, 1, 32).is_none());
    assert!(ReleaseDate::new(2015, 4, 31).is_none());
    assert!(ReleaseDate::new(2015, 4, 30).is_some());
    assert!(ReleaseDate::new(2015, 12, 31).is_some());
    assert!(ReleaseDate::new(2015, u32::MAX, 1).is_none());
    assert!(ReleaseDate::new(2015, 1, u32::MAX).is_none());
}

#[test]
fn the_last_of_february_follows_the_leap_years() {
    assert!(ReleaseDate::new(2015, 2, 29).is_none());
    assert!(ReleaseDate::new(2016, 2, 29).is_some());
    assert!(ReleaseDate::new(2016, 2, 30).is_none());
    assert!(ReleaseDate::new(1900, 2, 29).is_none());
    assert!(ReleaseDate::new(2000, 2, 29).is_some());
    assert!(ReleaseDate::new(2100, 2, 29).is_none());
    assert!(ReleaseDate::new(-4, 2, 29).is_some());
    assert!(ReleaseDate::new(-1, 2, 29).is_none());
    assert!(ReleaseDate::new(0, 2, 29).is_some());
    assert!(ReleaseDate::new(-100, 2, 29).is_none());
    assert!(ReleaseDate::new(-400, 2, 29).is_some());
}

#[test]
fn years_end_where_the_calendar_ends() {
    assert_eq!(MIN_YEAR, -262143);
    assert_eq!(MAX_YEAR, 262142);
    assert!(ReleaseDate::new(MAX_YEAR, 12, 31).is_some());
    assert!(ReleaseDate::new(MAX_YEAR + 1, 1, 1).is_none());
    assert!(ReleaseDate::new(MIN_YEAR, 1, 1).is_some());
    assert!(ReleaseDate::new(MIN_YEAR - 1, 12, 31).is_none());
    assert!(ReleaseDate::new(400000, 1, 1).is_none());
    assert!(ReleaseDate::new(-400000, 1, 1).is_none());
    assert!(ReleaseDate::new(i32::MAX, 1, 1).is_none());
    assert!(ReleaseDate::new(i32::MIN, 1, 1).is_none());
}

#[test]
fn the_day_of_the_year_counts_from_one() {
    assert_eq!(date(2015, 1, 1).ordinal(), 1);
    assert_eq!(date(2015, 1, 2).ordinal(), 2);
    assert_eq!(date(2015, 2, 1).ordinal(), 32);
    assert_eq!(date(2015, 3, 1).ordinal(), 60);
    assert_eq!(date(2016, 3, 1).ordinal(), 61);
    assert_eq!(date(2015, 9, 8).ordinal(), 251);
    assert_eq!(date(-308, 3, 14).ordinal(), 74);
    assert_eq!(date(2015, 12, 31).ordinal(), 365);
    assert_eq!(date(2016, 12, 31).ordinal(), 366);
    assert_eq!(date(2000, 12, 31).ordinal(), 366);
    assert_eq!(date(2100, 12, 31).ordinal(), 365);
}

#[test]
fn the_day_of_the_year_is_the_days_before_plus_the_day() {
    let lengths = [31u32, 28, 31, 30, 31, 30, 31, 31, 30, 31, 30, 31];
    for year in [1999, 2000, 2004, 2023] {
        let leap = year % 4 == 0 && (year % 100 != 0 || year % 400 == 0);
        let mut before = 0;
        for month in 1..=12u32 {
            let mut length = lengths[(month - 1) as usize];
            if month == 2 && leap {
                length += 1;
            }
            assert!(ReleaseDate::new(year, month, length + 1).is_none());
            for day in 1..=length {
                assert_eq!(date(year, month, day).ordinal(), before + day);
            }
            before += length;
        }
    }
}

#[test]
fn the_full_form_is_iso_8601() {
    assert_eq!(date(2015, 9, 5).iso_text(), "2015-09-05");
    assert_eq!(date(1987, 11, 23).iso_text(), "1987-11-23");
    assert_eq!(date(0, 1, 1).iso_text(), "0000-01-01");
    assert_eq!(date(7, 3, 4).iso_text(), "0007-03-04");
    assert_eq!(date(987, 12, 31).iso_text(), "0987-12-31");
    assert_eq!(date(9999, 12, 31).iso_text(), "9999-12-31");
}

#[test]
fn years_outside_four_digits_are_signed() {
    assert_eq!(date(-1, 1, 1).iso_text(), "-0001-01-01");
    assert_eq!(date(-308, 3, 14).iso_text(), "-0308-03-14");
    assert_eq!(date(-12345, 6, 7).iso_text(), "-12345-06-07");
    assert_eq!(date(10000, 12, 31).iso_text(), "+10000-12-31");
    assert_eq!(date(12345, 6, 7).iso_text(), "+12345-06-07");
    assert_eq!(date(MAX_YEAR, 12, 31).iso_text(), "+262142-12-31");
    assert_eq!(date(MIN_YEAR, 1, 1).iso_text(), "-262143-01-01");
}

#[test]
fn the_first_day_of_the_year_is_written_as_the_year() {
    assert_eq!(date(1999, 1, 1).comment_text(), "1999");
    assert_eq!(date(0, 1, 1).comment_text(), "0");
    assert_eq!(date(33, 1, 1).comment_text(), "33");
    assert_eq!(date(-5, 1, 1).comment_text(), "-5");
    assert_eq!(date(12345, 1, 1).comment_text(), "12345");
}

#[test]
fn any_other_day_is_written_in_full() {
    assert_eq!(date(1999, 1, 2).comment_text(), "1999-01-02");
    assert_eq!(date(1999, 2, 1).comment_text(), "1999-02-01");
    assert_eq!(date(1999, 12, 31).comment_text(), "1999-12-31");
    assert_eq!(date(2016, 2, 29).comment_text(), "2016-02-29");
    assert_eq!(date(-5, 7, 1).comment_text(), "-0005-07-01");
}
