use gtfs_board::date::Date;
use gtfs_board::error::BoardError;
use gtfs_board::time::{adjust, str_to_dur, Duration, Instant, Time, SECONDS_PER_DAY};

fn day(year: i32, month: u32, day: u32) -> Date {
    Date::from_ymd(year, month, day).unwrap()
}

fn clock(hour: u32, minute: u32, second: u32) -> Time {
    Time::from_hms(hour, minute, second).unwrap()
}

#[test]
fn str_to_dur_reads_hours_minutes_and_seconds() {
    assert_eq!(str_to_dur("08:05:00"), Ok(Duration::seconds(8 * 3600 + 5 * 60)));
    assert_eq!(str_to_dur("08:05:00").unwrap().num_seconds(), 29_100);
    assert_eq!(str_to_dur("00:00:00"), Ok(Duration::seconds(0)));
    assert_eq!(str_to_dur("23:59:59"), Ok(Duration::seconds(86_399)));
    assert_eq!(str_to_dur("12:34:56"), Ok(Duration::seconds(45_296)));
}

#[test]
fn str_to_dur_reads_offsets_past_midnight() {
    let offset = str_to_dur("25:10:00").unwrap();
    assert_eq!(offset.num_seconds(), 25 * 3600 + 10 * 60);
    assert_eq!(offset.num_days(), 1);
    assert_eq!(str_to_dur("24:00:00").unwrap().num_days(), 1);
    assert_eq!(str_to_dur("47:59:59").unwrap().num_days(), 1);
    assert_eq!(str_to_dur("48:00:00").unwrap().num_days(), 2);
    assert_eq!(str_to_dur("99:00:00").unwrap().num_days(), 4);
}

#[test]
fn str_to_dur_reads_a_single_digit_of_hours() {
    assert_eq!(str_to_dur("8:05:00"), Ok(Duration::seconds(29_100)));
    assert_eq!(str_to_dur("0:00:01"), Ok(Duration::seconds(1)));
}

#[test]
fn str_to_dur_counts_minutes_and_seconds_as_written() {
    assert_eq!(str_to_dur("08:75:99"), Ok(Duration::seconds(8 * 3600 + 75 * 60 + 99)));
    assert_eq!(str_to_dur("99:99:99"), Ok(Duration::seconds(99 * 3600 + 99 * 60 + 99)));
}

#[test]
fn str_to_dur_refuses_other_shapes() {
    for text in [
        "",
        "08:05",
        "8:5:00",
        "08:5:00",
        "08:05:0",
        "08:05:000",
        "008:05:00",
        "125:10:00",
        "08-05-00",
        "08:05:00 ",
        " 08:05:00",
        "ab:cd:ef",
        "08:0a:00",
        "-8:05:00",
        "08.05.00",
        "\u{ff10}8:05:00",
    ] {
        assert_eq!(str_to_dur(text), Err(BoardError::TimeFormatError), "{:?}", text);
    }
}

#[test]
fn adjust_places_an_offset_of_the_day_on_the_reference_date() {
    let (instant, day_shift) = adjust(str_to_dur("08:30:00").unwrap(), day(2024, 1, 8), clock(8, 0, 0));
    assert_eq!(instant, Instant::new(day(2024, 1, 8), clock(8, 30, 0)));
    assert_eq!(day_shift, 0);
}

#[test]
fn adjust_rolls_an_offset_past_midnight_over() {
    let reference = day(2024, 1, 8);
    assert_eq!(reference.weekday_index(), 0);
    let (instant, day_shift) = adjust(str_to_dur("25:10:00").unwrap(), reference, clock(8, 0, 0));
    assert_eq!(day_shift, 1);
    assert_eq!(instant.date, day(2024, 1, 8));
    assert_eq!(instant.time, clock(1, 10, 0));
    assert_eq!(reference.minus_days(day_shift), Some(day(2024, 1, 7)));
}

#[test]
fn adjust_does_not_go_by_the_time_of_the_reference() {
    let offset = str_to_dur("25:10:00").unwrap();
    let early = adjust(offset, day(2024, 1, 8), clock(0, 0, 0));
    let late = adjust(offset, day(2024, 1, 8), clock(23, 59, 59));
    assert_eq!(early, late);
}

#[test]
fn adjust_takes_off_every_whole_day() {
    let (instant, day_shift) = adjust(Duration::seconds(3 * 86_400 + 61), day(2024, 3, 1), clock(23, 59, 59));
    assert_eq!(day_shift, 3);
    assert_eq!(instant, Instant::new(day(2024, 3, 1), clock(0, 1, 1)));
    let (late, shift) = adjust(Duration::seconds(u32::MAX), day(2024, 3, 1), Time::midnight());
    assert_eq!(shift, u32::MAX / 86_400);
    assert_eq!(late.time.seconds_from_midnight(), u32::MAX % 86_400);
}

#[test]
fn time_is_bounded_by_the_day() {
    assert_eq!(SECONDS_PER_DAY, 86_400);
    assert_eq!(Time::from_seconds(86_399).unwrap().seconds_from_midnight(), 86_399);
    assert!(Time::from_seconds(86_400).is_none());
    assert!(Time::from_hms(24, 0, 0).is_none());
    assert!(Time::from_hms(23, 60, 0).is_none());
    assert!(Time::from_hms(23, 59, 60).is_none());
    assert_eq!(Time::midnight(), clock(0, 0, 0));
}

#[test]
fn time_gives_hour_minute_and_second() {
    let time = clock(13, 7, 42);
    assert_eq!(time.seconds_from_midnight(), 13 * 3600 + 7 * 60 + 42);
    assert_eq!(time.hour(), 13);
    assert_eq!(time.minute(), 7);
    assert_eq!(time.second(), 42);
}

#[test]
fn time_steps_round_the_clock() {
    assert_eq!(clock(23, 30, 0).wrapping_add(3600), clock(0, 30, 0));
    assert_eq!(clock(0, 30, 0).wrapping_sub(3600), clock(23, 30, 0));
    assert_eq!(clock(8, 0, 0).wrapping_add(300), clock(8, 5, 0));
    assert_eq!(clock(8, 0, 0).wrapping_sub(300), clock(7, 55, 0));
    assert_eq!(clock(8, 0, 0).wrapping_add(86_400), clock(8, 0, 0));
    assert_eq!(clock(8, 0, 0).wrapping_sub(86_400 * 3 + 1), clock(7, 59, 59));
    assert_eq!(clock(8, 0, 0).wrapping_add(u32::MAX), clock(8, 0, 0).wrapping_add(u32::MAX % 86_400));
}

#[test]
fn time_shows_as_a_clock() {
    assert_eq!(clock(8, 5, 0).to_clock_text(), "08:05");
    assert_eq!(clock(0, 0, 0).to_clock_text(), "00:00");
    assert_eq!(clock(23, 59, 59).to_clock_text(), "23:59");
    assert_eq!(clock(1, 10, 0).to_clock_text(), "01:10");
    assert_eq!(clock(12, 30, 29).to_clock_text(), "12:30");
}

#[test]
fn instants_are_ordered_by_date_then_time() {
    let morning = Instant::new(day(2024, 1, 8), clock(8, 0, 0));
    let later = Instant::new(day(2024, 1, 8), clock(8, 0, 1));
    let next_day = Instant::new(day(2024, 1, 9), clock(0, 0, 0));
    assert!(later.is_after(&morning));
    assert!(!morning.is_after(&later));
    assert!(!morning.is_after(&morning));
    assert!(next_day.is_after(&later));
    assert!(!later.is_after(&next_day));
}
