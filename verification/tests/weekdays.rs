use gtfs_board::weekday::Weekday;

#[test]
fn from_rows_holds_the_flagged_days() {
    let week = Weekday::from_rows(true, false, true, false, true, false, false);
    assert!(week.has_day(0));
    assert!(!week.has_day(1));
    assert!(week.has_day(2));
    assert!(!week.has_day(3));
    assert!(week.has_day(4));
    assert!(!week.has_day(5));
    assert!(!week.has_day(6));
    assert_eq!(week.bits(), 0b0001_0101);
}

#[test]
fn from_rows_of_a_full_week() {
    let week = Weekday::from_rows(true, true, true, true, true, true, true);
    assert_eq!(week.bits(), 0b0111_1111);
    for day in 0..7 {
        assert!(week.has_day(day));
    }
    assert!(!week.has_day(7));
}

#[test]
fn from_rows_without_a_day_is_empty() {
    let week = Weekday::from_rows(false, false, false, false, false, false, false);
    assert!(week.is_empty());
    assert_eq!(week, Weekday::empty());
    assert_eq!(week.bits(), 0);
}

#[test]
fn from_index_holds_one_day() {
    assert_eq!(Weekday::from_index(0).bits(), 1);
    assert_eq!(Weekday::from_index(1).bits(), 2);
    assert_eq!(Weekday::from_index(2).bits(), 4);
    assert_eq!(Weekday::from_index(3).bits(), 8);
    assert_eq!(Weekday::from_index(4).bits(), 16);
    assert_eq!(Weekday::from_index(5).bits(), 32);
    assert_eq!(Weekday::from_index(6).bits(), 64);
    for index in 0..7 {
        for day in 0..7 {
            assert_eq!(Weekday::from_index(index).has_day(day), index == day);
        }
    }
}

#[test]
fn from_index_beyond_the_week_is_empty() {
    assert!(Weekday::from_index(7).is_empty());
    assert!(Weekday::from_index(8).is_empty());
    assert!(Weekday::from_index(31).is_empty());
    assert!(Weekday::from_index(u32::MAX).is_empty());
}

#[test]
fn from_bits_truncate_drops_the_eighth_bit() {
    assert_eq!(Weekday::from_bits_truncate(0xff).bits(), 0x7f);
    assert_eq!(Weekday::from_bits_truncate(0x80).bits(), 0);
    assert_eq!(Weekday::from_bits_truncate(0b0100_0001).bits(), 0b0100_0001);
    assert!(Weekday::from_bits_truncate(0b0100_0001).has_day(6));
}

#[test]
fn set_puts_days_in_and_takes_them_out() {
    let mut week = Weekday::empty();
    week.set(Weekday::from_index(2), true);
    week.set(Weekday::from_index(5), true);
    assert_eq!(week.bits(), 0b0010_0100);
    week.set(Weekday::from_index(2), false);
    assert_eq!(week.bits(), 0b0010_0000);
    week.set(Weekday::from_index(3), false);
    assert_eq!(week.bits(), 0b0010_0000);
}

#[test]
fn intersection_keeps_the_common_days() {
    let weekdays = Weekday::from_rows(true, true, true, true, true, false, false);
    let late = Weekday::from_rows(false, false, false, false, true, true, true);
    assert_eq!(weekdays.intersection(late), Weekday::from_index(4));
    assert!(weekdays.intersection(Weekday::from_index(6)).is_empty());
}
