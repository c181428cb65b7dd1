use embedded_sdmmc::TimeSource;
use embedded_sdmmc::Timestamp;
use sd_card::SdMmcClock;

#[test]
fn clock_reports_the_epoch() {
    let t = SdMmcClock.get_timestamp();
    assert_eq!(t.year_since_1970, 0);
    assert_eq!(t.zero_indexed_month, 0);
    assert_eq!(t.zero_indexed_day, 0);
    assert_eq!(t.hours, 0);
    assert_eq!(t.minutes, 0);
    assert_eq!(t.seconds, 0);
}

#[test]
fn clock_stands_still() {
    let clock = SdMmcClock;
    let first = clock.get_timestamp();
    let second = clock.get_timestamp();
    assert!(first == second);
}

#[test]
fn clock_reports_midnight_of_the_first_day_of_1970() {
    let expected = Timestamp::from_calendar(1970, 1, 1, 0, 0, 0).unwrap();
    assert!(SdMmcClock.get_timestamp() == expected);
}
