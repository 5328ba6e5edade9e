use quadpipe::timing::{
    clock_signals, elapsed_millis, split_millis, time_of_day, try_elapsed_millis, MS_PER_HOUR,
    MS_PER_MINUTE, MS_PER_SECOND,
};

// 2024-01-01T00:00:00 UTC, in milliseconds since the Unix epoch.
const NEW_YEAR_2024_UTC_MS: u64 = 1_704_067_200_000;

#[test]
fn elapsed_subtracts_boot_time() {
    assert_eq!(elapsed_millis(1_500, 1_000), 500);
    assert_eq!(elapsed_millis(1_000, 1_000), 0);
}

#[test]
fn checked_elapsed_accepts_forward_clock() {
    assert_eq!(try_elapsed_millis(1_500, 1_000), Some(500));
    assert_eq!(try_elapsed_millis(1_000, 1_000), Some(0));
}

#[test]
fn checked_elapsed_rejects_backwards_clock() {
    assert_eq!(try_elapsed_millis(999, 1_000), None);
}

#[test]
fn split_millis_gives_seconds_and_nanos() {
    assert_eq!(split_millis(1_234), (1, 234_000_000));
    assert_eq!(split_millis(0), (0, 0));
    assert_eq!(split_millis(999), (0, 999_000_000));
    assert_eq!(split_millis(60_000), (60, 0));
}

#[test]
fn utc_midnight_shows_as_hour_six() {
    let t = time_of_day(NEW_YEAR_2024_UTC_MS);
    assert_eq!(t.hour, 6);
    assert_eq!(t.minute, 0);
    assert_eq!(t.second, 0);
    assert_eq!(t.millisecond, 0);

    let c = clock_signals(t);
    assert_eq!(c.hour_num, 6 * MS_PER_HOUR);
    assert_eq!(c.minute_num, 0);
    assert_eq!(c.second_num, 0);
    assert_eq!(c.millisecond, 0);
}

#[test]
fn afternoon_instant_decomposes_exactly() {
    // 13:47:05.123 UTC on 2024-01-01, which is 19:47:05.123 in UTC+6
    let total =
        NEW_YEAR_2024_UTC_MS + 13 * MS_PER_HOUR + 47 * MS_PER_MINUTE + 5 * MS_PER_SECOND + 123;
    let t = time_of_day(total);
    assert_eq!(t.hour, 19);
    assert_eq!(t.minute, 47);
    assert_eq!(t.second, 5);
    assert_eq!(t.millisecond, 123);

    let c = clock_signals(t);
    assert_eq!(c.second_num, 5 * MS_PER_SECOND + 123);
    assert_eq!(c.minute_num, 47 * MS_PER_MINUTE + 5 * MS_PER_SECOND + 123);
    assert_eq!(
        c.hour_num,
        19 * MS_PER_HOUR + 47 * MS_PER_MINUTE + 5 * MS_PER_SECOND + 123
    );
}

#[test]
fn late_evening_wraps_into_next_local_day() {
    // 23:00 UTC is 05:00 of the next day in UTC+6
    let t = time_of_day(NEW_YEAR_2024_UTC_MS + 23 * MS_PER_HOUR);
    assert_eq!(t.hour, 5);
    assert_eq!(t.minute, 0);
}

#[test]
fn epoch_decomposes_under_the_offset() {
    let t = time_of_day(0);
    assert_eq!(t.hour, 6);
    assert_eq!(t.minute, 0);
    assert_eq!(t.second, 0);
    assert_eq!(t.millisecond, 0);
}

#[test]
fn stateless_variant_derives_clock_from_offset_plus_elapsed() {
    let offset = NEW_YEAR_2024_UTC_MS;
    let elapsed = 2 * MS_PER_HOUR + 30 * MS_PER_MINUTE;
    let c = quadpipe::timing::clock_at(offset, elapsed);
    // 02:30 UTC shows as 08:30 in UTC+6
    assert_eq!(c.hour_num, 8 * MS_PER_HOUR + 30 * MS_PER_MINUTE);
    assert_eq!(c.minute_num, 30 * MS_PER_MINUTE);
    assert_eq!(c.second_num, 0);
    assert_eq!(c.millisecond, 0);
}

#[test]
fn zero_elapsed_at_utc_midnight_gives_exact_hour_six() {
    let c = quadpipe::timing::clock_at(NEW_YEAR_2024_UTC_MS, 0);
    assert_eq!(c.hour_num, 6 * MS_PER_HOUR);
    assert_eq!(c.minute_num, 0);
    assert_eq!(c.second_num, 0);
    assert_eq!(c.millisecond, 0);
}
