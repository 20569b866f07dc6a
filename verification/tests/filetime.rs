use std::time::Duration;

use uptimer::{handle_is_usable, uptime_from_process_times, uptime_from_ticks, FileTime, Uptime};

const PSEUDO_HANDLE: isize = -1;

fn file_time(ticks: u64) -> FileTime {
    FileTime { low: ticks as u32, high: (ticks >> 32) as u32 }
}

#[test]
fn ticks_joins_the_two_halves() {
    assert_eq!(FileTime { low: 0, high: 0 }.ticks(), 0);
    assert_eq!(FileTime { low: 1, high: 0 }.ticks(), 1);
    assert_eq!(FileTime { low: 0, high: 1 }.ticks(), 4_294_967_296);
    assert_eq!(FileTime { low: 0x89ab_cdef, high: 0x0123_4567 }.ticks(), 0x0123_4567_89ab_cdef);
    assert_eq!(FileTime { low: u32::MAX, high: 0 }.ticks(), 4_294_967_295);
    assert_eq!(FileTime { low: u32::MAX, high: u32::MAX }.ticks(), u64::MAX);
}

#[test]
fn ticks_puts_the_high_half_first() {
    let swapped = FileTime { low: 2, high: 1 };
    assert_eq!(swapped.ticks(), 4_294_967_298);
    assert_ne!(swapped.ticks(), FileTime { low: 1, high: 2 }.ticks());
}

#[test]
fn twenty_million_ticks_are_two_thousand_milliseconds() {
    let uptime = uptime_from_ticks(0, 20_000_000);
    assert_eq!(uptime, Some(Uptime::from_millis(2_000)));
    let uptime = uptime.unwrap();
    assert_eq!(uptime.as_millis(), 2_000);
    assert_eq!(
        Duration::new(uptime.as_secs(), uptime.subsec_nanos()),
        Duration::from_millis(2_000)
    );
}

#[test]
fn only_the_difference_of_ticks_counts() {
    let start: u64 = 133_500_000_000_000_000;
    assert_eq!(uptime_from_ticks(start, start + 20_000_000), Some(Uptime::from_millis(2_000)));
    assert_eq!(uptime_from_ticks(start, start + 10_000), Some(Uptime::from_millis(1)));
}

#[test]
fn ticks_round_down_to_whole_milliseconds() {
    assert_eq!(uptime_from_ticks(0, 9_999), Some(Uptime::from_millis(0)));
    assert_eq!(uptime_from_ticks(0, 10_000), Some(Uptime::from_millis(1)));
    assert_eq!(uptime_from_ticks(0, 19_999), Some(Uptime::from_millis(1)));
    assert_eq!(uptime_from_ticks(1, 10_000), Some(Uptime::from_millis(0)));
}

#[test]
fn a_process_seen_at_its_start_has_uptime_zero() {
    let uptime = uptime_from_ticks(987_654_321, 987_654_321);
    assert!(uptime.is_some());
    assert_eq!(uptime, Some(Uptime::from_millis(0)));
    let at_start = file_time(987_654_321);
    assert_eq!(
        uptime_from_process_times(PSEUDO_HANDLE, Some(at_start), Some(at_start)),
        Some(Uptime::from_secs(0))
    );
}

#[test]
fn a_clock_before_the_start_gives_no_uptime() {
    assert_eq!(uptime_from_ticks(1, 0), None);
    assert_eq!(uptime_from_ticks(20_000_000, 0), None);
    assert_eq!(uptime_from_ticks(u64::MAX, u64::MAX - 1), None);
    assert_eq!(
        uptime_from_process_times(PSEUDO_HANDLE, Some(file_time(2)), Some(file_time(1))),
        None
    );
}

#[test]
fn the_widest_span_of_ticks_fits() {
    let uptime = uptime_from_ticks(0, u64::MAX);
    assert_eq!(uptime, Some(Uptime::from_millis(1_844_674_407_370_955)));
    assert_eq!(uptime.unwrap().as_secs(), 1_844_674_407_370);
    assert_eq!(uptime.unwrap().subsec_nanos(), 955_000_000);
}

#[test]
fn the_null_handle_is_the_only_unusable_one() {
    assert!(!handle_is_usable(0));
    assert!(handle_is_usable(PSEUDO_HANDLE));
    assert!(handle_is_usable(1));
    assert!(handle_is_usable(isize::MAX));
    assert!(handle_is_usable(isize::MIN));
}

#[test]
fn process_times_give_the_uptime() {
    let creation = FileTime { low: 5, high: 7 };
    let system = FileTime { low: 20_000_005, high: 7 };
    assert_eq!(
        uptime_from_process_times(PSEUDO_HANDLE, Some(creation), Some(system)),
        Some(Uptime::from_millis(2_000))
    );
}

#[test]
fn process_times_carry_into_the_high_half() {
    let creation = FileTime { low: u32::MAX, high: 0 };
    let system = FileTime { low: 9_999, high: 1 };
    assert_eq!(
        uptime_from_process_times(PSEUDO_HANDLE, Some(creation), Some(system)),
        Some(Uptime::from_millis(1))
    );
}

#[test]
fn a_null_handle_gives_no_uptime() {
    let creation = Some(file_time(0));
    let system = Some(file_time(20_000_000));
    assert_eq!(uptime_from_process_times(0, creation, system), None);
}

#[test]
fn a_missing_file_time_gives_no_uptime() {
    let creation = Some(file_time(0));
    let system = Some(file_time(20_000_000));
    assert_eq!(uptime_from_process_times(PSEUDO_HANDLE, None, system), None);
    assert_eq!(uptime_from_process_times(PSEUDO_HANDLE, creation, None), None);
    assert_eq!(uptime_from_process_times(PSEUDO_HANDLE, None, None), None);
}

#[test]
fn every_failed_reading_gives_absence_never_zero() {
    let absent = uptime_from_process_times(0, None, None);
    assert_eq!(absent, None);
    assert_ne!(absent, Some(Uptime::from_millis(0)));
}

#[test]
fn later_ticks_give_no_shorter_uptime() {
    let start: u64 = 1_000_003;
    let first: u64 = start + 12_345;
    let slept: u64 = 20_000_000;
    let before = uptime_from_ticks(start, first).unwrap();
    let after = uptime_from_ticks(start, first + slept).unwrap();
    assert!(after.as_nanos() >= before.as_nanos());
    assert!(after.as_millis() - before.as_millis() >= 2_000);
    assert_eq!(before.as_millis(), 1);
    assert_eq!(after.as_millis(), 2_001);
}

#[test]
fn an_uptime_from_ticks_is_never_negative() {
    let pairs: [(u64, u64); 5] = [(0, 0), (0, 1), (5, 4), (u64::MAX, 0), (0, u64::MAX)];
    for (start, now) in pairs {
        match uptime_from_ticks(start, now) {
            Some(uptime) => {
                assert!(start <= now);
                assert_eq!(uptime.as_millis(), ((now - start) / 10_000) as u128);
            }
            None => assert!(now < start),
        }
    }
}

#[test]
fn the_same_readings_give_the_same_uptime() {
    let creation = Some(FileTime { low: 123, high: 456 });
    let system = Some(FileTime { low: 789, high: 457 });
    let first = uptime_from_process_times(PSEUDO_HANDLE, creation, system);
    let second = uptime_from_process_times(PSEUDO_HANDLE, creation, system);
    assert!(first.is_some());
    assert_eq!(first, second);
}
