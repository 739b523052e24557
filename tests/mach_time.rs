use mach_time::absolute_time::{mach_absolute_time, State};
use mach_time::timebase::{
    mach_timebase_info, timebase_info, MachTimebaseInfo, KERN_SUCCESS, TIMEBASE_INFO_SIZE,
};

#[test]
fn timebase_info_is_one_to_one() {
    for _ in 0..5 {
        let info = timebase_info();
        assert_eq!(info, MachTimebaseInfo { numerator: 1, denominator: 1 });
    }
}

#[test]
fn timebase_record_layout() {
    let info = MachTimebaseInfo { numerator: 0x0102_0304, denominator: 0xA0B0_C0D0 };
    assert_eq!(info.to_bytes(), vec![0x04, 0x03, 0x02, 0x01, 0xD0, 0xC0, 0xB0, 0xA0]);
    assert_eq!(timebase_info().to_bytes(), vec![1, 0, 0, 0, 1, 0, 0, 0]);
}

#[test]
fn timebase_write_touches_only_the_record() {
    let mut mem = vec![0xEEu8; 20];
    let status = mach_timebase_info(&mut mem, 4);
    assert_eq!(status, KERN_SUCCESS);
    assert_eq!(status, 0);
    assert_eq!(&mem[4..4 + TIMEBASE_INFO_SIZE], &[1, 0, 0, 0, 1, 0, 0, 0]);
    assert!(mem[..4].iter().all(|b| *b == 0xEE));
    assert!(mem[12..].iter().all(|b| *b == 0xEE));
}

#[test]
fn timebase_write_at_end_of_memory() {
    let mut mem = vec![7u8; TIMEBASE_INFO_SIZE];
    assert_eq!(mach_timebase_info(&mut mem, 0), 0);
    assert_eq!(mem, vec![1, 0, 0, 0, 1, 0, 0, 0]);
}

#[test]
fn ratio_keeps_ticks() {
    let info = timebase_info();
    for ticks in [0u64, 1, 999, 1_000_000_007, u64::MAX] {
        assert_eq!(info.ticks_to_nanos(ticks), ticks as u128);
    }
}

#[test]
fn ratio_formula() {
    let info = MachTimebaseInfo { numerator: 125, denominator: 3 };
    assert_eq!(info.ticks_to_nanos(10), 416);
    let wide = MachTimebaseInfo { numerator: u32::MAX, denominator: 1 };
    assert_eq!(wide.ticks_to_nanos(u64::MAX), u64::MAX as u128 * u32::MAX as u128);
}

#[test]
fn first_query_fixes_reference() {
    let mut state = State::new();
    assert_eq!(state.absolute_time_at(5_000), Some(0));
    assert_eq!(state.absolute_time_at(5_250), Some(250));
    assert_eq!(state.absolute_time_at(1_000_005_000), Some(1_000_000_000));
}

#[test]
fn queries_are_monotonic() {
    let mut state = State::default();
    let readings = [10u128, 10, 11, 500, 500, 123_456_789];
    let mut last = 0u64;
    for now in readings {
        let t = state.absolute_time_at(now).unwrap();
        assert!(t >= last);
        last = t;
    }
    assert_eq!(last, 123_456_779);
}

#[test]
fn earlier_reading_saturates_at_zero() {
    let mut state = State::new();
    assert_eq!(state.absolute_time_at(1_000), Some(0));
    assert_eq!(state.absolute_time_at(400), Some(0));
    assert_eq!(state.absolute_time_at(1_001), Some(1));
}

#[test]
fn elapsed_beyond_64_bits_is_none() {
    let mut state = State::new();
    assert_eq!(state.absolute_time_at(0), Some(0));
    assert_eq!(state.absolute_time_at(u64::MAX as u128), Some(u64::MAX));
    assert_eq!(state.absolute_time_at(u64::MAX as u128 + 1), None);
    assert_eq!(state.absolute_time_at(u128::MAX), None);
}

#[test]
fn live_clock_scenario() {
    let mut mem = vec![0u8; 64];
    assert_eq!(mach_timebase_info(&mut mem, 16), 0);
    assert_eq!(&mem[16..24], &[1, 0, 0, 0, 1, 0, 0, 0]);
    let mut state = State::new();
    let first = mach_absolute_time(&mut state).unwrap();
    let second = mach_absolute_time(&mut state).unwrap();
    assert_eq!(first, 0);
    assert!(second >= first);
    assert!(first < 10_000_000);
}

#[test]
fn live_clock_advances() {
    let mut state = State::new();
    let first = mach_absolute_time(&mut state).unwrap();
    let start = std::time::Instant::now();
    while start.elapsed().as_millis() < 5 {}
    let second = mach_absolute_time(&mut state).unwrap();
    assert!(second >= first + 4_000_000);
}

#[test]
fn processes_are_independent() {
    let mut a = State::new();
    assert_eq!(a.absolute_time_at(100), Some(0));
    assert_eq!(a.absolute_time_at(9_000_100), Some(9_000_000));
    let mut b = State::new();
    assert_eq!(b.absolute_time_at(9_000_200), Some(0));
    assert_eq!(a.absolute_time_at(9_000_300), Some(9_000_200));
    assert_eq!(b.absolute_time_at(9_000_300), Some(100));

    let mut live_a = State::new();
    mach_absolute_time(&mut live_a).unwrap();
    let start = std::time::Instant::now();
    while start.elapsed().as_millis() < 20 {}
    let mut live_b = State::new();
    assert_eq!(mach_absolute_time(&mut live_b), Some(0));
    assert!(mach_absolute_time(&mut live_a).unwrap() >= 19_000_000);
}
