use pwdlib_zxcvbn::{project, project_seconds, CrackTimesSeconds, Seconds};

fn as_f64(s: &Seconds) -> f64 {
    s.numerator as f64 / s.denominator as f64
}

fn assert_ordered(t: &CrackTimesSeconds) {
    let fast = as_f64(&t.offline_fast_hashing_1e10_per_second);
    let slow = as_f64(&t.offline_slow_hashing_1e4_per_second);
    let online = as_f64(&t.online_no_throttling_10_per_second);
    let throttled = as_f64(&t.online_throttling_100_per_hour);
    assert!(fast <= slow && slow <= online && online <= throttled);
}

#[test]
fn thousand_guesses_fast_hashing_takes_a_ten_millionth() {
    let t = project_seconds(1_000);
    let fast = as_f64(&t.offline_fast_hashing_1e10_per_second);
    assert!((fast - 1e-7).abs() < 1e-15);
    assert_eq!(t.online_throttling_100_per_hour, Seconds { numerator: 36_000, denominator: 1 });
}

#[test]
fn trillion_guesses_times_are_ordered() {
    let t = project_seconds(1_000_000_000_000);
    let fast = as_f64(&t.offline_fast_hashing_1e10_per_second);
    let slow = as_f64(&t.offline_slow_hashing_1e4_per_second);
    let online = as_f64(&t.online_no_throttling_10_per_second);
    let throttled = as_f64(&t.online_throttling_100_per_hour);
    assert_eq!(fast, 100.0);
    assert_eq!(slow, 100_000_000.0);
    assert_eq!(online, 100_000_000_000.0);
    assert_eq!(throttled, 36_000_000_000_000.0);
    assert!(fast < slow && slow < online && online < throttled);
}

#[test]
fn times_are_ordered_for_many_guess_counts() {
    for g in [0u64, 1, 9, 10, 11, 999, 10_000, 123_456_789, u64::MAX / 36, u64::MAX] {
        assert_ordered(&project_seconds(g));
    }
}

#[test]
fn throttled_time_does_not_saturate() {
    let t = project_seconds(u64::MAX);
    assert_eq!(t.online_throttling_100_per_hour.numerator, u64::MAX as u128 * 36);
}

#[test]
fn display_of_a_common_password() {
    let (_, d) = project(596);
    assert_eq!(d.online_throttling_100_per_hour, "5 hours");
    assert_eq!(d.online_no_throttling_10_per_second, "59 seconds");
    assert_eq!(d.offline_slow_hashing_1e4_per_second, "less than a second");
    assert_eq!(d.offline_fast_hashing_1e10_per_second, "less than a second");
}

#[test]
fn display_of_a_strong_password() {
    let (_, d) = project(1_000_000_000_000);
    assert_eq!(d.offline_fast_hashing_1e10_per_second, "1 minute");
    assert_eq!(d.offline_slow_hashing_1e4_per_second, "3 years");
    assert_eq!(d.online_no_throttling_10_per_second, "centuries");
    assert_eq!(d.online_throttling_100_per_hour, "centuries");
}

#[test]
fn display_picks_units_and_plurals() {
    let text = |n: u128| Seconds { numerator: n, denominator: 1 }.to_display();
    assert_eq!(text(0), "less than a second");
    assert_eq!(text(1), "1 second");
    assert_eq!(text(59), "59 seconds");
    assert_eq!(text(60), "1 minute");
    assert_eq!(text(7_200), "2 hours");
    assert_eq!(text(86_400), "1 day");
    assert_eq!(text(2_678_400 * 3), "3 months");
    assert_eq!(text(32_140_800 * 99), "99 years");
    assert_eq!(text(3_214_080_000), "centuries");
    assert_eq!(text(u128::MAX), "centuries");
    assert_eq!(Seconds { numerator: 19, denominator: 10 }.to_display(), "1 second");
}

#[test]
fn display_is_never_empty() {
    for g in [0u64, 1, 596, 1_000_000, u64::MAX] {
        let (_, d) = project(g);
        assert!(!d.offline_fast_hashing_1e10_per_second.is_empty());
        assert!(!d.offline_slow_hashing_1e4_per_second.is_empty());
        assert!(!d.online_no_throttling_10_per_second.is_empty());
        assert!(!d.online_throttling_100_per_hour.is_empty());
    }
}
