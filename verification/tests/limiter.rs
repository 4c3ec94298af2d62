use consecrates::limiter::{Admission, RateLimiter};

const SECOND: u64 = 1_000_000_000;

#[test]
fn first_request_is_admitted() {
    let mut limiter = RateLimiter::new(0, SECOND);
    assert_eq!(limiter.try_admit(0), Admission::Admitted);
}

#[test]
fn first_request_is_admitted_on_a_running_clock() {
    let mut limiter = RateLimiter::new(7 * SECOND, SECOND);
    assert_eq!(limiter.try_admit(7 * SECOND), Admission::Admitted);
}

#[test]
fn requests_at_the_instant_of_construction() {
    let mut limiter = RateLimiter::new(5, SECOND);
    assert_eq!(limiter.try_admit(5), Admission::Admitted);
    for _ in 0..10 {
        assert_eq!(limiter.try_admit(5), Admission::Denied);
    }
}

#[test]
fn requests_within_the_interval_are_denied() {
    let mut limiter = RateLimiter::new(0, SECOND);
    assert_eq!(limiter.try_admit(0), Admission::Admitted);
    assert_eq!(limiter.try_admit(1), Admission::Denied);
    assert_eq!(limiter.try_admit(SECOND / 2), Admission::Denied);
    assert_eq!(limiter.try_admit(SECOND - 1), Admission::Denied);
}

#[test]
fn exactly_the_interval_is_enough() {
    let mut limiter = RateLimiter::new(0, SECOND);
    assert_eq!(limiter.try_admit(3), Admission::Admitted);
    assert_eq!(limiter.try_admit(SECOND + 2), Admission::Denied);
    assert_eq!(limiter.try_admit(SECOND + 3), Admission::Admitted);
    assert_eq!(limiter.try_admit(2 * SECOND + 2), Admission::Denied);
    assert_eq!(limiter.try_admit(2 * SECOND + 3), Admission::Admitted);
}

#[test]
fn a_denied_request_leaves_the_window_alone() {
    let mut limiter = RateLimiter::new(0, SECOND);
    assert_eq!(limiter.try_admit(0), Admission::Admitted);
    assert_eq!(limiter.try_admit(SECOND - 1), Admission::Denied);
    // Counted from the denied request the interval has not passed; counted
    // from the admitted one it has.
    assert_eq!(limiter.try_admit(SECOND), Admission::Admitted);
}

#[test]
fn a_clock_that_reads_earlier_counts_as_no_time_passed() {
    let mut limiter = RateLimiter::new(10 * SECOND, SECOND);
    assert_eq!(limiter.try_admit(10 * SECOND), Admission::Admitted);
    assert_eq!(limiter.try_admit(0), Admission::Denied);
    assert_eq!(limiter.try_admit(11 * SECOND), Admission::Admitted);
}

#[test]
fn an_interval_longer_than_the_clock_has_run() {
    let mut limiter = RateLimiter::new(0, u64::MAX);
    assert_eq!(limiter.try_admit(0), Admission::Admitted);
    assert_eq!(limiter.try_admit(u64::MAX - 1), Admission::Denied);
    assert_eq!(limiter.try_admit(u64::MAX), Admission::Admitted);
}

#[test]
fn without_an_interval_every_request_is_admitted() {
    let mut limiter = RateLimiter::new(4, 0);
    assert_eq!(limiter.try_admit(4), Admission::Admitted);
    assert_eq!(limiter.try_admit(4), Admission::Admitted);
    assert_eq!(limiter.try_admit(3), Admission::Admitted);
}

#[test]
fn min_interval_is_kept() {
    let mut limiter = RateLimiter::new(0, 250);
    assert_eq!(limiter.min_interval(), 250);
    limiter.try_admit(0);
    limiter.try_admit(1000);
    assert_eq!(limiter.min_interval(), 250);
}

#[test]
fn admitted_requests_are_spaced() {
    let times: [u64; 12] = [0, 1, 400, 999, 1000, 1001, 1500, 2000, 2001, 2999, 3000, 5000];
    let mut limiter = RateLimiter::new(0, 1000);
    let mut admitted: Vec<u64> = Vec::new();
    for time in times {
        if limiter.try_admit(time) == Admission::Admitted {
            admitted.push(time);
        }
    }
    assert_eq!(admitted, vec![0, 1000, 2000, 3000, 5000]);
    for pair in admitted.windows(2) {
        assert!(pair[1] - pair[0] >= 1000);
    }
}
