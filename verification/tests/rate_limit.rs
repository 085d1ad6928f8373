use supabased::rate_limit::{ClientAddr, RateLimiter};
use supabased::status::Code;

const SECOND: u128 = 1_000_000_000;

fn ip(a: u8, b: u8, c: u8, d: u8) -> ClientAddr {
    ClientAddr::V4(u32::from_be_bytes([a, b, c, d]))
}

#[test]
fn allows_up_to_max_requests() {
    let mut limiter = RateLimiter::new(5, 60 * SECOND);
    let ip = ip(192, 168, 1, 1);

    for i in 0..5 {
        assert!(limiter.check_rate_limit(ip, i).is_ok());
    }
}

#[test]
fn rejects_over_max_requests() {
    let mut limiter = RateLimiter::new(3, 60 * SECOND);
    let ip = ip(10, 0, 0, 1);

    for i in 0..3 {
        limiter.check_rate_limit(ip, i).unwrap();
    }

    let err = limiter.check_rate_limit(ip, 3).unwrap_err();
    assert_eq!(err.code(), Code::ResourceExhausted);
}

#[test]
fn resets_after_window_expires() {
    let mut limiter = RateLimiter::new(2, SECOND / 20);
    let ip = ip(10, 0, 0, 2);

    for i in 0..2 {
        limiter.check_rate_limit(ip, i).unwrap();
    }
    assert!(limiter.check_rate_limit(ip, 2).is_err());

    assert!(limiter.check_rate_limit(ip, 2 + SECOND * 60 / 1000).is_ok());
}

#[test]
fn independent_limits_per_ip() {
    let mut limiter = RateLimiter::new(1, 60 * SECOND);
    let ip_a = ip(10, 0, 0, 1);
    let ip_b = ip(10, 0, 0, 2);

    limiter.check_rate_limit(ip_a, 0).unwrap();
    limiter.check_rate_limit(ip_b, 0).unwrap();

    assert!(limiter.check_rate_limit(ip_a, 1).is_err());
    assert!(limiter.check_rate_limit(ip_b, 1).is_err());
}

#[test]
fn a_window_grants_exactly_the_quota() {
    let mut limiter = RateLimiter::new(4, 10 * SECOND);
    let passed = (0..9)
        .filter(|i| limiter.check_rate_limit(ip(1, 2, 3, 4), *i * SECOND).is_ok())
        .count();
    assert_eq!(passed, 4);
    assert!(limiter.check_rate_limit(ip(1, 2, 3, 4), 10 * SECOND).is_ok());
}

#[test]
fn cleanup_keeps_open_windows() {
    let mut limiter = RateLimiter::new(1, 10 * SECOND);
    limiter.check_rate_limit(ip(1, 1, 1, 1), 0).unwrap();
    limiter.check_rate_limit(ip(2, 2, 2, 2), 5 * SECOND).unwrap();
    limiter.cleanup(10 * SECOND);
    assert!(limiter.check_rate_limit(ip(1, 1, 1, 1), 10 * SECOND).is_ok());
    assert!(limiter.check_rate_limit(ip(2, 2, 2, 2), 10 * SECOND).is_err());
}

#[test]
fn addresses_of_both_kinds_are_told_apart() {
    let mut limiter = RateLimiter::new(1, 10 * SECOND);
    limiter.check_rate_limit(ClientAddr::V4(1), 0).unwrap();
    assert!(limiter.check_rate_limit(ClientAddr::V6(1), 0).is_ok());
    assert!(limiter.check_rate_limit(ClientAddr::V6(1), 1).is_err());
}
