use repo_list::model::{Error, RateLimit};
use repo_list::rate_limit::{rate_limit_from_headers, reset_in_seconds};

#[test]
fn reset_in_the_past_clamps_to_zero() {
    assert_eq!(reset_in_seconds(100, 200), 0);
    assert_eq!(reset_in_seconds(200, 200), 0);
    assert_eq!(reset_in_seconds(0, u64::MAX), 0);
    let rl = rate_limit_from_headers(Some("3"), Some("60"), Some("1000"), 5000).unwrap();
    assert_eq!(rl, RateLimit { limit: 60, remaining: 3, reset: 0 });
}

#[test]
fn reset_in_the_future_counts_seconds() {
    assert_eq!(reset_in_seconds(1_700_000_120, 1_700_000_000), 120);
    assert_eq!(reset_in_seconds(u64::MAX, 0), u64::MAX);
}

#[test]
fn headers_give_rate_limit() {
    let rl = rate_limit_from_headers(Some("5"), Some("60"), Some("1700000120"), 1_700_000_000).unwrap();
    assert_eq!(rl, RateLimit { limit: 60, remaining: 5, reset: 120 });
}

#[test]
fn missing_or_bad_headers_are_unavailable() {
    let now = 10;
    assert_eq!(rate_limit_from_headers(None, Some("60"), Some("20"), now), Err(Error::RateLimitUnavailable));
    assert_eq!(rate_limit_from_headers(Some("5"), None, Some("20"), now), Err(Error::RateLimitUnavailable));
    assert_eq!(rate_limit_from_headers(Some("5"), Some("60"), None, now), Err(Error::RateLimitUnavailable));
    assert_eq!(rate_limit_from_headers(Some("x"), Some("60"), Some("20"), now), Err(Error::RateLimitUnavailable));
    assert_eq!(rate_limit_from_headers(Some("5"), Some("70000"), Some("20"), now), Err(Error::RateLimitUnavailable));
    assert_eq!(rate_limit_from_headers(Some("5"), Some("60"), Some("-20"), now), Err(Error::RateLimitUnavailable));
}
