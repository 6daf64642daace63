use vstd::prelude::*;

use crate::decimal::{parse_unsigned, parsed_unsigned};
use crate::model::{Error, RateLimit};

verus! {

/// Seconds from `now` until `reset`, both Unix times; zero once `reset` has passed.
pub open spec fn seconds_until(reset: u64, now: u64) -> u64 {
    if reset > now {
        (reset - now) as u64
    } else {
        0
    }
}

/// The rate limit that three header values give at time `now`, or `None`
/// when one of them is missing or not a number of its type.
pub open spec fn rate_limit_of(
    remaining: Option<Seq<char>>,
    limit: Option<Seq<char>>,
    reset: Option<Seq<char>>,
    now: u64,
) -> Option<RateLimit> {
    match (remaining, limit, reset) {
        (Some(rem), Some(lim), Some(res)) => match (
            parsed_unsigned(rem, u16::MAX as nat),
            parsed_unsigned(lim, u16::MAX as nat),
            parsed_unsigned(res, u64::MAX as nat),
        ) {
            (Some(r), Some(l), Some(t)) => Some(
                RateLimit { limit: l as u16, remaining: r as u16, reset: seconds_until(t as u64, now) },
            ),
            _ => None,
        },
        _ => None,
    }
}

pub open spec fn text_view(s: Option<&str>) -> Option<Seq<char>> {
    match s {
        Some(t) => Some(t@),
        None => None,
    }
}

/// Seconds until the quota resets, clamped at zero when `reset` is not after `now`.
pub fn reset_in_seconds(reset: u64, now: u64) -> (r: u64)
    ensures
        r == seconds_until(reset, now),
{
    reset.saturating_sub(now)
}

/// The rate limit read from the `x-ratelimit-remaining`, `x-ratelimit-limit`
/// and `x-ratelimit-reset` header values at Unix time `now`.
pub fn rate_limit_from_headers(
    remaining: Option<&str>,
    limit: Option<&str>,
    reset: Option<&str>,
    now: u64,
) -> (r: Result<RateLimit, Error>)
    ensures
        match rate_limit_of(text_view(remaining), text_view(limit), text_view(reset), now) {
            Some(rl) => r == Ok::<RateLimit, Error>(rl),
            None => r == Err::<RateLimit, Error>(Error::RateLimitUnavailable),
        },
{
    let (rem, lim, res) = match (remaining, limit, reset) {
        (Some(rem), Some(lim), Some(res)) => (rem, lim, res),
        _ => return Err(Error::RateLimitUnavailable),
    };
    let r = parse_unsigned(rem, u16::MAX as u64);
    let l = parse_unsigned(lim, u16::MAX as u64);
    let t = parse_unsigned(res, u64::MAX);
    match (r, l, t) {
        (Some(r), Some(l), Some(t)) => Ok(
            RateLimit { limit: l as u16, remaining: r as u16, reset: reset_in_seconds(t, now) },
        ),
        _ => Err(Error::RateLimitUnavailable),
    }
}

/// A reset time that is not after the current time always leaves zero
/// seconds to wait, whatever the other header values are.
pub proof fn lemma_past_reset_is_zero(
    remaining: Seq<char>,
    limit: Seq<char>,
    reset: Seq<char>,
    now: u64,
)
    requires
        rate_limit_of(Some(remaining), Some(limit), Some(reset), now) is Some,
        parsed_unsigned(reset, u64::MAX as nat) matches Some(t) && t <= now,
    ensures
        rate_limit_of(Some(remaining), Some(limit), Some(reset), now)->Some_0.reset == 0,
{
}

} // verus!
