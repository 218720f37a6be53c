//! Presentation fields derived from a user record.
//!
//! When a single user is fetched, three read-only fields are computed from
//! the record and the current time: the days left until expiry, the traffic
//! still available, and the share of the data limit already used. None of
//! them is ever sent back to the panel.

use vstd::prelude::*;

verus! {

/// Whole days from `now` until `expire`, clamped below at zero.
pub open spec fn remaining_days_spec(expire: int, now: int) -> int {
    let d = (expire - now) / 86400;
    if d > 0 {
        d
    } else {
        0
    }
}

/// Traffic still available: the data limit minus what was used, clamped
/// below at zero.
pub open spec fn remaining_traffic_spec(data_limit: int, used_traffic: int) -> int {
    if used_traffic >= data_limit {
        0
    } else {
        data_limit - used_traffic
    }
}

/// Share of the data limit already used, in whole percent, rounded to the
/// nearest integer with ties rounded up; zero when there is no limit to
/// divide by.
pub open spec fn used_percent_spec(used_traffic: int, data_limit: int) -> int {
    if data_limit <= 0 {
        0
    } else {
        (200 * used_traffic + data_limit) / (2 * data_limit)
    }
}

/// Days left until `expire`, never negative. An `expire` of zero (meaning
/// "no expiry") is not special-cased: the raw difference is taken and the
/// clamp at zero applies.
pub fn remaining_days(expire: i64, now: i64) -> (r: i64)
    ensures
        r == remaining_days_spec(expire as int, now as int),
        r >= 0,
{
    let diff: i128 = (expire as i128) - (now as i128);
    if diff <= 0 {
        0
    } else {
        let q: i128 = diff / 86400;
        proof {
            assert(q * 86400 + diff % 86400 == diff);
            assert(q <= diff) by (nonlinear_arith)
                requires
                    q * 86400 + diff % 86400 == diff,
                    0 <= diff % 86400 < 86400,
                    diff > 0,
            ;
        }
        q as i64
    }
}

/// Traffic still available before the data limit is reached.
pub fn remaining_traffic(data_limit: u64, used_traffic: u64) -> (r: u64)
    ensures
        r == remaining_traffic_spec(data_limit as int, used_traffic as int),
{
    if used_traffic >= data_limit {
        0
    } else {
        data_limit - used_traffic
    }
}

/// Share of the data limit already used, in whole percent. Reports zero
/// when the limit is zero, and saturates at `u64::MAX` where the exact
/// value would not fit.
pub fn used_percent(used_traffic: u64, data_limit: u64) -> (r: u64)
    ensures
        ({
            let p = used_percent_spec(used_traffic as int, data_limit as int);
            r as int == if p > u64::MAX as int {
                u64::MAX as int
            } else {
                p
            }
        }),
{
    if data_limit == 0 {
        return 0;
    }
    let num: u128 = 200 * (used_traffic as u128) + (data_limit as u128);
    let den: u128 = 2 * (data_limit as u128);
    let q: u128 = num / den;
    if q > u64::MAX as u128 {
        u64::MAX
    } else {
        q as u64
    }
}

/// The three presentation fields injected into a fetched user record, in
/// one step: remaining days, remaining traffic, used percent.
pub fn user_metrics(expire: i64, data_limit: u64, used_traffic: u64, now: i64) -> (r: (
    i64,
    u64,
    u64,
))
    ensures
        r.0 == remaining_days_spec(expire as int, now as int),
        r.1 == remaining_traffic_spec(data_limit as int, used_traffic as int),
        ({
            let p = used_percent_spec(used_traffic as int, data_limit as int);
            r.2 as int == if p > u64::MAX as int {
                u64::MAX as int
            } else {
                p
            }
        }),
{
    (
        remaining_days(expire, now),
        remaining_traffic(data_limit, used_traffic),
        used_percent(used_traffic, data_limit),
    )
}

} // verus!
