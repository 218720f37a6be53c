//! Creation and edit payloads for user records.
//!
//! `add_user` builds the record sent when a user is created; `edit_user`
//! merges an update over a previously fetched record. Fields that only
//! the panel interprets (the proxy and inbound objects of a fetched
//! record, the on-hold fields) are carried through verbatim as raw JSON
//! fragments.

use vstd::prelude::*;
use crate::client::DVHOST;
use crate::proxies::{proxies, inbounds, proxies_selected, inbounds_selected, ProxyConfig,
    InboundConfig};

verus! {

/// A user record as fetched from the panel, reduced to the fields the
/// client reads. `proxies`, `inbounds` and the two on-hold fields are the
/// raw JSON fragments of the fetched record, never inspected here.
pub struct UserCurrent {
    pub status: String,
    pub expire: i64,
    pub data_limit: u64,
    pub note: String,
    pub data_limit_reset_strategy: String,
    pub proxies: String,
    pub inbounds: String,
    pub on_hold_timeout: String,
    pub on_hold_expire_duration: String,
}

/// The fields an edit may set. An absent field keeps the fetched value.
/// `volume`, in GB, replaces the data limit; `add_volume`, also in GB, is
/// added on top. `add_days` is added to the expiry unconditionally.
pub struct UserUpdate {
    pub status: Option<bool>,
    pub toggle_status: Option<bool>,
    pub expire: Option<i64>,
    pub add_days: Option<i64>,
    pub volume: Option<u64>,
    pub add_volume: Option<u64>,
    pub data_limit_reset_strategy: Option<String>,
    pub note: Option<String>,
}

/// The body of an edit request. The panel receives `status` as `"active"`
/// or `"disabled"`; an edit never produces `"on_hold"`.
pub struct EditPayload {
    pub proxies: String,
    pub inbounds: String,
    pub expire: i64,
    pub data_limit: u64,
    pub data_limit_reset_strategy: String,
    pub status: String,
    pub note: String,
    pub on_hold_timeout: String,
    pub on_hold_expire_duration: String,
}

/// The body of a creation request.
pub struct AddUserPayload {
    pub username: String,
    pub proxies: ProxyConfig,
    pub inbounds: InboundConfig,
    pub expire: i64,
    pub data_limit: u64,
    pub data_limit_reset_strategy: String,
    pub status: String,
    pub note: String,
    pub on_hold_timeout: Option<i64>,
    pub on_hold_expire_duration: Option<i64>,
}

/// Whether the merged record is active: an explicit `status` wins over the
/// fetched one, and `toggle_status` inverts the outcome regardless of its
/// source.
pub open spec fn merged_status_active(
    current_status: Seq<char>,
    status: Option<bool>,
    toggle_status: Option<bool>,
) -> bool {
    let base = match status {
        Some(b) => b,
        None => current_status == "active"@,
    };
    let toggle = match toggle_status {
        Some(b) => b,
        None => false,
    };
    if toggle {
        !base
    } else {
        base
    }
}

/// The merged expiry: an explicit `expire` wins over the fetched one, then
/// `add_days` (default zero) is added as seconds.
pub open spec fn merged_expire(current_expire: int, expire: Option<i64>, add_days: Option<i64>) -> int {
    let base = match expire {
        Some(e) => e as int,
        None => current_expire,
    };
    let days = match add_days {
        Some(d) => d as int,
        None => 0,
    };
    base + days * 86400
}

/// The merged data limit in bytes: an explicit `volume` in GB wins over
/// the fetched limit, then `add_volume` GB are added.
pub open spec fn merged_data_limit(
    current_data_limit: int,
    volume: Option<u64>,
    add_volume: Option<u64>,
) -> int {
    let base = match volume {
        Some(v) => v as int * 1073741824,
        None => current_data_limit,
    };
    let add = match add_volume {
        Some(v) => v as int,
        None => 0,
    };
    base + add * 1073741824
}

impl DVHOST {

/// Merges `update` over `current` by the precedence rules above. The
/// proxy, inbound and on-hold fields of the fetched record are copied
/// verbatim. The data limit saturates at `u64::MAX` where the sum would
/// not fit. The caller fetches `current`, and sends the result back only
/// when that fetch came back with status 200.
pub fn edit_user(&self, current: &UserCurrent, update: &UserUpdate) -> (p: EditPayload)
    requires
        i64::MIN <= merged_expire(current.expire as int, update.expire, update.add_days)
            <= i64::MAX,
    ensures
        p.expire as int == merged_expire(current.expire as int, update.expire, update.add_days),
        ({
            let m = merged_data_limit(current.data_limit as int, update.volume, update.add_volume);
            p.data_limit as int == if m > u64::MAX as int {
                u64::MAX as int
            } else {
                m
            }
        }),
        p.status@ == (if merged_status_active(current.status@, update.status, update.toggle_status) {
            "active"@
        } else {
            "disabled"@
        }),
        p.note@ == (match update.note {
            Some(n) => n@,
            None => current.note@,
        }),
        p.data_limit_reset_strategy@ == (match update.data_limit_reset_strategy {
            Some(s) => s@,
            None => current.data_limit_reset_strategy@,
        }),
        p.proxies@ == current.proxies@,
        p.inbounds@ == current.inbounds@,
        p.on_hold_timeout@ == current.on_hold_timeout@,
        p.on_hold_expire_duration@ == current.on_hold_expire_duration@,
{
    let active_word = String::from_str("active");
    let base_active = match update.status {
        Some(b) => b,
        None => current.status == active_word,
    };
    let toggle = match update.toggle_status {
        Some(b) => b,
        None => false,
    };
    let final_active = if toggle {
        !base_active
    } else {
        base_active
    };

    let base_expire: i128 = match update.expire {
        Some(e) => e as i128,
        None => current.expire as i128,
    };
    let add_days: i128 = match update.add_days {
        Some(d) => d as i128,
        None => 0,
    };
    let expire: i64 = (base_expire + add_days * 86400) as i64;

    let base_limit: u128 = match update.volume {
        Some(v) => (v as u128) * 1073741824,
        None => current.data_limit as u128,
    };
    let add_volume: u128 = match update.add_volume {
        Some(v) => v as u128,
        None => 0,
    };
    let limit_sum: u128 = base_limit + add_volume * 1073741824;
    let data_limit: u64 = if limit_sum > u64::MAX as u128 {
        u64::MAX
    } else {
        limit_sum as u64
    };

    EditPayload {
        proxies: current.proxies.clone(),
        inbounds: current.inbounds.clone(),
        expire,
        data_limit,
        data_limit_reset_strategy: match &update.data_limit_reset_strategy {
            Some(s) => s.clone(),
            None => current.data_limit_reset_strategy.clone(),
        },
        status: if final_active {
            String::from_str("active")
        } else {
            String::from_str("disabled")
        },
        note: match &update.note {
            Some(n) => n.clone(),
            None => current.note.clone(),
        },
        on_hold_timeout: current.on_hold_timeout.clone(),
        on_hold_expire_duration: current.on_hold_expire_duration.clone(),
    }
}

/// Builds the creation payload. The data limit is `volume_gb` whole GB in
/// bytes. With `on_hold` the expiry is disabled and the on-hold clock is
/// armed for `days` days from `now`; otherwise a positive `days` sets the
/// expiry that many days from `now` and zero or negative `days` means "no
/// expiry". `active` alone decides the status word. All three protocols
/// are enabled in the generated proxy and inbound objects.
pub fn add_user(
    &self,
    username: &str,
    volume_gb: u32,
    days: i64,
    active: bool,
    note: &str,
    on_hold: bool,
    now: i64,
) -> (p: AddUserPayload)
    requires
        i64::MIN <= 86400 * days <= i64::MAX,
        i64::MIN <= now + 86400 * days <= i64::MAX,
    ensures
        p.username@ == username@,
        p.data_limit == volume_gb as int * 1073741824,
        p.data_limit_reset_strategy@ == "no_reset"@,
        p.status@ == (if active {
            "active"@
        } else {
            "on_hold"@
        }),
        p.note@ == note@,
        on_hold ==> {
            &&& p.expire == 0
            &&& p.on_hold_timeout matches Some(t) && t == now + days * 86400
            &&& p.on_hold_expire_duration matches Some(d) && d == days * 86400
        },
        !on_hold ==> {
            &&& p.expire as int == (if days > 0 {
                now + days * 86400
            } else {
                0
            })
            &&& p.on_hold_timeout is None
            &&& p.on_hold_expire_duration is None
        },
        proxies_selected(p.proxies, true, true, true),
        inbounds_selected(p.inbounds, true, true, true),
{
    let volume_bytes: u64 = (volume_gb as u64) * 1073741824;
    let hold_seconds: i64 = days * 86400;

    let (expire, on_hold_timeout, on_hold_expire_duration): (i64, Option<i64>, Option<i64>) =
        if on_hold {
            (0, Some(now + hold_seconds), Some(hold_seconds))
        } else if days > 0 {
            (now + hold_seconds, None, None)
        } else {
            (0, None, None)
        };

    AddUserPayload {
        username: username.to_owned(),
        proxies: proxies(true, true, true),
        inbounds: inbounds(true, true, true),
        expire,
        data_limit: volume_bytes,
        data_limit_reset_strategy: String::from_str("no_reset"),
        status: if active {
            String::from_str("active")
        } else {
            String::from_str("on_hold")
        },
        note: note.to_owned(),
        on_hold_timeout,
        on_hold_expire_duration,
    }
}

} // impl DVHOST

} // verus!
