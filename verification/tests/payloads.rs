use dvhost::client::DVHOST;
use dvhost::user::{UserCurrent, UserUpdate};

fn client() -> DVHOST {
    DVHOST::new("http://host", "", None, None)
}

fn plain_current() -> UserCurrent {
    UserCurrent {
        status: "active".to_string(),
        expire: 1000,
        data_limit: 5_000_000_000,
        note: "old note".to_string(),
        data_limit_reset_strategy: "no_reset".to_string(),
        proxies: "{\"vmess\":{}}".to_string(),
        inbounds: "{\"vmess\":[]}".to_string(),
        on_hold_timeout: "null".to_string(),
        on_hold_expire_duration: "null".to_string(),
    }
}

fn empty_update() -> UserUpdate {
    UserUpdate {
        status: None,
        toggle_status: None,
        expire: None,
        add_days: None,
        volume: None,
        add_volume: None,
        data_limit_reset_strategy: None,
        note: None,
    }
}

#[test]
fn one_gb_is_exact_bytes() {
    let p = client().add_user("u", 1, 0, true, "", false, 1_700_000_000);
    assert_eq!(p.data_limit, 1_073_741_824);
}

#[test]
fn on_hold_five_days() {
    let now = 1_700_000_000;
    let p = client().add_user("u", 1, 5, true, "", true, now);
    assert_eq!(p.expire, 0);
    assert_eq!(p.on_hold_expire_duration, Some(432_000));
    assert_eq!(p.on_hold_timeout, Some(now + 432_000));
}

#[test]
fn active_expiry_from_days() {
    let now = 1_700_000_000;
    let p = client().add_user("u", 2, 30, true, "a note", false, now);
    assert_eq!(p.expire, now + 30 * 86400);
    assert_eq!(p.on_hold_timeout, None);
    assert_eq!(p.on_hold_expire_duration, None);
    assert_eq!(p.data_limit, 2 * 1_073_741_824);
    assert_eq!(p.username, "u");
    assert_eq!(p.note, "a note");
    assert_eq!(p.data_limit_reset_strategy, "no_reset");
}

#[test]
fn zero_days_means_no_expiry() {
    let p = client().add_user("u", 1, 0, true, "", false, 1_700_000_000);
    assert_eq!(p.expire, 0);
}

#[test]
fn status_word_follows_active_flag_alone() {
    let p = client().add_user("u", 1, 5, true, "", true, 1_700_000_000);
    assert_eq!(p.status, "active");
    let q = client().add_user("u", 1, 5, false, "", false, 1_700_000_000);
    assert_eq!(q.status, "on_hold");
}

#[test]
fn generated_proxies_have_all_protocols() {
    let p = client().add_user("u", 1, 0, true, "", false, 1_700_000_000);
    let vmess = p.proxies.vmess.expect("vmess proxy");
    let vless = p.proxies.vless.expect("vless proxy");
    let ss = p.proxies.shadowsocks.expect("shadowsocks proxy");
    for id in [&vmess.id, &vless.id] {
        assert_eq!(id.len(), 36);
        for (i, c) in id.chars().enumerate() {
            if i == 8 || i == 13 || i == 18 || i == 23 {
                assert_eq!(c, '-');
            } else {
                assert!(c.is_ascii_hexdigit() && !c.is_ascii_uppercase());
            }
        }
    }
    assert_eq!(vless.flow, "");
    assert_eq!(ss.method, "chacha20-ietf-poly1305");
    assert_eq!(ss.password.len(), 6);
    assert!(ss.password.chars().all(|c| c.is_ascii_alphanumeric()));
    assert_eq!(p.inbounds.vmess, Some(vec!["VMess TCP".to_string(), "VMess Websocket".to_string()]));
    assert_eq!(
        p.inbounds.vless,
        Some(vec!["VLESS TCP REALITY".to_string(), "VLESS GRPC REALITY".to_string()])
    );
    assert_eq!(p.inbounds.shadowsocks, Some(vec!["Shadowsocks TCP".to_string()]));
}

#[test]
fn fresh_ids_differ_between_calls() {
    let a = client().add_user("u", 1, 0, true, "", false, 1_700_000_000);
    let b = client().add_user("u", 1, 0, true, "", false, 1_700_000_000);
    assert_ne!(a.proxies.vmess.unwrap().id, b.proxies.vmess.unwrap().id);
}

#[test]
fn edit_adds_ten_days() {
    let p = client().edit_user(&plain_current(), &UserUpdate { add_days: Some(10), ..empty_update() });
    assert_eq!(p.expire, 1000 + 864_000);
}

#[test]
fn edit_keeps_fetched_values_by_default() {
    let p = client().edit_user(&plain_current(), &empty_update());
    assert_eq!(p.expire, 1000);
    assert_eq!(p.data_limit, 5_000_000_000);
    assert_eq!(p.status, "active");
    assert_eq!(p.note, "old note");
    assert_eq!(p.data_limit_reset_strategy, "no_reset");
    assert_eq!(p.proxies, "{\"vmess\":{}}");
    assert_eq!(p.inbounds, "{\"vmess\":[]}");
    assert_eq!(p.on_hold_timeout, "null");
    assert_eq!(p.on_hold_expire_duration, "null");
}

#[test]
fn edit_explicit_values_win() {
    let upd = UserUpdate {
        status: Some(false),
        expire: Some(7777),
        volume: Some(123),
        data_limit_reset_strategy: Some("day".to_string()),
        note: Some("new".to_string()),
        ..empty_update()
    };
    let p = client().edit_user(&plain_current(), &upd);
    assert_eq!(p.expire, 7777);
    // volume is given in GB and replaces the fetched byte count
    assert_eq!(p.data_limit, 123 * 1_073_741_824);
    assert_eq!(p.status, "disabled");
    assert_eq!(p.note, "new");
    assert_eq!(p.data_limit_reset_strategy, "day");
}

#[test]
fn edit_toggle_inverts_whatever_the_source() {
    let p = client().edit_user(
        &plain_current(),
        &UserUpdate { toggle_status: Some(true), ..empty_update() },
    );
    assert_eq!(p.status, "disabled");
    let q = client().edit_user(
        &plain_current(),
        &UserUpdate { status: Some(false), toggle_status: Some(true), ..empty_update() },
    );
    assert_eq!(q.status, "active");
}

#[test]
fn edit_never_yields_on_hold_status() {
    let mut cur = plain_current();
    cur.status = "on_hold".to_string();
    let p = client().edit_user(&cur, &empty_update());
    assert_eq!(p.status, "disabled");
}

#[test]
fn edit_added_volume_is_gb_on_top() {
    let p = client().edit_user(
        &plain_current(),
        &UserUpdate { volume: Some(10), add_volume: Some(2), ..empty_update() },
    );
    assert_eq!(p.data_limit, 12 * 1_073_741_824);
    let q = client().edit_user(
        &plain_current(),
        &UserUpdate { add_volume: Some(2), ..empty_update() },
    );
    assert_eq!(q.data_limit, 5_000_000_000 + 2 * 1_073_741_824);
}

#[test]
fn edit_data_limit_saturates() {
    let p = client().edit_user(
        &plain_current(),
        &UserUpdate { volume: Some(u64::MAX), add_volume: Some(1), ..empty_update() },
    );
    assert_eq!(p.data_limit, u64::MAX);
}

#[test]
fn negative_days_mean_no_expiry_when_not_on_hold() {
    let p = client().add_user("u", 1, -5, true, "", false, 1_700_000_000);
    assert_eq!(p.expire, 0);
    assert_eq!(p.on_hold_timeout, None);
    assert_eq!(p.on_hold_expire_duration, None);
}

#[test]
fn negative_days_on_hold_counts_backwards() {
    let now = 1_700_000_000;
    let p = client().add_user("u", 1, -5, true, "", true, now);
    assert_eq!(p.expire, 0);
    assert_eq!(p.on_hold_expire_duration, Some(-432_000));
    assert_eq!(p.on_hold_timeout, Some(now - 432_000));
}
