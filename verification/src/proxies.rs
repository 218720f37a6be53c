//! Per-user proxy credentials and inbound-tag selections.
//!
//! A creation payload carries one credential object per selected protocol
//! and, for each selected protocol, the fixed list of inbound tags the
//! panel knows for it.

use rand::Rng;
use vstd::prelude::*;

verus! {

/// Credentials for the vmess protocol: a fresh random UUID.
pub struct VmessProxy {
    pub id: String,
}

/// Credentials for the vless protocol: a fresh random UUID and an empty
/// flow.
pub struct VlessProxy {
    pub id: String,
    pub flow: String,
}

/// Credentials for the shadowsocks protocol: a six-character random
/// alphanumeric password and a fixed cipher name.
pub struct ShadowsocksProxy {
    pub password: String,
    pub method: String,
}

/// The proxy object of a creation payload: one entry per selected
/// protocol.
pub struct ProxyConfig {
    pub vmess: Option<VmessProxy>,
    pub vless: Option<VlessProxy>,
    pub shadowsocks: Option<ShadowsocksProxy>,
}

/// The inbound object of a creation payload: for each selected protocol,
/// its tag list from the fixed catalog.
pub struct InboundConfig {
    pub vmess: Option<Vec<String>>,
    pub vless: Option<Vec<String>>,
    pub shadowsocks: Option<Vec<String>>,
}

/// An ASCII letter or digit.
pub open spec fn is_ascii_alphanumeric_char(c: char) -> bool {
    ('0' <= c && c <= '9') || ('a' <= c && c <= 'z') || ('A' <= c && c <= 'Z')
}

/// A lowercase hex digit.
pub open spec fn is_lower_hex_char(c: char) -> bool {
    ('0' <= c && c <= '9') || ('a' <= c && c <= 'f')
}

/// The hyphenated string form of a UUID: 36 characters, hyphens at
/// positions 8, 13, 18 and 23, lowercase hex digits everywhere else.
pub open spec fn is_uuid_string(s: Seq<char>) -> bool {
    &&& s.len() == 36
    &&& forall|i: int|
        0 <= i < 36 ==> (if i == 8 || i == 13 || i == 18 || i == 23 {
            s[i] == '-'
        } else {
            is_lower_hex_char(#[trigger] s[i])
        })
}

/// What `proxies` promises: an entry exactly for each selected protocol,
/// with a hyphenated-UUID id, an empty flow for vless, and a six-character
/// password with the fixed cipher for shadowsocks.
pub open spec fn proxies_selected(p: ProxyConfig, vmess: bool, vless: bool, shadow_socks: bool) -> bool {
    &&& (p.vmess is Some) == vmess
    &&& (p.vless is Some) == vless
    &&& (p.shadowsocks is Some) == shadow_socks
    &&& (p.vmess matches Some(v) ==> is_uuid_string(v.id@))
    &&& (p.vless matches Some(v) ==> is_uuid_string(v.id@) && v.flow@ == Seq::<char>::empty())
    &&& (p.shadowsocks matches Some(s) ==> s.password@.len() == 6
        && (forall|i: int| 0 <= i < s.password@.len() ==> is_ascii_alphanumeric_char(
            #[trigger] s.password@[i],
        )) && s.method@ == "chacha20-ietf-poly1305"@)
}

/// What `inbounds` promises: for each selected protocol, exactly its tag
/// list from the fixed catalog.
pub open spec fn inbounds_selected(
    ib: InboundConfig,
    vmess: bool,
    vless: bool,
    shadow_socks: bool,
) -> bool {
    &&& (ib.vmess is Some) == vmess
    &&& (ib.vless is Some) == vless
    &&& (ib.shadowsocks is Some) == shadow_socks
    &&& (ib.vmess matches Some(v) ==> v@.len() == 2 && v@[0]@ == "VMess TCP"@ && v@[1]@
        == "VMess Websocket"@)
    &&& (ib.vless matches Some(v) ==> v@.len() == 2 && v@[0]@ == "VLESS TCP REALITY"@ && v@[1]@
        == "VLESS GRPC REALITY"@)
    &&& (ib.shadowsocks matches Some(v) ==> v@.len() == 1 && v@[0]@ == "Shadowsocks TCP"@)
}

/// Relies on `uuid::Uuid::new_v4` and its `Display` form: a random
/// version-4 UUID rendered hyphenated, in lowercase hex. The value is
/// random, so only that shape is stated.
#[verifier::external_body]
fn fresh_uuid() -> (r: String)
    ensures
        is_uuid_string(r@),
{
    uuid::Uuid::new_v4().to_string()
}

/// Relies on `rand`'s `Alphanumeric` distribution: each sampled byte is an
/// ASCII letter or digit, and `take(len)` yields exactly `len` of them.
#[verifier::external_body]
fn random_alphanumeric(len: usize) -> (r: String)
    ensures
        r@.len() == len as int,
        forall|i: int| 0 <= i < r@.len() ==> is_ascii_alphanumeric_char(#[trigger] r@[i]),
{
    rand::thread_rng().sample_iter(&rand::distributions::Alphanumeric).take(len).map(
        char::from,
    ).collect()
}

/// Builds the proxy object for the selected protocols, drawing fresh
/// random credentials for each.
pub fn proxies(vmess: bool, vless: bool, shadow_socks: bool) -> (p: ProxyConfig)
    ensures
        proxies_selected(p, vmess, vless, shadow_socks),
{
    ProxyConfig {
        vmess: if vmess {
            Some(VmessProxy { id: fresh_uuid() })
        } else {
            None
        },
        vless: if vless {
            Some(VlessProxy { id: fresh_uuid(), flow: String::new() })
        } else {
            None
        },
        shadowsocks: if shadow_socks {
            Some(
                ShadowsocksProxy {
                    password: random_alphanumeric(6),
                    method: String::from_str("chacha20-ietf-poly1305"),
                },
            )
        } else {
            None
        },
    }
}

/// Builds the inbound object for the selected protocols from the fixed
/// catalog.
pub fn inbounds(vmess: bool, vless: bool, shadow_socks: bool) -> (ib: InboundConfig)
    ensures
        inbounds_selected(ib, vmess, vless, shadow_socks),
{
    InboundConfig {
        vmess: if vmess {
            let mut v: Vec<String> = Vec::new();
            v.push(String::from_str("VMess TCP"));
            v.push(String::from_str("VMess Websocket"));
            Some(v)
        } else {
            None
        },
        vless: if vless {
            let mut v: Vec<String> = Vec::new();
            v.push(String::from_str("VLESS TCP REALITY"));
            v.push(String::from_str("VLESS GRPC REALITY"));
            Some(v)
        } else {
            None
        },
        shadowsocks: if shadow_socks {
            let mut v: Vec<String> = Vec::new();
            v.push(String::from_str("Shadowsocks TCP"));
            Some(v)
        } else {
            None
        },
    }
}

} // verus!
