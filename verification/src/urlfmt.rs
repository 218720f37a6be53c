//! Normalization of the panel's base URLs.
//!
//! A non-empty base URL always carries a trailing slash, so that a request
//! path can be appended to it directly; an empty string stays empty.

use vstd::prelude::*;

verus! {

/// The normalized form of a base URL: unchanged when empty or already
/// ending in `/`, otherwise with one `/` appended.
pub open spec fn normalize_url(s: Seq<char>) -> Seq<char> {
    if s.len() == 0 {
        s
    } else if s.last() == '/' {
        s
    } else {
        s.push('/')
    }
}

/// Appends a trailing slash to a non-empty URL that lacks one; leaves the
/// empty string and already-terminated URLs unchanged.
pub fn format_server_url(url: &str) -> (r: String)
    ensures
        r@ == normalize_url(url@),
{
    let len = url.unicode_len();
    if len == 0 {
        return String::new();
    }
    let last = url.get_char(len - 1);
    if last == '/' {
        url.to_owned()
    } else {
        let r = url.to_owned().concat("/");
        proof {
            reveal_strlit("/");
            assert(r@ =~= url@.push('/'));
        }
        r
    }
}

} // verus!
