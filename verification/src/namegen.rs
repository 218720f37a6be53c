//! Collision-resistant name generation.
//!
//! A generated name is the given prefix, followed by the current time in
//! microseconds as a decimal string, followed by four random bytes in
//! lowercase hex. When that exceeds the requested total length, the
//! decimal-and-hex part is cut down so the total fits while the prefix is
//! kept whole.

use rand::Rng;
use vstd::prelude::*;

verus! {

/// The decimal digit character for `d` in `0..10`.
pub open spec fn digit_char(d: int) -> char {
    if d == 0 {
        '0'
    } else if d == 1 {
        '1'
    } else if d == 2 {
        '2'
    } else if d == 3 {
        '3'
    } else if d == 4 {
        '4'
    } else if d == 5 {
        '5'
    } else if d == 6 {
        '6'
    } else if d == 7 {
        '7'
    } else if d == 8 {
        '8'
    } else {
        '9'
    }
}

/// The decimal representation of `n`, most significant digit first, with
/// no leading zeros except for `n == 0` itself.
pub open spec fn dec_digits(n: nat) -> Seq<char>
    decreases n,
{
    if n < 10 {
        seq![digit_char(n as int)]
    } else {
        dec_digits(n / 10) + seq![digit_char((n % 10) as int)]
    }
}

/// The lowercase hex digit character for `d` in `0..16`.
pub open spec fn hex_digit(d: int) -> char {
    if d < 10 {
        digit_char(d)
    } else if d == 10 {
        'a'
    } else if d == 11 {
        'b'
    } else if d == 12 {
        'c'
    } else if d == 13 {
        'd'
    } else if d == 14 {
        'e'
    } else {
        'f'
    }
}

/// The lowercase hex rendering of `bytes`: two digits per byte, high
/// nibble first, in byte order.
pub open spec fn hex_seq(bytes: Seq<u8>) -> Seq<char>
    decreases bytes.len(),
{
    if bytes.len() == 0 {
        Seq::<char>::empty()
    } else {
        seq![hex_digit(bytes[0] as int / 16), hex_digit(bytes[0] as int % 16)] + hex_seq(
            bytes.drop_first(),
        )
    }
}

/// A generated name before any cut: the prefix with the variable part
/// appended, the latter cut down to the total length where the whole
/// would not fit. A prefix already at or over the total length is kept
/// whole, alone.
pub open spec fn fitted_name(prefix: Seq<char>, variable: Seq<char>, total: int) -> Seq<char> {
    if prefix.len() + variable.len() <= total {
        prefix + variable
    } else if prefix.len() >= total {
        prefix
    } else {
        prefix + variable.take(total - prefix.len())
    }
}

/// Relies on `std::time::SystemTime::now`: microseconds since the Unix
/// epoch, or zero if the clock reads before it. The value depends on the
/// clock, so nothing is promised of it.
#[verifier::external_body]
fn clock_micros() -> u128 {
    match std::time::SystemTime::now().duration_since(std::time::UNIX_EPOCH) {
        Ok(d) => d.as_micros(),
        Err(_) => 0,
    }
}

/// Relies on `rand::Rng::gen`: four bytes from the thread-local generator.
/// The value is random, so nothing is promised of it.
#[verifier::external_body]
fn random_bytes() -> [u8; 4] {
    rand::thread_rng().gen()
}

/// Relies on `hex::encode`: two lowercase hex digits per byte, high nibble
/// first, in byte order.
#[verifier::external_body]
fn hex_encode(bytes: &[u8; 4]) -> (r: String)
    ensures
        r@ == hex_seq(bytes@),
{
    hex::encode(bytes)
}

/// The exec counterpart of `digit_char`.
fn digit_str(d: u128) -> (s: &'static str)
    requires
        d < 10,
    ensures
        s@ == seq![digit_char(d as int)],
{
    if d == 0 {
        let s = "0";
        proof {
            reveal_strlit("0");
            assert(s@ =~= seq![digit_char(0)]);
        }
        s
    } else if d == 1 {
        let s = "1";
        proof {
            reveal_strlit("1");
            assert(s@ =~= seq![digit_char(1)]);
        }
        s
    } else if d == 2 {
        let s = "2";
        proof {
            reveal_strlit("2");
            assert(s@ =~= seq![digit_char(2)]);
        }
        s
    } else if d == 3 {
        let s = "3";
        proof {
            reveal_strlit("3");
            assert(s@ =~= seq![digit_char(3)]);
        }
        s
    } else if d == 4 {
        let s = "4";
        proof {
            reveal_strlit("4");
            assert(s@ =~= seq![digit_char(4)]);
        }
        s
    } else if d == 5 {
        let s = "5";
        proof {
            reveal_strlit("5");
            assert(s@ =~= seq![digit_char(5)]);
        }
        s
    } else if d == 6 {
        let s = "6";
        proof {
            reveal_strlit("6");
            assert(s@ =~= seq![digit_char(6)]);
        }
        s
    } else if d == 7 {
        let s = "7";
        proof {
            reveal_strlit("7");
            assert(s@ =~= seq![digit_char(7)]);
        }
        s
    } else if d == 8 {
        let s = "8";
        proof {
            reveal_strlit("8");
            assert(s@ =~= seq![digit_char(8)]);
        }
        s
    } else {
        let s = "9";
        proof {
            reveal_strlit("9");
            assert(s@ =~= seq![digit_char(9)]);
        }
        s
    }
}

/// Renders `n` in decimal, most significant digit first.
pub fn u128_to_decimal(n: u128) -> (s: String)
    ensures
        s@ == dec_digits(n as nat),
    decreases n,
{
    if n < 10 {
        digit_str(n).to_owned()
    } else {
        proof {
            assert(n / 10 < n) by (nonlinear_arith)
                requires
                    n >= 10,
            ;
        }
        let mut s = u128_to_decimal(n / 10);
        s.append(digit_str(n % 10));
        s
    }
}

impl crate::client::DVHOST {

/// Builds a name from `prefix`, the clock and four random bytes, cut down
/// to `total_length` while keeping the prefix whole. The result always
/// starts with the prefix, and fits in `total_length` whenever the prefix
/// itself does.
pub fn generate_unique_name(prefix: &str, total_length: usize) -> (r: String)
    ensures
        exists|m: nat, b: Seq<u8>|
            b.len() == 4 && r@ == fitted_name(
                prefix@,
                dec_digits(m) + hex_seq(b),
                total_length as int,
            ),
        r@.len() >= prefix@.len(),
        r@.subrange(0, prefix@.len() as int) == prefix@,
        prefix@.len() <= total_length ==> r@.len() <= total_length,
{
    let micros = clock_micros();
    let bytes = random_bytes();
    let ghost m: nat = micros as nat;
    let ghost bs: Seq<u8> = bytes@;

    let mut variable = u128_to_decimal(micros);
    let hex_part = hex_encode(&bytes);
    variable.append(hex_part.as_str());
    proof {
        assert(variable@ == dec_digits(m) + hex_seq(bs));
    }

    let full = prefix.to_owned().concat(variable.as_str());
    let full_len = full.as_str().unicode_len();
    let prefix_len = prefix.unicode_len();

    if full_len <= total_length {
        proof {
            assert(full@ == fitted_name(prefix@, dec_digits(m) + hex_seq(bs), total_length as int));
            assert(full@.subrange(0, prefix@.len() as int) =~= prefix@);
        }
        full
    } else if prefix_len >= total_length {
        let r = prefix.to_owned();
        proof {
            assert(r@ == fitted_name(prefix@, dec_digits(m) + hex_seq(bs), total_length as int));
            assert(r@.subrange(0, prefix@.len() as int) =~= prefix@);
        }
        r
    } else {
        let keep = total_length - prefix_len;
        let cut = variable.as_str().substring_char(0, keep);
        let r = prefix.to_owned().concat(cut);
        proof {
            assert(variable@.subrange(0, keep as int) =~= variable@.take(keep as int));
            assert(r@ == fitted_name(prefix@, dec_digits(m) + hex_seq(bs), total_length as int));
            assert(r@.subrange(0, prefix@.len() as int) =~= prefix@);
        }
        r
    }
}

} // impl DVHOST

} // verus!
