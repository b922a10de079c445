//! Parsing of hexadecimal blockchain addresses.
//!
//! An address literal is an optional `0x` prefix followed by exactly 40 hex
//! digits, upper or lower case — the grammar the surrounding ecosystem uses
//! for 20-byte account identifiers.

use vstd::prelude::*;
use vstd::string::StringSliceAdditionalSpecFns;

verus! {

/// Whether byte `c` is an ASCII hex digit.
pub open spec fn is_hex_digit(c: u8) -> bool {
    (0x30 <= c <= 0x39)  // '0'..'9'
     || (0x61 <= c <= 0x66)  // 'a'..'f'
     || (0x41 <= c <= 0x46)  // 'A'..'F'

}

/// The value of the ASCII hex digit `c`.
pub open spec fn hex_digit_value(c: u8) -> u8 {
    if 0x30 <= c <= 0x39 {
        (c - 0x30) as u8
    } else if 0x61 <= c <= 0x66 {
        (c - 0x61 + 10) as u8
    } else {
        (c - 0x41 + 10) as u8
    }
}

/// `s` with a leading `0x`, if any, removed.
pub open spec fn strip_hex_prefix(s: Seq<u8>) -> Seq<u8> {
    if s.len() >= 2 && s[0] == 0x30 && s[1] == 0x78 {
        s.skip(2)
    } else {
        s
    }
}

/// Whether `s` (as UTF-8 bytes) is a well-formed address literal.
pub open spec fn valid_address_str(s: Seq<u8>) -> bool {
    let h = strip_hex_prefix(s);
    h.len() == 40 && forall|i: int| 0 <= i < 40 ==> is_hex_digit(#[trigger] h[i])
}

/// The 20 bytes that the 40 hex digits `h` denote.
pub open spec fn address_bytes(h: Seq<u8>) -> Seq<u8> {
    Seq::new(20, |i: int| (hex_digit_value(h[2 * i]) * 16 + hex_digit_value(h[2 * i + 1])) as u8)
}

/// The address denoted by the well-formed address literal `s`.
pub open spec fn spec_parse_address(s: Seq<u8>) -> Seq<u8> {
    address_bytes(strip_hex_prefix(s))
}

/// The value of one hex digit, or `None` if `c` is not a hex digit.
fn hex_digit(c: u8) -> (r: Option<u8>)
    ensures
        r is Some <==> is_hex_digit(c),
        r matches Some(v) ==> v == hex_digit_value(c) && v < 16,
{
    if 0x30 <= c && c <= 0x39 {
        Some(c - 0x30)
    } else if 0x61 <= c && c <= 0x66 {
        Some(c - 0x61 + 10)
    } else if 0x41 <= c && c <= 0x46 {
        Some(c - 0x41 + 10)
    } else {
        None
    }
}

/// Parses an address literal: an optional `0x` prefix and exactly 40 hex
/// digits. Returns the 20 address bytes, or `None` when `s` is malformed.
pub fn parse_address(s: &str) -> (r: Option<Vec<u8>>)
    ensures
        r is Some <==> valid_address_str(s.spec_bytes()),
        r matches Some(v) ==> v@ == spec_parse_address(s.spec_bytes()) && v@.len() == 20,
{
    let b = s.as_bytes();
    let n = b.len();
    let off: usize = if n >= 2 && b[0] == 0x30 && b[1] == 0x78 {
        2
    } else {
        0
    };
    let ghost h = strip_hex_prefix(s.spec_bytes());
    proof {
        assert(h =~= b@.skip(off as int));
    }
    if n - off != 40 {
        return None;
    }
    let mut out: Vec<u8> = Vec::new();
    let mut i: usize = 0;
    while i < 20
        invariant
            0 <= i <= 20,
            n == b@.len(),
            off + 40 == n,
            off == 0 || off == 2,
            b@ == s.spec_bytes(),
            h == strip_hex_prefix(s.spec_bytes()),
            h == b@.skip(off as int),
            h.len() == 40,
            out@.len() == i,
            forall|k: int| 0 <= k < 2 * i ==> is_hex_digit(#[trigger] h[k]),
            forall|k: int|
                0 <= k < i ==> #[trigger] out@[k] == (hex_digit_value(h[2 * k]) * 16
                    + hex_digit_value(h[2 * k + 1])) as u8,
        decreases 20 - i,
    {
        let hi = match hex_digit(b[off + 2 * i]) {
            Some(v) => v,
            None => {
                proof {
                    assert(h[2 * i as int] == b@[off + 2 * i]);
                    assert(!is_hex_digit(strip_hex_prefix(s.spec_bytes())[2 * (i as int)]));
                }
                return None;
            },
        };
        let lo = match hex_digit(b[off + 2 * i + 1]) {
            Some(v) => v,
            None => {
                proof {
                    assert(h[2 * i as int + 1] == b@[off + 2 * i + 1]);
                    assert(!is_hex_digit(strip_hex_prefix(s.spec_bytes())[2 * (i as int) + 1]));
                }
                return None;
            },
        };
        out.push(hi * 16 + lo);
        i = i + 1;
    }
    proof {
        assert(out@ =~= address_bytes(h));
    }
    Some(out)
}

} // verus!
