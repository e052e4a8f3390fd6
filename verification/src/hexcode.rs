//! Hexadecimal text handling for command-line arguments and the report
//! envelope, specified digit by digit.

use vstd::prelude::*;

verus! {

/// Whether `b` is the ASCII code of a hexadecimal digit.
pub open spec fn is_hex_digit(b: u8) -> bool {
    (0x30 <= b <= 0x39) || (0x61 <= b <= 0x66) || (0x41 <= b <= 0x46)
}

/// The numeric value of the ASCII hex digit `b`.
pub open spec fn hex_digit_value(b: u8) -> u8 {
    if 0x30 <= b <= 0x39 {
        (b - 0x30) as u8
    } else if 0x61 <= b <= 0x66 {
        (b - 0x61 + 10) as u8
    } else {
        (b - 0x41 + 10) as u8
    }
}

/// The ASCII code of the lower-case hex digit for `v` (0..16).
pub open spec fn hex_digit_ascii(v: u8) -> u8 {
    if v < 10 {
        (0x30 + v) as u8
    } else {
        (0x61 + v - 10) as u8
    }
}

/// Whether `s` is well-formed hexadecimal text: even length, digits only.
pub open spec fn is_hex_text(s: Seq<u8>) -> bool {
    s.len() % 2 == 0 && forall|i: int| 0 <= i < s.len() ==> is_hex_digit(s[i])
}

/// The bytes denoted by well-formed hexadecimal text `s`.
pub open spec fn spec_hex_decode(s: Seq<u8>) -> Seq<u8> {
    Seq::new(
        s.len() / 2,
        |i: int| (hex_digit_value(s[2 * i]) * 16 + hex_digit_value(s[2 * i + 1])) as u8,
    )
}

/// The lower-case hexadecimal text denoting `bytes`.
pub open spec fn spec_hex_encode(bytes: Seq<u8>) -> Seq<u8> {
    Seq::new(
        2 * bytes.len(),
        |i: int|
            if i % 2 == 0 {
                hex_digit_ascii(bytes[i / 2] / 16)
            } else {
                hex_digit_ascii(bytes[i / 2] % 16)
            },
    )
}

/// Decodes hexadecimal ASCII text into bytes. Fails exactly when the text
/// has odd length or holds a non-digit.
pub fn hex_decode(s: &[u8]) -> (r: Option<Vec<u8>>)
    ensures
        is_hex_text(s@) <==> r is Some,
        r matches Some(v) ==> v@ == spec_hex_decode(s@),
{
    if s.len() % 2 != 0 {
        return None;
    }
    let mut out: Vec<u8> = Vec::new();
    let mut i: usize = 0;
    while i < s.len()
        invariant
            i % 2 == 0,
            i <= s.len(),
            s@.len() % 2 == 0,
            forall|j: int| 0 <= j < i ==> is_hex_digit(s@[j]),
            out@.len() == i / 2,
            forall|j: int|
                0 <= j < i / 2 ==> out@[j] == (hex_digit_value(s@[2 * j]) * 16 + hex_digit_value(
                    s@[2 * j + 1],
                )) as u8,
        decreases s.len() - i,
    {
        let hi = s[i];
        let lo = s[i + 1];
        let hv = if 0x30 <= hi && hi <= 0x39 {
            hi - 0x30
        } else if 0x61 <= hi && hi <= 0x66 {
            hi - 0x61 + 10
        } else if 0x41 <= hi && hi <= 0x46 {
            hi - 0x41 + 10
        } else {
            return None;
        };
        let lv = if 0x30 <= lo && lo <= 0x39 {
            lo - 0x30
        } else if 0x61 <= lo && lo <= 0x66 {
            lo - 0x61 + 10
        } else if 0x41 <= lo && lo <= 0x46 {
            lo - 0x41 + 10
        } else {
            return None;
        };
        out.push(hv * 16 + lv);
        i = i + 2;
    }
    assert(s@.take(s@.len() as int) =~= s@);
    Some(out)
}

/// Encodes bytes as lower-case hexadecimal ASCII text.
pub fn hex_encode(bytes: &[u8]) -> (r: Vec<u8>)
    requires
        bytes@.len() * 2 <= usize::MAX,
    ensures
        r@ == spec_hex_encode(bytes@),
{
    let mut out: Vec<u8> = Vec::new();
    let mut i: usize = 0;
    while i < bytes.len()
        invariant
            i <= bytes.len(),
            bytes@.len() * 2 <= usize::MAX,
            out@.len() == 2 * i,
            forall|j: int| 0 <= j < 2 * i ==> out@[j] == spec_hex_encode(bytes@)[j],
        decreases bytes.len() - i,
    {
        let b = bytes[i];
        let hi = b / 16;
        let lo = b % 16;
        out.push(if hi < 10 { 0x30 + hi } else { 0x61 + hi - 10 });
        out.push(if lo < 10 { 0x30 + lo } else { 0x61 + lo - 10 });
        i = i + 1;
    }
    assert(out@ =~= spec_hex_encode(bytes@));
    out
}

} // verus!
