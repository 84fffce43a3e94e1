//! Hex encoding of the binary artifact, and a verified decoder.
//!
//! The encoding itself is done by the `hex` crate; its output is
//! pinned down exactly by `spec_hex_encode`, and the decoder proved
//! against `spec_hex_decode`, so that decoding an encoded byte string
//! gives the original bytes back.

use vstd::prelude::*;

verus! {

/// The lowercase hex digit for a value below 16.
pub open spec fn hex_digit(n: u8) -> char
    recommends
        n < 16,
{
    if n < 10 {
        ((n + 0x30) as u8) as char
    } else {
        ((n - 10 + 0x61) as u8) as char
    }
}

/// Lowercase hex encoding: two digits per byte, high nibble first.
pub open spec fn spec_hex_encode(bytes: Seq<u8>) -> Seq<char> {
    Seq::new(
        bytes.len() * 2,
        |i: int|
            if i % 2 == 0 {
                hex_digit(bytes[i / 2] / 16)
            } else {
                hex_digit(bytes[i / 2] % 16)
            },
    )
}

/// A character that counts as a hex digit, in either case.
pub open spec fn is_hex_digit(c: char) -> bool {
    (0x30 <= c as u32 && c as u32 <= 0x39) || (0x61 <= c as u32 && c as u32 <= 0x66) || (0x41
        <= c as u32 && c as u32 <= 0x46)
}

/// The value of a hex digit character.
pub open spec fn hex_val(c: char) -> u8
    recommends
        is_hex_digit(c),
{
    if 0x30 <= c as u32 && c as u32 <= 0x39 {
        (c as u32 - 0x30) as u8
    } else if 0x61 <= c as u32 && c as u32 <= 0x66 {
        (c as u32 - 0x61 + 10) as u8
    } else {
        (c as u32 - 0x41 + 10) as u8
    }
}

/// A character sequence that decodes as hex: even length, hex digits
/// throughout.
pub open spec fn valid_hex(s: Seq<char>) -> bool {
    s.len() % 2 == 0 && (forall|i: int| 0 <= i < s.len() ==> is_hex_digit(#[trigger] s[i]))
}

/// Hex decoding: the bytes encoded by a valid hex sequence, and
/// nothing for an invalid one.
pub open spec fn spec_hex_decode(s: Seq<char>) -> Option<Seq<u8>> {
    if valid_hex(s) {
        Some(
            Seq::new(
                s.len() / 2,
                |i: int| (hex_val(s[2 * i]) * 16 + hex_val(s[2 * i + 1])) as u8,
            ),
        )
    } else {
        None
    }
}

/// Relies on hex::encode: it encodes each byte as two lowercase hex
/// digits, high nibble first, in byte order.
#[verifier::external_body]
pub fn hex_encode(bytes: &Vec<u8>) -> (r: String)
    ensures
        r@ == spec_hex_encode(bytes@),
{
    hex::encode(bytes)
}

/// The hex value of one character, or nothing if it is not a hex
/// digit.
fn hex_val_exec(c: char) -> (r: Option<u8>)
    ensures
        r is Some <==> is_hex_digit(c),
        r is Some ==> r->0 == hex_val(c),
{
    let n = c as u32;
    if 0x30 <= n && n <= 0x39 {
        Some((n - 0x30) as u8)
    } else if 0x61 <= n && n <= 0x66 {
        Some((n - 0x61 + 10) as u8)
    } else if 0x41 <= n && n <= 0x46 {
        Some((n - 0x41 + 10) as u8)
    } else {
        None
    }
}

/// Decode a hex string back into bytes; nothing is returned exactly
/// when the string is not valid hex.
pub fn hex_decode(s: &str) -> (r: Option<Vec<u8>>)
    ensures
        match r {
            Some(v) => spec_hex_decode(s@) == Some(v@),
            None => spec_hex_decode(s@) is None,
        },
{
    let n = s.unicode_len();
    if n % 2 != 0 {
        return None;
    }
    let mut out: Vec<u8> = Vec::new();
    let mut i: usize = 0;
    while i < n / 2
        invariant
            n == s@.len(),
            n % 2 == 0,
            i <= n / 2,
            out@.len() == i,
            forall|j: int| 0 <= j < 2 * i ==> is_hex_digit(#[trigger] s@[j]),
            forall|j: int|
                0 <= j < i ==> out@[j] == (hex_val(s@[2 * j]) * 16 + hex_val(s@[2 * j + 1])) as u8,
        decreases n / 2 - i,
    {
        let hi = s.get_char(2 * i);
        let lo = s.get_char(2 * i + 1);
        let hv = match hex_val_exec(hi) {
            Some(v) => v,
            None => {
                return None;
            },
        };
        let lv = match hex_val_exec(lo) {
            Some(v) => v,
            None => {
                return None;
            },
        };
        proof {
            assert(hv < 16 && lv < 16);
        }
        out.push(hv * 16 + lv);
        i = i + 1;
    }
    proof {
        assert(valid_hex(s@));
        assert(out@ =~= spec_hex_decode(s@)->0);
    }
    Some(out)
}

/// Every byte sequence survives the hex round trip: decoding the
/// encoding gives the original bytes back.
pub proof fn lemma_hex_round_trip(bytes: Seq<u8>)
    ensures
        spec_hex_decode(spec_hex_encode(bytes)) == Some(bytes),
{
    let s = spec_hex_encode(bytes);
    assert forall|n: u8| n < 16 implies is_hex_digit(hex_digit(n)) && hex_val(hex_digit(n))
        == n by {
        if n < 10 {
            assert(hex_digit(n) as u32 == n + 0x30);
        } else {
            assert(hex_digit(n) as u32 == n - 10 + 0x61);
        }
    }
    assert forall|i: int| 0 <= i < s.len() implies is_hex_digit(#[trigger] s[i]) by {
        assert(bytes[i / 2] / 16 < 16 && bytes[i / 2] % 16 < 16);
    }
    assert(valid_hex(s));
    let decoded = spec_hex_decode(s)->0;
    assert forall|i: int| 0 <= i < bytes.len() implies decoded[i] == bytes[i] by {
        assert(s[2 * i] == hex_digit(bytes[i] / 16));
        assert(s[2 * i + 1] == hex_digit(bytes[i] % 16));
        assert(bytes[i] / 16 < 16 && bytes[i] % 16 < 16);
        assert(decoded[i] == (bytes[i] / 16) * 16 + bytes[i] % 16);
    }
    assert(decoded =~= bytes);
}

} // verus!
