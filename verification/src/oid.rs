//! Object identifiers of stored documents: twelve bytes, written as
//! twenty-four hexadecimal digits.

use vstd::prelude::*;
use crate::strutil::push_char;
use crate::strutil::chars_of;

verus! {

/// The identifier of a stored document: its twelve raw bytes.
#[derive(Clone, Copy, Debug, PartialEq, Eq)]
pub struct Oid {
    pub bytes: [u8; 12],
}

/// The lowercase hexadecimal digit for `v`, for `v` below sixteen.
pub open spec fn hex_digit(v: nat) -> char {
    if v == 0 {
        '0'
    } else if v == 1 {
        '1'
    } else if v == 2 {
        '2'
    } else if v == 3 {
        '3'
    } else if v == 4 {
        '4'
    } else if v == 5 {
        '5'
    } else if v == 6 {
        '6'
    } else if v == 7 {
        '7'
    } else if v == 8 {
        '8'
    } else if v == 9 {
        '9'
    } else if v == 10 {
        'a'
    } else if v == 11 {
        'b'
    } else if v == 12 {
        'c'
    } else if v == 13 {
        'd'
    } else if v == 14 {
        'e'
    } else {
        'f'
    }
}

/// Lowercase hexadecimal text of `bytes`, two digits per byte, high nibble first.
pub open spec fn hex_encode(bytes: Seq<u8>) -> Seq<char> {
    Seq::new(
        2 * bytes.len(),
        |i: int|
            if i % 2 == 0 {
                hex_digit((bytes[i / 2] / 16) as nat)
            } else {
                hex_digit((bytes[i / 2] % 16) as nat)
            },
    )
}

/// Whether `c` is a hexadecimal digit, in either case.
pub open spec fn is_hex_digit(c: char) -> bool {
    ||| '0' <= c && c <= '9'
    ||| 'a' <= c && c <= 'f'
    ||| 'A' <= c && c <= 'F'
}

/// The value of a hexadecimal digit.
pub open spec fn hex_value(c: char) -> nat {
    if '0' <= c && c <= '9' {
        (c as u32 - '0' as u32) as nat
    } else if 'a' <= c && c <= 'f' {
        (c as u32 - 'a' as u32 + 10) as nat
    } else {
        (c as u32 - 'A' as u32 + 10) as nat
    }
}

/// The bytes that twenty-four hexadecimal digits spell, or nothing when the
/// text is not exactly twenty-four hexadecimal digits.
pub open spec fn parse_oid_text(s: Seq<char>) -> Option<Seq<u8>> {
    if s.len() == 24 && forall|i: int| 0 <= i < 24 ==> is_hex_digit(#[trigger] s[i]) {
        Some(Seq::new(12, |k: int| (hex_value(s[2 * k]) * 16 + hex_value(s[2 * k + 1])) as u8))
    } else {
        None
    }
}

fn hex_digit_of(v: u8) -> (c: char)
    requires
        v < 16,
    ensures
        c == hex_digit(v as nat),
{
    if v < 10 {
        if v == 0 {
            '0'
        } else if v == 1 {
            '1'
        } else if v == 2 {
            '2'
        } else if v == 3 {
            '3'
        } else if v == 4 {
            '4'
        } else if v == 5 {
            '5'
        } else if v == 6 {
            '6'
        } else if v == 7 {
            '7'
        } else if v == 8 {
            '8'
        } else {
            '9'
        }
    } else if v == 10 {
        'a'
    } else if v == 11 {
        'b'
    } else if v == 12 {
        'c'
    } else if v == 13 {
        'd'
    } else if v == 14 {
        'e'
    } else {
        'f'
    }
}

fn hex_value_of(c: char) -> (r: Option<u8>)
    ensures
        match r {
            Some(v) => is_hex_digit(c) && v == hex_value(c) && v < 16,
            None => !is_hex_digit(c),
        },
{
    if '0' <= c && c <= '9' {
        Some(((c as u32) - ('0' as u32)) as u8)
    } else if 'a' <= c && c <= 'f' {
        Some(((c as u32) - ('a' as u32) + 10) as u8)
    } else if 'A' <= c && c <= 'F' {
        Some(((c as u32) - ('A' as u32) + 10) as u8)
    } else {
        None
    }
}

impl Oid {
    /// An identifier from its twelve bytes.
    pub fn from_bytes(bytes: [u8; 12]) -> (r: Oid)
        ensures
            r.bytes == bytes,
    {
        Oid { bytes }
    }

    /// The twelve bytes of the identifier.
    pub fn bytes(&self) -> (r: [u8; 12])
        ensures
            r == self.bytes,
    {
        self.bytes
    }

    /// The identifier as twenty-four lowercase hexadecimal digits.
    pub fn to_hex(self) -> (s: String)
        ensures
            s@ == hex_encode(self.bytes@),
    {
        let mut s = String::new();
        let mut k: usize = 0;
        while k < 12
            invariant
                k <= 12,
                self.bytes@.len() == 12,
                s@ == hex_encode(self.bytes@).subrange(0, 2 * k as int),
            decreases 12 - k,
        {
            let b = self.bytes[k];
            let ghost before = s@;
            push_char(&mut s, hex_digit_of(b / 16));
            push_char(&mut s, hex_digit_of(b % 16));
            assert(s@ =~= hex_encode(self.bytes@).subrange(0, 2 * (k + 1) as int)) by {
                assert(hex_encode(self.bytes@)[2 * k as int] == hex_digit((b / 16) as nat));
                assert(hex_encode(self.bytes@)[2 * k + 1] == hex_digit((b % 16) as nat));
            }
            k = k + 1;
        }
        assert(s@ =~= hex_encode(self.bytes@));
        s
    }

    /// The identifier that twenty-four hexadecimal digits (of either case)
    /// spell; `None` for any other text.
    pub fn parse_str(s: &str) -> (r: Option<Oid>)
        ensures
            match parse_oid_text(s@) {
                Some(b) => r matches Some(o) && o.bytes@ == b,
                None => r is None,
            },
    {
        let chars = chars_of(s);
        if chars.len() != 24 {
            return None;
        }
        let mut bytes: [u8; 12] = [0u8; 12];
        let mut k: usize = 0;
        while k < 12
            invariant
                k <= 12,
                chars@ == s@,
                chars@.len() == 24,
                bytes@.len() == 12,
                forall|i: int| 0 <= i < 2 * k ==> is_hex_digit(#[trigger] s@[i]),
                forall|j: int|
                    0 <= j < k ==> #[trigger] bytes@[j] == (hex_value(s@[2 * j]) * 16 + hex_value(
                        s@[2 * j + 1],
                    )) as u8,
            decreases 12 - k,
        {
            let hi = hex_value_of(chars[2 * k]);
            let lo = hex_value_of(chars[2 * k + 1]);
            match (hi, lo) {
                (Some(h), Some(l)) => {
                    bytes[k] = h * 16 + l;
                },
                _ => {
                    assert(!is_hex_digit(s@[2 * k as int]) || !is_hex_digit(s@[2 * k + 1]));
                    return None;
                },
            }
            k = k + 1;
        }
        let r = Oid { bytes };
        assert(r.bytes@ =~= parse_oid_text(s@)->Some_0);
        Some(r)
    }
}

/// Reading back the hexadecimal text of an identifier gives the identifier:
/// `Oid::parse_str` undoes `Oid::to_hex`.
pub proof fn law_hex_round_trip(bytes: Seq<u8>)
    requires
        bytes.len() == 12,
    ensures
        parse_oid_text(hex_encode(bytes)) == Some(bytes),
{
    let s = hex_encode(bytes);
    assert forall|i: int| 0 <= i < 24 implies is_hex_digit(#[trigger] s[i]) by {
        let b = bytes[i / 2];
        if i % 2 == 0 {
            lemma_hex_digit((b / 16) as nat);
        } else {
            lemma_hex_digit((b % 16) as nat);
        }
    }
    let decoded = Seq::new(
        12,
        |k: int| (hex_value(s[2 * k]) * 16 + hex_value(s[2 * k + 1])) as u8,
    );
    assert forall|k: int| 0 <= k < 12 implies #[trigger] decoded[k] == bytes[k] by {
        let b = bytes[k];
        lemma_hex_digit((b / 16) as nat);
        lemma_hex_digit((b % 16) as nat);
        assert(s[2 * k] == hex_digit((b / 16) as nat));
        assert(s[2 * k + 1] == hex_digit((b % 16) as nat));
    }
    assert(decoded =~= bytes);
}

proof fn lemma_hex_digit(v: nat)
    requires
        v < 16,
    ensures
        is_hex_digit(hex_digit(v)),
        hex_value(hex_digit(v)) == v,
{
}

/// The hexadecimal text of bytes is lower case, two digits per byte, the
/// high half of each byte first: every character is one of `0`-`9` or
/// `a`-`f`.
pub proof fn law_hex_is_lower_case(bytes: Seq<u8>)
    ensures
        hex_encode(bytes).len() == 2 * bytes.len(),
        forall|i: int|
            0 <= i < hex_encode(bytes).len() ==> ('0' <= #[trigger] hex_encode(bytes)[i] <= '9'
                || 'a' <= hex_encode(bytes)[i] <= 'f'),
{
    let s = hex_encode(bytes);
    assert forall|i: int| 0 <= i < s.len() implies ('0' <= #[trigger] s[i] <= '9' || 'a' <= s[i]
        <= 'f') by {
        let b = bytes[i / 2];
        if i % 2 == 0 {
            lemma_hex_digit((b / 16) as nat);
        } else {
            lemma_hex_digit((b % 16) as nat);
        }
    }
}

} // verus!
