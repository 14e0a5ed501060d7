use vstd::prelude::*;

verus! {

/// The value of an ascii hex digit, in either case.
pub open spec fn hex_value(c: u8) -> Option<int> {
    if 48 <= c <= 57 {
        Some(c - 48)
    } else if 65 <= c <= 70 {
        Some(c - 55)
    } else if 97 <= c <= 102 {
        Some(c - 87)
    } else {
        None
    }
}

/// The upper-case ascii hex digit of a value below 16.
pub open spec fn hex_digit(n: int) -> u8 {
    if n < 10 {
        (48 + n) as u8
    } else {
        (55 + n) as u8
    }
}

/// The two upper-case hex digits of a byte, as `{:02X}` writes them.
pub open spec fn hex_text(b: u8) -> Seq<u8> {
    seq![hex_digit(b as int / 16), hex_digit(b as int % 16)]
}

/// The three decimal digits of a byte, with leading zeros, as `{:03}`
/// writes them.
pub open spec fn dec_text(b: u8) -> Seq<u8> {
    seq![(48 + b / 100) as u8, (48 + (b / 10) % 10) as u8, (48 + b % 10) as u8]
}

pub open spec fn is_dec_digit(c: u8) -> bool {
    48 <= c <= 57
}

/// The number that a string of decimal digits spells.
pub open spec fn dec_value(s: Seq<u8>) -> int
    decreases s.len(),
{
    if s.len() == 0 {
        0
    } else {
        dec_value(s.drop_last()) * 10 + (s.last() - 48)
    }
}

/// The byte that a string of decimal digits spells, if it is one: at least
/// one digit, only digits, and a value up to 255.
pub open spec fn parse_dec(s: Seq<u8>) -> Option<u8> {
    if s.len() > 0 && (forall|i: int| 0 <= i < s.len() ==> is_dec_digit(#[trigger] s[i])) && dec_value(
        s,
    ) <= 255 {
        Some(dec_value(s) as u8)
    } else {
        None
    }
}

/// The value of an ascii hex digit, in either case.
pub fn hex_digit_value(c: u8) -> (r: Option<u8>)
    ensures
        match hex_value(c) {
            Some(v) => r == Some(v as u8),
            None => r is None,
        },
{
    if 48 <= c && c <= 57 {
        Some(c - 48)
    } else if 65 <= c && c <= 70 {
        Some(c - 55)
    } else if 97 <= c && c <= 102 {
        Some(c - 87)
    } else {
        None
    }
}

/// The byte whose high and low hex digits are `first` and `second`, if both
/// are hex digits.
pub fn merge_hex_halves(first: u8, second: u8) -> (r: Option<u8>)
    ensures
        match (hex_value(first), hex_value(second)) {
            (Some(h), Some(l)) => r == Some((h * 16 + l) as u8),
            _ => r is None,
        },
{
    match (hex_digit_value(first), hex_digit_value(second)) {
        (Some(h), Some(l)) => Some(h * 16 + l),
        _ => None,
    }
}

/// The two upper-case hex digits of a byte.
pub fn byte_hex_text(b: u8) -> (r: Vec<u8>)
    ensures
        r@ == hex_text(b),
{
    let hi = b / 16;
    let lo = b % 16;
    let d0 = if hi < 10 {
        48 + hi
    } else {
        55 + hi
    };
    let d1 = if lo < 10 {
        48 + lo
    } else {
        55 + lo
    };
    let mut v: Vec<u8> = Vec::new();
    v.push(d0);
    v.push(d1);
    assert(v@ =~= hex_text(b));
    v
}

/// The three decimal digits of a byte, with leading zeros.
pub fn byte_dec_text(b: u8) -> (r: Vec<u8>)
    ensures
        r@ == dec_text(b),
{
    let mut v: Vec<u8> = Vec::new();
    v.push(48 + b / 100);
    v.push(48 + (b / 10) % 10);
    v.push(48 + b % 10);
    assert(v@ =~= dec_text(b));
    v
}

/// A string of digits spells at least what any of its prefixes spells.
proof fn lemma_dec_value_grows(s: Seq<u8>, n: int)
    requires
        0 <= n <= s.len(),
        forall|i: int| 0 <= i < s.len() ==> is_dec_digit(#[trigger] s[i]),
    ensures
        dec_value(s.subrange(0, n)) <= dec_value(s),
        dec_value(s) >= 0,
    decreases s.len(),
{
    if s.len() > 0 {
        let p = s.drop_last();
        assert forall|i: int| 0 <= i < p.len() implies is_dec_digit(#[trigger] p[i]) by {
            assert(p[i] == s[i]);
        }
        if n == s.len() {
            assert(s.subrange(0, n) =~= s);
            lemma_dec_value_grows(p, 0);
        } else {
            assert(s.subrange(0, n) =~= p.subrange(0, n));
            lemma_dec_value_grows(p, n);
        }
    } else {
        assert(s.subrange(0, n) =~= s);
    }
}

/// The byte that a string of decimal digits spells, if it is one.
pub fn parse_dec_u8(s: &[u8]) -> (r: Option<u8>)
    ensures
        r == parse_dec(s@),
{
    if s.len() == 0 {
        return None;
    }
    let mut acc: u32 = 0;
    let mut i: usize = 0;
    while i < s.len()
        invariant
            0 <= i <= s@.len(),
            forall|j: int| 0 <= j < i ==> is_dec_digit(#[trigger] s@[j]),
            acc == dec_value(s@.subrange(0, i as int)),
            acc <= 255,
        decreases s@.len() - i,
    {
        let c = s[i];
        if c < 48 || c > 57 {
            assert(!is_dec_digit(s@[i as int]));
            return None;
        }
        assert(s@.subrange(0, i + 1).drop_last() =~= s@.subrange(0, i as int));
        let next = acc * 10 + (c - 48) as u32;
        i = i + 1;
        if next > 255 {
            proof {
                if forall|j: int| 0 <= j < s@.len() ==> is_dec_digit(#[trigger] s@[j]) {
                    lemma_dec_value_grows(s@, i as int);
                }
            }
            return None;
        }
        acc = next;
    }
    assert(s@.subrange(0, s@.len() as int) =~= s@);
    Some(acc as u8)
}

} // verus!
