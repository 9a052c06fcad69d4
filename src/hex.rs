//! Reading byte strings written as hexadecimal text, such as "48 89 e5" or
//! "0x4889e5".
use vstd::prelude::*;
use crate::text::{chars_of, trim_of, trim_str};

verus! {

/// Why a hex text was refused.
#[derive(Clone, Copy, Debug, PartialEq, Eq, Structural)]
pub enum HexError {
    /// A character that is neither a hex digit nor a separator.
    InvalidChar(char),
    /// The digits do not pair up into bytes.
    OddLength,
}

/// Characters that separate digit groups: ASCII whitespace, ',', '_' and ':'.
pub open spec fn is_separator(c: char) -> bool {
    c == ' ' || c == '\t' || c == '\n' || c == '\x0C' || c == '\r' || c == ',' || c == '_' || c
        == ':'
}

pub open spec fn is_hex_digit(c: char) -> bool {
    ('0' <= c && c <= '9') || ('a' <= c && c <= 'f') || ('A' <= c && c <= 'F')
}

pub open spec fn hex_value(c: char) -> nat {
    if '0' <= c && c <= '9' {
        (c as nat - '0' as nat) as nat
    } else if 'a' <= c && c <= 'f' {
        (c as nat - 'a' as nat + 10) as nat
    } else {
        (c as nat - 'A' as nat + 10) as nat
    }
}

/// The digits of `cs` with separators and "0x"/"0X" prefixes removed, or the
/// first character that is neither.
pub open spec fn scan_digits(cs: Seq<char>) -> Result<Seq<char>, char>
    decreases cs.len(),
{
    if cs.len() == 0 {
        Ok(Seq::empty())
    } else if is_separator(cs[0]) {
        scan_digits(cs.drop_first())
    } else if cs[0] == '0' && cs.len() > 1 && (cs[1] == 'x' || cs[1] == 'X') {
        scan_digits(cs.subrange(2, cs.len() as int))
    } else if is_hex_digit(cs[0]) {
        match scan_digits(cs.drop_first()) {
            Ok(d) => Ok(seq![cs[0]] + d),
            Err(c) => Err(c),
        }
    } else {
        Err(cs[0])
    }
}

/// Bytes spelled by an even number of hex digits, two digits each.
pub open spec fn digit_pairs(d: Seq<char>) -> Seq<u8> {
    Seq::new(d.len() / 2, |i: int| (hex_value(d[2 * i]) * 16 + hex_value(d[2 * i + 1])) as u8)
}

/// What reading `s` gives.
pub open spec fn hex_parse(s: Seq<char>) -> Result<Seq<u8>, HexError> {
    match scan_digits(trim_of(s)) {
        Err(c) => Err(HexError::InvalidChar(c)),
        Ok(d) => if d.len() % 2 != 0 {
            Err(HexError::OddLength)
        } else {
            Ok(digit_pairs(d))
        },
    }
}

fn hex_digit(c: char) -> (r: Option<u8>)
    ensures
        is_hex_digit(c) ==> r == Some(hex_value(c) as u8) && hex_value(c) < 16,
        !is_hex_digit(c) ==> r is None,
{
    if '0' <= c && c <= '9' {
        Some(((c as u32) - ('0' as u32)) as u8)
    } else if 'a' <= c && c <= 'f' {
        Some(((c as u32) - ('a' as u32) + 10) as u8)
    } else if 'A' <= c && c <= 'F' {
        Some(((c as u32) - ('A' as u32) + 10) as u8)
    } else {
        None
    }
}

fn separator(c: char) -> (r: bool)
    ensures
        r == is_separator(c),
{
    c == ' ' || c == '\t' || c == '\n' || c == '\x0C' || c == '\r' || c == ',' || c == '_' || c
        == ':'
}

spec fn joined(prefix: Seq<char>, r: Result<Seq<char>, char>) -> Result<Seq<char>, char> {
    match r {
        Ok(d) => Ok(prefix + d),
        Err(c) => Err(c),
    }
}

/// Reads hexadecimal text into bytes. Surrounding whitespace, the separators
/// ' ', tab, newline, form feed, carriage return, ',', '_' and ':', and any
/// "0x" or "0X" prefix are skipped; two digits make a byte. An empty text
/// gives no bytes.
pub fn parse_hex_bytes(s: &str) -> (r: Result<Vec<u8>, HexError>)
    ensures
        match r {
            Ok(b) => hex_parse(s@) == Ok::<Seq<u8>, HexError>(b@),
            Err(e) => hex_parse(s@) == Err::<Seq<u8>, HexError>(e),
        },
{
    let t = trim_str(s);
    let cs = chars_of(t);
    let ghost all = cs@;
    assert(all == trim_of(s@));
    let n = cs.len();
    let mut digits: Vec<u8> = Vec::new();
    let mut spelled: Vec<char> = Vec::new();
    let mut i: usize = 0;
    proof {
        assert(all.subrange(0, n as int) =~= all);
        match scan_digits(all) {
            Ok(d) => assert(Seq::<char>::empty() + d =~= d),
            Err(_) => {},
        }
    }
    while i < n
        invariant
            n == all.len(),
            cs@ == all,
            all == trim_of(s@),
            i <= n,
            spelled@.len() == digits@.len(),
            forall|t: int| 0 <= t < spelled@.len() ==> is_hex_digit(#[trigger] spelled@[t]) && digits@[t]
                == hex_value(spelled@[t]),
            scan_digits(all) == joined(spelled@, scan_digits(all.subrange(i as int, n as int))),
        decreases n - i,
    {
        let c = cs[i];
        let ghost rest = all.subrange(i as int, n as int);
        assert(rest[0] == c);
        if separator(c) {
            assert(rest.drop_first() =~= all.subrange(i + 1, n as int));
            i = i + 1;
        } else if c == '0' && i + 1 < n && (cs[i + 1] == 'x' || cs[i + 1] == 'X') {
            assert(rest.subrange(2, rest.len() as int) =~= all.subrange(i + 2, n as int));
            i = i + 2;
        } else {
            match hex_digit(c) {
                Some(v) => {
                    assert(rest.drop_first() =~= all.subrange(i + 1, n as int));
                    proof {
                        let tail = scan_digits(all.subrange(i + 1, n as int));
                        match tail {
                            Ok(d) => {
                                assert(spelled@ + (seq![c] + d) =~= spelled@.push(c) + d);
                            },
                            Err(_) => {},
                        }
                    }
                    digits.push(v);
                    spelled.push(c);
                    i = i + 1;
                },
                None => {
                    assert(scan_digits(rest) == Err::<Seq<char>, char>(c));
                    return Err(HexError::InvalidChar(c));
                },
            }
        }
    }
    assert(all.subrange(n as int, n as int) =~= Seq::<char>::empty());
    assert(scan_digits(all) == Ok::<Seq<char>, char>(spelled@));
    let m = digits.len();
    if m % 2 != 0 {
        return Err(HexError::OddLength);
    }
    let mut out: Vec<u8> = Vec::new();
    let mut j: usize = 0;
    while j < m / 2
        invariant
            m == digits@.len(),
            m % 2 == 0,
            j <= m / 2,
            spelled@.len() == m,
            forall|t: int| 0 <= t < m ==> is_hex_digit(#[trigger] spelled@[t]) && digits@[t]
                == hex_value(spelled@[t]),
            forall|t: int| 0 <= t < m ==> hex_value(#[trigger] spelled@[t]) < 16,
            out@ =~= digit_pairs(spelled@).subrange(0, j as int),
        decreases m / 2 - j,
    {
        let hi = digits[2 * j];
        let lo = digits[2 * j + 1];
        assert(hex_value(spelled@[2 * j as int]) < 16);
        assert(hex_value(spelled@[2 * j + 1]) < 16);
        out.push(hi * 16 + lo);
        j = j + 1;
    }
    assert(digit_pairs(spelled@).subrange(0, (m / 2) as int) =~= digit_pairs(spelled@));
    Ok(out)
}

} // verus!
