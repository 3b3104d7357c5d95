use vstd::prelude::*;

use crate::error::{ErrorKind, UserError};
use crate::text::{trim_start_all, trim_start_all_of};

verus! {

/// One key's colour: three independent 8-bit channels.
#[derive(Clone, Copy, Debug, PartialEq, Eq, Structural)]
pub struct Color {
    pub r: u8,
    pub g: u8,
    pub b: u8,
}

pub open spec fn is_hex_digit(c: char) -> bool {
    ('0' <= c <= '9') || ('a' <= c <= 'f') || ('A' <= c <= 'F')
}

pub open spec fn hex_value(c: char) -> int {
    if '0' <= c <= '9' {
        c as int - '0' as int
    } else if 'a' <= c <= 'f' {
        c as int - 'a' as int + 10
    } else {
        c as int - 'A' as int + 10
    }
}

/// The byte written by the two hex digits at `i` and `i + 1`, high digit first.
pub open spec fn hex_byte(s: Seq<char>, i: int) -> u8 {
    (16 * hex_value(s[i]) + hex_value(s[i + 1])) as u8
}

/// A colour written as exactly six hex digits, big-endian red, green, blue.
pub open spec fn hex_color(s: Seq<char>) -> Option<Color> {
    if s.len() == 6 && forall|i: int| 0 <= i < 6 ==> is_hex_digit(#[trigger] s[i]) {
        Some(Color { r: hex_byte(s, 0), g: hex_byte(s, 2), b: hex_byte(s, 4) })
    } else {
        None
    }
}

pub open spec fn is_digit(c: char) -> bool {
    '0' <= c <= '9'
}

pub open spec fn all_digits(s: Seq<char>) -> bool {
    forall|i: int| 0 <= i < s.len() ==> is_digit(#[trigger] s[i])
}

/// The number written by the decimal digits `s`.
pub open spec fn digits_value(s: Seq<char>) -> nat
    decreases s.len(),
{
    if s.len() == 0 {
        0
    } else {
        digits_value(s.drop_last()) * 10 + (s.last() as nat - '0' as nat) as nat
    }
}

/// `s` without one leading `+`.
pub open spec fn unsigned_part(s: Seq<char>) -> Seq<char> {
    if s.len() > 0 && s[0] == '+' {
        s.subrange(1, s.len() as int)
    } else {
        s
    }
}

/// A channel written in decimal: an optional `+`, then at least one digit,
/// with a value of at most 255.
pub open spec fn decimal_channel(s: Seq<char>) -> Option<u8> {
    let d = unsigned_part(s);
    if d.len() > 0 && all_digits(d) && digits_value(d) <= 255 {
        Some(digits_value(d) as u8)
    } else {
        None
    }
}

/// `v` without its leading `0x` and then its leading `#` prefixes.
pub open spec fn without_prefix(v: Seq<char>) -> Seq<char> {
    trim_start_all(trim_start_all(v, "0x"@), "#"@)
}

/// The colour that starts at `args[pos]`, with the position that follows it.
/// Six hex digits (after the prefixes) make one argument; otherwise three
/// decimal channels, red, green and blue, make three.
pub open spec fn color_literal(args: Seq<&str>, pos: int) -> Option<(Color, int)> {
    if pos < 0 || pos >= args.len() {
        None
    } else if without_prefix(args[pos]@).len() == 6 {
        match hex_color(without_prefix(args[pos]@)) {
            Some(c) => Some((c, pos + 1)),
            None => None,
        }
    } else if pos + 2 >= args.len() {
        None
    } else {
        match (
            decimal_channel(args[pos]@),
            decimal_channel(args[pos + 1]@),
            decimal_channel(args[pos + 2]@),
        ) {
            (Some(r), Some(g), Some(b)) => Some((Color { r, g, b }, pos + 3)),
            _ => None,
        }
    }
}

/// A longer run of digits is worth at least as much as its prefix.
pub proof fn lemma_digits_value_prefix(s: Seq<char>, k: int)
    requires
        all_digits(s),
        0 <= k <= s.len(),
    ensures
        digits_value(s.subrange(0, k)) <= digits_value(s),
    decreases s.len(),
{
    if k == s.len() {
        assert(s.subrange(0, k) =~= s);
    } else {
        let t = s.drop_last();
        assert(all_digits(t)) by {
            assert forall|i: int| 0 <= i < t.len() implies is_digit(#[trigger] t[i]) by {
                assert(t[i] == s[i]);
            }
        }
        lemma_digits_value_prefix(t, k);
        assert(t.subrange(0, k) =~= s.subrange(0, k));
    }
}

fn hex_digit(c: char) -> (r: Option<u8>)
    ensures
        r == (if is_hex_digit(c) {
            Some(hex_value(c) as u8)
        } else {
            None::<u8>
        }),
{
    if '0' <= c && c <= '9' {
        Some((c as u32 - '0' as u32) as u8)
    } else if 'a' <= c && c <= 'f' {
        Some((c as u32 - 'a' as u32 + 10) as u8)
    } else if 'A' <= c && c <= 'F' {
        Some((c as u32 - 'A' as u32 + 10) as u8)
    } else {
        None
    }
}

/// Reads six hex digits as a colour, big-endian red, green, blue.
pub fn parse_hex_color(s: &str) -> (r: Option<Color>)
    ensures
        r == hex_color(s@),
{
    if s.unicode_len() != 6 {
        return None;
    }
    let mut v: [u8; 6] = [0; 6];
    let mut i: usize = 0;
    while i < 6
        invariant
            s@.len() == 6,
            i <= 6,
            forall|j: int| 0 <= j < i ==> is_hex_digit(#[trigger] s@[j]) && v@[j] == hex_value(s@[j]),
        decreases 6 - i,
    {
        match hex_digit(s.get_char(i)) {
            Some(d) => {
                v[i] = d;
            },
            None => {
                return None;
            },
        }
        i = i + 1;
    }
    Some(Color { r: 16 * v[0] + v[1], g: 16 * v[2] + v[3], b: 16 * v[4] + v[5] })
}

/// Reads one decimal channel value in 0..=255, with an optional leading `+`.
pub fn parse_channel(s: &str) -> (r: Option<u8>)
    ensures
        r == decimal_channel(s@),
{
    let n = s.unicode_len();
    let start: usize = if n > 0 && s.get_char(0) == '+' { 1 } else { 0 };
    let ghost d = unsigned_part(s@);
    assert(d =~= s@.subrange(start as int, n as int));
    if start == n {
        return None;
    }
    let mut acc: u32 = 0;
    let mut i: usize = start;
    while i < n
        invariant
            n == s@.len(),
            start <= i <= n,
            d == s@.subrange(start as int, n as int),
            d == unsigned_part(s@),
            forall|j: int| start <= j < i ==> is_digit(#[trigger] s@[j]),
            acc as nat == digits_value(s@.subrange(start as int, i as int)),
            acc <= 255,
        decreases n - i,
    {
        let c = s.get_char(i);
        if !('0' <= c && c <= '9') {
            assert(d[i - start] == c);
            return None;
        }
        let ghost prev = s@.subrange(start as int, i as int);
        assert(s@.subrange(start as int, i + 1).drop_last() =~= prev);
        acc = acc * 10 + (c as u32 - '0' as u32);
        i = i + 1;
        if acc > 255 {
            proof {
                if all_digits(d) {
                    lemma_digits_value_prefix(d, i - start);
                    assert(d.subrange(0, i - start) =~= s@.subrange(start as int, i as int));
                }
            }
            return None;
        }
    }
    assert(s@.subrange(start as int, n as int) =~= d);
    assert(all_digits(d)) by {
        assert forall|j: int| 0 <= j < d.len() implies is_digit(#[trigger] d[j]) by {
            assert(d[j] == s@[start + j]);
        }
    }
    Some(acc as u8)
}

/// Reads the colour that starts at `args[pos]` for the instruction on `key`,
/// and returns it with the position of the next instruction.
pub fn parse_color(args: &[&str], pos: usize, key: &str) -> (r: Result<(Color, usize), UserError>)
    requires
        pos <= args@.len(),
    ensures
        r is Ok <==> color_literal(args@, pos as int) is Some,
        r matches Ok((c, next)) ==> color_literal(args@, pos as int) == Some((c, next as int)),
        r matches Err(e) ==> e.kind == ErrorKind::MalformedColorLiteral,
{
    if pos >= args.len() {
        return Err(UserError::new(ErrorKind::MalformedColorLiteral, key));
    }
    let value: &str = args[pos];
    proof {
        reveal_strlit("0x");
        reveal_strlit("#");
    }
    let stripped = trim_start_all_of(trim_start_all_of(value, "0x"), "#");
    if stripped.unicode_len() == 6 {
        match parse_hex_color(stripped) {
            Some(c) => Ok((c, pos + 1)),
            None => Err(UserError::new(ErrorKind::MalformedColorLiteral, stripped)),
        }
    } else {
        if args.len() - pos <= 2 {
            return Err(UserError::new(ErrorKind::MalformedColorLiteral, key));
        }
        let green: &str = args[pos + 1];
        let blue: &str = args[pos + 2];
        let r = match parse_channel(value) {
            Some(r) => r,
            None => {
                return Err(UserError::new(ErrorKind::MalformedColorLiteral, value));
            },
        };
        let g = match parse_channel(green) {
            Some(g) => g,
            None => {
                return Err(UserError::new(ErrorKind::MalformedColorLiteral, green));
            },
        };
        let b = match parse_channel(blue) {
            Some(b) => b,
            None => {
                return Err(UserError::new(ErrorKind::MalformedColorLiteral, blue));
            },
        };
        Ok((Color { r, g, b }, pos + 3))
    }
}

} // verus!
