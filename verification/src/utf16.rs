//! Text as UTF-16 units.
use crate::offsets::{unit_len, units};
use crate::text::{from_chars, to_chars};
use vstd::prelude::*;

verus! {

/// The character with a given number.
///
/// `char::from_u32` gives the character with that number, and nothing where
/// the number is that of a surrogate or too great.
pub assume_specification[ char::from_u32 ](i: u32) -> (r: Option<char>)
    ensures
        (i <= 0xd7ff || 0xe000 <= i <= 0x10ffff) ==> r == Some(i as char),
        !(i <= 0xd7ff || 0xe000 <= i <= 0x10ffff) ==> r is None,
;

/// The UTF-16 units of a character.
pub open spec fn char_to_units(c: char) -> Seq<u16> {
    let n = c as u32;
    if n <= 0xffff {
        seq![n as u16]
    } else {
        seq![
            (0xd800 + (n - 0x10000) / 1024) as u16,
            (0xdc00 + (n - 0x10000) % 1024) as u16,
        ]
    }
}

/// The UTF-16 units of a text.
pub open spec fn to_units(s: Seq<char>) -> Seq<u16>
    decreases s.len(),
{
    if s.len() == 0 {
        Seq::empty()
    } else {
        char_to_units(s[0]) + to_units(s.drop_first())
    }
}

/// A unit that begins a pair.
pub open spec fn is_high(u: u16) -> bool {
    0xd800 <= u <= 0xdbff
}

/// A unit that ends a pair.
pub open spec fn is_low(u: u16) -> bool {
    0xdc00 <= u <= 0xdfff
}

/// The character that a pair of units stands for.
pub open spec fn pair_char(high: u16, low: u16) -> char {
    (0x10000 + (high - 0xd800) * 1024 + (low - 0xdc00)) as char
}

/// The text that units stand for. A unit that stands for nothing becomes the
/// replacement character.
pub open spec fn from_units(u: Seq<u16>) -> Seq<char>
    decreases u.len(),
{
    if u.len() == 0 {
        Seq::empty()
    } else if is_high(u[0]) && u.len() > 1 && is_low(u[1]) {
        seq![pair_char(u[0], u[1])] + from_units(u.skip(2))
    } else if is_high(u[0]) || is_low(u[0]) {
        seq!['\u{fffd}'] + from_units(u.skip(1))
    } else {
        seq![u[0] as char] + from_units(u.skip(1))
    }
}

/// Encoding a text and decoding it again gives the text.
pub proof fn units_read_back(s: Seq<char>)
    ensures
        from_units(to_units(s)) == s,
    decreases s.len(),
{
    if s.len() > 0 {
        let rest = s.drop_first();
        units_read_back(rest);
        char_reads_back(s[0], to_units(rest));
        assert(s =~= seq![s[0]] + rest);
    }
}

proof fn char_reads_back(c: char, rest: Seq<u16>)
    ensures
        from_units(char_to_units(c) + rest) == seq![c] + from_units(rest),
{
    let n = c as u32;
    let u = char_to_units(c) + rest;
    if n <= 0xffff {
        assert(u.skip(1) =~= rest);
        assert(n as u16 as u32 == n);
        assert(u[0] as char == c);
    } else {
        assert(u.skip(2) =~= rest);
        let q = (n - 0x10000) / 1024;
        let r = (n - 0x10000) % 1024;
        assert(q * 1024 + r == n - 0x10000);
        assert(0 <= q < 1024);
        assert(u[0] == 0xd800 + q);
        assert(u[1] == 0xdc00 + r);
        assert(pair_char(u[0], u[1]) == c);
    }
}

proof fn to_units_push(s: Seq<char>, c: char)
    ensures
        to_units(s.push(c)) == to_units(s) + char_to_units(c),
    decreases s.len(),
{
    let t = s.push(c);
    if s.len() == 0 {
        assert(t.drop_first() =~= Seq::<char>::empty());
        reveal_with_fuel(to_units, 2);
        assert(to_units(t) =~= char_to_units(c) + Seq::<u16>::empty());
        assert(to_units(t) =~= to_units(s) + char_to_units(c));
    } else {
        assert(t.drop_first() =~= s.drop_first().push(c));
        to_units_push(s.drop_first(), c);
        assert(to_units(t) =~= to_units(s) + char_to_units(c));
    }
}

/// The units of two texts one behind the other are theirs, one behind the other.
pub proof fn to_units_concat(a: Seq<char>, b: Seq<char>)
    ensures
        to_units(a + b) == to_units(a) + to_units(b),
    decreases b.len(),
{
    if b.len() == 0 {
        assert(a + b =~= a);
        assert(to_units(a) + to_units(b) =~= to_units(a));
    } else {
        let c = b.last();
        to_units_concat(a, b.drop_last());
        assert(a + b =~= (a + b.drop_last()).push(c));
        to_units_push(a + b.drop_last(), c);
        assert(b =~= b.drop_last().push(c));
        to_units_push(b.drop_last(), c);
        assert(to_units(a + b) =~= to_units(a) + to_units(b));
    }
}

proof fn char_to_units_len(c: char)
    ensures
        char_to_units(c).len() == units(c),
{
}

/// A text has as many units as are counted.
pub proof fn to_units_len(s: Seq<char>)
    ensures
        to_units(s).len() == unit_len(s),
    decreases s.len(),
{
    if s.len() > 0 {
        to_units_len(s.drop_last());
        assert(s =~= s.drop_last().push(s.last()));
        to_units_push(s.drop_last(), s.last());
        let c = s.last();
        char_to_units_len(c);
        assert(unit_len(s) == unit_len(s.drop_last()) + units(c));
    }
}

fn push_char(out: &mut Vec<u16>, c: char)
    ensures
        final(out)@ == old(out)@ + char_to_units(c),
{
    let n = c as u32;
    if n <= 0xffff {
        out.push(n as u16);
    } else {
        let high: u32 = 0xd800 + (n - 0x10000) / 1024;
        let low: u32 = 0xdc00 + (n - 0x10000) % 1024;
        out.push(high as u16);
        out.push(low as u16);
    }
    assert(out@ =~= old(out)@ + char_to_units(c));
}

/// The UTF-16 units of a string.
pub fn encode(s: &str) -> (r: Vec<u16>)
    ensures
        r@ == to_units(s@),
{
    let chars = to_chars(s);
    let mut r: Vec<u16> = Vec::new();
    let mut i: usize = 0;
    assert(s@.take(0) =~= Seq::<char>::empty());
    while i < chars.len()
        invariant
            i <= chars@.len(),
            chars@ == s@,
            r@ == to_units(s@.take(i as int)),
        decreases chars@.len() - i,
    {
        push_char(&mut r, chars[i]);
        proof {
            assert(s@.take(i + 1) =~= s@.take(i as int).push(s@[i as int]));
            to_units_push(s@.take(i as int), s@[i as int]);
        }
        i += 1;
    }
    assert(s@.take(s@.len() as int) =~= s@);
    r
}

/// The string that UTF-16 units stand for.
pub fn decode_lossy(u: &Vec<u16>) -> (r: String)
    ensures
        r@ == from_units(u@),
{
    let mut out: Vec<char> = Vec::new();
    let mut i: usize = 0;
    assert(u@.skip(0) =~= u@);
    assert(Seq::<char>::empty() + from_units(u@) =~= from_units(u@));
    while i < u.len()
        invariant
            i <= u@.len(),
            from_units(u@) == out@ + from_units(u@.skip(i as int)),
        decreases u@.len() - i,
    {
        let ghost rest = u@.skip(i as int);
        let ghost before = out@;
        let a: u16 = u[i];
        if 0xd800 <= a && a <= 0xdbff && i + 1 < u.len() && 0xdc00 <= u[i + 1] && u[i + 1]
            <= 0xdfff {
            let b: u16 = u[i + 1];
            let n: u32 = 0x10000 + (a as u32 - 0xd800) * 1024 + (b as u32 - 0xdc00);
            match char::from_u32(n) {
                Some(c) => {
                    out.push(c);
                    assert(c == pair_char(a, b));
                },
                None => {
                    assert(false);
                },
            }
            assert(rest.skip(2) =~= u@.skip(i + 2));
            i += 2;
        } else {
            if 0xd800 <= a && a <= 0xdfff {
                out.push('\u{fffd}');
            } else {
                match char::from_u32(a as u32) {
                    Some(c) => {
                        out.push(c);
                    },
                    None => {
                        assert(false);
                    },
                }
            }
            assert(rest.skip(1) =~= u@.skip(i + 1));
            i += 1;
        }
        assert(out@ + from_units(u@.skip(i as int)) =~= before + from_units(rest));
    }
    assert(out@ + from_units(u@.skip(i as int)) =~= out@);
    from_chars(&out)
}

} // verus!
