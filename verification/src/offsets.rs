//! Offsets into text: characters, UTF-8 bytes and UTF-16 units.
use crate::text::to_chars;
use vstd::prelude::*;
use vstd::utf8::*;

verus! {

/// The number of bytes that a character takes in UTF-8.
pub open spec fn width(c: char) -> nat {
    if c <= '\u{7f}' {
        1
    } else if c <= '\u{7ff}' {
        2
    } else if c <= '\u{ffff}' {
        3
    } else {
        4
    }
}

/// The number of bytes that a text takes in UTF-8.
pub open spec fn byte_len(s: Seq<char>) -> nat
    decreases s.len(),
{
    if s.len() == 0 {
        0
    } else {
        byte_len(s.drop_last()) + width(s.last())
    }
}

/// Byte `pos` of a text is where its character `k` starts, or the end of the
/// text.
pub open spec fn starts_at(s: Seq<char>, pos: int, k: int) -> bool {
    0 <= k <= s.len() && byte_len(s.take(k)) == pos
}

/// Byte `pos` of a text is where some character starts, or its end.
pub open spec fn on_boundary(s: Seq<char>, pos: int) -> bool {
    exists|k: int| starts_at(s, pos, k)
}

/// The character that starts at byte `pos`; the number of characters at the
/// end of the text.
pub open spec fn index_at(s: Seq<char>, pos: int) -> int {
    choose|k: int| starts_at(s, pos, k)
}

/// One more character adds its bytes.
pub proof fn byte_len_push(s: Seq<char>, c: char)
    ensures
        byte_len(s.push(c)) == byte_len(s) + width(c),
{
    assert(s.push(c).drop_last() =~= s);
}

/// The bytes of two texts add up.
pub proof fn byte_len_concat(a: Seq<char>, b: Seq<char>)
    ensures
        byte_len(a + b) == byte_len(a) + byte_len(b),
    decreases b.len(),
{
    if b.len() == 0 {
        assert(a + b =~= a);
    } else {
        byte_len_concat(a, b.drop_last());
        assert((a + b).drop_last() =~= a + b.drop_last());
    }
}

/// A longer prefix takes more bytes, at least one for each character.
pub proof fn byte_len_take(s: Seq<char>, i: int, j: int)
    requires
        0 <= i <= j <= s.len(),
    ensures
        byte_len(s.take(i)) + (j - i) <= byte_len(s.take(j)),
        byte_len(s.take(j)) <= byte_len(s),
    decreases j - i,
{
    let n = s.len() as int;
    assert(s.take(j) + s.skip(j) =~= s);
    byte_len_concat(s.take(j), s.skip(j));
    if i < j {
        byte_len_take(s, i, j - 1);
        assert(s.take(j).drop_last() =~= s.take(j - 1));
    }
}

/// The character at a byte offset is the only one there.
pub proof fn index_at_unique(s: Seq<char>, pos: int, k: int)
    requires
        starts_at(s, pos, k),
    ensures
        on_boundary(s, pos),
        index_at(s, pos) == k,
{
    let m = index_at(s, pos);
    assert(starts_at(s, pos, m));
    if m < k {
        byte_len_take(s, m, k);
    } else if k < m {
        byte_len_take(s, k, m);
    }
}

/// The bytes of the UTF-8 encoding are those that are counted here.
pub proof fn byte_len_is_encoded_len(s: Seq<char>)
    ensures
        encode_utf8(s).len() == byte_len(s),
    decreases s.len(),
{
    if s.len() > 0 {
        let rest = s.drop_first();
        byte_len_is_encoded_len(rest);
        assert(s =~= seq![s[0]] + rest);
        byte_len_concat(seq![s[0]], rest);
        assert(seq![s[0]].drop_last() =~= Seq::<char>::empty());
        assert(byte_len(seq![s[0]]) == width(s[0])) by {
            reveal_with_fuel(byte_len, 2);
        }
        encoded_width(s[0]);
    }
}

proof fn encoded_width(c: char)
    ensures
        encode_scalar(c as u32).len() == width(c),
{
}

/// The number of bytes that a character takes in UTF-8.
pub fn char_width(c: char) -> (r: usize)
    ensures
        r == width(c),
        1 <= r <= 4,
{
    if c <= '\u{7f}' {
        1
    } else if c <= '\u{7ff}' {
        2
    } else if c <= '\u{ffff}' {
        3
    } else {
        4
    }
}

/// The number of bytes of a string.
pub fn text_bytes(s: &str) -> (r: usize)
    ensures
        r == byte_len(s@),
{
    proof {
        byte_len_is_encoded_len(s@);
    }
    s.as_bytes().len()
}

/// Where character `k` of a string starts, in bytes.
pub fn byte_of(s: &str, chars: &Vec<char>, k: usize) -> (r: usize)
    requires
        chars@ == s@,
        k <= chars@.len(),
    ensures
        r == byte_len(s@.take(k as int)),
        r <= byte_len(s@),
{
    let total = text_bytes(s);
    let mut i: usize = 0;
    let mut r: usize = 0;
    assert(s@.take(0) =~= Seq::<char>::empty());
    while i < k
        invariant
            i <= k <= chars@.len(),
            chars@ == s@,
            total == byte_len(s@),
            r == byte_len(s@.take(i as int)),
        decreases k - i,
    {
        proof {
            byte_len_take(s@, i as int, i + 1);
            assert(s@.take(i + 1).drop_last() =~= s@.take(i as int));
            assert(s@.take(i + 1).last() == s@[i as int]);
        }
        r += char_width(chars[i]);
        i += 1;
    }
    proof {
        byte_len_take(s@, k as int, k as int);
    }
    r
}

/// The character that starts at byte `pos` of a string, if one does; the
/// number of characters where `pos` is its end.
pub fn index_of_byte(chars: &Vec<char>, pos: usize) -> (r: Option<usize>)
    ensures
        match r {
            Some(k) => starts_at(chars@, pos as int, k as int) && index_at(chars@, pos as int) == k,
            None => !on_boundary(chars@, pos as int),
        },
{
    let mut k: usize = 0;
    let mut at: usize = 0;
    assert(chars@.take(0) =~= Seq::<char>::empty());
    while at < pos
        invariant
            k <= chars@.len(),
            at == byte_len(chars@.take(k as int)),
            forall|m: int| 0 <= m < k ==> byte_len(#[trigger] chars@.take(m)) < pos,
        decreases chars@.len() - k,
    {
        if k == chars.len() {
            assert forall|m: int| !starts_at(chars@, pos as int, m) by {
                if 0 <= m <= chars@.len() {
                    assert(chars@.take(m) == chars@.take(m));
                }
            }
            return None;
        }
        proof {
            assert(chars@.take(k + 1).drop_last() =~= chars@.take(k as int));
        }
        let w = char_width(chars[k]);
        if w > pos - at {
            assert(byte_len(chars@.take(k + 1)) > pos);
            assert forall|m: int| !starts_at(chars@, pos as int, m) by {
                if 0 <= m <= chars@.len() {
                    if m > k {
                        byte_len_take(chars@, k + 1, m);
                    } else {
                        assert(chars@.take(m) == chars@.take(m));
                    }
                }
            }
            return None;
        }
        at += w;
        k += 1;
    }
    if at == pos {
        proof {
            index_at_unique(chars@, pos as int, k as int);
        }
        Some(k)
    } else {
        assert forall|m: int| !starts_at(chars@, pos as int, m) by {
            if k <= m <= chars@.len() {
                byte_len_take(chars@, k as int, m);
            }
        }
        None
    }
}

/// The byte offset one character after `pos`; the end of the text where there
/// is none.
pub open spec fn next_pos(s: Seq<char>, pos: int) -> int {
    let k = index_at(s, pos);
    if k < s.len() {
        pos + width(s[k])
    } else {
        byte_len(s) as int
    }
}

/// The byte offset one character before `pos`; 0 where there is none.
pub open spec fn prev_pos(s: Seq<char>, pos: int) -> int {
    let k = index_at(s, pos);
    if k > 0 {
        pos - width(s[k - 1])
    } else {
        0
    }
}

/// Finds the byte position one character forward from `pos` in `buf`.
pub fn next_char_pos(buf: &str, pos: usize) -> (r: usize)
    requires
        on_boundary(buf@, pos as int) || pos >= byte_len(buf@),
    ensures
        pos >= byte_len(buf@) ==> r == byte_len(buf@),
        pos < byte_len(buf@) ==> r == next_pos(buf@, pos as int),
        on_boundary(buf@, r as int),
        on_boundary(buf@, pos as int) ==> r == next_pos(buf@, pos as int),
{
    let total = text_bytes(buf);
    let chars = to_chars(buf);
    proof {
        assert(buf@.take(buf@.len() as int) =~= buf@);
        index_at_unique(buf@, total as int, buf@.len() as int);
    }
    if pos >= total {
        proof {
            if on_boundary(buf@, pos as int) {
                let k = index_at(buf@, pos as int);
                byte_len_take(buf@, k, buf@.len() as int);
            }
        }
        return total;
    }
    match index_of_byte(&chars, pos) {
        Some(k) => {
            proof {
                if k == buf@.len() {
                    assert(false);
                }
                byte_len_take(buf@, k as int, k + 1);
                assert(buf@.take(k + 1).drop_last() =~= buf@.take(k as int));
                index_at_unique(buf@, byte_len(buf@.take(k + 1)) as int, k + 1);
            }
            pos + char_width(chars[k])
        },
        None => total,
    }
}

/// Finds the byte position one character backward from `pos` in `buf`.
pub fn prev_char_pos(buf: &str, pos: usize) -> (r: usize)
    requires
        on_boundary(buf@, pos as int),
    ensures
        r == prev_pos(buf@, pos as int),
        on_boundary(buf@, r as int),
        r <= pos,
        pos > 0 ==> r < pos && index_at(buf@, r as int) == index_at(buf@, pos as int) - 1,
{
    let chars = to_chars(buf);
    proof {
        assert(buf@.take(0) =~= Seq::<char>::empty());
        index_at_unique(buf@, 0, 0);
    }
    if pos == 0 {
        return 0;
    }
    match index_of_byte(&chars, pos) {
        Some(k) => {
            assert(k > 0);
            proof {
                assert(buf@.take(k as int).drop_last() =~= buf@.take(k - 1));
                index_at_unique(buf@, byte_len(buf@.take(k - 1)) as int, k - 1);
            }
            pos - char_width(chars[k - 1])
        },
        None => 0,
    }
}

/// Snaps a byte position to the nearest character boundary at or before `pos`.
pub fn floor_char_boundary(buf: &str, pos: usize) -> (r: usize)
    ensures
        on_boundary(buf@, r as int),
        r <= pos,
        forall|p: int| r < p <= pos ==> !on_boundary(buf@, p),
{
    let chars = to_chars(buf);
    let mut k: usize = 0;
    let mut at: usize = 0;
    proof {
        assert(buf@.take(0) =~= Seq::<char>::empty());
    }
    while k < chars.len()
        invariant
            chars@ == buf@,
            k <= chars@.len(),
            at == byte_len(buf@.take(k as int)),
            at <= pos,
        ensures
            k <= chars@.len(),
            at == byte_len(buf@.take(k as int)),
            at <= pos,
            k < chars@.len() ==> byte_len(buf@.take(k + 1)) > pos,
        decreases chars@.len() - k,
    {
        let w = char_width(chars[k]);
        proof {
            assert(buf@.take(k + 1).drop_last() =~= buf@.take(k as int));
        }
        if w > pos - at {
            break;
        }
        at += w;
        k += 1;
    }
    proof {
        index_at_unique(buf@, at as int, k as int);
        assert forall|p: int| at < p <= pos implies !on_boundary(buf@, p) by {
            if on_boundary(buf@, p) {
                let m = index_at(buf@, p);
                if m <= k {
                    byte_len_take(buf@, m, k as int);
                } else {
                    byte_len_take(buf@, k + 1, m);
                }
            }
        }
    }
    at
}

/// Going forward one character and back again ends where it began, except at
/// the end of the text.
pub proof fn next_then_prev(s: Seq<char>, pos: int)
    requires
        on_boundary(s, pos),
        pos < byte_len(s),
    ensures
        on_boundary(s, next_pos(s, pos)),
        prev_pos(s, next_pos(s, pos)) == pos,
{
    let k = index_at(s, pos);
    assert(starts_at(s, pos, k));
    assert(s.take(s.len() as int) =~= s);
    assert(k < s.len());
    assert(s.take(k + 1).drop_last() =~= s.take(k));
    index_at_unique(s, next_pos(s, pos), k + 1);
}

// ---------------------------------------------------------------------------
// UTF-16
// ---------------------------------------------------------------------------

/// The number of units that a character takes in UTF-16.
pub open spec fn units(c: char) -> nat {
    if c <= '\u{ffff}' {
        1
    } else {
        2
    }
}

/// The number of units that a text takes in UTF-16.
pub open spec fn unit_len(s: Seq<char>) -> nat
    decreases s.len(),
{
    if s.len() == 0 {
        0
    } else {
        unit_len(s.drop_last()) + units(s.last())
    }
}

/// The byte offset of the character that unit `u` of a text belongs to; the
/// length of the text where it has no such unit.
pub open spec fn byte_at_unit(s: Seq<char>, u: int) -> nat
    decreases s.len(),
{
    if s.len() == 0 || u < units(s[0]) {
        0
    } else {
        width(s[0]) + byte_at_unit(s.drop_first(), u - units(s[0]))
    }
}

/// The unit behind a part of a text belongs to the character behind it.
pub proof fn byte_behind(a: Seq<char>, b: Seq<char>)
    ensures
        byte_at_unit(a + b, unit_len(a) as int) == byte_len(a),
    decreases a.len(),
{
    let s = a + b;
    if a.len() == 0 {
        assert(s =~= b);
    } else {
        let head = seq![a[0]];
        let rest = a.drop_first();
        byte_behind(rest, b);
        assert(s.drop_first() =~= rest + b);
        assert(a =~= head + rest);
        unit_len_concat(head, rest);
        byte_len_concat(head, rest);
        assert(head.drop_last() =~= Seq::<char>::empty());
        reveal_with_fuel(unit_len, 2);
        reveal_with_fuel(byte_len, 2);
    }
}

/// The number of units that a character takes in UTF-16.
pub fn char_units(c: char) -> (r: usize)
    ensures
        r == units(c),
        1 <= r <= 2,
{
    if c <= '\u{ffff}' {
        1
    } else {
        2
    }
}

/// The units of two texts add up.
pub proof fn unit_len_concat(a: Seq<char>, b: Seq<char>)
    ensures
        unit_len(a + b) == unit_len(a) + unit_len(b),
    decreases b.len(),
{
    if b.len() == 0 {
        assert(a + b =~= a);
    } else {
        unit_len_concat(a, b.drop_last());
        assert((a + b).drop_last() =~= a + b.drop_last());
    }
}

/// A text has no more UTF-16 units than UTF-8 bytes.
pub proof fn unit_len_at_most_bytes(s: Seq<char>)
    ensures
        unit_len(s) <= byte_len(s),
    decreases s.len(),
{
    if s.len() > 0 {
        unit_len_at_most_bytes(s.drop_last());
    }
}

/// The number of UTF-16 units of a string.
pub fn text_units(s: &str) -> (r: usize)
    ensures
        r == unit_len(s@),
{
    let chars = to_chars(s);
    let total = text_bytes(s);
    let mut i: usize = 0;
    let mut r: usize = 0;
    assert(s@.take(0) =~= Seq::<char>::empty());
    while i < chars.len()
        invariant
            i <= chars@.len(),
            chars@ == s@,
            total == byte_len(s@),
            r == unit_len(s@.take(i as int)),
        decreases chars@.len() - i,
    {
        proof {
            byte_len_take(s@, i + 1, i + 1);
            unit_len_at_most_bytes(s@.take(i + 1));
            assert(s@.take(i + 1).drop_last() =~= s@.take(i as int));
        }
        r += char_units(chars[i]);
        i += 1;
    }
    assert(s@.take(s@.len() as int) =~= s@);
    r
}

/// The byte offset of the character that UTF-16 unit `u` of a string belongs
/// to; the length of the string where it has no such unit.
pub fn unit_to_byte(s: &str, u: usize) -> (r: usize)
    ensures
        r == byte_at_unit(s@, u as int),
        r <= byte_len(s@),
{
    let chars = to_chars(s);
    let total = text_bytes(s);
    let mut i: usize = 0;
    let mut at: usize = 0;
    let mut left: usize = u;
    assert(s@.take(0) =~= Seq::<char>::empty());
    assert(s@.skip(0) =~= s@);
    while i < chars.len()
        invariant
            i <= chars@.len(),
            chars@ == s@,
            total == byte_len(s@),
            at == byte_len(s@.take(i as int)),
            at <= total,
            byte_at_unit(s@, u as int) == at + byte_at_unit(s@.skip(i as int), left as int),
        decreases chars@.len() - i,
    {
        let n = char_units(chars[i]);
        assert(s@.skip(i as int)[0] == s@[i as int]);
        if left < n {
            return at;
        }
        proof {
            byte_len_take(s@, i + 1, i + 1);
            assert(s@.take(i + 1).drop_last() =~= s@.take(i as int));
            assert(s@.skip(i as int).drop_first() =~= s@.skip(i + 1));
        }
        at += char_width(chars[i]);
        left -= n;
        i += 1;
    }
    at
}

} // verus!
