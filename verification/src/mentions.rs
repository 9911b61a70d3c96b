//! Mentions in message bodies: placeholders become `@name`, and styled
//! stretches move along.
use crate::common::{filter_keeps_all, filter_none, filter_take};
use crate::offsets::{
    byte_at_unit, byte_behind, byte_len, char_width, text_bytes, unit_len, unit_len_concat,
    unit_to_byte, width,
};
use crate::signal::{Duplicate, Mention, MentionView, StyleType, TextStyle};
use crate::strmap::{look, StrMap};
use crate::text::{concat2, from_range, to_chars};
use crate::utf16::{
    decode_lossy, encode, from_units, to_units, to_units_concat, to_units_len, units_read_back,
};
use vstd::prelude::*;

verus! {

/// Texts keyed by texts.
pub type NameMapView = Seq<(Seq<char>, Seq<char>)>;

// ---------------------------------------------------------------------------
// Names
// ---------------------------------------------------------------------------

/// How many characters at the front of a text fit into `n` bytes.
pub open spec fn fitting(s: Seq<char>, n: int) -> int
    decreases s.len(),
{
    if s.len() == 0 || width(s[0]) > n {
        0
    } else {
        1 + fitting(s.drop_first(), n - width(s[0]))
    }
}

/// What stands for a uuid without a known name: its first eight bytes.
pub open spec fn short_uuid(uuid: Seq<char>) -> Seq<char> {
    uuid.take(fitting(uuid, 8))
}

/// The name that a uuid is shown under.
pub open spec fn mention_name(names: NameMapView, uuid: Seq<char>) -> Seq<char> {
    match look(names, uuid) {
        Some(name) => name,
        None => short_uuid(uuid),
    }
}

/// What a mention of a uuid is replaced with.
pub open spec fn replacement(names: NameMapView, uuid: Seq<char>) -> Seq<char> {
    "@"@ + mention_name(names, uuid)
}

/// How many characters fit into some bytes is no more than there are.
pub proof fn fitting_bound(s: Seq<char>, n: int)
    ensures
        0 <= fitting(s, n) <= s.len(),
    decreases s.len(),
{
    if s.len() > 0 && width(s[0]) <= n {
        fitting_bound(s.drop_first(), n - width(s[0]));
    }
}

fn shorten_uuid(uuid: &str) -> (r: String)
    ensures
        r@ == short_uuid(uuid@),
{
    let chars = to_chars(uuid);
    let mut k: usize = 0;
    let mut left: usize = 8;
    assert(uuid@.skip(0) =~= uuid@);
    while k < chars.len() && char_width(chars[k]) <= left
        invariant
            k <= chars@.len(),
            chars@ == uuid@,
            left <= 8,
            fitting(uuid@, 8) == k + fitting(uuid@.skip(k as int), left as int),
        decreases chars@.len() - k,
    {
        assert(uuid@.skip(k as int).drop_first() =~= uuid@.skip(k + 1));
        assert(uuid@.skip(k as int)[0] == uuid@[k as int]);
        left -= char_width(chars[k]);
        k += 1;
    }
    assert(k < chars@.len() ==> uuid@.skip(k as int)[0] == uuid@[k as int]);
    assert(uuid@.subrange(0, k as int) =~= uuid@.take(k as int));
    from_range(&chars, 0, k)
}

fn replace_mention(names: &StrMap<String>, uuid: &str) -> (r: String)
    ensures
        r@ == replacement(names.deep_view(), uuid@),
{
    match names.get(uuid) {
        Some(name) => concat2("@", name.as_str()),
        None => {
            let short = shorten_uuid(uuid);
            concat2("@", short.as_str())
        },
    }
}

// ---------------------------------------------------------------------------
// Order of mentions
// ---------------------------------------------------------------------------

/// `a` may stand before `b` where starts go up, or down.
pub open spec fn may_precede(a: MentionView, b: MentionView, down: bool) -> bool {
    if down {
        a.start >= b.start
    } else {
        a.start <= b.start
    }
}

/// The first place from `i` on that `m` has to stand before.
pub open spec fn mention_slot(s: Seq<MentionView>, m: MentionView, down: bool, i: int) -> int
    decreases s.len() - i,
{
    if 0 <= i < s.len() && may_precede(s[i], m, down) {
        mention_slot(s, m, down, i + 1)
    } else {
        i
    }
}

/// Mentions in the order of where they start, those with the same start in the
/// order in which they came.
pub open spec fn by_start(s: Seq<MentionView>, down: bool) -> Seq<MentionView>
    decreases s.len(),
{
    if s.len() == 0 {
        Seq::empty()
    } else {
        let sorted = by_start(s.drop_last(), down);
        sorted.insert(mention_slot(sorted, s.last(), down, 0), s.last())
    }
}

/// Each mention may stand before those that follow it.
pub open spec fn starts_in_order(s: Seq<MentionView>, down: bool) -> bool {
    forall|i: int, j: int|
        0 <= i < j < s.len() ==> may_precede(#[trigger] s[i], #[trigger] s[j], down)
}

proof fn mention_slot_finds(s: Seq<MentionView>, m: MentionView, down: bool, i: int)
    requires
        0 <= i <= s.len(),
    ensures
        i <= mention_slot(s, m, down, i) <= s.len(),
        forall|j: int|
            i <= j < mention_slot(s, m, down, i) ==> may_precede(#[trigger] s[j], m, down),
        mention_slot(s, m, down, i) < s.len() ==> !may_precede(
            s[mention_slot(s, m, down, i)],
            m,
            down,
        ),
    decreases s.len() - i,
{
    if i < s.len() && may_precede(s[i], m, down) {
        mention_slot_finds(s, m, down, i + 1);
    }
}

/// Ordering mentions keeps every one of them and puts them in order.
pub proof fn by_start_orders(s: Seq<MentionView>, down: bool)
    ensures
        by_start(s, down).to_multiset() == s.to_multiset(),
        by_start(s, down).len() == s.len(),
        starts_in_order(by_start(s, down), down),
    decreases s.len(),
{
    broadcast use vstd::seq_lib::group_to_multiset_ensures;

    if s.len() > 0 {
        by_start_orders(s.drop_last(), down);
        let sorted = by_start(s.drop_last(), down);
        let m = s.last();
        mention_slot_finds(sorted, m, down, 0);
        vstd::seq_lib::to_multiset_insert(sorted, mention_slot(sorted, m, down, 0), m);
        assert(s =~= s.drop_last().push(m));
        vstd::seq_lib::to_multiset_build(s.drop_last(), m);
    }
}

fn sort_mentions(ms: &Vec<Mention>, down: bool) -> (r: Vec<Mention>)
    ensures
        r.deep_view() == by_start(ms.deep_view(), down),
{
    let ghost s = ms.deep_view();
    let mut r: Vec<Mention> = Vec::new();
    let mut i: usize = 0;
    assert(r.deep_view() =~= by_start(s.take(0), down));
    while i < ms.len()
        invariant
            i <= ms@.len(),
            s == ms.deep_view(),
            r.deep_view() == by_start(s.take(i as int), down),
        decreases ms@.len() - i,
    {
        let m = ms[i].duplicate();
        let ghost sorted = r.deep_view();
        let mut k: usize = 0;
        while k < r.len() && ((down && r[k].start >= m.start) || (!down && r[k].start <= m.start))
            invariant
                k <= r@.len(),
                sorted == r.deep_view(),
                mention_slot(sorted, m.deep_view(), down, 0) == mention_slot(
                    sorted,
                    m.deep_view(),
                    down,
                    k as int,
                ),
            decreases r@.len() - k,
        {
            assert(sorted[k as int] == r@[k as int].deep_view());
            k += 1;
        }
        assert(k < r@.len() ==> sorted[k as int] == r@[k as int].deep_view());
        r.insert(k, m);
        assert(r.deep_view() =~= sorted.insert(k as int, m.deep_view()));
        assert(s.take(i + 1).drop_last() =~= s.take(i as int));
        i += 1;
    }
    assert(s.take(s.len() as int) =~= s);
    r
}

// ---------------------------------------------------------------------------
// Replacing placeholders
// ---------------------------------------------------------------------------

/// UTF-16 units with one mention replaced. A mention that starts past their end
/// replaces nothing.
pub open spec fn with_mention(u: Seq<u16>, m: MentionView, names: NameMapView) -> Seq<u16> {
    if m.start >= u.len() {
        u
    } else {
        let end = if m.start + m.length < u.len() {
            m.start + m.length
        } else {
            u.len() as int
        };
        u.take(m.start as int) + to_units(replacement(names, m.uuid)) + u.skip(end)
    }
}

/// UTF-16 units with mentions replaced one after the other.
pub open spec fn with_mentions(u: Seq<u16>, ms: Seq<MentionView>, names: NameMapView) -> Seq<u16>
    decreases ms.len(),
{
    if ms.len() == 0 {
        u
    } else {
        with_mention(with_mentions(u, ms.drop_last(), names), ms.last(), names)
    }
}

/// A body with its mentions replaced, the last one first.
pub open spec fn resolved_body(
    body: Seq<char>,
    ms: Seq<MentionView>,
    names: NameMapView,
) -> Seq<char> {
    if ms.len() == 0 {
        body
    } else {
        from_units(with_mentions(to_units(body), by_start(ms, true), names))
    }
}

/// The greatest shift that is told apart from others; no offset comes near it.
pub const SHIFT_LIMIT: i128 = 0x1_0000_0000_0000_0000_0000_0000i128;

/// A shift, kept between two limits that no offset comes near.
pub open spec fn bounded_shift(x: int) -> int {
    if x > SHIFT_LIMIT {
        SHIFT_LIMIT as int
    } else if x < -SHIFT_LIMIT {
        -SHIFT_LIMIT
    } else {
        x
    }
}

/// How far the first `k` of mentions in order, once replaced, shift what
/// follows them.
pub open spec fn shift_after(ms: Seq<MentionView>, names: NameMapView, k: int) -> int
    decreases k,
{
    if k <= 0 {
        0
    } else {
        bounded_shift(
            shift_after(ms, names, k - 1) + unit_len(replacement(names, ms[k - 1].uuid)) - ms[k
                - 1].length,
        )
    }
}

/// The byte offset of a UTF-16 offset; the end of the text where it has no
/// such unit.
pub open spec fn byte_of_unit(s: Seq<char>, u: int) -> int {
    if u < 0 {
        byte_len(s) as int
    } else {
        byte_at_unit(s, u) as int
    }
}

/// The bytes that mention `k`, in order of start, takes in a resolved body.
pub open spec fn mention_range(
    resolved: Seq<char>,
    ms: Seq<MentionView>,
    names: NameMapView,
    k: int,
) -> (usize, usize) {
    let start = ms[k].start + shift_after(ms, names, k);
    (
        byte_of_unit(resolved, start) as usize,
        byte_of_unit(resolved, start + unit_len(replacement(names, ms[k].uuid))) as usize,
    )
}

/// The mentions that put a name into a body: those that start within it.
pub open spec fn put_in(body: Seq<char>, ms: Seq<MentionView>) -> Seq<MentionView> {
    ms.filter(|m: MentionView| m.start < unit_len(body))
}

/// The bytes that the names put into a body take in the resolved one, in the
/// order in which they stand there.
pub open spec fn mention_ranges(
    body: Seq<char>,
    resolved: Seq<char>,
    ms: Seq<MentionView>,
    names: NameMapView,
) -> Seq<(usize, usize)> {
    let sorted = by_start(put_in(body, ms), false);
    Seq::new(sorted.len(), |k: int| mention_range(resolved, sorted, names, k))
}

fn find_put_in(body: &str, ms: &Vec<Mention>) -> (r: Vec<Mention>)
    ensures
        r.deep_view() == put_in(body@, ms.deep_view()),
{
    let ghost s = ms.deep_view();
    let ghost p = |m: MentionView| m.start < unit_len(body@);
    let n = crate::offsets::text_units(body);
    let mut r: Vec<Mention> = Vec::new();
    let mut i: usize = 0;
    proof {
        filter_none(s, p);
    }
    assert(r.deep_view() =~= s.take(0).filter(p));
    while i < ms.len()
        invariant
            i <= ms@.len(),
            s == ms.deep_view(),
            n == unit_len(body@),
            p == |m: MentionView| m.start < unit_len(body@),
            r.deep_view() == s.take(i as int).filter(p),
        decreases ms@.len() - i,
    {
        proof {
            filter_take(s, i as int, p);
            assert(s[i as int] == ms@[i as int].deep_view());
        }
        if ms[i].start < n {
            let m = ms[i].duplicate();
            let ghost before = r.deep_view();
            r.push(m);
            assert(r.deep_view() =~= before.push(m.deep_view()));
        }
        i += 1;
    }
    assert(s.take(s.len() as int) =~= s);
    r
}

fn unit_offset(s: &str, u: i128) -> (r: usize)
    ensures
        r == byte_of_unit(s@, u as int),
        r <= byte_len(s@),
{
    if u < 0 {
        text_bytes(s)
    } else if u > usize::MAX as i128 {
        let r = text_bytes(s);
        proof {
            crate::offsets::unit_len_at_most_bytes(s@);
            past_the_end(s@, u as int);
        }
        r
    } else {
        unit_to_byte(s, u as usize)
    }
}

proof fn past_the_end(s: Seq<char>, u: int)
    requires
        u >= unit_len(s),
    ensures
        byte_at_unit(s, u) == byte_len(s),
    decreases s.len(),
{
    if s.len() > 0 {
        let rest = s.drop_first();
        assert(s =~= seq![s[0]] + rest);
        crate::offsets::unit_len_concat(seq![s[0]], rest);
        crate::offsets::byte_len_concat(seq![s[0]], rest);
        assert(seq![s[0]].drop_last() =~= Seq::<char>::empty());
        assert(unit_len(seq![s[0]]) == crate::offsets::units(s[0])) by {
            reveal_with_fuel(unit_len, 2);
        }
        assert(byte_len(seq![s[0]]) == width(s[0])) by {
            reveal_with_fuel(byte_len, 2);
        }
        past_the_end(rest, u - crate::offsets::units(s[0]));
    }
}

fn bound_shift(x: i128) -> (r: i128)
    ensures
        r == bounded_shift(x as int),
{
    if x > SHIFT_LIMIT {
        SHIFT_LIMIT
    } else if x < -SHIFT_LIMIT {
        -SHIFT_LIMIT
    } else {
        x
    }
}

fn splice_mention(u: Vec<u16>, m: &Mention, names: &StrMap<String>) -> (r: Vec<u16>)
    ensures
        r@ == with_mention(u@, m.deep_view(), names.deep_view()),
{
    let mut u = u;
    let n = u.len();
    if m.start >= n {
        return u;
    }
    let end = if m.length < n - m.start {
        m.start + m.length
    } else {
        n
    };
    let ghost before = u@;
    let text = replace_mention(names, m.uuid.as_str());
    let mut middle = encode(text.as_str());
    let mut tail = u.split_off(end);
    u.truncate(m.start);
    u.append(&mut middle);
    u.append(&mut tail);
    assert(u@ =~= with_mention(before, m.deep_view(), names.deep_view()));
    u
}

/// Replaces the placeholders of a message body by `@name`, and says which bytes
/// of the result each name takes that was put in, in the order in which the
/// mentions start.
pub fn resolve_mentions_with(
    body: &str,
    mentions: &Vec<Mention>,
    uuid_to_name: &StrMap<String>,
) -> (r: (String, Vec<(usize, usize)>))
    ensures
        r.0@ == resolved_body(body@, mentions.deep_view(), uuid_to_name.deep_view()),
        r.1@ == mention_ranges(body@, r.0@, mentions.deep_view(), uuid_to_name.deep_view()),
{
    let ghost ms = mentions.deep_view();
    let ghost names = uuid_to_name.deep_view();
    if mentions.len() == 0 {
        let none: Vec<(usize, usize)> = Vec::new();
        proof {
            filter_none(ms, |m: MentionView| m.start < unit_len(body@));
            assert(ms.take(0) =~= ms);
        }
        assert(none@ =~= mention_ranges(body@, body@, ms, names));
        return (body.to_string(), none);
    }
    let down = sort_mentions(mentions, true);
    let mut u = encode(body);
    let mut i: usize = 0;
    let ghost start = u@;
    let ghost sorted = down.deep_view();
    assert(sorted.take(0) =~= Seq::<MentionView>::empty());
    while i < down.len()
        invariant
            i <= down@.len(),
            sorted == down.deep_view(),
            names == uuid_to_name.deep_view(),
            u@ == with_mentions(start, sorted.take(i as int), names),
        decreases down@.len() - i,
    {
        u = splice_mention(u, &down[i], uuid_to_name);
        assert(sorted.take(i + 1).drop_last() =~= sorted.take(i as int));
        i += 1;
    }
    assert(sorted.take(sorted.len() as int) =~= sorted);
    let resolved = decode_lossy(&u);
    let up = sort_mentions(&find_put_in(body, mentions), false);
    let ghost rising = up.deep_view();
    let mut ranges: Vec<(usize, usize)> = Vec::new();
    let mut shift: i128 = 0;
    let mut k: usize = 0;
    while k < up.len()
        invariant
            k <= up@.len(),
            rising == up.deep_view(),
            names == uuid_to_name.deep_view(),
            shift == shift_after(rising, names, k as int),
            -SHIFT_LIMIT <= shift <= SHIFT_LIMIT,
            ranges@.len() == k,
            forall|j: int|
                0 <= j < k ==> #[trigger] ranges@[j] == mention_range(resolved@, rising, names, j),
        decreases up@.len() - k,
    {
        let m = &up[k];
        assert(rising[k as int] == up@[k as int].deep_view());
        let text = replace_mention(uuid_to_name, m.uuid.as_str());
        let n = crate::offsets::text_units(text.as_str());
        let from: i128 = m.start as i128 + shift;
        ranges.push(
            (
                unit_offset(resolved.as_str(), from),
                unit_offset(resolved.as_str(), from + n as i128),
            ),
        );
        shift = bound_shift(shift + n as i128 - m.length as i128);
        k += 1;
    }
    assert(ranges@ =~= mention_ranges(body@, resolved@, ms, names));
    (resolved, ranges)
}

// ---------------------------------------------------------------------------
// Where the names stand
// ---------------------------------------------------------------------------

/// Mentions in the order of their starts come out backwards from the other order.
pub proof fn falling_is_reversed(ms: Seq<MentionView>)
    requires
        forall|i: int, j: int| 0 <= i < j < ms.len() ==> (#[trigger] ms[i]).start < (
        #[trigger] ms[j]).start,
    ensures
        by_start(ms, true) == ms.reverse(),
    decreases ms.len(),
{
    if ms.len() > 0 {
        let rest = ms.drop_last();
        falling_is_reversed(rest);
        if rest.len() > 0 {
            assert(rest.reverse()[0] == ms[ms.len() - 2]);
            assert(ms[ms.len() - 2].start < ms[ms.len() - 1].start);
        }
        assert(by_start(ms, true) =~= ms.reverse());
    } else {
        assert(by_start(ms, true) =~= ms.reverse());
    }
}

/// Mentions with different starts come out backwards from the other order, whatever
/// order they are given in.
proof fn orders_are_reversed(ms: Seq<MentionView>)
    requires
        forall|i: int, j: int|
            0 <= i < j < ms.len() ==> (#[trigger] by_start(ms, false)[i]).start < (
            #[trigger] by_start(ms, false)[j]).start,
    ensures
        by_start(ms, true) == by_start(ms, false).reverse(),
    decreases ms.len(),
{
    if ms.len() > 0 {
        let rest = ms.drop_last();
        let m = ms.last();
        let up = by_start(rest, false);
        by_start_orders(rest, false);
        by_start_orders(ms, false);
        mention_slot_finds(up, m, false, 0);
        let p = mention_slot(up, m, false, 0);
        let all = by_start(ms, false);
        assert(all == up.insert(p, m));
        assert forall|i: int, j: int| 0 <= i < j < rest.len() implies (#[trigger] up[i]).start < (
        #[trigger] up[j]).start by {
            let a = if i < p {
                i
            } else {
                i + 1
            };
            let b = if j < p {
                j
            } else {
                j + 1
            };
            assert(all[a] == up[i] && all[b] == up[j]);
        }
        orders_are_reversed(rest);
        let down = up.reverse();
        mention_slot_finds(down, m, true, 0);
        let q = mention_slot(down, m, true, 0);
        assert(q == up.len() - p) by {
            if q < up.len() - p {
                assert(down[q] == up[up.len() - 1 - q]);
                if up.len() - 1 - q > p {
                    assert(up[p].start < up[up.len() - 1 - q].start);
                }
            } else if q > up.len() - p {
                assert(down[up.len() - p] == up[p - 1]);
                assert(all[p - 1] == up[p - 1] && all[p] == m);
            }
        }
        assert(down.insert(q, m) =~= all.reverse());
    } else {
        assert(by_start(ms, true) =~= by_start(ms, false).reverse());
    }
}

/// Stretches of a text that are apart and in order.
pub open spec fn spots_ok(body: Seq<char>, spots: Seq<(int, int)>) -> bool {
    &&& forall|k: int|
        0 <= k < spots.len() ==> 0 <= (#[trigger] spots[k]).0 < spots[k].1 <= body.len()
    &&& forall|j: int, k: int|
        0 <= j < k < spots.len() ==> (#[trigger] spots[j]).1 <= (#[trigger] spots[k]).0
}

/// Mentions stand for stretches of a text.
pub open spec fn mark_spots(
    body: Seq<char>,
    spots: Seq<(int, int)>,
    ms: Seq<MentionView>,
) -> bool {
    &&& ms.len() == spots.len()
    &&& forall|k: int|
        0 <= k < ms.len() ==> (#[trigger] ms[k]).start == unit_len(body.take(spots[k].0))
            && ms[k].length == unit_len(body.subrange(spots[k].0, spots[k].1))
}

/// Where the text behind the first `k` stretches begins.
pub open spec fn spot_end(spots: Seq<(int, int)>, k: int) -> int {
    if k <= 0 {
        0
    } else {
        spots[k - 1].1
    }
}

/// A text up to the end of its first `k` stretches, with a name for each.
pub open spec fn named_upto(
    body: Seq<char>,
    spots: Seq<(int, int)>,
    ms: Seq<MentionView>,
    names: NameMapView,
    k: int,
) -> Seq<char>
    decreases k, 0int,
{
    if k <= 0 {
        Seq::empty()
    } else {
        named_before(body, spots, ms, names, k - 1) + replacement(names, ms[k - 1].uuid)
    }
}

/// A text up to stretch `k`, with a name for each stretch before that.
pub open spec fn named_before(
    body: Seq<char>,
    spots: Seq<(int, int)>,
    ms: Seq<MentionView>,
    names: NameMapView,
    k: int,
) -> Seq<char>
    decreases k, 1int,
{
    named_upto(body, spots, ms, names, k) + body.subrange(spot_end(spots, k), spots[k].0)
}

/// A text with a name for each of its stretches.
pub open spec fn named_text(
    body: Seq<char>,
    spots: Seq<(int, int)>,
    ms: Seq<MentionView>,
    names: NameMapView,
) -> Seq<char> {
    let n = spots.len() as int;
    named_upto(body, spots, ms, names, n) + body.skip(spot_end(spots, n))
}

/// What follows the first `k` stretches of a text, with a name for each other.
spec fn named_tail(
    body: Seq<char>,
    spots: Seq<(int, int)>,
    ms: Seq<MentionView>,
    names: NameMapView,
    k: int,
) -> Seq<char>
    decreases spots.len() - k,
{
    if k < 0 || k >= spots.len() {
        body.skip(spot_end(spots, spots.len() as int))
    } else {
        body.subrange(spot_end(spots, k), spots[k].0) + replacement(names, ms[k].uuid)
            + named_tail(body, spots, ms, names, k + 1)
    }
}

proof fn named_parts(
    body: Seq<char>,
    spots: Seq<(int, int)>,
    ms: Seq<MentionView>,
    names: NameMapView,
    k: int,
)
    requires
        0 <= k <= spots.len(),
    ensures
        named_upto(body, spots, ms, names, k) + named_tail(body, spots, ms, names, k)
            == named_text(body, spots, ms, names),
    decreases spots.len() - k,
{
    if k < spots.len() {
        named_parts(body, spots, ms, names, k + 1);
        assert(named_upto(body, spots, ms, names, k) + named_tail(body, spots, ms, names, k)
            =~= named_upto(body, spots, ms, names, k + 1) + named_tail(
            body,
            spots,
            ms,
            names,
            k + 1,
        ));
    }
}

proof fn one_is_named(
    body: Seq<char>,
    spots: Seq<(int, int)>,
    ms: Seq<MentionView>,
    names: NameMapView,
    k: int,
)
    requires
        0 <= k < spots.len(),
        spots_ok(body, spots),
        mark_spots(body, spots, ms),
    ensures
        with_mention(
            to_units(
                body.take(spot_end(spots, k + 1)) + named_tail(body, spots, ms, names, k + 1),
            ),
            ms[k],
            names,
        ) == to_units(body.take(spot_end(spots, k)) + named_tail(body, spots, ms, names, k)),
{
    let (s, e) = spots[k];
    let from = spot_end(spots, k);
    assert(0 <= from <= s) by {
        if k > 0 {
            assert(spots[k - 1].1 <= spots[k].0);
            assert(0 <= spots[k - 1].0);
        }
    }
    let m = ms[k];
    let head = body.take(s);
    let mark = body.subrange(s, e);
    let tail = named_tail(body, spots, ms, names, k + 1);
    let said = replacement(names, m.uuid);
    assert(body.take(e) + tail =~= head + mark + tail);
    assert(body.take(from) + named_tail(body, spots, ms, names, k) =~= head + said + tail);
    to_units_concat(head + mark, tail);
    to_units_concat(head, mark);
    to_units_concat(head + said, tail);
    to_units_concat(head, said);
    to_units_len(head);
    to_units_len(mark);
    assert(m.start == unit_len(head) && m.length == unit_len(mark));
    unit_len_covers(mark);
    let u = to_units(head + mark + tail);
    assert(u.take(m.start as int) =~= to_units(head));
    assert(u.skip(m.start + m.length) =~= to_units(tail));
    assert(with_mention(u, m, names) =~= to_units(head + said + tail));
}

/// No text has more characters than units.
proof fn unit_len_covers(s: Seq<char>)
    ensures
        s.len() <= unit_len(s),
    decreases s.len(),
{
    if s.len() > 0 {
        unit_len_covers(s.drop_last());
    }
}

proof fn all_are_named(
    body: Seq<char>,
    spots: Seq<(int, int)>,
    ms: Seq<MentionView>,
    names: NameMapView,
    j: int,
)
    requires
        0 <= j <= spots.len(),
        spots_ok(body, spots),
        mark_spots(body, spots, ms),
    ensures
        with_mentions(to_units(body), ms.reverse().take(j), names) == to_units(
            body.take(spot_end(spots, spots.len() - j)) + named_tail(
                body,
                spots,
                ms,
                names,
                spots.len() - j,
            ),
        ),
    decreases j,
{
    let n = spots.len() as int;
    let falling = ms.reverse();
    if j == 0 {
        assert(falling.take(0) =~= Seq::<MentionView>::empty());
        if n > 0 {
            assert(0 <= spots[n - 1].0 < spots[n - 1].1 <= body.len());
        }
        assert(body.take(spot_end(spots, n)) + body.skip(spot_end(spots, n)) =~= body);
    } else {
        all_are_named(body, spots, ms, names, j - 1);
        assert(falling.take(j).drop_last() =~= falling.take(j - 1));
        assert(falling.take(j).last() == ms[n - j]);
        one_is_named(body, spots, ms, names, n - j);
    }
}

/// The starts of mentions that stand for stretches in order go up.
proof fn starts_go_up(body: Seq<char>, spots: Seq<(int, int)>, ms: Seq<MentionView>)
    requires
        spots_ok(body, spots),
        mark_spots(body, spots, ms),
    ensures
        forall|i: int, j: int| 0 <= i < j < ms.len() ==> (#[trigger] ms[i]).start < (
        #[trigger] ms[j]).start,
        forall|k: int| 0 <= k < ms.len() ==> (#[trigger] ms[k]).start < unit_len(body),
{
    assert forall|i: int, j: int| 0 <= i < j < ms.len() implies (#[trigger] ms[i]).start < (
    #[trigger] ms[j]).start by {
        assert(spots[i].1 <= spots[j].0 && spots[i].0 < spots[i].1 && spots[j].0 < body.len());
        let a = body.take(spots[i].0);
        let b = body.subrange(spots[i].0, spots[j].0);
        assert(body.take(spots[j].0) =~= a + b);
        unit_len_concat(a, b);
        unit_len_covers(b);
    }
    assert forall|k: int| 0 <= k < ms.len() implies (#[trigger] ms[k]).start < unit_len(body) by {
        assert(0 <= spots[k].0 < spots[k].1 <= body.len());
        let a = body.take(spots[k].0);
        let b = body.skip(spots[k].0);
        assert(body =~= a + b);
        unit_len_concat(a, b);
        unit_len_covers(b);
    }
}

/// How far the names before a stretch shift it is what is counted.
proof fn shift_is_counted(
    body: Seq<char>,
    spots: Seq<(int, int)>,
    ms: Seq<MentionView>,
    names: NameMapView,
    k: int,
)
    requires
        0 <= k <= spots.len(),
        spots_ok(body, spots),
        mark_spots(body, spots, ms),
        unit_len(body) <= usize::MAX,
        unit_len(named_text(body, spots, ms, names)) <= usize::MAX,
    ensures
        unit_len(named_upto(body, spots, ms, names, k)) == unit_len(body.take(spot_end(spots, k)))
            + shift_after(ms, names, k),
    decreases k,
{
    if k > 0 {
        shift_is_counted(body, spots, ms, names, k - 1);
        let (s, e) = spots[k - 1];
        let from = spot_end(spots, k - 1);
        assert(0 <= from <= s < e <= body.len()) by {
            if k > 1 {
                assert(spots[k - 2].1 <= spots[k - 1].0);
                assert(0 <= spots[k - 2].0);
            }
        }
        let gap = body.subrange(from, s);
        let mark = body.subrange(s, e);
        let said = replacement(names, ms[k - 1].uuid);
        let front = named_upto(body, spots, ms, names, k - 1);
        unit_len_concat(front + gap, said);
        unit_len_concat(front, gap);
        assert(body.take(e) =~= body.take(from) + gap + mark);
        unit_len_concat(body.take(from) + gap, mark);
        unit_len_concat(body.take(from), gap);
        assert(ms[k - 1].length == unit_len(mark));
        named_parts(body, spots, ms, names, k);
        unit_len_concat(
            named_upto(body, spots, ms, names, k),
            named_tail(body, spots, ms, names, k),
        );
        assert(body =~= body.take(e) + body.skip(e));
        unit_len_concat(body.take(e), body.skip(e));
    } else {
        assert(body.take(0) =~= Seq::<char>::empty());
    }
}

proof fn bodies_are_named(
    body: Seq<char>,
    spots: Seq<(int, int)>,
    ms: Seq<MentionView>,
    names: NameMapView,
)
    requires
        spots_ok(body, spots),
        mark_spots(body, spots, by_start(ms, false)),
    ensures
        resolved_body(body, ms, names) == named_text(body, spots, by_start(ms, false), names),
{
    let n = spots.len() as int;
    let up = by_start(ms, false);
    let whole = named_text(body, spots, up, names);
    by_start_orders(ms, false);
    starts_go_up(body, spots, up);
    orders_are_reversed(ms);
    all_are_named(body, spots, up, names, n);
    assert(up.reverse().take(n) =~= up.reverse());
    named_parts(body, spots, up, names, 0);
    assert(body.take(0) + named_tail(body, spots, up, names, 0) =~= whole);
    units_read_back(whole);
    if n == 0 {
        assert(whole =~= body);
    }
}

proof fn range_is_where_name_stands(
    body: Seq<char>,
    spots: Seq<(int, int)>,
    ms: Seq<MentionView>,
    names: NameMapView,
    k: int,
)
    requires
        0 <= k < spots.len(),
        spots_ok(body, spots),
        mark_spots(body, spots, ms),
        unit_len(body) <= usize::MAX,
        unit_len(named_text(body, spots, ms, names)) <= usize::MAX,
    ensures
        mention_range(named_text(body, spots, ms, names), ms, names, k) == (
            byte_len(named_before(body, spots, ms, names, k)) as usize,
            byte_len(named_upto(body, spots, ms, names, k + 1)) as usize,
        ),
{
    let whole = named_text(body, spots, ms, names);
    let front = named_upto(body, spots, ms, names, k);
    let before = named_before(body, spots, ms, names, k);
    let said = replacement(names, ms[k].uuid);
    let tail = named_tail(body, spots, ms, names, k + 1);
    let from = spot_end(spots, k);
    let (s, e) = spots[k];
    assert(0 <= from <= s < e <= body.len()) by {
        if k > 0 {
            assert(spots[k - 1].1 <= spots[k].0);
            assert(0 <= spots[k - 1].0);
        }
    }
    let gap = body.subrange(from, s);
    shift_is_counted(body, spots, ms, names, k);
    unit_len_concat(front, gap);
    assert(body.take(s) =~= body.take(from) + gap);
    unit_len_concat(body.take(from), gap);
    assert(ms[k].start == unit_len(body.take(s)));
    assert(unit_len(before) == ms[k].start + shift_after(ms, names, k));
    named_parts(body, spots, ms, names, k + 1);
    assert(whole =~= before + (said + tail));
    byte_behind(before, said + tail);
    unit_len_concat(before, said);
    assert(whole =~= (before + said) + tail);
    byte_behind(before + said, tail);
}

/// Mentions that stand for stretches of a body which are apart, listed in any order,
/// are replaced by their names, and each range is where its name stands in the
/// resolved body.
pub proof fn ranges_are_where_names_stand(
    body: Seq<char>,
    spots: Seq<(int, int)>,
    ms: Seq<MentionView>,
    names: NameMapView,
)
    requires
        spots_ok(body, spots),
        mark_spots(body, spots, by_start(ms, false)),
        unit_len(body) <= usize::MAX,
        unit_len(named_text(body, spots, by_start(ms, false), names)) <= usize::MAX,
    ensures
        resolved_body(body, ms, names) == named_text(body, spots, by_start(ms, false), names),
        mention_ranges(body, resolved_body(body, ms, names), ms, names).len() == ms.len(),
        forall|k: int|
            0 <= k < ms.len() ==> #[trigger] mention_ranges(
                body,
                resolved_body(body, ms, names),
                ms,
                names,
            )[k] == (
                byte_len(named_before(body, spots, by_start(ms, false), names, k)) as usize,
                byte_len(named_upto(body, spots, by_start(ms, false), names, k + 1)) as usize,
            ),
{
    let up = by_start(ms, false);
    let whole = named_text(body, spots, up, names);
    bodies_are_named(body, spots, ms, names);
    by_start_orders(ms, false);
    starts_go_up(body, spots, up);
    assert forall|k: int| 0 <= k < ms.len() implies (#[trigger] ms[k]).start < unit_len(body) by {
        broadcast use vstd::seq_lib::group_to_multiset_ensures;

        assert(ms.contains(ms[k]));
        assert(up.to_multiset().contains(ms[k]));
        assert(up.contains(ms[k]));
    }
    filter_keeps_all(ms, |m: MentionView| m.start < unit_len(body));
    assert(put_in(body, ms) == ms);
    assert forall|k: int| 0 <= k < ms.len() implies #[trigger] mention_ranges(
        body,
        whole,
        ms,
        names,
    )[k] == (
        byte_len(named_before(body, spots, up, names, k)) as usize,
        byte_len(named_upto(body, spots, up, names, k + 1)) as usize,
    ) by {
        range_is_where_name_stands(body, spots, up, names, k);
    }
}

// ---------------------------------------------------------------------------
// Styles
// ---------------------------------------------------------------------------

/// How far an offset into the raw body is shifted by the mentions that end at
/// or before it: those from `k` on, after the first `k`.
pub open spec fn shift_from(
    ms: Seq<MentionView>,
    names: NameMapView,
    offset: int,
    k: int,
) -> int
    decreases ms.len() - k,
{
    if 0 <= k < ms.len() && offset >= ms[k].start + ms[k].length {
        shift_from(ms, names, offset, k + 1)
    } else {
        shift_after(ms, names, k)
    }
}

/// The byte of the resolved body that an offset into the raw body has become.
pub open spec fn moved_byte(
    resolved: Seq<char>,
    ms: Seq<MentionView>,
    names: NameMapView,
    offset: int,
) -> int {
    byte_of_unit(resolved, offset + shift_from(ms, names, offset, 0))
}

/// The styled bytes of a resolved body, for the styles of a raw one. Styles
/// that cover nothing are left out.
pub open spec fn style_ranges(
    resolved: Seq<char>,
    styles: Seq<TextStyle>,
    ms: Seq<MentionView>,
    names: NameMapView,
) -> Seq<(usize, usize, StyleType)>
    decreases styles.len(),
{
    if styles.len() == 0 {
        Seq::empty()
    } else {
        let before = style_ranges(resolved, styles.drop_last(), ms, names);
        let t = styles.last();
        let a = moved_byte(resolved, by_start(ms, false), names, t.start as int);
        let b = moved_byte(resolved, by_start(ms, false), names, t.start + t.length);
        if a < b {
            before.push((a as usize, b as usize, t.style))
        } else {
            before
        }
    }
}

fn move_offset(
    resolved: &str,
    up: &Vec<Mention>,
    names: &StrMap<String>,
    offset: i128,
) -> (r: usize)
    requires
        0 <= offset <= 2 * usize::MAX,
    ensures
        r == moved_byte(resolved@, up.deep_view(), names.deep_view(), offset as int),
        r <= byte_len(resolved@),
{
    let ghost ms = up.deep_view();
    let mut shift: i128 = 0;
    let mut k: usize = 0;
    while k < up.len() && offset >= up[k].start as i128 + up[k].length as i128
        invariant
            k <= up@.len(),
            ms == up.deep_view(),
            0 <= offset <= 2 * usize::MAX,
            shift == shift_after(ms, names.deep_view(), k as int),
            -SHIFT_LIMIT <= shift <= SHIFT_LIMIT,
            shift_from(ms, names.deep_view(), offset as int, 0) == shift_from(
                ms,
                names.deep_view(),
                offset as int,
                k as int,
            ),
        decreases up@.len() - k,
    {
        let m = &up[k];
        assert(ms[k as int] == up@[k as int].deep_view());
        let text = replace_mention(names, m.uuid.as_str());
        let n = crate::offsets::text_units(text.as_str());
        shift = bound_shift(shift + n as i128 - m.length as i128);
        k += 1;
    }
    assert(k < up@.len() ==> ms[k as int] == up@[k as int].deep_view());
    unit_offset(resolved, offset + shift)
}

/// Turns the styled stretches of a raw body, given in UTF-16 units, into byte
/// ranges of the body with its mentions replaced.
pub fn resolve_text_styles_with(
    resolved_body: &str,
    text_styles: &Vec<TextStyle>,
    mentions: &Vec<Mention>,
    uuid_to_name: &StrMap<String>,
) -> (r: Vec<(usize, usize, StyleType)>)
    ensures
        r@ == style_ranges(
            resolved_body@,
            text_styles@,
            mentions.deep_view(),
            uuid_to_name.deep_view(),
        ),
{
    let ghost ms = mentions.deep_view();
    let ghost names = uuid_to_name.deep_view();
    let mut r: Vec<(usize, usize, StyleType)> = Vec::new();
    let up = sort_mentions(mentions, false);
    let mut i: usize = 0;
    assert(text_styles@.take(0) =~= Seq::<TextStyle>::empty());
    while i < text_styles.len()
        invariant
            i <= text_styles@.len(),
            up.deep_view() == by_start(ms, false),
            names == uuid_to_name.deep_view(),
            r@ == style_ranges(resolved_body@, text_styles@.take(i as int), ms, names),
        decreases text_styles@.len() - i,
    {
        let t = text_styles[i];
        let a = move_offset(resolved_body, &up, uuid_to_name, t.start as i128);
        let b = move_offset(
            resolved_body,
            &up,
            uuid_to_name,
            t.start as i128 + t.length as i128,
        );
        assert(text_styles@.take(i + 1).drop_last() =~= text_styles@.take(i as int));
        if a < b {
            r.push((a, b, t.style));
        }
        i += 1;
    }
    assert(text_styles@.take(text_styles@.len() as int) =~= text_styles@);
    r
}

} // verus!
