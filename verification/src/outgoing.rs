//! Messages that one sends: what goes over the wire, and what is shown.
use crate::app::{App, AppView};
use crate::offsets::{byte_len, byte_len_concat, byte_of, text_units, unit_len};
use crate::signal::Duplicate;
use crate::startup::{find_text_in, first_from};
use crate::strmap::at;
use crate::text::{concat2, from_range, matches_at, occurs_at, push_text, to_chars};
use vstd::prelude::*;

verus! {

// ---------------------------------------------------------------------------
// Mentions
// ---------------------------------------------------------------------------

/// What stands in a message in place of a mention.
pub const PLACEHOLDER: char = '\u{FFFC}';

/// A mention in a text: where it stands, and whom it means.
pub struct Claim {
    pub start: usize,
    pub end: usize,
    pub uuid: String,
}

/// What a [`Claim`] stands for.
pub struct ClaimView {
    pub start: usize,
    pub end: usize,
    pub uuid: Seq<char>,
}

impl DeepView for Claim {
    type V = ClaimView;

    open spec fn deep_view(&self) -> ClaimView {
        ClaimView { start: self.start, end: self.end, uuid: self.uuid@ }
    }
}

/// A place in a text is part of no mention yet.
pub open spec fn is_free(claims: Seq<ClaimView>, start: int, end: int) -> bool {
    forall|k: int|
        0 <= k < claims.len() ==> end <= (#[trigger] claims[k]).start || claims[k].end <= start
}

/// The first place from `i` on where a text stands that is part of no mention
/// yet.
pub open spec fn first_free(s: Seq<char>, p: Seq<char>, claims: Seq<ClaimView>, i: int) -> Option<
    int,
>
    decreases s.len() + 1 - i,
{
    if i < 0 || i > s.len() {
        None
    } else if occurs_at(s, p, i) && is_free(claims, i, i + p.len()) {
        Some(i)
    } else {
        first_free(s, p, claims, i + 1)
    }
}

/// How many of the first `n` mentions stand before a place.
pub open spec fn claims_before(claims: Seq<ClaimView>, start: int, n: int) -> int
    decreases n,
{
    if n <= 0 {
        0
    } else if claims[n - 1].start < start {
        n
    } else {
        claims_before(claims, start, n - 1)
    }
}

/// The mentions in a text, in order: of each name that was completed and whose
/// uuid is known, the first place where it stands behind an `@`.
pub open spec fn mentions_found(
    s: Seq<char>,
    pending: Seq<(Seq<char>, Option<Seq<char>>)>,
    n: int,
) -> Seq<ClaimView>
    decreases n,
{
    if n <= 0 {
        Seq::empty()
    } else {
        let before = mentions_found(s, pending, n - 1);
        let (name, uuid) = pending[n - 1];
        let p = "@"@ + name;
        match uuid {
            Some(u) => match first_free(s, p, before, 0) {
                Some(i) => before.insert(
                    claims_before(before, i, before.len() as int),
                    ClaimView { start: i as usize, end: (i + p.len()) as usize, uuid: u },
                ),
                None => before,
            },
            None => before,
        }
    }
}

/// Where the text behind the first `k` mentions begins.
pub open spec fn behind(claims: Seq<ClaimView>, k: int) -> int {
    if k <= 0 {
        0
    } else {
        claims[k - 1].end as int
    }
}

/// A text up to the end of its first `k` mentions, with a placeholder for each.
pub open spec fn wire_upto(s: Seq<char>, claims: Seq<ClaimView>, k: int) -> Seq<char>
    decreases k, 0int,
{
    if k <= 0 {
        Seq::empty()
    } else {
        wire_before(s, claims, k - 1).push(PLACEHOLDER)
    }
}

/// A text up to mention `k`, with a placeholder for each mention before that.
pub open spec fn wire_before(s: Seq<char>, claims: Seq<ClaimView>, k: int) -> Seq<char>
    decreases k, 1int,
{
    wire_upto(s, claims, k) + s.subrange(behind(claims, k), claims[k].start as int)
}

/// A text with a placeholder for each of its mentions.
pub open spec fn wire_text(s: Seq<char>, claims: Seq<ClaimView>) -> Seq<char> {
    wire_upto(s, claims, claims.len() as int) + s.skip(behind(claims, claims.len() as int))
}

/// The mentions of a text as they are sent: where the placeholder of each stands
/// in the text that is sent, in units of UTF-16, and whom it means.
pub open spec fn wire_mentions(s: Seq<char>, claims: Seq<ClaimView>) -> Seq<(usize, Seq<char>)> {
    Seq::new(
        claims.len(),
        |k: int| (unit_len(wire_before(s, claims, k)) as usize, claims[k].uuid),
    )
}

/// The place behind the last of the first `n` names that is at least `len`
/// characters long, or 0 where none is.
pub open spec fn length_place(
    names: Seq<(Seq<char>, Option<Seq<char>>)>,
    len: nat,
    n: int,
) -> int
    decreases n,
{
    if n <= 0 {
        0
    } else if names[n - 1].0.len() >= len {
        n
    } else {
        length_place(names, len, n - 1)
    }
}

/// The names that were completed, the longest first; of two that are as long, the
/// one that was completed first.
pub open spec fn longest_first(pending: Seq<(Seq<char>, Option<Seq<char>>)>) -> Seq<
    (Seq<char>, Option<Seq<char>>),
>
    decreases pending.len(),
{
    if pending.len() == 0 {
        pending
    } else {
        let rest = longest_first(pending.drop_last());
        let last = pending.last();
        rest.insert(length_place(rest, last.0.len(), rest.len() as int), last)
    }
}

/// The mentions in a text that is sent. Longer names are looked for first, so that
/// a name which another one begins with takes no part of it.
pub open spec fn outgoing_claims(a: AppView, s: Seq<char>) -> Seq<ClaimView> {
    let p = longest_first(a.autocomplete.pending_mentions);
    mentions_found(s, p, p.len() as int)
}

proof fn length_place_bound(names: Seq<(Seq<char>, Option<Seq<char>>)>, len: nat, n: int)
    requires
        0 <= n <= names.len(),
    ensures
        0 <= length_place(names, len, n) <= n,
        length_place(names, len, n) > 0 ==> names[length_place(names, len, n) - 1].0.len() >= len,
        forall|k: int| length_place(names, len, n) <= k < n ==> (#[trigger] names[k]).0.len() < len,
    decreases n,
{
    if n > 0 && names[n - 1].0.len() < len {
        length_place_bound(names, len, n - 1);
    }
}

/// Putting the longest names first keeps the names, and no name stands before a
/// longer one.
pub proof fn longest_first_orders(pending: Seq<(Seq<char>, Option<Seq<char>>)>)
    ensures
        longest_first(pending).to_multiset() == pending.to_multiset(),
        longest_first(pending).len() == pending.len(),
        forall|j: int, k: int|
            0 <= j < k < pending.len() ==> (#[trigger] longest_first(pending)[j]).0.len() >= (
            #[trigger] longest_first(pending)[k]).0.len(),
    decreases pending.len(),
{
    if pending.len() > 0 {
        longest_first_orders(pending.drop_last());
        let rest = longest_first(pending.drop_last());
        let last = pending.last();
        let at = length_place(rest, last.0.len(), rest.len() as int);
        length_place_bound(rest, last.0.len(), rest.len() as int);
        broadcast use vstd::seq_lib::group_to_multiset_ensures;
        vstd::seq_lib::to_multiset_insert(rest, at, last);
        assert(pending =~= pending.drop_last().push(last));
        let all = rest.insert(at, last);
        assert forall|j: int, k: int| 0 <= j < k < pending.len() implies (
        #[trigger] all[j]).0.len() >= (#[trigger] all[k]).0.len() by {
            if j < at {
                assert(all[j] == rest[j]);
                if k == at && j < at - 1 {
                    assert(rest[j].0.len() >= rest[at - 1].0.len());
                } else if k > at {
                    assert(all[k] == rest[k - 1]);
                } else if k < at {
                    assert(all[k] == rest[k]);
                }
            } else {
                assert(all[k] == rest[k - 1]);
                if j > at {
                    assert(all[j] == rest[j - 1]);
                }
            }
        }
    }
}

/// Every name that is looked for was completed.
pub proof fn longest_first_holds(pending: Seq<(Seq<char>, Option<Seq<char>>)>, k: int)
    requires
        0 <= k < pending.len(),
    ensures
        longest_first(pending).len() == pending.len(),
        pending.contains(longest_first(pending)[k]),
{
    longest_first_orders(pending);
    broadcast use vstd::seq_lib::group_to_multiset_ensures;
    let x = longest_first(pending)[k];
    assert(longest_first(pending).contains(x));
    assert(pending.to_multiset().contains(x));
}

/// Mentions are in order and apart, and within a text.
pub open spec fn claims_ok(claims: Seq<ClaimView>, len: int) -> bool {
    &&& forall|k: int|
        0 <= k < claims.len() ==> (#[trigger] claims[k]).start < claims[k].end && claims[k].end
            <= len
    &&& forall|j: int, k: int|
        0 <= j < k < claims.len() ==> (#[trigger] claims[j]).end <= (#[trigger] claims[k]).start
}

/// The place that is found is one where the text stands, and free.
pub proof fn first_free_finds(s: Seq<char>, p: Seq<char>, claims: Seq<ClaimView>, i: int)
    requires
        0 <= i,
    ensures
        match first_free(s, p, claims, i) {
            Some(f) => i <= f && occurs_at(s, p, f) && is_free(claims, f, f + p.len()),
            None => true,
        },
    decreases s.len() + 1 - i,
{
    if i <= s.len() && !(occurs_at(s, p, i) && is_free(claims, i, i + p.len())) {
        first_free_finds(s, p, claims, i + 1);
    }
}

/// The mentions before a place are those that start before it.
pub proof fn claims_before_bound(claims: Seq<ClaimView>, start: int, n: int)
    requires
        0 <= n <= claims.len(),
    ensures
        0 <= claims_before(claims, start, n) <= n,
        claims_before(claims, start, n) > 0 ==> claims[claims_before(claims, start, n) - 1].start
            < start,
        forall|k: int|
            claims_before(claims, start, n) <= k < n ==> (#[trigger] claims[k]).start >= start,
    decreases n,
{
    if n > 0 && claims[n - 1].start >= start {
        claims_before_bound(claims, start, n - 1);
    }
}

proof fn claim_keeps_ok(claims: Seq<ClaimView>, c: ClaimView, len: int)
    requires
        claims_ok(claims, len),
        c.start < c.end <= len,
        is_free(claims, c.start as int, c.end as int),
    ensures
        claims_ok(
            claims.insert(claims_before(claims, c.start as int, claims.len() as int), c),
            len,
        ),
{
    let at = claims_before(claims, c.start as int, claims.len() as int);
    claims_before_bound(claims, c.start as int, claims.len() as int);
    let t = claims.insert(at, c);
    assert forall|j: int, k: int| 0 <= j < k < t.len() implies (#[trigger] t[j]).end <= (
    #[trigger] t[k]).start by {
        if j < at {
            assert(t[j] == claims[j]);
            if k < at {
                assert(t[k] == claims[k]);
            } else if k > at {
                assert(t[k] == claims[k - 1]);
            } else {
                assert(claims[at - 1].start < c.start);
                assert(claims[at - 1].end <= c.start);
                if j < at - 1 {
                    assert(claims[j].end <= claims[at - 1].start);
                }
            }
        } else if j == at {
            assert(t[k] == claims[k - 1]);
            assert(claims[k - 1].start >= c.start);
        } else {
            assert(t[j] == claims[j - 1]);
            assert(t[k] == claims[k - 1]);
        }
    }
    assert forall|k: int| 0 <= k < t.len() implies (#[trigger] t[k]).start < t[k].end && t[k].end
        <= len by {
        if k < at {
            assert(t[k] == claims[k]);
        } else if k > at {
            assert(t[k] == claims[k - 1]);
        }
    }
}

/// The mentions that are found are in order and apart, and within the text.
pub proof fn mentions_found_ok(
    s: Seq<char>,
    pending: Seq<(Seq<char>, Option<Seq<char>>)>,
    n: int,
)
    requires
        0 <= n <= pending.len(),
        s.len() <= usize::MAX,
    ensures
        claims_ok(mentions_found(s, pending, n), s.len() as int),
    decreases n,
{
    if n > 0 {
        mentions_found_ok(s, pending, n - 1);
        let before = mentions_found(s, pending, n - 1);
        let (name, uuid) = pending[n - 1];
        let p = "@"@ + name;
        reveal_strlit("@");
        if uuid is Some && first_free(s, p, before, 0) is Some {
            let i = first_free(s, p, before, 0)->0;
            first_free_finds(s, p, before, 0);
            let c = ClaimView { start: i as usize, end: (i + p.len()) as usize, uuid: uuid->0 };
            claim_keeps_ok(before, c, s.len() as int);
        }
    }
}

fn place_is_free(claims: &Vec<Claim>, start: usize, end: usize) -> (r: bool)
    ensures
        r == is_free(claims.deep_view(), start as int, end as int),
{
    let ghost s = claims.deep_view();
    let mut k: usize = 0;
    while k < claims.len()
        invariant
            k <= claims@.len(),
            s == claims.deep_view(),
            forall|j: int| 0 <= j < k ==> end <= (#[trigger] s[j]).start || s[j].end <= start,
        decreases claims@.len() - k,
    {
        assert(s[k as int] == claims@[k as int].deep_view());
        if !(end <= claims[k].start || claims[k].end <= start) {
            return false;
        }
        k += 1;
    }
    true
}

fn find_free(s: &Vec<char>, p: &Vec<char>, claims: &Vec<Claim>) -> (r: Option<usize>)
    ensures
        match r {
            Some(i) => first_free(s@, p@, claims.deep_view(), 0) == Some(i as int) && i + p.len()
                <= s.len() && is_free(claims.deep_view(), i as int, i + p@.len()),
            None => first_free(s@, p@, claims.deep_view(), 0) is None,
        },
{
    let mut i: usize = 0;
    while i < s.len()
        invariant
            i <= s.len(),
            first_free(s@, p@, claims.deep_view(), 0) == first_free(
                s@,
                p@,
                claims.deep_view(),
                i as int,
            ),
        decreases s.len() - i,
    {
        if matches_at(s, p, i) && place_is_free(claims, i, i + p.len()) {
            return Some(i);
        }
        i += 1;
    }
    assert(first_free(s@, p@, claims.deep_view(), s@.len() as int + 1) is None);
    if matches_at(s, p, i) && place_is_free(claims, i, i + p.len()) {
        return Some(i);
    }
    None
}

/// Puts the longest names first.
fn by_length(pending: &Vec<(String, Option<String>)>) -> (r: Vec<(String, Option<String>)>)
    ensures
        r.deep_view() == longest_first(pending.deep_view()),
{
    let ghost pv = pending.deep_view();
    let mut out: Vec<(String, Option<String>)> = Vec::new();
    let mut n: usize = 0;
    assert(out.deep_view() =~= longest_first(pv.take(0)));
    while n < pending.len()
        invariant
            n <= pending@.len(),
            pv == pending.deep_view(),
            out.deep_view() == longest_first(pv.take(n as int)),
        decreases pending@.len() - n,
    {
        let ghost rest = out.deep_view();
        let item = pending[n].duplicate();
        let len = to_chars(item.0.as_str()).len();
        let mut at: usize = out.len();
        while at > 0 && to_chars(out[at - 1].0.as_str()).len() < len
            invariant
                at <= out@.len(),
                rest == out.deep_view(),
                length_place(rest, len as nat, rest.len() as int) == length_place(
                    rest,
                    len as nat,
                    at as int,
                ),
            decreases at,
        {
            assert(rest[at - 1] == out@[at - 1].deep_view());
            at -= 1;
        }
        proof {
            if at > 0 {
                assert(rest[at - 1] == out@[at - 1].deep_view());
            }
            assert(pv.take(n + 1).drop_last() =~= pv.take(n as int));
            assert(pv.take(n + 1).last() == item.deep_view());
        }
        let ghost view = item.deep_view();
        out.insert(at, item);
        assert(out.deep_view() =~= rest.insert(at as int, view));
        n += 1;
    }
    assert(pv.take(n as int) =~= pv);
    out
}

fn find_mentions(s: &Vec<char>, pending: &Vec<(String, Option<String>)>) -> (r: Vec<Claim>)
    ensures
        r.deep_view() == mentions_found(s@, pending.deep_view(), pending@.len() as int),
        claims_ok(r.deep_view(), s@.len() as int),
{
    let ghost pv = pending.deep_view();
    let mut out: Vec<Claim> = Vec::new();
    let mut n: usize = 0;
    assert(out.deep_view() =~= Seq::<ClaimView>::empty());
    while n < pending.len()
        invariant
            n <= pending@.len(),
            pv == pending.deep_view(),
            out.deep_view() == mentions_found(s@, pv, n as int),
            claims_ok(out.deep_view(), s@.len() as int),
        decreases pending@.len() - n,
    {
        assert(pv[n as int] == pending@[n as int].deep_view());
        if let Some(uuid) = &pending[n].1 {
            let pattern = concat2("@", pending[n].0.as_str());
            let p = to_chars(pattern.as_str());
            let ghost before = out.deep_view();
            proof {
                reveal_strlit("@");
                assert(p@.len() > 0);
            }
            if let Some(i) = find_free(s, &p, &out) {
                let mut at: usize = out.len();
                while at > 0 && out[at - 1].start >= i
                    invariant
                        at <= out@.len(),
                        before == out.deep_view(),
                        claims_before(before, i as int, before.len() as int) == claims_before(
                            before,
                            i as int,
                            at as int,
                        ),
                    decreases at,
                {
                    assert(before[at - 1] == out@[at - 1].deep_view());
                    at -= 1;
                }
                proof {
                    if at > 0 {
                        assert(before[at - 1] == out@[at - 1].deep_view());
                    }
                }
                let c = Claim { start: i, end: i + p.len(), uuid: uuid.clone() };
                proof {
                    claim_keeps_ok(before, c.deep_view(), s@.len() as int);
                }
                out.insert(at, c);
                assert(out.deep_view() =~= before.insert(at as int, c.deep_view()));
            }
        }
        n += 1;
    }
    out
}

fn write_wire(s: &Vec<char>, claims: &Vec<Claim>) -> (r: (String, Vec<(usize, String)>))
    requires
        claims_ok(claims.deep_view(), s@.len() as int),
    ensures
        r.0@ == wire_text(s@, claims.deep_view()),
        r.1.deep_view() == wire_mentions(s@, claims.deep_view()),
{
    let ghost cv = claims.deep_view();
    let ghost marks = wire_mentions(s@, cv);
    let mut out = String::new();
    let mut mentions: Vec<(usize, String)> = Vec::new();
    let mut from: usize = 0;
    let mut k: usize = 0;
    assert(out@ =~= Seq::<char>::empty());
    while k < claims.len()
        invariant
            k <= claims@.len(),
            cv == claims.deep_view(),
            marks == wire_mentions(s@, cv),
            claims_ok(cv, s@.len() as int),
            from == behind(cv, k as int),
            from <= s@.len(),
            out@ == wire_upto(s@, cv, k as int),
            mentions@.len() == k,
            forall|j: int| 0 <= j < k ==> (#[trigger] mentions@[j]).deep_view() == marks[j],
        decreases claims@.len() - k,
    {
        assert(cv[k as int] == claims@[k as int].deep_view());
        assert(k > 0 ==> cv[k - 1].end <= cv[k as int].start);
        let part = from_range(s, from, claims[k].start);
        push_text(&mut out, part.as_str());
        assert(out@ == wire_before(s@, cv, k as int));
        mentions.push((text_units(out.as_str()), claims[k].uuid.clone()));
        out.push(PLACEHOLDER);
        from = claims[k].end;
        k += 1;
    }
    let rest = from_range(s, from, s.len());
    assert(rest@ =~= s@.skip(from as int));
    push_text(&mut out, rest.as_str());
    assert(mentions.deep_view() =~= marks);
    (out, mentions)
}

/// Where nobody was mentioned the text is sent as it was typed.
pub proof fn plain_text_is_sent(a: AppView, s: Seq<char>)
    requires
        a.autocomplete.pending_mentions.len() == 0,
    ensures
        wire_text(s, outgoing_claims(a, s)) == s,
        wire_mentions(s, outgoing_claims(a, s)).len() == 0,
{
    let c = outgoing_claims(a, s);
    assert(wire_upto(s, c, 0) + s.skip(0) =~= s);
}

/// The byte ranges of the first `n` names that were completed, in a text.
pub open spec fn shown_ranges(
    s: Seq<char>,
    pending: Seq<(Seq<char>, Option<Seq<char>>)>,
    n: int,
) -> Seq<(usize, usize)>
    decreases n,
{
    if n <= 0 {
        Seq::empty()
    } else {
        let before = shown_ranges(s, pending, n - 1);
        let (name, _) = pending[n - 1];
        let p = "@"@ + name;
        match first_from(s, p, 0) {
            Some(i) => before.push(
                (
                    byte_len(s.take(i)) as usize,
                    (byte_len(s.take(i)) + byte_len(p)) as usize,
                ),
            ),
            None => before,
        }
    }
}

/// Finds the byte ranges of the names that were completed.
pub fn find_ranges(text: &str, pending: &Vec<(String, Option<String>)>) -> (r: Vec<(usize, usize)>)
    ensures
        r.deep_view() == shown_ranges(text@, pending.deep_view(), pending@.len() as int),
{
    let chars = to_chars(text);
    let ghost pv = pending.deep_view();
    let mut out: Vec<(usize, usize)> = Vec::new();
    let mut n: usize = 0;
    assert(out.deep_view() =~= Seq::<(usize, usize)>::empty());
    while n < pending.len()
        invariant
            n <= pending@.len(),
            chars@ == text@,
            pv == pending.deep_view(),
            out.deep_view() == shown_ranges(text@, pv, n as int),
        decreases pending@.len() - n,
    {
        assert(pv[n as int] == pending@[n as int].deep_view());
        let p = concat2("@", pending[n].0.as_str());
        let plen = to_chars(p.as_str()).len();
        if let Some(i) = find_text_in(&chars, p.as_str()) {
            let start = byte_of(text, &chars, i);
            let end = byte_of(text, &chars, i + plen);
            proof {
                crate::startup::first_from_finds(text@, p@, 0);
                assert(text@.take(i + plen) =~= text@.take(i as int) + p@) by {
                    assert(text@.subrange(i as int, i + p@.len()) == p@);
                    assert(text@.take(i + plen) =~= text@.take(i as int) + text@.subrange(
                        i as int,
                        i + p@.len(),
                    ));
                }
                byte_len_concat(text@.take(i as int), p@);
            }
            let ghost before = out.deep_view();
            out.push((start, end));
            assert(out.deep_view() =~= before.push((start, end)));
        }
        n += 1;
    }
    out
}

impl App {
    /// The text that is sent with a placeholder for each mention, and the
    /// mentions.
    pub fn prepare_outgoing_mentions(&self, text: &str) -> (r: (String, Vec<(usize, String)>))
        ensures
            r.0@ == wire_text(text@, outgoing_claims(self.state(), text@)),
            r.1.deep_view() == wire_mentions(text@, outgoing_claims(self.state(), text@)),
    {
        reveal(App::state);
        let chars = to_chars(text);
        let names = by_length(&self.autocomplete.pending_mentions);
        let claims = find_mentions(&chars, &names);
        write_wire(&chars, &claims)
    }
}

} // verus!
