//! The order of texts, and stable sorting by it.
use crate::text::{folded, to_lower, to_chars};
use vstd::prelude::*;

verus! {

/// `a` comes before `b` or equals it, character by character in the order of
/// their code points. The order of `str`, which compares bytes, is the same.
pub open spec fn text_le(a: Seq<char>, b: Seq<char>) -> bool
    decreases a.len(),
{
    if a.len() == 0 {
        true
    } else if b.len() == 0 {
        false
    } else if a[0] == b[0] {
        text_le(a.drop_first(), b.drop_first())
    } else {
        a[0] < b[0]
    }
}

/// Whether one text comes before another or equals it.
pub fn text_at_most(a: &str, b: &str) -> (r: bool)
    ensures
        r == text_le(a@, b@),
{
    let av = to_chars(a);
    let bv = to_chars(b);
    let mut i: usize = 0;
    assert(av@.subrange(0, av@.len() as int) =~= av@);
    assert(bv@.subrange(0, bv@.len() as int) =~= bv@);
    while i < av.len()
        invariant
            i <= av@.len(),
            i <= bv@.len(),
            av@ == a@,
            bv@ == b@,
            text_le(av@, bv@) == text_le(
                av@.subrange(i as int, av@.len() as int),
                bv@.subrange(i as int, bv@.len() as int),
            ),
        decreases av@.len() - i,
    {
        let ghost ar = av@.subrange(i as int, av@.len() as int);
        let ghost br = bv@.subrange(i as int, bv@.len() as int);
        assert(ar[0] == av@[i as int]);
        if i >= bv.len() {
            assert(!text_le(ar, br));
            return false;
        }
        assert(br[0] == bv@[i as int]);
        if av[i] != bv[i] {
            assert(text_le(ar, br) == (ar[0] < br[0]));
            return av[i] < bv[i];
        }
        assert(ar.drop_first() =~= av@.subrange(i + 1, av@.len() as int));
        assert(br.drop_first() =~= bv@.subrange(i + 1, bv@.len() as int));
        i += 1;
    }
    true
}

/// Every text equals itself in this order.
pub proof fn text_le_reflexive(a: Seq<char>)
    ensures
        text_le(a, a),
    decreases a.len(),
{
    if a.len() > 0 {
        text_le_reflexive(a.drop_first());
    }
}

/// Of two texts one comes before the other or equals it.
pub proof fn text_le_total(a: Seq<char>, b: Seq<char>)
    ensures
        text_le(a, b) || text_le(b, a),
    decreases a.len(),
{
    if a.len() > 0 && b.len() > 0 && a[0] == b[0] {
        text_le_total(a.drop_first(), b.drop_first());
    }
}

/// The order is transitive.
pub proof fn text_le_transitive(a: Seq<char>, b: Seq<char>, c: Seq<char>)
    requires
        text_le(a, b),
        text_le(b, c),
    ensures
        text_le(a, c),
    decreases a.len(),
{
    if a.len() > 0 && b.len() > 0 && c.len() > 0 && a[0] == b[0] && b[0] == c[0] {
        text_le_transitive(a.drop_first(), b.drop_first(), c.drop_first());
    }
}

/// Where an item with key `k` goes in a run of keys that is in order: behind
/// the last key that is not greater.
pub open spec fn place_of(keys: Seq<Seq<char>>, k: Seq<char>) -> nat
    decreases keys.len(),
{
    if keys.len() == 0 {
        0
    } else if text_le(keys.last(), k) {
        keys.len()
    } else {
        place_of(keys.drop_last(), k)
    }
}

proof fn place_of_bound(keys: Seq<Seq<char>>, k: Seq<char>)
    ensures
        place_of(keys, k) <= keys.len(),
    decreases keys.len(),
{
    if keys.len() > 0 && !text_le(keys.last(), k) {
        place_of_bound(keys.drop_last(), k);
    }
}

/// The keys of a list of items.
pub open spec fn keys_of<T>(s: Seq<T>, key: spec_fn(T) -> Seq<char>) -> Seq<Seq<char>> {
    s.map_values(key)
}

/// A list sorted by a key; items with equal keys stay in their order.
pub open spec fn sorted_by<T>(s: Seq<T>, key: spec_fn(T) -> Seq<char>) -> Seq<T>
    decreases s.len(),
{
    if s.len() == 0 {
        s
    } else {
        let rest = sorted_by(s.drop_last(), key);
        rest.insert(place_of(keys_of(rest, key), key(s.last())) as int, s.last())
    }
}

/// The keys of a list are in order.
pub open spec fn in_order<T>(s: Seq<T>, key: spec_fn(T) -> Seq<char>) -> bool {
    forall|i: int, j: int| 0 <= i <= j < s.len() ==> text_le(key(#[trigger] s[i]), key(#[trigger] s[j]))
}

/// Sorting keeps the items: the result holds the same ones, each as often.
pub proof fn sorted_by_keeps_items<T>(s: Seq<T>, key: spec_fn(T) -> Seq<char>)
    ensures
        sorted_by(s, key).to_multiset() == s.to_multiset(),
        sorted_by(s, key).len() == s.len(),
    decreases s.len(),
{
    if s.len() > 0 {
        sorted_by_keeps_items(s.drop_last(), key);
        let rest = sorted_by(s.drop_last(), key);
        let at = place_of(keys_of(rest, key), key(s.last())) as int;
        place_of_bound(keys_of(rest, key), key(s.last()));
        broadcast use vstd::seq_lib::group_to_multiset_ensures;
        vstd::seq_lib::to_multiset_insert(rest, at, s.last());
        assert(s =~= s.drop_last().push(s.last()));
    }
}

/// Sorting puts the keys in order.
pub proof fn sorted_by_is_in_order<T>(s: Seq<T>, key: spec_fn(T) -> Seq<char>)
    ensures
        in_order(sorted_by(s, key), key),
    decreases s.len(),
{
    if s.len() > 0 {
        let rest = sorted_by(s.drop_last(), key);
        sorted_by_is_in_order(s.drop_last(), key);
        let k = key(s.last());
        place_of_splits(rest, key, k);
        place_of_bound(keys_of(rest, key), k);
        let at = place_of(keys_of(rest, key), k) as int;
        let out = sorted_by(s, key);
        assert(out == rest.insert(at, s.last()));
        assert forall|i: int, j: int| 0 <= i <= j < out.len() implies text_le(
            key(#[trigger] out[i]),
            key(#[trigger] out[j]),
        ) by {
            let a = if i < at { i } else { i - 1 };
            let b = if j < at { j } else { j - 1 };
            if i == at && j == at {
                text_le_reflexive(k);
            } else if i == at {
                assert(out[j] == rest[b]);
                text_le_total(k, key(rest[b]));
            } else if j == at {
                assert(out[i] == rest[a]);
            } else {
                assert(out[i] == rest[a]);
                assert(out[j] == rest[b]);
            }
        }
    }
}

/// The keys before the place found are not greater, those after it are.
proof fn place_of_splits<T>(s: Seq<T>, key: spec_fn(T) -> Seq<char>, k: Seq<char>)
    requires
        in_order(s, key),
    ensures
        forall|i: int|
            0 <= i < place_of(keys_of(s, key), k) ==> text_le(key(#[trigger] s[i]), k),
        forall|i: int|
            place_of(keys_of(s, key), k) <= i < s.len() ==> !text_le(key(#[trigger] s[i]), k),
    decreases s.len(),
{
    if s.len() > 0 {
        let keys = keys_of(s, key);
        if text_le(keys.last(), k) {
            assert forall|i: int| 0 <= i < s.len() implies text_le(key(#[trigger] s[i]), k) by {
                text_le_transitive(key(s[i]), key(s.last()), k);
            }
        } else {
            assert(keys.drop_last() =~= keys_of(s.drop_last(), key));
            assert forall|i: int, j: int| 0 <= i <= j < s.drop_last().len() implies text_le(
                key(#[trigger] s.drop_last()[i]),
                key(#[trigger] s.drop_last()[j]),
            ) by {
                assert(s.drop_last()[i] == s[i] && s.drop_last()[j] == s[j]);
            }
            place_of_splits(s.drop_last(), key, k);
            assert forall|i: int| 0 <= i < place_of(keys, k) implies text_le(
                key(#[trigger] s[i]),
                k,
            ) by {
                place_of_bound(keys.drop_last(), k);
                assert(s.drop_last()[i] == s[i]);
            }
            assert forall|i: int| place_of(keys, k) <= i < s.len() implies !text_le(
                key(#[trigger] s[i]),
                k,
            ) by {
                if i < s.len() - 1 {
                    assert(s.drop_last()[i] == s[i]);
                }
            }
        }
    }
}

/// The key by which lists of pairs are shown: the second text, in lower case.
pub open spec fn lower_second() -> spec_fn((Seq<char>, Seq<char>)) -> Seq<char> {
    |p: (Seq<char>, Seq<char>)| folded(p.1)
}

/// The key by which lists of completions are shown: the first text, in lower
/// case.
pub open spec fn lower_first() -> spec_fn((Seq<char>, Seq<char>)) -> Seq<char> {
    |p: (Seq<char>, Seq<char>)| folded(p.0)
}

/// The key by which files are listed: the name, in lower case.
pub open spec fn lower_name() -> spec_fn((Seq<char>, bool, u64)) -> Seq<char> {
    |p: (Seq<char>, bool, u64)| folded(p.0)
}

/// The key by which candidates for a mention are listed: the name, in lower
/// case.
pub open spec fn lower_candidate() -> spec_fn(
    (Seq<char>, Seq<char>, Option<Seq<char>>),
) -> Seq<char> {
    |p: (Seq<char>, Seq<char>, Option<Seq<char>>)| folded(p.1)
}

/// Sorting lists and taking what their items stand for can change places.
proof fn sorted_by_deep<T: DeepView>(
    s: Seq<T>,
    key: spec_fn(T) -> Seq<char>,
    deep_key: spec_fn(T::V) -> Seq<char>,
)
    requires
        forall|t: T| #[trigger] key(t) == deep_key(t.deep_view()),
    ensures
        sorted_by(s, key).map_values(|t: T| t.deep_view()) == sorted_by(
            s.map_values(|t: T| t.deep_view()),
            deep_key,
        ),
    decreases s.len(),
{
    let f = |t: T| t.deep_view();
    if s.len() == 0 {
        assert(sorted_by(s, key).map_values(f) =~= sorted_by(s.map_values(f), deep_key));
    } else {
        sorted_by_deep(s.drop_last(), key, deep_key);
        let rest = sorted_by(s.drop_last(), key);
        assert(s.map_values(f).drop_last() =~= s.drop_last().map_values(f));
        assert(keys_of(rest, key) =~= keys_of(rest.map_values(f), deep_key));
        place_of_bound(keys_of(rest, key), key(s.last()));
        assert(sorted_by(s, key).map_values(f) =~= sorted_by(s.map_values(f), deep_key));
    }
}

/// `f` computes the key `key`.
pub open spec fn computes_key<T, F: Fn(&T) -> String>(f: F, key: spec_fn(T) -> Seq<char>) -> bool {
    &&& forall|t: &T| #[trigger] f.requires((t,))
    &&& forall|t: &T, r: String| #[trigger] f.ensures((t,), r) ==> r@ == key(*t)
}

/// Puts an item into a list, behind the last one whose key is not greater.
fn insert_by_key<T, F: Fn(&T) -> String>(
    v: &mut Vec<T>,
    item: T,
    f: &F,
    Ghost(key): Ghost<spec_fn(T) -> Seq<char>>,
)
    requires
        computes_key(*f, key),
    ensures
        final(v)@ == old(v)@.insert(place_of(keys_of(old(v)@, key), key(item)) as int, item),
{
    let k = f(&item);
    let ghost keys = keys_of(v@, key);
    let mut at: usize = v.len();
    assert(keys.subrange(0, keys.len() as int) =~= keys);
    while at > 0
        invariant
            at <= v@.len(),
            keys == keys_of(v@, key),
            k@ == key(item),
            computes_key(*f, key),
            place_of(keys, k@) == place_of(keys.subrange(0, at as int), k@),
        ensures
            at <= v@.len(),
            at == place_of(keys, k@),
        decreases at,
    {
        let other = f(&v[at - 1]);
        assert(keys.subrange(0, at as int).last() == other@);
        if text_at_most(other.as_str(), k.as_str()) {
            break;
        }
        assert(keys.subrange(0, at as int).drop_last() =~= keys.subrange(0, at - 1));
        at -= 1;
    }
    v.insert(at, item);
}

/// Sorts items by a key; items with equal keys stay in their order.
pub(crate) fn sort_by_key<T, F: Fn(&T) -> String>(
    items: Vec<T>,
    f: F,
    Ghost(key): Ghost<spec_fn(T) -> Seq<char>>,
) -> (r: Vec<T>)
    requires
        computes_key(f, key),
    ensures
        r@ == sorted_by(items@, key),
{
    let mut rest = items;
    let mut r: Vec<T> = Vec::new();
    let ghost all = items@;
    assert(all.subrange(0, 0) =~= Seq::empty());
    while rest.len() > 0
        invariant
            rest@.len() <= all.len(),
            rest@ == all.subrange(all.len() - rest@.len(), all.len() as int),
            r@ == sorted_by(all.subrange(0, all.len() - rest@.len()), key),
            computes_key(f, key),
        decreases rest@.len(),
    {
        let ghost n = all.len() - rest@.len();
        let x = rest.remove(0);
        assert(all[n] == x);
        assert(all.subrange(0, n + 1).drop_last() =~= all.subrange(0, n));
        assert(rest@ =~= all.subrange(n + 1, all.len() as int));
        insert_by_key(&mut r, x, &f, Ghost(key));
    }
    assert(all.subrange(0, all.len() as int) =~= all);
    r
}

/// Sorts pairs by the lower case of their second text.
pub fn sort_by_lower_second(items: Vec<(String, String)>) -> (r: Vec<(String, String)>)
    ensures
        r.deep_view() == sorted_by(items.deep_view(), lower_second()),
{
    let f = |p: &(String, String)| -> (r: String)
        ensures
            r@ == folded(p.1@),
    {
        to_lower(p.1.as_str())
    };
    let ghost key = |p: (String, String)| folded(p.1@);
    let ghost all = items.deep_view();
    let ghost list = items@;
    let r = sort_by_key(items, f, Ghost(key));
    proof {
        sorted_by_deep(list, key, lower_second());
        assert(all =~= list.map_values(|t: (String, String)| t.deep_view()));
        assert(r.deep_view() =~= r@.map_values(|t: (String, String)| t.deep_view()));
    }
    r
}

/// Sorts pairs by the lower case of their first text.
pub fn sort_by_lower_first(items: Vec<(String, String)>) -> (r: Vec<(String, String)>)
    ensures
        r.deep_view() == sorted_by(items.deep_view(), lower_first()),
{
    let f = |p: &(String, String)| -> (r: String)
        ensures
            r@ == folded(p.0@),
    {
        to_lower(p.0.as_str())
    };
    let ghost key = |p: (String, String)| folded(p.0@);
    let ghost all = items.deep_view();
    let ghost list = items@;
    let r = sort_by_key(items, f, Ghost(key));
    proof {
        sorted_by_deep(list, key, lower_first());
        assert(all =~= list.map_values(|t: (String, String)| t.deep_view()));
        assert(r.deep_view() =~= r@.map_values(|t: (String, String)| t.deep_view()));
    }
    r
}

/// Sorts files by the lower case of their names.
pub fn sort_by_lower_name(items: Vec<(String, bool, u64)>) -> (r: Vec<(String, bool, u64)>)
    ensures
        r.deep_view() == sorted_by(items.deep_view(), lower_name()),
{
    let f = |p: &(String, bool, u64)| -> (r: String)
        ensures
            r@ == folded(p.0@),
    {
        to_lower(p.0.as_str())
    };
    let ghost key = |p: (String, bool, u64)| folded(p.0@);
    let ghost all = items.deep_view();
    let ghost list = items@;
    let r = sort_by_key(items, f, Ghost(key));
    proof {
        sorted_by_deep(list, key, lower_name());
        assert(all =~= list.map_values(|t: (String, bool, u64)| t.deep_view()));
        assert(r.deep_view() =~= r@.map_values(|t: (String, bool, u64)| t.deep_view()));
    }
    r
}

/// Sorts candidates for a mention by the lower case of their names.
pub fn sort_candidates(items: Vec<(String, String, Option<String>)>) -> (r: Vec<
    (String, String, Option<String>),
>)
    ensures
        r.deep_view() == sorted_by(items.deep_view(), lower_candidate()),
{
    let f = |p: &(String, String, Option<String>)| -> (r: String)
        ensures
            r@ == folded(p.1@),
    {
        to_lower(p.1.as_str())
    };
    let ghost key = |p: (String, String, Option<String>)| folded(p.1@);
    let ghost all = items.deep_view();
    let ghost list = items@;
    let r = sort_by_key(items, f, Ghost(key));
    proof {
        sorted_by_deep(list, key, lower_candidate());
        assert(all =~= list.map_values(|t: (String, String, Option<String>)| t.deep_view()));
        assert(r.deep_view() =~= r@.map_values(
            |t: (String, String, Option<String>)| t.deep_view(),
        ));
    }
    r
}

} // verus!
