//! Maps and sets keyed by text, kept as lists in which no key stands twice.
use crate::text::same;
use vstd::prelude::*;

verus! {

// ---------------------------------------------------------------------------
// Model of a map: its entries in the order in which their keys were added
// ---------------------------------------------------------------------------

/// The first entry from `i` on whose key is `k`, or the number of entries.
pub open spec fn place_from<V>(s: Seq<(Seq<char>, V)>, k: Seq<char>, i: int) -> int
    decreases s.len() - i,
{
    if i < 0 || i >= s.len() {
        s.len() as int
    } else if s[i].0 == k {
        i
    } else {
        place_from(s, k, i + 1)
    }
}

/// The entry whose key is `k`, or the number of entries.
pub open spec fn place<V>(s: Seq<(Seq<char>, V)>, k: Seq<char>) -> int {
    place_from(s, k, 0)
}

/// `k` is a key.
pub open spec fn holds<V>(s: Seq<(Seq<char>, V)>, k: Seq<char>) -> bool {
    place(s, k) < s.len()
}

/// The value of the key `k`.
pub open spec fn at<V>(s: Seq<(Seq<char>, V)>, k: Seq<char>) -> V {
    s[place(s, k)].1
}

/// The value of `k`, where it is a key.
pub open spec fn look<V>(s: Seq<(Seq<char>, V)>, k: Seq<char>) -> Option<V> {
    if holds(s, k) {
        Some(at(s, k))
    } else {
        None
    }
}

/// The map with the value of `k` set. A new key goes to the end.
pub open spec fn put<V>(s: Seq<(Seq<char>, V)>, k: Seq<char>, v: V) -> Seq<(Seq<char>, V)> {
    if holds(s, k) {
        s.update(place(s, k), (k, v))
    } else {
        s.push((k, v))
    }
}

/// The map with the value of `k` set where it had none.
pub open spec fn put_new<V>(s: Seq<(Seq<char>, V)>, k: Seq<char>, v: V) -> Seq<(Seq<char>, V)> {
    if holds(s, k) {
        s
    } else {
        s.push((k, v))
    }
}

/// The map without `k`.
pub open spec fn del<V>(s: Seq<(Seq<char>, V)>, k: Seq<char>) -> Seq<(Seq<char>, V)> {
    if holds(s, k) {
        s.remove(place(s, k))
    } else {
        s
    }
}

/// No key stands twice.
pub open spec fn distinct<V>(s: Seq<(Seq<char>, V)>) -> bool {
    forall|i: int, j: int| 0 <= i < j < s.len() ==> (#[trigger] s[i]).0 != (#[trigger] s[j]).0
}

/// What `place_from` finds.
pub proof fn place_from_finds<V>(s: Seq<(Seq<char>, V)>, k: Seq<char>, i: int)
    requires
        0 <= i <= s.len(),
    ensures
        i <= place_from(s, k, i) <= s.len(),
        place_from(s, k, i) < s.len() ==> s[place_from(s, k, i)].0 == k,
        forall|j: int| i <= j < place_from(s, k, i) ==> (#[trigger] s[j]).0 != k,
    decreases s.len() - i,
{
    if i < s.len() && s[i].0 != k {
        place_from_finds(s, k, i + 1);
    }
}

/// What `place` finds.
pub proof fn place_finds<V>(s: Seq<(Seq<char>, V)>, k: Seq<char>)
    ensures
        0 <= place(s, k) <= s.len(),
        holds(s, k) ==> s[place(s, k)].0 == k,
        forall|j: int| 0 <= j < place(s, k) ==> (#[trigger] s[j]).0 != k,
{
    place_from_finds(s, k, 0);
}

/// The first entry whose key is `k` is where `place` says.
pub proof fn place_is<V>(s: Seq<(Seq<char>, V)>, k: Seq<char>, i: int)
    requires
        0 <= i <= s.len(),
        i < s.len() ==> s[i].0 == k,
        forall|j: int| 0 <= j < i ==> (#[trigger] s[j]).0 != k,
    ensures
        place(s, k) == i,
{
    place_finds(s, k);
}

/// Setting a key gives it its value and leaves the other keys theirs.
pub proof fn look_after_put<V>(s: Seq<(Seq<char>, V)>, k: Seq<char>, v: V, other: Seq<char>)
    ensures
        look(put(s, k, v), other) == if other == k {
            Some(v)
        } else {
            look(s, other)
        },
{
    place_finds(s, k);
    place_finds(s, other);
    let t = put(s, k, v);
    if holds(s, k) {
        place_is(t, k, place(s, k));
        place_is(t, other, place(s, other));
    } else {
        place_is(t, k, s.len() as int);
        if other != k {
            if holds(s, other) {
                place_is(t, other, place(s, other));
            } else {
                place_is(t, other, t.len() as int);
            }
        }
    }
}

/// Taking a key out leaves it without a value and the other keys as they were.
pub proof fn look_after_del<V>(s: Seq<(Seq<char>, V)>, k: Seq<char>, other: Seq<char>)
    requires
        distinct(s),
    ensures
        look(del(s, k), other) == if other == k {
            None
        } else {
            look(s, other)
        },
{
    place_finds(s, k);
    place_finds(s, other);
    let t = del(s, k);
    if holds(s, k) {
        let p = place(s, k);
        if other == k {
            assert forall|j: int| 0 <= j < t.len() implies (#[trigger] t[j]).0 != k by {
                if j >= p {
                    assert(t[j] == s[j + 1]);
                }
            }
            place_is(t, k, t.len() as int);
        } else {
            let q = place(s, other);
            let r = if q > p {
                q - 1
            } else {
                q
            };
            assert forall|j: int| 0 <= j < r implies (#[trigger] t[j]).0 != other by {
                if j >= p {
                    assert(t[j] == s[j + 1]);
                }
            }
            place_is(t, other, r);
        }
    }
}

/// No operation puts a key twice into a map that holds none twice.
pub proof fn operations_keep_distinct<V>(s: Seq<(Seq<char>, V)>, k: Seq<char>, v: V)
    requires
        distinct(s),
    ensures
        distinct(put(s, k, v)),
        distinct(put_new(s, k, v)),
        distinct(del(s, k)),
{
    place_finds(s, k);
}

// ---------------------------------------------------------------------------
// Maps
// ---------------------------------------------------------------------------

/// A map from texts to values.
pub struct StrMap<T> {
    pub entries: Vec<(String, T)>,
}

impl<T: DeepView> DeepView for StrMap<T> {
    type V = Seq<(Seq<char>, T::V)>;

    open spec fn deep_view(&self) -> Seq<(Seq<char>, T::V)> {
        self.entries.deep_view()
    }
}

impl<T: DeepView> StrMap<T> {
    /// The map with no entries.
    pub fn new() -> (r: Self)
        ensures
            r.deep_view() == Seq::<(Seq<char>, T::V)>::empty(),
    {
        let r = StrMap { entries: Vec::new() };
        assert(r.deep_view() =~= Seq::<(Seq<char>, T::V)>::empty());
        r
    }

    /// How many keys there are.
    pub fn len(&self) -> (r: usize)
        ensures
            r == self.deep_view().len(),
    {
        self.entries.len()
    }

    /// Where a key stands in the list.
    pub fn find(&self, k: &str) -> (r: Option<usize>)
        ensures
            match r {
                Some(i) => holds(self.deep_view(), k@) && i == place(self.deep_view(), k@) && i
                    < self.entries@.len() && self.entries@[i as int].0@ == k@
                    && self.entries@[i as int].1.deep_view() == at(self.deep_view(), k@),
                None => !holds(self.deep_view(), k@),
            },
    {
        let ghost s = self.deep_view();
        let mut i: usize = 0;
        while i < self.entries.len() && !same(self.entries[i].0.as_str(), k)
            invariant
                i <= self.entries@.len(),
                s == self.deep_view(),
                place(s, k@) == place_from(s, k@, i as int),
            decreases self.entries@.len() - i,
        {
            i += 1;
        }
        proof {
            place_finds(s, k@);
        }
        if i < self.entries.len() {
            Some(i)
        } else {
            None
        }
    }

    /// Whether a key is in the map.
    pub fn contains_key(&self, k: &str) -> (r: bool)
        ensures
            r == holds(self.deep_view(), k@),
    {
        self.find(k).is_some()
    }

    /// The value of a key.
    pub fn get(&self, k: &str) -> (r: Option<&T>)
        ensures
            match r {
                Some(v) => holds(self.deep_view(), k@) && v.deep_view() == at(self.deep_view(), k@),
                None => !holds(self.deep_view(), k@),
            },
            r.deep_view() == look(self.deep_view(), k@),
    {
        match self.find(k) {
            Some(i) => Some(&self.entries[i].1),
            None => None,
        }
    }

    /// The value of a key, to be changed in place.
    pub fn get_mut(&mut self, k: &str) -> (r: Option<&mut T>)
        ensures
            match r {
                Some(v) => holds(old(self).deep_view(), k@) && (*v).deep_view() == at(
                    old(self).deep_view(),
                    k@,
                ) && final(self).deep_view() == put(
                    old(self).deep_view(),
                    k@,
                    (*final(v)).deep_view(),
                ),
                None => !holds(old(self).deep_view(), k@) && *final(self) == *old(self),
            },
    {
        match self.find(k) {
            Some(i) => {
                proof {
                    let e = self.entries;
                    assert forall|w: Vec<(String, T)>, v: T|
                        w@ == e@.update(i as int, (e@[i as int].0, v)) implies #[trigger] w.deep_view()
                        == put(e.deep_view(), k@, #[trigger] v.deep_view()) by {
                        assert(w.deep_view() =~= put(e.deep_view(), k@, v.deep_view()));
                    }
                }
                Some(&mut self.entries[i].1)
            },
            None => None,
        }
    }

    /// Sets the value of a key.
    pub fn insert(&mut self, k: String, v: T)
        ensures
            final(self).deep_view() == put(old(self).deep_view(), k@, v.deep_view()),
    {
        match self.find(k.as_str()) {
            Some(i) => {
                self.entries.set(i, (k, v));
            },
            None => {
                self.entries.push((k, v));
            },
        }
        assert(self.deep_view() =~= put(old(self).deep_view(), k@, v.deep_view()));
    }

    /// Sets the value of a key that has none.
    pub fn insert_new(&mut self, k: String, v: T)
        ensures
            final(self).deep_view() == put_new(old(self).deep_view(), k@, v.deep_view()),
    {
        if !self.contains_key(k.as_str()) {
            self.entries.push((k, v));
            assert(self.deep_view() =~= put_new(old(self).deep_view(), k@, v.deep_view()));
        }
    }

    /// Takes a key out and returns its value.
    pub fn remove(&mut self, k: &str) -> (r: Option<T>)
        ensures
            final(self).deep_view() == del(old(self).deep_view(), k@),
            r.deep_view() == look(old(self).deep_view(), k@),
    {
        match self.find(k) {
            Some(i) => {
                let (name, value) = self.entries.remove(i);
                assert(self.deep_view() =~= del(old(self).deep_view(), k@));
                Some(value)
            },
            None => None,
        }
    }
}

// ---------------------------------------------------------------------------
// Sets
// ---------------------------------------------------------------------------

/// A set of texts.
pub struct StrSet {
    pub items: Vec<String>,
}

impl DeepView for StrSet {
    type V = Set<Seq<char>>;

    open spec fn deep_view(&self) -> Set<Seq<char>> {
        Set::new(|k: Seq<char>| listed(self.items@, k))
    }
}

/// `k` is item `i`.
pub open spec fn text_at(s: Seq<String>, k: Seq<char>, i: int) -> bool {
    0 <= i < s.len() && s[i]@ == k
}

/// `k` is one of the items.
pub open spec fn listed(s: Seq<String>, k: Seq<char>) -> bool {
    exists|i: int| text_at(s, k, i)
}

impl StrSet {
    /// The set with no items.
    pub fn new() -> (r: StrSet)
        ensures
            r.deep_view() == Set::<Seq<char>>::empty(),
    {
        let r = StrSet { items: Vec::new() };
        assert(r.deep_view() =~= Set::<Seq<char>>::empty());
        r
    }

    /// Whether a text is in the set.
    pub fn contains(&self, k: &str) -> (r: bool)
        ensures
            r == self.deep_view().contains(k@),
    {
        let mut i: usize = 0;
        while i < self.items.len()
            invariant
                i <= self.items@.len(),
                forall|j: int| 0 <= j < i ==> (#[trigger] self.items@[j])@ != k@,
            decreases self.items@.len() - i,
        {
            if same(self.items[i].as_str(), k) {
                assert(text_at(self.items@, k@, i as int));
                return true;
            }
            i += 1;
        }
        false
    }

    /// Puts a text into the set.
    pub fn insert(&mut self, k: String)
        ensures
            final(self).deep_view() == old(self).deep_view().insert(k@),
    {
        if !self.contains(k.as_str()) {
            self.items.push(k);
            proof {
                let old_items = old(self).items@;
                assert forall|x: Seq<char>| #[trigger]
                    self.deep_view().contains(x) == old(self).deep_view().insert(k@).contains(x) by {
                    if old(self).deep_view().contains(x) {
                        let i = choose|i: int| text_at(old_items, x, i);
                        assert(text_at(self.items@, x, i));
                    }
                    if x == k@ {
                        assert(text_at(self.items@, x, old_items.len() as int));
                    }
                    if self.deep_view().contains(x) {
                        let i = choose|i: int| text_at(self.items@, x, i);
                        if i < old_items.len() {
                            assert(text_at(old_items, x, i));
                        }
                    }
                }
            }
        }
        assert(self.deep_view() =~= old(self).deep_view().insert(k@));
    }

    /// Takes a text out of the set.
    pub fn remove(&mut self, k: &str)
        ensures
            final(self).deep_view() == old(self).deep_view().remove(k@),
    {
        let ghost before = self.items@;
        let mut kept: Vec<String> = Vec::new();
        let mut i: usize = 0;
        while i < self.items.len()
            invariant
                i <= self.items@.len(),
                self.items@ == before,
                forall|j: int| 0 <= j < kept@.len() ==> (#[trigger] kept@[j])@ != k@,
                forall|x: Seq<char>|
                    #[trigger] listed(kept@, x) <==> x != k@ && listed(before.take(i as int), x),
            decreases self.items@.len() - i,
        {
            let ghost kept_before = kept@;
            if !same(self.items[i].as_str(), k) {
                kept.push(self.items[i].clone());
            }
            proof {
                assert forall|x: Seq<char>|
                    #[trigger] listed(kept@, x) <==> x != k@ && listed(before.take(i + 1), x) by {
                    if listed(kept@, x) {
                        let j = choose|j: int| #[trigger] text_at(kept@, x, j);
                        if j < kept_before.len() {
                            assert(text_at(kept_before, x, j));
                            assert(listed(kept_before, x));
                            let m = choose|m: int| #[trigger] text_at(before.take(i as int), x, m);
                            assert(text_at(before.take(i + 1), x, m));
                        } else {
                            assert(text_at(before.take(i + 1), x, i as int));
                        }
                    }
                    if x != k@ && listed(before.take(i + 1), x) {
                        let j = choose|j: int| #[trigger] text_at(before.take(i + 1), x, j);
                        if j < i {
                            assert(text_at(before.take(i as int), x, j));
                            assert(listed(kept_before, x));
                            let m = choose|m: int| #[trigger] text_at(kept_before, x, m);
                            assert(text_at(kept@, x, m));
                        } else {
                            assert(text_at(kept@, x, kept@.len() - 1));
                        }
                    }
                }
            }
            i += 1;
        }
        assert(before.take(before.len() as int) =~= before);
        self.items = kept;
        assert(self.deep_view() =~= old(self).deep_view().remove(k@));
    }
}

} // verus!
