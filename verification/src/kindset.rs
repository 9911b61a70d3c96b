//! Sets of small plain values.
use vstd::prelude::*;

verus! {

/// Plain values that can be told apart.
pub trait Kind: Copy {
    /// Whether two values are the same.
    fn is(self, other: Self) -> (r: bool)
        ensures
            r == (self == other),
    ;
}

/// A set of plain values.
pub struct KindSet<T: Kind> {
    pub items: Vec<T>,
}

impl<T: Kind> DeepView for KindSet<T> {
    type V = Set<T>;

    open spec fn deep_view(&self) -> Set<T> {
        self.items@.to_set()
    }
}

impl<T: Kind> KindSet<T> {
    /// The set with no items.
    pub fn new() -> (r: KindSet<T>)
        ensures
            r.deep_view() == Set::<T>::empty(),
    {
        let r = KindSet { items: Vec::new() };
        assert(r.deep_view() =~= Set::<T>::empty());
        r
    }

    /// Whether the set has no items.
    pub fn has_none(&self) -> (r: bool)
        ensures
            r == (self.deep_view() == Set::<T>::empty()),
    {
        if self.items.len() > 0 {
            assert(self.deep_view().contains(self.items@[0]));
            false
        } else {
            assert(self.deep_view() =~= Set::<T>::empty());
            true
        }
    }

    /// Whether an item is in the set.
    pub fn has_item(&self, k: T) -> (r: bool)
        ensures
            r == self.deep_view().contains(k),
    {
        let mut i: usize = 0;
        while i < self.items.len()
            invariant
                i <= self.items@.len(),
                forall|j: int| 0 <= j < i ==> #[trigger] self.items@[j] != k,
            decreases self.items@.len() - i,
        {
            if self.items[i].is(k) {
                assert(self.items@[i as int] == k);
                return true;
            }
            i += 1;
        }
        false
    }

    /// Puts an item into the set.
    pub fn insert(&mut self, k: T)
        ensures
            final(self).deep_view() == old(self).deep_view().insert(k),
    {
        let ghost before = self.items@;
        if !self.has_item(k) {
            self.items.push(k);
            assert forall|x: T| #[trigger]
                self.items@.contains(x) == (x == k || before.contains(x)) by {
                if before.contains(x) {
                    let i = choose|i: int| 0 <= i < before.len() && before[i] == x;
                    assert(self.items@[i] == x);
                }
                if x == k {
                    assert(self.items@[before.len() as int] == x);
                }
            }
        }
        assert(self.deep_view() =~= old(self).deep_view().insert(k));
    }

    /// Takes an item out of the set.
    pub fn remove(&mut self, k: T)
        ensures
            final(self).deep_view() == old(self).deep_view().remove(k),
    {
        let ghost before = self.items@;
        let mut kept: Vec<T> = Vec::new();
        let mut i: usize = 0;
        while i < self.items.len()
            invariant
                i <= self.items@.len(),
                self.items@ == before,
                forall|j: int| 0 <= j < kept@.len() ==> #[trigger] kept@[j] != k,
                forall|x: T| #[trigger]
                    kept@.contains(x) <==> x != k && before.take(i as int).contains(x),
            decreases self.items@.len() - i,
        {
            let ghost kept_before = kept@;
            let x = self.items[i];
            if !x.is(k) {
                kept.push(x);
            }
            proof {
                let now = before.take(i + 1);
                assert(now =~= before.take(i as int).push(x));
                assert forall|y: T| #[trigger] kept@.contains(y) <==> y != k && now.contains(y) by {
                    if kept_before.contains(y) {
                        let j = choose|j: int| 0 <= j < kept_before.len() && kept_before[j] == y;
                        assert(kept@[j] == y);
                    }
                    if before.take(i as int).contains(y) {
                        let j = choose|j: int|
                            0 <= j < i && #[trigger] before.take(i as int)[j] == y;
                        assert(now[j] == y);
                    }
                    if y == x {
                        assert(now[i as int] == y);
                        if x != k {
                            assert(kept@[kept_before.len() as int] == y);
                        }
                    }
                    if kept@.contains(y) {
                        let j = choose|j: int| 0 <= j < kept@.len() && kept@[j] == y;
                        if j < kept_before.len() {
                            assert(kept_before[j] == y);
                        }
                    }
                    if now.contains(y) {
                        let j = choose|j: int| 0 <= j < now.len() && now[j] == y;
                        if j < i {
                            assert(before.take(i as int)[j] == y);
                        }
                    }
                }
            }
            i += 1;
        }
        assert(before.take(before.len() as int) =~= before);
        self.items = kept;
        assert(self.deep_view() =~= old(self).deep_view().remove(k));
    }

    /// Puts an item into the set or takes it out.
    pub fn assign(&mut self, k: T, v: bool)
        ensures
            final(self).deep_view() == assigned(old(self).deep_view(), k, v),
    {
        if v {
            self.insert(k);
        } else {
            self.remove(k);
        }
    }

    /// A copy of the set.
    pub fn copied(&self) -> (r: KindSet<T>)
        ensures
            r.deep_view() == self.deep_view(),
    {
        let mut items: Vec<T> = Vec::new();
        let mut i: usize = 0;
        while i < self.items.len()
            invariant
                i <= self.items@.len(),
                items@ == self.items@.take(i as int),
            decreases self.items@.len() - i,
        {
            items.push(self.items[i]);
            i += 1;
        }
        assert(self.items@.take(self.items@.len() as int) =~= self.items@);
        KindSet { items }
    }

    /// Whether two sets have the same items.
    pub fn same_items(&self, other: &KindSet<T>) -> (r: bool)
        ensures
            r == (self.deep_view() == other.deep_view()),
    {
        let r = self.within(other) && other.within(self);
        if r {
            assert(self.deep_view() =~= other.deep_view());
        }
        r
    }

    fn within(&self, other: &KindSet<T>) -> (r: bool)
        ensures
            r == self.deep_view().subset_of(other.deep_view()),
    {
        let mut i: usize = 0;
        while i < self.items.len()
            invariant
                i <= self.items@.len(),
                forall|j: int|
                    0 <= j < i ==> other.deep_view().contains(#[trigger] self.items@[j]),
            decreases self.items@.len() - i,
        {
            if !other.has_item(self.items[i]) {
                assert(self.deep_view().contains(self.items@[i as int]));
                return false;
            }
            i += 1;
        }
        assert forall|x: T| self.deep_view().contains(x) implies other.deep_view().contains(x) by {
            let j = choose|j: int| 0 <= j < self.items@.len() && self.items@[j] == x;
            assert(other.deep_view().contains(self.items@[j]));
        }
        true
    }
}

/// A set with an item put in or taken out.
pub open spec fn assigned<T>(s: Set<T>, k: T, v: bool) -> Set<T> {
    if v {
        s.insert(k)
    } else {
        s.remove(k)
    }
}

} // verus!
