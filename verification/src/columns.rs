//! Sets of column indexes and maps between them.
//!
//! A column is named by its index into the metadata table. The passes hand
//! sets of such indexes down the tree ("the columns the parent needs") and
//! compute sets bottom-up ("the columns this subtree refers to"). Both
//! collections here keep their entries in increasing order of index, so
//! that walking one visits the columns in an order that depends on the set
//! alone.

use vstd::prelude::*;

verus! {

/// Each entry is smaller than every later one.
pub open spec fn strictly_increasing(s: Seq<usize>) -> bool {
    forall|i: int, j: int| 0 <= i < j < s.len() ==> s[i] < s[j]
}

/// The members of `s` below `bound`, in increasing order.
pub open spec fn ordered_below(s: Set<usize>, bound: nat) -> Seq<usize>
    decreases bound,
{
    if bound == 0 {
        Seq::empty()
    } else {
        let rest = ordered_below(s, (bound - 1) as nat);
        if bound - 1 <= usize::MAX && s.contains((bound - 1) as usize) {
            rest.push((bound - 1) as usize)
        } else {
            rest
        }
    }
}

/// The members of `s` in increasing order.
pub open spec fn ordered(s: Set<usize>) -> Seq<usize> {
    ordered_below(s, (usize::MAX + 1) as nat)
}

/// What `ordered_below` lists: exactly the members below the bound, each
/// once, in increasing order.
pub proof fn ordered_below_facts(s: Set<usize>, bound: nat)
    ensures
        strictly_increasing(ordered_below(s, bound)),
        forall|x: usize| #[trigger]
            ordered_below(s, bound).contains(x) <==> (s.contains(x) && x < bound),
    decreases bound,
{
    if bound > 0 {
        ordered_below_facts(s, (bound - 1) as nat);
        let rest = ordered_below(s, (bound - 1) as nat);
        let all = ordered_below(s, bound);
        if bound - 1 <= usize::MAX && s.contains((bound - 1) as usize) {
            let top = (bound - 1) as usize;
            assert forall|i: int, j: int| 0 <= i < j < all.len() implies all[i] < all[j] by {
                if j == all.len() - 1 {
                    assert(rest.contains(rest[i]));
                }
            }
            assert forall|x: usize| #[trigger] all.contains(x) <==> (s.contains(x) && x < bound) by {
                if all.contains(x) {
                    let i = choose|i: int| 0 <= i < all.len() && all[i] == x;
                    if i < rest.len() {
                        assert(rest.contains(x));
                    }
                }
                if s.contains(x) && x < bound {
                    if x == top {
                        assert(all[all.len() - 1] == x);
                    } else {
                        assert(rest.contains(x));
                        let i = choose|i: int| 0 <= i < rest.len() && rest[i] == x;
                        assert(all[i] == x);
                    }
                }
            }
        }
    } else {
        assert forall|x: usize| #[trigger]
            ordered_below(s, bound).contains(x) <==> (s.contains(x) && x < bound) by {
            if ordered_below(s, bound).contains(x) {
                let i = choose|i: int| 0 <= i < ordered_below(s, bound).len() && ordered_below(
                    s,
                    bound,
                )[i] == x;
            }
        }
    }
}

/// `ordered(s)` lists exactly the members of `s`, each once, in increasing
/// order.
pub proof fn ordered_facts(s: Set<usize>)
    ensures
        strictly_increasing(ordered(s)),
        ordered(s).no_duplicates(),
        forall|x: usize| #[trigger] ordered(s).contains(x) <==> s.contains(x),
        ordered(s).to_set() == s,
{
    ordered_below_facts(s, (usize::MAX + 1) as nat);
    assert(ordered(s).to_set() =~= s);
}

proof fn ordered_below_agrees(s: Set<usize>, t: Set<usize>, bound: nat)
    requires
        forall|x: usize| x < bound ==> (s.contains(x) <==> t.contains(x)),
    ensures
        ordered_below(s, bound) == ordered_below(t, bound),
    decreases bound,
{
    if bound > 0 {
        ordered_below_agrees(s, t, (bound - 1) as nat);
    }
}

proof fn increasing_is_ordered_below(v: Seq<usize>, bound: nat)
    requires
        strictly_increasing(v),
        forall|i: int| 0 <= i < v.len() ==> v[i] < bound,
    ensures
        ordered_below(v.to_set(), bound) == v,
    decreases bound,
{
    let s = v.to_set();
    if bound == 0 {
        assert(v.len() == 0) by {
            if v.len() > 0 {
                assert(v[0] < bound);
            }
        }
        assert(v =~= Seq::empty());
    } else {
        let top = (bound - 1) as nat;
        if v.len() > 0 && v.last() == top {
            let init = v.drop_last();
            assert(s.contains(v.last())) by {
                assert(v.contains(v[v.len() - 1]));
            }
            assert forall|x: usize| x < top implies (s.contains(x) <==> init.to_set().contains(
                x,
            )) by {
                if s.contains(x) {
                    let i = choose|i: int| 0 <= i < v.len() && v[i] == x;
                    assert(init[i] == x);
                    assert(init.contains(x));
                }
                if init.to_set().contains(x) {
                    let i = choose|i: int| 0 <= i < init.len() && init[i] == x;
                    assert(v[i] == x);
                    assert(v.contains(x));
                }
            }
            ordered_below_agrees(s, init.to_set(), top);
            assert forall|i: int| 0 <= i < init.len() implies init[i] < top by {
                assert(v[i] < v[v.len() - 1]);
            }
            increasing_is_ordered_below(init, top);
            assert(init.push(v.last()) =~= v);
        } else {
            assert(!(top <= usize::MAX && s.contains(top as usize))) by {
                if top <= usize::MAX && s.contains(top as usize) {
                    let i = choose|i: int| 0 <= i < v.len() && v[i] == top as usize;
                    if i < v.len() - 1 {
                        assert(v[i] < v[v.len() - 1]);
                    }
                    assert(v[v.len() - 1] < bound);
                }
            }
            assert forall|i: int| 0 <= i < v.len() implies v[i] < top by {
                assert(v[i] < bound);
                if v[i] == top {
                    assert(v.contains(v[i]));
                }
            }
            increasing_is_ordered_below(v, top);
        }
    }
}

/// An increasing sequence is the ordered listing of the set of its entries.
pub proof fn increasing_is_ordered(v: Seq<usize>)
    requires
        strictly_increasing(v),
    ensures
        ordered(v.to_set()) == v,
{
    increasing_is_ordered_below(v, (usize::MAX + 1) as nat);
}

/// A finite set of column indexes.
#[derive(Debug, PartialEq, Eq)]
pub struct ColumnSet {
    items: Vec<usize>,
}

impl View for ColumnSet {
    type V = Set<usize>;

    closed spec fn view(&self) -> Set<usize> {
        self.items@.to_set()
    }
}

impl Clone for ColumnSet {
    fn clone(&self) -> (r: ColumnSet)
        ensures
            r@ == self@,
    {
        proof {
            use_type_invariant(self);
        }
        let items = self.items.clone();
        assert(items@ =~= self.items@);
        ColumnSet { items }
    }
}

impl ColumnSet {
    #[verifier::type_invariant]
    spec fn increasing(self) -> bool {
        strictly_increasing(self.items@)
    }

    /// The empty set.
    pub fn new() -> (s: ColumnSet)
        ensures
            s@ == Set::<usize>::empty(),
    {
        let s = ColumnSet { items: Vec::new() };
        assert(s@ =~= Set::<usize>::empty());
        s
    }

    /// The number of members.
    pub fn len(&self) -> (n: usize)
        ensures
            n == self@.len(),
            self@.finite(),
    {
        proof {
            use_type_invariant(self);
            assert(self.items@.no_duplicates());
            self.items@.unique_seq_to_set();
        }
        self.items.len()
    }

    /// Whether the set has no member.
    pub fn is_empty(&self) -> (b: bool)
        ensures
            b == (self@ == Set::<usize>::empty()),
    {
        proof {
            if self.items@.len() == 0 {
                assert(self@ =~= Set::<usize>::empty());
            } else {
                assert(self.items@.contains(self.items@[0]));
                assert(self@.contains(self.items@[0]));
            }
        }
        self.items.len() == 0
    }

    /// Whether `x` is a member.
    pub fn contains(&self, x: usize) -> (b: bool)
        ensures
            b == self@.contains(x),
    {
        let mut i: usize = 0;
        while i < self.items.len()
            invariant
                i <= self.items.len(),
                forall|j: int| 0 <= j < i ==> self.items[j] != x,
            decreases self.items.len() - i,
        {
            if self.items[i] == x {
                assert(self.items@.contains(x));
                return true;
            }
            i = i + 1;
        }
        false
    }

    /// Adds `x`; tells whether it was new.
    pub fn insert(&mut self, x: usize) -> (added: bool)
        ensures
            final(self)@ == old(self)@.insert(x),
            added == !old(self)@.contains(x),
    {
        proof {
            use_type_invariant(&*self);
        }
        let mut pos: usize = 0;
        while pos < self.items.len() && self.items[pos] < x
            invariant
                pos <= self.items.len(),
                self.items == old(self).items,
                forall|j: int| 0 <= j < pos ==> self.items[j] < x,
            decreases self.items.len() - pos,
        {
            pos = pos + 1;
        }
        if pos < self.items.len() && self.items[pos] == x {
            assert(self.items@.contains(x));
            assert(self@ =~= old(self)@.insert(x));
            false
        } else {
            let ghost before = self.items@;
            assert(!before.contains(x)) by {
                if before.contains(x) {
                    let i = choose|i: int| 0 <= i < before.len() && before[i] == x;
                    if i > pos {
                        assert(before[pos as int] < before[i]);
                    }
                }
            }
            let mut grown = self.items.clone();
            assert(grown@ =~= before);
            grown.insert(pos, x);
            let ghost after = grown@;
            proof {
                assert(after == before.insert(pos as int, x));
                assert forall|i: int, j: int| 0 <= i < j < after.len() implies after[i]
                    < after[j] by {
                    if i < pos && j > pos {
                        assert(before[i] < before[j - 1]);
                    }
                    if i == pos && j > pos {
                        assert(before[pos as int] <= before[j - 1]);
                    }
                }
                assert forall|y: usize| after.to_set().contains(y) <==> before.to_set().insert(
                    x,
                ).contains(y) by {
                    if after.contains(y) {
                        let i = choose|i: int| 0 <= i < after.len() && after[i] == y;
                        if i < pos {
                            assert(before[i] == y);
                            assert(before.contains(y));
                        } else if i > pos {
                            assert(before[i - 1] == y);
                            assert(before.contains(y));
                        }
                    }
                    if before.contains(y) {
                        let i = choose|i: int| 0 <= i < before.len() && before[i] == y;
                        if i < pos {
                            assert(after[i] == y);
                        } else {
                            assert(after[i + 1] == y);
                        }
                        assert(after.contains(y));
                    }
                    if y == x {
                        assert(after[pos as int] == y);
                        assert(after.contains(y));
                    }
                }
                assert(after.to_set() =~= before.to_set().insert(x));
            }
            self.items = grown;
            true
        }
    }

    /// The members in increasing order.
    pub fn as_vec(&self) -> (v: &Vec<usize>)
        ensures
            v@ == ordered(self@),
    {
        proof {
            use_type_invariant(self);
            increasing_is_ordered(self.items@);
        }
        &self.items
    }

    /// The set of the entries of `v`.
    pub fn from_slice(v: &Vec<usize>) -> (s: ColumnSet)
        ensures
            s@ == v@.to_set(),
    {
        let mut s = ColumnSet::new();
        let mut i: usize = 0;
        while i < v.len()
            invariant
                i <= v.len(),
                s@ == v@.take(i as int).to_set(),
            decreases v.len() - i,
        {
            s.insert(v[i]);
            proof {
                let a = v@.take(i as int);
                let b = v@.take(i + 1);
                assert(b =~= a.push(v[i as int]));
                assert forall|y: usize| b.to_set().contains(y) <==> a.to_set().insert(
                    v[i as int],
                ).contains(y) by {
                    if b.contains(y) {
                        let k = choose|k: int| 0 <= k < b.len() && b[k] == y;
                        if k < a.len() {
                            assert(a[k] == y);
                            assert(a.contains(y));
                        }
                    }
                    if a.contains(y) {
                        let k = choose|k: int| 0 <= k < a.len() && a[k] == y;
                        assert(b[k] == y);
                        assert(b.contains(y));
                    }
                    if y == v[i as int] {
                        assert(b[i as int] == y);
                        assert(b.contains(y));
                    }
                }
                assert(b.to_set() =~= a.to_set().insert(v[i as int]));
            }
            i = i + 1;
        }
        assert(v@.take(v.len() as int) =~= v@);
        s
    }

    /// The members of either set.
    pub fn union(&self, other: &ColumnSet) -> (s: ColumnSet)
        ensures
            s@ == self@.union(other@),
    {
        let mut s = self.clone();
        let items = other.as_vec();
        proof {
            ordered_facts(other@);
        }
        let mut i: usize = 0;
        while i < items.len()
            invariant
                i <= items.len(),
                items@ == ordered(other@),
                forall|x: usize| #[trigger] ordered(other@).contains(x) <==> other@.contains(x),
                forall|y: usize|
                    s@.contains(y) <==> (self@.contains(y) || exists|k: int|
                        0 <= k < i && items[k] == y),
            decreases items.len() - i,
        {
            s.insert(items[i]);
            i = i + 1;
        }
        proof {
            assert forall|y: usize| s@.contains(y) <==> self@.union(other@).contains(y) by {
                if other@.contains(y) {
                    assert(items@.contains(y));
                }
                if exists|k: int| 0 <= k < i && items[k] == y {
                    let k = choose|k: int| 0 <= k < i && items[k] == y;
                    assert(items@.contains(items@[k]));
                }
            }
            assert(s@ =~= self@.union(other@));
        }
        s
    }

    /// The members of both sets.
    pub fn intersection(&self, other: &ColumnSet) -> (s: ColumnSet)
        ensures
            s@ == self@.intersect(other@),
    {
        let mut s = ColumnSet::new();
        let items = self.as_vec();
        proof {
            ordered_facts(self@);
        }
        let mut i: usize = 0;
        while i < items.len()
            invariant
                i <= items.len(),
                items@ == ordered(self@),
                forall|x: usize| #[trigger] ordered(self@).contains(x) <==> self@.contains(x),
                forall|y: usize|
                    s@.contains(y) <==> (other@.contains(y) && exists|k: int|
                        0 <= k < i && items[k] == y),
            decreases items.len() - i,
        {
            if other.contains(items[i]) {
                s.insert(items[i]);
            }
            i = i + 1;
        }
        proof {
            assert forall|y: usize| s@.contains(y) <==> self@.intersect(other@).contains(y) by {
                if self@.contains(y) {
                    assert(items@.contains(y));
                }
                if exists|k: int| 0 <= k < i && items[k] == y {
                    let k = choose|k: int| 0 <= k < i && items[k] == y;
                    assert(items@.contains(items@[k]));
                }
            }
            assert(s@ =~= self@.intersect(other@));
        }
        s
    }

    /// The members of this set that `other` lacks.
    pub fn difference(&self, other: &ColumnSet) -> (s: ColumnSet)
        ensures
            s@ == self@.difference(other@),
    {
        let mut s = ColumnSet::new();
        let items = self.as_vec();
        proof {
            ordered_facts(self@);
        }
        let mut i: usize = 0;
        while i < items.len()
            invariant
                i <= items.len(),
                items@ == ordered(self@),
                forall|x: usize| #[trigger] ordered(self@).contains(x) <==> self@.contains(x),
                forall|y: usize|
                    s@.contains(y) <==> (!other@.contains(y) && exists|k: int|
                        0 <= k < i && items[k] == y),
            decreases items.len() - i,
        {
            if !other.contains(items[i]) {
                s.insert(items[i]);
            }
            i = i + 1;
        }
        proof {
            assert forall|y: usize| s@.contains(y) <==> self@.difference(other@).contains(y) by {
                if self@.contains(y) {
                    assert(items@.contains(y));
                }
                if exists|k: int| 0 <= k < i && items[k] == y {
                    let k = choose|k: int| 0 <= k < i && items[k] == y;
                    assert(items@.contains(items@[k]));
                }
            }
            assert(s@ =~= self@.difference(other@));
        }
        s
    }

    /// Whether every member is a member of `other`.
    pub fn is_subset(&self, other: &ColumnSet) -> (b: bool)
        ensures
            b == self@.subset_of(other@),
    {
        let items = self.as_vec();
        proof {
            ordered_facts(self@);
        }
        let mut i: usize = 0;
        while i < items.len()
            invariant
                i <= items.len(),
                items@ == ordered(self@),
                forall|x: usize| #[trigger] ordered(self@).contains(x) <==> self@.contains(x),
                forall|k: int| 0 <= k < i ==> other@.contains(items[k]),
            decreases items.len() - i,
        {
            if !other.contains(items[i]) {
                assert(items@.contains(items@[i as int]));
                return false;
            }
            i = i + 1;
        }
        proof {
            assert forall|y: usize| self@.contains(y) implies other@.contains(y) by {
                assert(items@.contains(y));
            }
        }
        true
    }

    /// Whether the two sets share a member.
    pub fn intersects(&self, other: &ColumnSet) -> (b: bool)
        ensures
            b == exists|x: usize| self@.contains(x) && other@.contains(x),
    {
        let items = self.as_vec();
        proof {
            ordered_facts(self@);
        }
        let mut i: usize = 0;
        while i < items.len()
            invariant
                i <= items.len(),
                items@ == ordered(self@),
                forall|x: usize| #[trigger] ordered(self@).contains(x) <==> self@.contains(x),
                forall|k: int| 0 <= k < i ==> !other@.contains(items[k]),
            decreases items.len() - i,
        {
            if other.contains(items[i]) {
                assert(items@.contains(items@[i as int]));
                return true;
            }
            i = i + 1;
        }
        proof {
            assert forall|y: usize| self@.contains(y) implies !other@.contains(y) by {
                assert(items@.contains(y));
            }
        }
        false
    }

    /// Whether the two sets have the same members.
    pub fn same(&self, other: &ColumnSet) -> (b: bool)
        ensures
            b == (self@ == other@),
    {
        let a = self.is_subset(other);
        let b = other.is_subset(self);
        proof {
            if a && b {
                assert(self@ =~= other@);
            }
        }
        a && b
    }
}

/// The values of `m` at each key of `keys`, in the order of `keys`.
pub open spec fn values_at(m: Map<usize, usize>, keys: Seq<usize>) -> Seq<usize> {
    Seq::new(keys.len(), |i: int| m[keys[i]])
}

/// The values of `m`, in increasing order of their keys.
pub open spec fn values_by_key(m: Map<usize, usize>) -> Seq<usize> {
    values_at(m, ordered(m.dom()))
}

/// A finite map from column indexes to column indexes.
#[derive(Debug, PartialEq, Eq)]
pub struct ColumnMap {
    keys: Vec<usize>,
    values: Vec<usize>,
}

impl View for ColumnMap {
    type V = Map<usize, usize>;

    closed spec fn view(&self) -> Map<usize, usize> {
        Map::new(
            |k: usize| self.keys@.contains(k),
            |k: usize| self.values@[self.keys@.index_of(k)],
        )
    }
}

impl Clone for ColumnMap {
    fn clone(&self) -> (r: ColumnMap)
        ensures
            r@ == self@,
    {
        proof {
            use_type_invariant(self);
        }
        let keys = self.keys.clone();
        let values = self.values.clone();
        assert(keys@ =~= self.keys@);
        assert(values@ =~= self.values@);
        let r = ColumnMap { keys, values };
        assert(r@ =~= self@);
        r
    }
}

impl ColumnMap {
    #[verifier::type_invariant]
    spec fn aligned(self) -> bool {
        &&& strictly_increasing(self.keys@)
        &&& self.keys@.len() == self.values@.len()
    }

    /// The empty map.
    pub fn new() -> (m: ColumnMap)
        ensures
            m@ == Map::<usize, usize>::empty(),
    {
        let m = ColumnMap { keys: Vec::new(), values: Vec::new() };
        assert(m@ =~= Map::<usize, usize>::empty());
        m
    }

    /// Whether the map has no entry.
    pub fn is_empty(&self) -> (b: bool)
        ensures
            b == (self@ == Map::<usize, usize>::empty()),
    {
        proof {
            if self.keys@.len() == 0 {
                assert(self@ =~= Map::<usize, usize>::empty());
            } else {
                assert(self.keys@.contains(self.keys@[0]));
                assert(self@.dom().contains(self.keys@[0]));
            }
        }
        self.keys.len() == 0
    }

    /// The value at `k`, if the map has one.
    pub fn get(&self, k: usize) -> (r: Option<usize>)
        ensures
            r == if self@.dom().contains(k) {
                Some(self@[k])
            } else {
                None
            },
    {
        proof {
            use_type_invariant(self);
        }
        let mut i: usize = 0;
        while i < self.keys.len()
            invariant
                i <= self.keys.len(),
                self.keys@.len() == self.values@.len(),
                strictly_increasing(self.keys@),
                forall|j: int| 0 <= j < i ==> self.keys[j] != k,
            decreases self.keys.len() - i,
        {
            if self.keys[i] == k {
                proof {
                    assert(self.keys@.contains(k));
                    let at = self.keys@.index_of(k);
                    if at < i {
                        assert(self.keys@[at] < self.keys@[i as int]);
                    }
                    if at > i {
                        assert(self.keys@[i as int] < self.keys@[at]);
                    }
                }
                return Some(self.values[i]);
            }
            i = i + 1;
        }
        None
    }

    /// Sets the value at `k` to `v`.
    pub fn insert(&mut self, k: usize, v: usize)
        ensures
            final(self)@ == old(self)@.insert(k, v),
    {
        proof {
            use_type_invariant(&*self);
        }
        let mut pos: usize = 0;
        while pos < self.keys.len() && self.keys[pos] < k
            invariant
                pos <= self.keys.len(),
                self.keys == old(self).keys,
                self.values == old(self).values,
                forall|j: int| 0 <= j < pos ==> self.keys[j] < k,
            decreases self.keys.len() - pos,
        {
            pos = pos + 1;
        }
        let ghost keys0 = self.keys@;
        let ghost values0 = self.values@;
        let ghost before = self@;
        if pos < self.keys.len() && self.keys[pos] == k {
            let mut values = self.values.clone();
            assert(values@ =~= values0);
            values.set(pos, v);
            self.values = values;
            proof {
                assert forall|y: usize| #[trigger] keys0.contains(y) implies self@[y]
                    == before.insert(k, v)[y] by {
                    let at = keys0.index_of(y);
                    if y == k {
                        if at < pos {
                            assert(keys0[at] < keys0[pos as int]);
                        }
                        if at > pos {
                            assert(keys0[pos as int] < keys0[at]);
                        }
                    } else {
                        assert(at != pos);
                    }
                }
                assert(keys0.contains(k));
                assert(self@ =~= before.insert(k, v));
            }
        } else {
            assert(!keys0.contains(k)) by {
                if keys0.contains(k) {
                    let i = choose|i: int| 0 <= i < keys0.len() && keys0[i] == k;
                    if i > pos {
                        assert(keys0[pos as int] < keys0[i]);
                    }
                }
            }
            let mut keys = self.keys.clone();
            let mut values = self.values.clone();
            assert(keys@ =~= keys0);
            assert(values@ =~= values0);
            keys.insert(pos, k);
            values.insert(pos, v);
            let ghost keys1 = keys@;
            let ghost values1 = values@;
            proof {
                assert forall|i: int, j: int| 0 <= i < j < keys1.len() implies keys1[i]
                    < keys1[j] by {
                    if i < pos && j > pos {
                        assert(keys0[i] < keys0[j - 1]);
                    }
                    if i == pos && j > pos {
                        assert(keys0[pos as int] <= keys0[j - 1]);
                    }
                }
            }
            *self = ColumnMap { keys, values };
            proof {
                assert forall|y: usize| keys1.contains(y) <==> (keys0.contains(y) || y == k) by {
                    if keys1.contains(y) {
                        let i = choose|i: int| 0 <= i < keys1.len() && keys1[i] == y;
                        if i < pos {
                            assert(keys0[i] == y);
                            assert(keys0.contains(y));
                        } else if i > pos {
                            assert(keys0[i - 1] == y);
                            assert(keys0.contains(y));
                        }
                    }
                    if keys0.contains(y) {
                        let i = choose|i: int| 0 <= i < keys0.len() && keys0[i] == y;
                        if i < pos {
                            assert(keys1[i] == y);
                        } else {
                            assert(keys1[i + 1] == y);
                        }
                        assert(keys1.contains(y));
                    }
                    if y == k {
                        assert(keys1[pos as int] == y);
                        assert(keys1.contains(y));
                    }
                }
                assert forall|y: usize| #[trigger] keys1.contains(y) implies self@[y]
                    == before.insert(k, v)[y] by {
                    let at1 = keys1.index_of(y);
                    if y == k {
                        if at1 < pos {
                            assert(keys1[at1] < keys1[pos as int]);
                        }
                        if at1 > pos {
                            assert(keys1[pos as int] < keys1[at1]);
                        }
                    } else {
                        let at0 = keys0.index_of(y);
                        assert(keys0.contains(y));
                        let shifted = if at0 < pos {
                            at0
                        } else {
                            at0 + 1
                        };
                        assert(keys1[shifted] == y);
                        if at1 < shifted {
                            assert(keys1[at1] < keys1[shifted]);
                        }
                        if at1 > shifted {
                            assert(keys1[shifted] < keys1[at1]);
                        }
                    }
                }
                assert(self@ =~= before.insert(k, v));
            }
        }
    }

    /// Removes every entry.
    pub fn clear(&mut self)
        ensures
            final(self)@ == Map::<usize, usize>::empty(),
    {
        *self = ColumnMap::new();
    }

    /// The keys in increasing order, and beside each its value.
    pub fn entries(&self) -> (r: (&Vec<usize>, &Vec<usize>))
        ensures
            r.0@ == ordered(self@.dom()),
            r.1@ == values_by_key(self@),
    {
        proof {
            use_type_invariant(self);
            increasing_is_ordered(self.keys@);
            assert(self@.dom() =~= self.keys@.to_set());
            assert forall|i: int| 0 <= i < self.keys@.len() implies self.values@[i]
                == self@[self.keys@[i]] by {
                let y = self.keys@[i];
                assert(self.keys@.contains(y));
                let at = self.keys@.index_of(y);
                if at < i {
                    assert(self.keys@[at] < self.keys@[i]);
                }
                if at > i {
                    assert(self.keys@[i] < self.keys@[at]);
                }
            }
            assert(self.values@ =~= values_by_key(self@));
        }
        (&self.keys, &self.values)
    }
}

} // verus!
