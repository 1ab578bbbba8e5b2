//! Maps from values to values.

use crate::common::{Brackets, ListSeparator};
use crate::error::SassResult;
use crate::parse::Parser;
use crate::value::{
    all_pairs_eq, law_equality_is_reflexive, law_equality_is_symmetric, pairs_view, sem_eq,
    values_view, Value, ValueView,
};
use codemap::Span;
use vstd::prelude::*;

verus! {

/// The entries of a map, as the contracts speak of them.
pub type Entries = Seq<(ValueView, ValueView)>;

/// Whether no two keys of `m` are equal.
pub open spec fn unique_keys(m: Entries) -> bool {
    forall|i: int, j: int| 0 <= i < j < m.len() ==> !sem_eq(#[trigger] m[i].0, #[trigger] m[j].0)
}

/// Whether some key of `m` equals `key`.
pub open spec fn has_key(m: Entries, key: ValueView) -> bool {
    exists|i: int| 0 <= i < m.len() && sem_eq(#[trigger] m[i].0, key)
}

/// Whether the entry at `i` is the first of `m` whose key equals `key`.
pub open spec fn first_match(m: Entries, key: ValueView, i: int) -> bool {
    &&& 0 <= i < m.len()
    &&& sem_eq(m[i].0, key)
    &&& forall|j: int| 0 <= j < i ==> !sem_eq(#[trigger] m[j].0, key)
}

/// The map `m` after `key` was given `value`: where a key of `m` equals
/// `key`, the first such entry keeps its key and its place and takes the new
/// value; else a new entry stands at the end.
pub open spec fn inserted(m: Entries, key: ValueView, value: ValueView) -> Entries {
    if has_key(m, key) {
        let i = choose|i: int| first_match(m, key, i);
        m.update(i, (m[i].0, value))
    } else {
        m.push((key, value))
    }
}

/// The map `m` without the entries whose key equals `key`.
pub open spec fn without(m: Entries, key: ValueView) -> Entries
    decreases m.len(),
{
    if m.len() == 0 {
        m
    } else if sem_eq(m.last().0, key) {
        without(m.drop_last(), key)
    } else {
        without(m.drop_last(), key).push(m.last())
    }
}

/// The map `m` after each entry of `other` was inserted, in order.
pub open spec fn merged(m: Entries, other: Entries) -> Entries
    decreases other.len(),
{
    if other.len() == 0 {
        m
    } else {
        inserted(merged(m, other.drop_last()), other.last().0, other.last().1)
    }
}

/// The keys of `m`, in order.
pub open spec fn keys_of(m: Entries) -> Seq<ValueView> {
    Seq::new(m.len(), |i: int| m[i].0)
}

/// What the keys of `m` map to, in order.
pub open spec fn values_of(m: Entries) -> Seq<ValueView> {
    Seq::new(m.len(), |i: int| m[i].1)
}

/// The entries of `m` as lists of two elements, a key and what it maps to,
/// separated by a space.
pub open spec fn lists_of(m: Entries) -> Seq<ValueView> {
    Seq::new(
        m.len(),
        |i: int| ValueView::List(seq![m[i].0, m[i].1], ListSeparator::Space, Brackets::Bare),
    )
}

/// Every entry of `m` without the entries of `key` stands in `m`, in the
/// same order: so the keys stay unique.
proof fn lemma_without_unique(m: Entries, key: ValueView)
    requires
        unique_keys(m),
    ensures
        unique_keys(without(m, key)),
        forall|i: int|
            0 <= i < without(m, key).len() ==> exists|j: int|
                0 <= j < m.len() && m[j] == #[trigger] without(m, key)[i],
    decreases m.len(),
{
    if m.len() > 0 {
        let rest = m.drop_last();
        lemma_without_unique(rest, key);
        let w = without(rest, key);
        if !sem_eq(m.last().0, key) {
            let full = w.push(m.last());
            assert forall|i: int, j: int| 0 <= i < j < full.len() implies !sem_eq(
                #[trigger] full[i].0,
                #[trigger] full[j].0,
            ) by {
                if j == w.len() {
                    let k = choose|k: int| 0 <= k < rest.len() && rest[k] == w[i];
                    assert(m[k] == w[i]);
                    assert(!sem_eq(m[k].0, m[m.len() - 1].0));
                }
            }
            assert forall|i: int| 0 <= i < full.len() implies exists|j: int|
                0 <= j < m.len() && m[j] == #[trigger] full[i] by {
                if i < w.len() {
                    let k = choose|k: int| 0 <= k < rest.len() && rest[k] == w[i];
                    assert(m[k] == full[i]);
                } else {
                    assert(m[m.len() - 1] == full[i]);
                }
            }
        } else {
            assert forall|i: int| 0 <= i < w.len() implies exists|j: int|
                0 <= j < m.len() && m[j] == #[trigger] w[i] by {
                let k = choose|k: int| 0 <= k < rest.len() && rest[k] == w[i];
                assert(m[k] == w[i]);
            }
        }
    }
}

/// A map from values to values that keeps its entries in the order in which
/// their keys were first inserted. Keys are told apart by the language's own
/// equality, and no two keys of a map are equal.
#[derive(Debug)]
pub struct SassMap {
    pub(crate) entries: Vec<(Value, Value)>,
}

impl View for SassMap {
    type V = Seq<(ValueView, ValueView)>;

    /// The entries of the map, in order.
    closed spec fn view(&self) -> Seq<(ValueView, ValueView)>
        decreases self,
    {
        pairs_view(self.entries@)
    }
}

impl SassMap {
    #[verifier::type_invariant]
    closed spec fn keys_are_unique(self) -> bool {
        unique_keys(self@)
    }

    /// The empty map.
    pub fn new() -> (m: SassMap)
        ensures
            m@ == Seq::<(ValueView, ValueView)>::empty(),
    {
        let entries: Vec<(Value, Value)> = Vec::new();
        assert(pairs_view(entries@) =~= Seq::<(ValueView, ValueView)>::empty());
        SassMap { entries }
    }

    /// A copy with the same entries.
    pub fn duplicate(&self) -> (m: SassMap)
        ensures
            m@ == self@,
        decreases self,
    {
        proof {
            use_type_invariant(self);
        }
        let mut entries: Vec<(Value, Value)> = Vec::new();
        let mut i: usize = 0;
        while i < self.entries.len()
            invariant
                i <= self.entries.len(),
                pairs_view(entries@) =~= self@.take(i as int),
            decreases self.entries.len() - i,
        {
            let ghost before = pairs_view(entries@);
            let k = self.entries[i].0.clone();
            let v = self.entries[i].1.clone();
            entries.push((k, v));
            assert(pairs_view(entries@) =~= before.push((k@, v@)));
            i += 1;
        }
        assert(self@.take(self.entries.len() as int) =~= self@);
        SassMap { entries }
    }

    /// What the first key that equals `key` maps to, if there is such a key.
    /// The evaluator's equality never fails on two values, so neither does
    /// the search.
    pub fn get(self, key: &Value, span: Span, parser: &mut Parser) -> (r: SassResult<
        Option<Value>,
    >)
        ensures
            *final(parser) == *old(parser),
            match r {
                Ok(Some(v)) => exists|i: int| first_match(self@, key@, i) && v@ == self@[i].1,
                Ok(None) => !has_key(self@, key@),
                Err(_) => false,
            },
    {
        let mut entries = self.entries;
        let mut i: usize = 0;
        while i < entries.len()
            invariant
                i <= entries.len(),
                pairs_view(entries@) == self@,
                forall|j: int| 0 <= j < i ==> !sem_eq(#[trigger] self@[j].0, key@),
            decreases entries.len() - i,
        {
            if entries[i].0.equals(key) {
                let (_, v) = entries.remove(i);
                assert(first_match(self@, key@, i as int));
                return Ok(Some(v));
            }
            i += 1;
        }
        Ok(None)
    }

    /// Whether the two maps have equal entries in the same order.
    pub fn equals(&self, other: &SassMap) -> (r: bool)
        ensures
            r == all_pairs_eq(self@, other@),
        decreases self,
    {
        if self.entries.len() != other.entries.len() {
            return false;
        }
        let mut i: usize = 0;
        while i < self.entries.len()
            invariant
                i <= self.entries.len(),
                self.entries.len() == other.entries.len(),
                forall|j: int|
                    0 <= j < i ==> sem_eq((#[trigger] self@[j]).0, other@[j].0) && sem_eq(
                        self@[j].1,
                        other@[j].1,
                    ),
            decreases self.entries.len() - i,
        {
            if !self.entries[i].0.equals(&other.entries[i].0) || !self.entries[i].1.equals(
                &other.entries[i].1,
            ) {
                assert(!(sem_eq(self@[i as int].0, other@[i as int].0) && sem_eq(
                    self@[i as int].1,
                    other@[i as int].1,
                )));
                return false;
            }
            i += 1;
        }
        true
    }

    /// Takes out every entry whose key equals `key`.
    pub fn remove(&mut self, key: &Value)
        ensures
            final(self)@ == without(old(self)@, key@),
            unique_keys(final(self)@),
    {
        proof {
            use_type_invariant(&*self);
        }
        let mut rest: Vec<(Value, Value)> = Vec::new();
        assert(pairs_view(rest@) =~= Seq::<(ValueView, ValueView)>::empty());
        core::mem::swap(&mut self.entries, &mut rest);
        let ghost all = pairs_view(rest@);
        let mut i: usize = 0;
        while i < rest.len()
            invariant
                i <= rest.len(),
                without(pairs_view(rest@), key@) == without(all, key@),
                forall|j: int| 0 <= j < i ==> !sem_eq(#[trigger] pairs_view(rest@)[j].0, key@),
            decreases rest.len() - i,
        {
            if rest[i].0.equals(key) {
                let ghost before = pairs_view(rest@);
                rest.remove(i);
                proof {
                    assert(pairs_view(rest@) =~= before.remove(i as int));
                    lemma_without_remove(before, key@, i as int);
                }
            } else {
                i += 1;
            }
        }
        proof {
            lemma_without_none(pairs_view(rest@), key@);
            lemma_without_unique(all, key@);
        }
        self.entries = rest;
        proof {
            use_type_invariant(&*self);
        }
    }

    /// Gives `key` the value `value`, and says whether the map had a key
    /// equal to `key`. Where it had, the first such entry keeps its key and
    /// its place.
    pub fn insert(&mut self, key: Value, value: Value) -> (found: bool)
        ensures
            found == has_key(old(self)@, key@),
            final(self)@ == inserted(old(self)@, key@, value@),
            unique_keys(final(self)@),
    {
        proof {
            use_type_invariant(&*self);
        }
        let mut i: usize = 0;
        while i < self.entries.len()
            invariant
                i <= self.entries.len(),
                *self == *old(self),
                unique_keys(self@),
                forall|j: int| 0 <= j < i ==> !sem_eq(#[trigger] self@[j].0, key@),
            decreases self.entries.len() - i,
        {
            if self.entries[i].0.equals(&key) {
                let ghost before = self@;
                assert(first_match(before, key@, i as int));
                let ghost at = choose|k: int| first_match(before, key@, k);
                assert(at == i);
                let mut rest: Vec<(Value, Value)> = Vec::new();
                assert(pairs_view(rest@) =~= Seq::<(ValueView, ValueView)>::empty());
                core::mem::swap(&mut self.entries, &mut rest);
                let (k, _) = rest.remove(i);
                rest.insert(i, (k, value));
                assert(pairs_view(rest@) =~= before.update(i as int, (before[i as int].0, value@)));
                self.entries = rest;
                proof {
                    use_type_invariant(&*self);
                }
                return true;
            }
            i += 1;
        }
        let ghost before = self@;
        let mut rest: Vec<(Value, Value)> = Vec::new();
        assert(pairs_view(rest@) =~= Seq::<(ValueView, ValueView)>::empty());
        core::mem::swap(&mut self.entries, &mut rest);
        rest.push((key, value));
        assert(pairs_view(rest@) =~= before.push((key@, value@)));
        self.entries = rest;
        proof {
            use_type_invariant(&*self);
        }
        false
    }

    /// Inserts each entry of `other`, in order.
    pub fn merge(&mut self, other: SassMap)
        ensures
            final(self)@ == merged(old(self)@, other@),
            unique_keys(final(self)@),
    {
        let entries = other.entries;
        let ghost all = entries@;
        let ghost start = self@;
        for pair in it: entries
            invariant
                it.seq() == all,
                self@ == merged(start, pairs_view(all.take(it.index() as int))),
        {
            let ghost done = pairs_view(all.take(it.index() as int));
            let ghost next = pairs_view(all.take(it.index() + 1));
            let (k, v) = pair;
            assert(next.drop_last() =~= done);
            assert(next.last() == (k@, v@));
            self.insert(k, v);
        }
        assert(all.take(all.len() as int) =~= all);
        proof {
            use_type_invariant(&*self);
        }
    }

    /// Goes through the entries of the map, in order.
    pub fn iter(&self) -> (it: core::slice::Iter<'_, (Value, Value)>)
        ensures
            pairs_view(vstd::std_specs::slice::into_iter_elts(it)) == self@,
    {
        let it = self.entries.iter();
        assert(vstd::std_specs::slice::into_iter_elts(it) =~= self.entries@);
        it
    }

    /// The keys of the map, in order.
    pub fn keys(self) -> (v: Vec<Value>)
        ensures
            values_view(v@) == keys_of(self@),
            unique_keys(self@),
    {
        proof {
            use_type_invariant(&self);
        }
        let entries = self.entries;
        let ghost all = entries@;
        let mut keys: Vec<Value> = Vec::new();
        for pair in it: entries
            invariant
                it.seq() == all,
                values_view(keys@) =~= keys_of(pairs_view(all.take(it.index() as int))),
        {
            let (k, _) = pair;
            let ghost before = values_view(keys@);
            let ghost next = pairs_view(all.take(it.index() + 1));
            assert(next.drop_last() =~= pairs_view(all.take(it.index() as int)));
            assert(next.last().0 == k@);
            keys.push(k);
            assert(values_view(keys@) =~= before.push(k@));
            assert(keys_of(next) =~= keys_of(next.drop_last()).push(k@));
        }
        assert(all.take(all.len() as int) =~= all);
        keys
    }

    /// What the keys of the map map to, in order.
    pub fn values(self) -> (v: Vec<Value>)
        ensures
            values_view(v@) == values_of(self@),
    {
        let entries = self.entries;
        let ghost all = entries@;
        let mut values: Vec<Value> = Vec::new();
        for pair in it: entries
            invariant
                it.seq() == all,
                values_view(values@) =~= values_of(pairs_view(all.take(it.index() as int))),
        {
            let (_, v) = pair;
            let ghost before = values_view(values@);
            let ghost next = pairs_view(all.take(it.index() + 1));
            assert(next.drop_last() =~= pairs_view(all.take(it.index() as int)));
            assert(next.last().1 == v@);
            values.push(v);
            assert(values_view(values@) =~= before.push(v@));
            assert(values_of(next) =~= values_of(next.drop_last()).push(v@));
        }
        assert(all.take(all.len() as int) =~= all);
        values
    }

    /// The entries of the map, in order, each as a list of two elements: the
    /// key and what it maps to, separated by a space.
    pub fn as_list(self) -> (v: Vec<Value>)
        ensures
            values_view(v@) == lists_of(self@),
    {
        let entries = self.entries;
        let ghost all = entries@;
        let mut lists: Vec<Value> = Vec::new();
        for pair in it: entries
            invariant
                it.seq() == all,
                values_view(lists@) =~= lists_of(pairs_view(all.take(it.index() as int))),
        {
            let (k, v) = pair;
            let mut items: Vec<Value> = Vec::new();
            items.push(k);
            items.push(v);
            assert(values_view(items@) =~= seq![k@, v@]);
            let ghost before = values_view(lists@);
            let ghost next = pairs_view(all.take(it.index() + 1));
            assert(next.drop_last() =~= pairs_view(all.take(it.index() as int)));
            assert(next.last() == (k@, v@));
            let list = Value::List(items, ListSeparator::Space, Brackets::Bare);
            let ghost item = list@;
            lists.push(list);
            assert(values_view(lists@) =~= before.push(item));
            assert(lists_of(next) =~= lists_of(next.drop_last()).push(item));
        }
        assert(all.take(all.len() as int) =~= all);
        lists
    }

    /// The entries of the map, in order.
    pub fn entries(self) -> (v: Vec<(Value, Value)>)
        ensures
            pairs_view(v@) == self@,
            unique_keys(self@),
    {
        proof {
            use_type_invariant(&self);
        }
        self.entries
    }
}

impl vstd::std_specs::cmp::PartialEqSpecImpl for SassMap {
    open spec fn obeys_eq_spec() -> bool {
        true
    }

    open spec fn eq_spec(&self, other: &SassMap) -> bool {
        all_pairs_eq(self@, other@)
    }
}

impl PartialEq for SassMap {
    /// Whether the two maps have equal entries in the same order.
    fn eq(&self, other: &SassMap) -> (r: bool) {
        self.equals(other)
    }
}

impl Clone for SassMap {
    /// A copy with the same entries.
    fn clone(&self) -> (m: SassMap)
        ensures
            m@ == self@,
    {
        self.duplicate()
    }
}

impl IntoIterator for SassMap {
    type Item = (Value, Value);

    type IntoIter = std::vec::IntoIter<(Value, Value)>;

    /// Goes through the entries of the map, in order, and gives them away.
    fn into_iter(self) -> (it: std::vec::IntoIter<(Value, Value)>)
        ensures
            pairs_view(vstd::std_specs::vec::into_iter_elts(it)) == self@,
    {
        let it = self.entries.into_iter();
        assert(vstd::std_specs::vec::into_iter_elts(it) =~= self.entries@);
        it
    }
}

/// Giving a value to a key that equals a key of the map puts no entry in: the
/// map keeps its length and its keys, and the first key that equals the new
/// one maps to the new value.
pub proof fn law_insert_overwrites(m: Entries, key: ValueView, value: ValueView)
    requires
        has_key(m, key),
    ensures
        inserted(m, key, value).len() == m.len(),
        keys_of(inserted(m, key, value)) == keys_of(m),
        exists|i: int| first_match(m, key, i) && inserted(m, key, value)[i].1 == value,
{
    lemma_first_match_exists(m, key, m.len() as int);
    let i = choose|i: int| first_match(m, key, i);
    assert(keys_of(inserted(m, key, value)) =~= keys_of(m));
    assert(inserted(m, key, value)[i].1 == value);
}

/// A key inserted twice, the second time as a value that equals the first,
/// stands in the map once, with the second value.
pub proof fn law_insert_twice(k1: ValueView, v1: ValueView, k2: ValueView, v2: ValueView)
    requires
        sem_eq(k1, k2),
    ensures
        inserted(inserted(Seq::empty(), k1, v1), k2, v2) == seq![(k1, v2)],
        keys_of(inserted(inserted(Seq::empty(), k1, v1), k2, v2)).len() == 1,
{
    let none = Seq::<(ValueView, ValueView)>::empty();
    assert(!has_key(none, k1));
    let one = inserted(none, k1, v1);
    assert(one =~= seq![(k1, v1)]);
    assert(sem_eq(one[0].0, k2));
    assert(first_match(one, k2, 0));
    let i = choose|i: int| first_match(one, k2, i);
    assert(i == 0);
    assert(inserted(one, k2, v2) =~= seq![(k1, v2)]);
}

/// Inserting keeps the keys of a map unique.
pub proof fn law_insert_keeps_keys_unique(m: Entries, key: ValueView, value: ValueView)
    requires
        unique_keys(m),
    ensures
        unique_keys(inserted(m, key, value)),
{
    let after = inserted(m, key, value);
    if has_key(m, key) {
        lemma_first_match_exists(m, key, m.len() as int);
        assert forall|i: int, j: int| 0 <= i < j < after.len() implies !sem_eq(
            #[trigger] after[i].0,
            #[trigger] after[j].0,
        ) by {
            assert(after[i].0 == m[i].0);
            assert(after[j].0 == m[j].0);
        }
    } else {
        assert forall|i: int, j: int| 0 <= i < j < after.len() implies !sem_eq(
            #[trigger] after[i].0,
            #[trigger] after[j].0,
        ) by {
            if j == m.len() {
                assert(!sem_eq(m[i].0, key));
            } else {
                assert(after[i].0 == m[i].0);
                assert(after[j].0 == m[j].0);
            }
        }
    }
}

/// The keys of a map differ whichever of two stands first.
pub proof fn law_keys_differ_both_ways(m: Entries)
    requires
        unique_keys(m),
    ensures
        forall|i: int, j: int|
            0 <= i < m.len() && 0 <= j < m.len() && i != j ==> !sem_eq(
                #[trigger] m[i].0,
                #[trigger] m[j].0,
            ),
{
    assert forall|i: int, j: int| 0 <= i < m.len() && 0 <= j < m.len() && i != j implies !sem_eq(
        #[trigger] m[i].0,
        #[trigger] m[j].0,
    ) by {
        law_equality_is_symmetric(m[i].0, m[j].0);
    }
}

/// The entries of a map, inserted one after the other into the empty map,
/// give the map again.
pub proof fn law_entries_round_trip(m: Entries)
    requires
        unique_keys(m),
    ensures
        merged(Seq::empty(), m) == m,
    decreases m.len(),
{
    if m.len() > 0 {
        let rest = m.drop_last();
        law_entries_round_trip(rest);
        assert(!has_key(rest, m.last().0)) by {
            assert forall|i: int| 0 <= i < rest.len() implies !sem_eq(
                #[trigger] rest[i].0,
                m.last().0,
            ) by {
                assert(rest[i] == m[i]);
                assert(!sem_eq(m[i].0, m[m.len() - 1].0));
            }
        }
        assert(rest.push(m.last()) =~= m);
    }
}

/// After a merge, a key of the other map maps to what it mapped to there:
/// the first entry that equals the key at `i` holds the value at `i`. This
/// holds where no value equals both that key and a later key of the other
/// map; equality does not carry over from one pair of values to the next, as
/// captured arguments equal comma lists with and without brackets, which do
/// not equal each other.
pub proof fn law_merge_values_win(m: Entries, other: Entries, i: int)
    requires
        0 <= i < other.len(),
        forall|x: ValueView, j: int|
            i < j < other.len() && sem_eq(x, other[i].0) ==> !#[trigger] sem_eq(x, other[j].0),
    ensures
        exists|p: int|
            first_match(merged(m, other), other[i].0, p) && merged(m, other)[p].1 == other[i].1,
    decreases other.len(),
{
    let rest = other.drop_last();
    let before = merged(m, rest);
    let key = other.last().0;
    let value = other.last().1;
    let after = inserted(before, key, value);
    assert(merged(m, other) == after);
    if i == other.len() - 1 {
        if has_key(before, key) {
            lemma_first_match_exists(before, key, before.len() as int);
            let p = choose|p: int| first_match(before, key, p);
            assert(first_match(after, key, p)) by {
                assert forall|j: int| 0 <= j < p implies !sem_eq(#[trigger] after[j].0, key) by {
                    assert(after[j].0 == before[j].0);
                }
            }
            assert(after[p].1 == value);
        } else {
            law_equality_is_reflexive(key);
            let p = before.len() as int;
            assert(first_match(after, key, p)) by {
                assert forall|j: int| 0 <= j < p implies !sem_eq(#[trigger] after[j].0, key) by {
                    assert(after[j].0 == before[j].0);
                }
            }
        }
    } else {
        assert forall|x: ValueView, j: int|
            i < j < rest.len() && sem_eq(x, rest[i].0) implies !#[trigger] sem_eq(x, rest[j].0) by {
            assert(rest[j] == other[j]);
            assert(rest[i] == other[i]);
        }
        law_merge_values_win(m, rest, i);
        assert(rest[i] == other[i]);
        let p = choose|p: int|
            first_match(before, other[i].0, p) && before[p].1 == other[i].1;
        if has_key(before, key) {
            lemma_first_match_exists(before, key, before.len() as int);
            let at = choose|at: int| first_match(before, key, at);
            if at == p {
                assert(sem_eq(before[p].0, other[i].0));
                assert(!sem_eq(before[p].0, other[other.len() - 1].0));
            }
            assert(first_match(after, other[i].0, p)) by {
                assert(after[p].0 == before[p].0);
                assert forall|j: int| 0 <= j < p implies !sem_eq(
                    #[trigger] after[j].0,
                    other[i].0,
                ) by {
                    assert(after[j].0 == before[j].0);
                }
            }
            assert(after[p].1 == other[i].1);
        } else {
            assert(first_match(after, other[i].0, p)) by {
                assert(after[p] == before[p]);
                assert forall|j: int| 0 <= j < p implies !sem_eq(
                    #[trigger] after[j].0,
                    other[i].0,
                ) by {
                    assert(after[j] == before[j]);
                }
            }
            assert(after[p].1 == other[i].1);
        }
    }
}

/// Where a key among the first `n` entries equals `key`, one of them is the
/// first that does.
proof fn lemma_first_match_exists(m: Entries, key: ValueView, n: int)
    requires
        0 <= n <= m.len(),
        exists|i: int| 0 <= i < n && sem_eq(#[trigger] m[i].0, key),
    ensures
        exists|i: int| first_match(m, key, i),
    decreases n,
{
    if exists|i: int| 0 <= i < n - 1 && sem_eq(#[trigger] m[i].0, key) {
        lemma_first_match_exists(m, key, n - 1);
    } else {
        assert(first_match(m, key, n - 1));
    }
}

/// Taking out an entry whose key equals `key` does not change what is left
/// once all such entries are taken out.
proof fn lemma_without_remove(m: Entries, key: ValueView, i: int)
    requires
        0 <= i < m.len(),
        sem_eq(m[i].0, key),
    ensures
        without(m.remove(i), key) == without(m, key),
    decreases m.len(),
{
    if i == m.len() - 1 {
        assert(m.remove(i) =~= m.drop_last());
    } else {
        let rest = m.drop_last();
        lemma_without_remove(rest, key, i);
        assert(m.remove(i).drop_last() =~= rest.remove(i));
        assert(m.remove(i).last() == m.last());
    }
}

/// Where no key equals `key`, nothing is taken out.
proof fn lemma_without_none(m: Entries, key: ValueView)
    requires
        forall|j: int| 0 <= j < m.len() ==> !sem_eq(#[trigger] m[j].0, key),
    ensures
        without(m, key) == m,
    decreases m.len(),
{
    if m.len() > 0 {
        lemma_without_none(m.drop_last(), key);
        assert(m.drop_last().push(m.last()) =~= m);
    }
}

} // verus!
