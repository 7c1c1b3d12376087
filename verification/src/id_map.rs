//! A map from text ids to values that keeps the order in which the ids
//! were added.

use vstd::prelude::*;

verus! {

/// Where `id` stands in `entries`, if it does.
pub open spec fn spec_position<V>(entries: Seq<(Seq<char>, V)>, id: Seq<char>) -> Option<int> {
    if exists|i: int| 0 <= i < entries.len() && (#[trigger] entries[i]).0 == id {
        Some(choose|i: int| 0 <= i < entries.len() && (#[trigger] entries[i]).0 == id)
    } else {
        None
    }
}

/// Whether a tracker with `id` stands in `entries`.
pub open spec fn spec_contains<V>(entries: Seq<(Seq<char>, V)>, id: Seq<char>) -> bool {
    exists|i: int| 0 <= i < entries.len() && (#[trigger] entries[i]).0 == id
}

/// `entries` without the one under `id`, if there is one.
pub open spec fn spec_without_id<V>(entries: Seq<(Seq<char>, V)>, id: Seq<char>) -> Seq<
    (Seq<char>, V),
> {
    match spec_position(entries, id) {
        Some(i) => entries.remove(i),
        None => entries,
    }
}

/// Whether no id stands in `entries` twice.
pub open spec fn spec_distinct_ids<V>(entries: Seq<(Seq<char>, V)>) -> bool {
    forall|i: int, j: int|
        0 <= i < entries.len() && 0 <= j < entries.len() && i != j ==> (#[trigger] entries[i]).0
            != (#[trigger] entries[j]).0
}

/// Among distinct ids, the tracker under an id is the one found for it.
pub proof fn lemma_position_found<V>(entries: Seq<(Seq<char>, V)>, id: Seq<char>, i: int)
    requires
        spec_distinct_ids(entries),
        0 <= i < entries.len(),
        entries[i].0 == id,
    ensures
        spec_position(entries, id) == Some(i),
{
    let c = choose|c: int| 0 <= c < entries.len() && (#[trigger] entries[c]).0 == id;
    if c != i {
        assert(entries[c].0 != entries[i].0);
    }
}

/// Changing a tracker in place leaves the ids distinct.
pub proof fn lemma_update_keeps_ids<V>(entries: Seq<(Seq<char>, V)>, index: int)
    requires
        spec_distinct_ids(entries),
        0 <= index < entries.len(),
    ensures
        forall|t: V|
            spec_distinct_ids(#[trigger] entries.update(index, (entries[index].0, t))),
{
    assert forall|t: V|
        spec_distinct_ids(#[trigger] entries.update(index, (entries[index].0, t))) by {
        let after = entries.update(index, (entries[index].0, t));
        assert forall|i: int, j: int|
            0 <= i < after.len() && 0 <= j < after.len() && i != j implies (#[trigger] after[i]).0
            != (#[trigger] after[j]).0 by {
            assert(after[i].0 == entries[i].0);
            assert(after[j].0 == entries[j].0);
        }
    }
}

pub struct IdMap<V> {
    ids: Vec<String>,
    values: Vec<V>,
}

impl<V> View for IdMap<V> {
    type V = Seq<(Seq<char>, V)>;

    /// Ids and values, oldest first.
    closed spec fn view(&self) -> Seq<(Seq<char>, V)> {
        Seq::new(self.ids@.len(), |i: int| (self.ids@[i]@, self.values@[i]))
    }
}

impl<V> IdMap<V> {
    /// Every id has its value.
    pub closed spec fn aligned(self) -> bool {
        self.ids@.len() == self.values@.len()
    }

    /// Holds of every map: no id occurs twice.
    pub open spec fn wf(self) -> bool {
        self.aligned() && spec_distinct_ids(self@)
    }

    pub fn new() -> (r: IdMap<V>)
        ensures
            r.wf(),
            r@ == Seq::<(Seq<char>, V)>::empty(),
    {
        let r = IdMap { ids: Vec::new(), values: Vec::new() };
        assert(r@ =~= Seq::<(Seq<char>, V)>::empty());
        r
    }

    pub fn len(&self) -> (r: usize)
        requires
            self.wf(),
        ensures
            r == self@.len(),
    {
        self.ids.len()
    }

    /// Where the value under `id` stands.
    pub fn index_of(&self, id: &String) -> (r: Option<usize>)
        requires
            self.wf(),
        ensures
            match r {
                Some(i) => i < self@.len() && self@[i as int].0 == id@ && spec_position(self@, id@)
                    == Some(i as int),
                None => !spec_contains(self@, id@) && spec_position(self@, id@).is_none(),
            },
    {
        let mut i: usize = 0;
        while i < self.ids.len()
            invariant
                self.wf(),
                i <= self.ids@.len(),
                forall|k: int| 0 <= k < i ==> (#[trigger] self@[k]).0 != id@,
            decreases self.ids@.len() - i,
        {
            if self.ids[i] == *id {
                proof {
                    lemma_position_found(self@, id@, i as int);
                }
                return Some(i);
            }
            i += 1;
        }
        None
    }

    pub fn contains_key(&self, id: &String) -> (r: bool)
        requires
            self.wf(),
        ensures
            r == spec_contains(self@, id@),
    {
        self.index_of(id).is_some()
    }

    /// Puts `value` under `id`: in the place of the value that stands
    /// there, or else at the end. Says where it stands.
    pub fn insert(&mut self, id: &String, value: V) -> (index: usize)
        requires
            old(self).wf(),
        ensures
            final(self).wf(),
            index < final(self)@.len(),
            final(self)@[index as int] == (id@, value),
            match spec_position(old(self)@, id@) {
                Some(i) => index == i && final(self)@ == old(self)@.update(i, (id@, value)),
                None => index == old(self)@.len() && final(self)@ == old(self)@.push((id@, value)),
            },
    {
        match self.index_of(id) {
            Some(i) => {
                proof {
                    lemma_update_keeps_ids(self@, i as int);
                }
                self.values[i] = value;
                assert(self@ =~= old(self)@.update(i as int, (id@, value)));
                i
            },
            None => {
                let index = self.ids.len();
                self.ids.push(id.clone());
                self.values.push(value);
                assert(self@ =~= old(self)@.push((id@, value)));
                index
            },
        }
    }

    /// The id at `index`.
    pub fn id_at(&self, index: usize) -> (r: &String)
        requires
            self.wf(),
            index < self@.len(),
        ensures
            r@ == self@[index as int].0,
    {
        &self.ids[index]
    }

    /// The value at `index`.
    pub fn value_at(&self, index: usize) -> (r: &V)
        requires
            self.wf(),
            index < self@.len(),
        ensures
            *r == self@[index as int].1,
    {
        &self.values[index]
    }

    /// The value at `index`, for a change. Ids and order stay.
    pub fn value_at_mut(&mut self, index: usize) -> (r: &mut V)
        requires
            old(self).wf(),
            index < old(self)@.len(),
        ensures
            *r == old(self)@[index as int].1,
            final(self)@ == old(self)@.update(
                index as int,
                (old(self)@[index as int].0, *final(r)),
            ),
            final(self).wf(),
    {
        proof {
            lemma_update_keeps_ids(self@, index as int);
        }
        &mut self.values[index]
    }

    /// The value under `id`.
    pub fn get(&self, id: &String) -> (r: Option<&V>)
        requires
            self.wf(),
        ensures
            match r {
                Some(value) => exists|i: int|
                    0 <= i < self@.len() && self@[i] == (id@, *value),
                None => !spec_contains(self@, id@),
            },
    {
        match self.index_of(id) {
            Some(i) => Some(&self.values[i]),
            None => None,
        }
    }

    /// Takes the value under `id` out. The others keep their order.
    pub fn remove(&mut self, id: &String) -> (r: Option<V>)
        requires
            old(self).wf(),
        ensures
            final(self).wf(),
            final(self)@ == spec_without_id(old(self)@, id@),
            r == match spec_position(old(self)@, id@) {
                Some(i) => Some(old(self)@[i].1),
                None => None,
            },
            !spec_contains(final(self)@, id@),
    {
        match self.index_of(id) {
            Some(i) => {
                let _ = self.ids.remove(i);
                let value = self.values.remove(i);
                assert(self@ =~= old(self)@.remove(i as int));
                assert(old(self)@[i as int].1 == value);
                Some(value)
            },
            None => None,
        }
    }
}

} // verus!
