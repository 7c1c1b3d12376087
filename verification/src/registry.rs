//! The store of all trackers, by id, in the order they were added.
//!
//! The registry alone decides how long a tracker lives. Device sessions and
//! the skeleton refer to trackers by id and find out here whether they
//! still exist.

use vstd::prelude::*;
use crate::id_map::{spec_contains, IdMap};
use crate::tracker::Tracker;

verus! {

pub type TrackerRegistry = IdMap<Tracker>;

impl IdMap<Tracker> {
    /// Adds a new tracker under `id` unless one stands there, and says where
    /// the tracker with that id stands.
    pub fn add(&mut self, id: &String, now: u64) -> (index: usize)
        requires
            old(self).wf(),
        ensures
            final(self).wf(),
            index < final(self)@.len(),
            final(self)@[index as int].0 == id@,
            spec_contains(old(self)@, id@) ==> final(self)@ == old(self)@,
            !spec_contains(old(self)@, id@) ==> final(self)@ == old(self)@.push(
                (id@, Tracker::spec_new(now)),
            ),
    {
        match self.index_of(id) {
            Some(i) => i,
            None => self.insert(id, Tracker::new(now)),
        }
    }
}

} // verus!
