//! What the main loop owns: the registry, the configuration, the skeleton
//! and what is pending for the next tick.
//!
//! The loop itself, with its sockets and its sleep, is the caller's. It
//! calls in here for every decision a tick makes.

use vstd::prelude::*;
use crate::config::GlobalConfig;
use crate::id_map::{spec_contains, spec_position, spec_without_id, IdMap};
use crate::registry::TrackerRegistry;
use crate::skeleton::skeleton_manager::{spec_assignment, SkeletonManager};
use crate::tracker::{MountOffset, Tracker, TrackerConfig, TrackerInternal};

verus! {

/// What waits for the next tick.
pub struct ServerUpdates {
    /// The error of the last tick, for the client to see.
    pub error: Option<String>,
    /// A configuration the client sent, to be applied when the next tick
    /// starts.
    pub config: Option<GlobalConfig>,
}

pub struct MainServer {
    pub trackers: TrackerRegistry,
    pub skeleton_manager: SkeletonManager,
    pub config: GlobalConfig,
    pub updates: ServerUpdates,
}

/// What the end of a tick removed.
pub struct TickCleanup {
    /// The ids of the trackers taken out of the registry, in registry order.
    pub removed: Vec<String>,
    /// Whether one of them had an entry in the configuration, which is then
    /// gone too: the configuration is to be applied and saved again.
    pub config_changed: bool,
}

/// The tracker once the configuration gave it a place on the body, or none.
pub open spec fn spec_mounted(tracker: Tracker, config: TrackerConfig) -> Tracker {
    match config.location {
        Some(location) => Tracker {
            internal: TrackerInternal {
                mount_offset: MountOffset::spec_for_location(location),
                ..tracker.internal
            },
            ..tracker
        },
        None => tracker,
    }
}

/// The registry once the first `n` entries of the configuration are
/// applied: every tracker the configuration names exists, new ones at the
/// end, and each has the mount rotation of the place configured for it.
pub open spec fn spec_config_applied(
    entries: Seq<(Seq<char>, Tracker)>,
    configs: Seq<(Seq<char>, TrackerConfig)>,
    now: u64,
    n: nat,
) -> Seq<(Seq<char>, Tracker)>
    decreases n,
{
    if n == 0 {
        entries
    } else {
        let earlier = spec_config_applied(entries, configs, now, (n - 1) as nat);
        let (id, config) = configs[n - 1];
        match spec_position(earlier, id) {
            Some(k) => earlier.update(k, (id, spec_mounted(earlier[k].1, config))),
            None => earlier.push((id, spec_mounted(Tracker::spec_new(now), config))),
        }
    }
}

/// Applying a configuration takes no tracker out of the registry and gives
/// none another id, and whatever it changes of a tracker, it changes the
/// mount rotation alone.
pub proof fn lemma_config_applied_keeps(
    entries: Seq<(Seq<char>, Tracker)>,
    configs: Seq<(Seq<char>, TrackerConfig)>,
    now: u64,
    n: nat,
    k: int,
)
    requires
        n <= configs.len(),
        0 <= k < entries.len(),
    ensures
        k < spec_config_applied(entries, configs, now, n).len(),
        spec_config_applied(entries, configs, now, n)[k].0 == entries[k].0,
        spec_config_applied(entries, configs, now, n)[k].1.info == entries[k].1.info,
        spec_config_applied(entries, configs, now, n)[k].1.data == entries[k].1.data,
    decreases n,
{
    if n > 0 {
        lemma_config_applied_keeps(entries, configs, now, (n - 1) as nat, k);
    }
}

/// Whether the tracker at position `t` is marked for removal.
pub open spec fn spec_marked(entries: Seq<(Seq<char>, Tracker)>, t: int) -> bool {
    entries[t].1.info.to_be_removed
}

/// The trackers that the end of a tick keeps of the first `t`: those not
/// marked for removal, each no longer counted as updated.
pub open spec fn spec_kept(entries: Seq<(Seq<char>, Tracker)>, t: nat) -> Seq<(Seq<char>, Tracker)>
    decreases t,
{
    if t == 0 {
        Seq::empty()
    } else {
        let earlier = spec_kept(entries, (t - 1) as nat);
        if spec_marked(entries, t - 1) {
            earlier
        } else {
            earlier.push(
                (
                    entries[t - 1].0,
                    Tracker {
                        internal: TrackerInternal {
                            was_updated: false,
                            ..entries[t - 1].1.internal
                        },
                        ..entries[t - 1].1
                    },
                ),
            )
        }
    }
}

/// The ids of the trackers among the first `t` that are marked for removal.
pub open spec fn spec_removed_ids(entries: Seq<(Seq<char>, Tracker)>, t: nat) -> Seq<Seq<char>>
    decreases t,
{
    if t == 0 {
        Seq::empty()
    } else {
        let earlier = spec_removed_ids(entries, (t - 1) as nat);
        if spec_marked(entries, t - 1) {
            earlier.push(entries[t - 1].0)
        } else {
            earlier
        }
    }
}

/// The configuration entries left once those of the trackers among the
/// first `t` that are marked for removal are taken out.
pub open spec fn spec_configs_kept(
    configs: Seq<(Seq<char>, TrackerConfig)>,
    entries: Seq<(Seq<char>, Tracker)>,
    t: nat,
) -> Seq<(Seq<char>, TrackerConfig)>
    decreases t,
{
    if t == 0 {
        configs
    } else {
        let earlier = spec_configs_kept(configs, entries, (t - 1) as nat);
        if spec_marked(entries, t - 1) {
            spec_without_id(earlier, entries[t - 1].0)
        } else {
            earlier
        }
    }
}

/// What a list of ids holds.
pub open spec fn spec_id_views(ids: Seq<String>) -> Seq<Seq<char>> {
    Seq::new(ids.len(), |i: int| ids[i]@)
}

impl MainServer {
    /// Holds of every server state: registry, configuration and skeleton
    /// are well formed, and so is a configuration that waits to be applied.
    pub open spec fn wf(self) -> bool {
        &&& self.trackers.wf()
        &&& self.config.wf()
        &&& self.skeleton_manager.wf()
        &&& self.updates.config matches Some(config) ==> config.wf()
    }

    pub fn new() -> (r: MainServer)
        ensures
            r.wf(),
            r.trackers@.len() == 0,
            r.config.trackers@.len() == 0,
            r.updates.error.is_none(),
            r.updates.config.is_none(),
    {
        MainServer {
            trackers: IdMap::new(),
            skeleton_manager: SkeletonManager::new(),
            config: GlobalConfig::default(),
            updates: ServerUpdates { error: None, config: None },
        }
    }

    /// Adds a new tracker under `id` unless the registry holds one, and
    /// says where the tracker with that id stands. The configuration is left
    /// alone: a tracker gets its entry there when the user gives it one.
    pub fn add_tracker(&mut self, id: &String, now: u64) -> (index: usize)
        requires
            old(self).wf(),
        ensures
            final(self).wf(),
            index < final(self).trackers@.len(),
            final(self).trackers@[index as int].0 == id@,
            final(self).trackers@ == if spec_contains(old(self).trackers@, id@) {
                old(self).trackers@
            } else {
                old(self).trackers@.push((id@, Tracker::spec_new(now)))
            },
            final(self).config == old(self).config,
            final(self).skeleton_manager == old(self).skeleton_manager,
            final(self).updates == old(self).updates,
    {
        self.trackers.add(id, now)
    }

    /// Makes the configuration that waits, if one does, the configuration
    /// in force, and says whether one did.
    pub fn take_config_update(&mut self) -> (r: bool)
        requires
            old(self).wf(),
        ensures
            final(self).wf(),
            r == old(self).updates.config.is_some(),
            final(self).updates.config.is_none(),
            final(self).updates.error == old(self).updates.error,
            final(self).config == if r {
                old(self).updates.config.unwrap()
            } else {
                old(self).config
            },
            final(self).trackers == old(self).trackers,
            final(self).skeleton_manager == old(self).skeleton_manager,
    {
        match self.updates.config.take() {
            Some(config) => {
                self.config = config;
                true
            },
            None => false,
        }
    }

    /// Applies the configuration in force: every tracker it names exists
    /// from now on and has the mount rotation of the place configured for
    /// it, and the skeleton has every bone's tracker assigned anew.
    pub fn apply_config(&mut self, now: u64)
        requires
            old(self).wf(),
        ensures
            final(self).wf(),
            final(self).config == old(self).config,
            final(self).updates == old(self).updates,
            final(self).trackers@ == spec_config_applied(
                old(self).trackers@,
                old(self).config.trackers@,
                now,
                old(self).config.trackers@.len(),
            ),
            forall|i: int|
                0 <= i < old(self).config.trackers@.len() ==> spec_contains(
                    final(self).trackers@,
                    (#[trigger] old(self).config.trackers@[i]).0,
                ),
            final(self).skeleton_manager.bones == old(self).skeleton_manager.bones,
            final(self).skeleton_manager.root_position == old(self).skeleton_manager.root_position,
            forall|b: crate::skeleton::bone::BoneLocation|
                #[trigger] final(self).skeleton_manager.spec_assigned()[b.spec_ordinal() as int]
                    == spec_assignment(
                    old(self).config.trackers@,
                    b,
                    old(self).config.trackers@.len(),
                ),
    {
        let ghost entries = self.trackers@;
        let ghost configs = self.config.trackers@;
        let n = self.config.trackers.len();
        let mut i: usize = 0;
        while i < n
            invariant
                i <= n,
                n == configs.len(),
                self.wf(),
                self.config == old(self).config,
                configs == self.config.trackers@,
                self.updates == old(self).updates,
                self.skeleton_manager == old(self).skeleton_manager,
                self.trackers@ == spec_config_applied(entries, configs, now, i as nat),
                forall|j: int|
                    0 <= j < i ==> spec_contains(self.trackers@, (#[trigger] configs[j]).0),
            decreases n - i,
        {
            let ghost earlier = self.trackers@;
            // Insert the tracker if it does not exist, as on first load.
            let k = self.trackers.add(self.config.trackers.id_at(i), now);
            let ghost added = self.trackers@;
            if let Some(location) = self.config.trackers.value_at(i).location {
                self.trackers.value_at_mut(k).set_mount_offset(location);
            }
            proof {
                let (id, config) = configs[i as int];
                crate::id_map::lemma_position_found(added, id, k as int);
                if spec_contains(earlier, id) {
                    assert(spec_position(earlier, id) == Some(k as int));
                } else {
                    assert(spec_position(earlier, id).is_none());
                }
                assert(self.trackers@ =~= spec_config_applied(entries, configs, now, (i + 1) as nat));
                assert forall|j: int| 0 <= j < i + 1 implies spec_contains(
                    self.trackers@,
                    (#[trigger] configs[j]).0,
                ) by {
                    if j < i {
                        let w = choose|w: int|
                            0 <= w < earlier.len() && (#[trigger] earlier[w]).0 == configs[j].0;
                        assert(self.trackers@[w].0 == configs[j].0);
                    } else {
                        assert(self.trackers@[k as int].0 == id);
                    }
                }
            }
            i += 1;
        }
        self.skeleton_manager.apply_tracker_config(&self.config.trackers);
    }

    /// Ends a tick: no tracker counts as updated any longer, and every
    /// tracker marked for removal leaves the registry and the
    /// configuration.
    pub fn upkeep_trackers(&mut self) -> (r: TickCleanup)
        requires
            old(self).wf(),
        ensures
            final(self).wf(),
            final(self).trackers@ == spec_kept(old(self).trackers@, old(self).trackers@.len()),
            spec_id_views(r.removed@) == spec_removed_ids(
                old(self).trackers@,
                old(self).trackers@.len(),
            ),
            final(self).config.trackers@ == spec_configs_kept(
                old(self).config.trackers@,
                old(self).trackers@,
                old(self).trackers@.len(),
            ),
            r.config_changed == (final(self).config.trackers@.len() != old(
                self,
            ).config.trackers@.len()),
            final(self).config.vmc == old(self).config.vmc,
            final(self).config.vrchat == old(self).config.vrchat,
            final(self).config.skeleton == old(self).config.skeleton,
            final(self).config.interface == old(self).config.interface,
            final(self).skeleton_manager == old(self).skeleton_manager,
            final(self).updates == old(self).updates,
    {
        let ghost entries = self.trackers@;
        let ghost configs = self.config.trackers@;
        let mut removed: Vec<String> = Vec::new();
        let mut config_changed = false;
        let mut i: usize = 0;
        let ghost mut t: nat = 0;
        assert(self.trackers@ =~= spec_kept(entries, 0) + entries.skip(0));
        assert(spec_id_views(removed@) =~= spec_removed_ids(entries, 0));
        while i < self.trackers.len()
            invariant
                self.wf(),
                t <= entries.len(),
                i == spec_kept(entries, t).len(),
                self.trackers@ == spec_kept(entries, t) + entries.skip(t as int),
                spec_id_views(removed@) == spec_removed_ids(entries, t),
                self.config.trackers@ == spec_configs_kept(configs, entries, t),
                self.config.trackers@.len() <= configs.len(),
                config_changed == (self.config.trackers@.len() != configs.len()),
                self.config.vmc == old(self).config.vmc,
                self.config.vrchat == old(self).config.vrchat,
                self.config.skeleton == old(self).config.skeleton,
                self.config.interface == old(self).config.interface,
                self.skeleton_manager == old(self).skeleton_manager,
                self.updates == old(self).updates,
            decreases entries.len() - t,
        {
            let ghost kept = spec_kept(entries, t);
            let ghost current = self.trackers@;
            let ghost listed = spec_id_views(removed@);
            assert(current[i as int] == entries[t as int]);
            assert(t < entries.len());
            if self.trackers.value_at(i).info().to_be_removed {
                let id = self.trackers.id_at(i).clone();
                proof {
                    crate::id_map::lemma_position_found(current, id@, i as int);
                }
                let _ = self.trackers.remove(&id);
                if self.config.trackers.remove(&id).is_some() {
                    config_changed = true;
                }
                removed.push(id);
                proof {
                    assert(self.trackers@ =~= kept + entries.skip(t as int + 1));
                    assert(spec_id_views(removed@) =~= listed.push(entries[t as int].0));
                }
            } else {
                self.trackers.value_at_mut(i).clear_was_updated();
                proof {
                    assert(self.trackers@ =~= spec_kept(entries, t + 1) + entries.skip(t as int + 1));
                }
                i += 1;
            }
            proof {
                t = t + 1;
            }
        }
        proof {
            assert(entries.skip(t as int).len() == 0);
            assert(self.trackers@ =~= spec_kept(entries, t));
        }
        TickCleanup { removed, config_changed }
    }
}

/// After the end of a tick no tracker that was marked for removal is left,
/// neither in the registry nor in the configuration.
pub proof fn lemma_removed_trackers_are_gone(
    entries: Seq<(Seq<char>, Tracker)>,
    configs: Seq<(Seq<char>, TrackerConfig)>,
    k: int,
)
    requires
        crate::id_map::spec_distinct_ids(entries),
        crate::id_map::spec_distinct_ids(configs),
        0 <= k < entries.len(),
        spec_marked(entries, k),
    ensures
        !spec_contains(spec_kept(entries, entries.len()), entries[k].0),
        !spec_contains(spec_configs_kept(configs, entries, entries.len()), entries[k].0),
{
    lemma_kept_from(entries, entries.len());
    let kept = spec_kept(entries, entries.len());
    if spec_contains(kept, entries[k].0) {
        let w = choose|w: int| 0 <= w < kept.len() && (#[trigger] kept[w]).0 == entries[k].0;
        let j = choose|j: int|
            0 <= j < entries.len() && !spec_marked(entries, j) && (#[trigger] entries[j]).0
                == kept[w].0;
        assert(entries[j].0 == entries[k].0);
        assert(j == k);
    }
    lemma_configs_kept_lose(configs, entries, entries.len(), k);
}

/// Every tracker kept was there before, not marked, under the same id.
pub proof fn lemma_kept_from(entries: Seq<(Seq<char>, Tracker)>, t: nat)
    requires
        t <= entries.len(),
    ensures
        forall|w: int|
            0 <= w < spec_kept(entries, t).len() ==> exists|j: int|
                0 <= j < t && !spec_marked(entries, j) && (#[trigger] entries[j]).0
                    == (#[trigger] spec_kept(entries, t)[w]).0,
    decreases t,
{
    if t > 0 {
        lemma_kept_from(entries, (t - 1) as nat);
        let earlier = spec_kept(entries, (t - 1) as nat);
        let kept = spec_kept(entries, t);
        assert forall|w: int| 0 <= w < kept.len() implies exists|j: int|
            0 <= j < t && !spec_marked(entries, j) && (#[trigger] entries[j]).0
                == (#[trigger] kept[w]).0 by {
            if w < earlier.len() {
                assert(kept[w] == earlier[w]);
                let j = choose|j: int|
                    0 <= j < t - 1 && !spec_marked(entries, j) && (#[trigger] entries[j]).0
                        == earlier[w].0;
                assert(entries[j].0 == kept[w].0);
            } else {
                assert(entries[t - 1].0 == kept[w].0);
            }
        }
    }
}

/// Taking entries out of a configuration keeps the ids distinct and brings
/// none in.
pub proof fn lemma_without_id_shrinks(configs: Seq<(Seq<char>, TrackerConfig)>, id: Seq<char>)
    requires
        crate::id_map::spec_distinct_ids(configs),
    ensures
        crate::id_map::spec_distinct_ids(spec_without_id(configs, id)),
        !spec_contains(spec_without_id(configs, id), id),
        forall|other: Seq<char>|
            !spec_contains(configs, other) ==> !spec_contains(
                #[trigger] spec_without_id(configs, id),
                other,
            ),
{
    let after = spec_without_id(configs, id);
    match spec_position(configs, id) {
        Some(i) => {
            assert forall|a: int, b: int|
                0 <= a < after.len() && 0 <= b < after.len() && a != b implies (#[trigger] after[a]).0
                != (#[trigger] after[b]).0 by {
                let oa: int = if a < i {
                    a
                } else {
                    a + 1
                };
                let ob: int = if b < i {
                    b
                } else {
                    b + 1
                };
                assert(configs[oa].0 != configs[ob].0);
            }
            if spec_contains(after, id) {
                let w = choose|w: int| 0 <= w < after.len() && (#[trigger] after[w]).0 == id;
                let ow: int = if w < i {
                    w
                } else {
                    w + 1
                };
                assert(configs[ow].0 != configs[i].0);
            }
            assert forall|other: Seq<char>| !spec_contains(configs, other) implies !spec_contains(
                after,
                other,
            ) by {
                if spec_contains(after, other) {
                    let w = choose|w: int| 0 <= w < after.len() && (#[trigger] after[w]).0 == other;
                    let ow: int = if w < i {
                        w
                    } else {
                        w + 1
                    };
                    assert(configs[ow].0 == other);
                }
            }
        },
        None => {},
    }
}

/// Once a marked tracker was gone over, the configuration holds no entry
/// under its id.
pub proof fn lemma_configs_kept_lose(
    configs: Seq<(Seq<char>, TrackerConfig)>,
    entries: Seq<(Seq<char>, Tracker)>,
    t: nat,
    k: int,
)
    requires
        crate::id_map::spec_distinct_ids(configs),
        t <= entries.len(),
    ensures
        crate::id_map::spec_distinct_ids(spec_configs_kept(configs, entries, t)),
        0 <= k < t && spec_marked(entries, k) ==> !spec_contains(
            spec_configs_kept(configs, entries, t),
            entries[k].0,
        ),
    decreases t,
{
    if t > 0 {
        lemma_configs_kept_lose(configs, entries, (t - 1) as nat, k);
        let earlier = spec_configs_kept(configs, entries, (t - 1) as nat);
        if spec_marked(entries, t - 1) {
            lemma_without_id_shrinks(earlier, entries[t - 1].0);
        }
    }
}

} // verus!
