//! What the manager decides about persistence: the names of the files, which
//! profiles a flush writes, and what a profile read from a file or from a
//! JSON payload does to the profiles in memory. Reading and writing the files
//! is left to the caller.

use super::codec::decoded_profile;
use super::manager::{clock_millis, SeamProfileManager, SeamProfileManagerView};
use super::params_v0::joint_type_of;
use super::profile::{bumped, SeamProfile, SeamProfileView};
use crate::error::JsonError;
use crate::json::json_document;
use crate::text::{decimal, decimal_string};
use vstd::prelude::*;
use vstd::string::*;

verus! {

/// The path of the file of profile `id` in the directory `dir`.
pub open spec fn profile_path_of(dir: Seq<char>, id: nat) -> Seq<char> {
    dir + "/seam-profile-"@ + decimal(id) + ".json"@
}

/// The path of backup slot `slot` in the directory `dir`.
pub open spec fn backup_path_of(dir: Seq<char>, slot: nat) -> Seq<char> {
    dir + "/profiles-"@ + decimal(slot) + ".tar.gz"@
}

/// The indices below `n` of the profiles that have changes counted, in
/// ascending order.
pub open spec fn dirty_below(profiles: Seq<SeamProfileView>, n: int) -> Seq<usize>
    decreases n,
{
    if n <= 0 {
        Seq::<usize>::empty()
    } else if profiles[n - 1].commits > 0 {
        dirty_below(profiles, n - 1).push((n - 1) as usize)
    } else {
        dirty_below(profiles, n - 1)
    }
}

impl SeamProfileManagerView {
    /// Whether every profile has its index for id. A manager is made so, and
    /// stays so unless an id is set by hand through a borrowed profile.
    pub open spec fn ids_in_place(self) -> bool {
        forall|i: int| 0 <= i < 256 ==> (#[trigger] self.profiles[i]).id == i
    }

    /// The manager after `incoming` was merged at the time `now` into the
    /// profile that its id names: that profile takes over what a merge takes
    /// over and counts two changes, the manager counts one, and both times of
    /// last change are `now`. Nothing changes where the id names no profile.
    pub open spec fn merged_in(self, incoming: SeamProfileView, now: u64) -> Self {
        if 0 <= incoming.id < 256 {
            self.with_profile(
                incoming.id as int,
                self.profiles[incoming.id as int].merged(incoming).committed().committed(),
            ).touched(now).committed(now)
        } else {
            self
        }
    }

    /// The manager after a flush: where no change is counted, nothing
    /// changes; otherwise the change counters of the manager and of every
    /// profile are zero and one more flush is counted.
    pub open spec fn flushed(self) -> Self {
        if self.commits == 0 {
            self
        } else {
            SeamProfileManagerView {
                profiles: Seq::new(
                    256,
                    |i: int| SeamProfileView { commits: 0, ..self.profiles[i] },
                ),
                commits: 0,
                flush_times: bumped(self.flush_times),
                ..self
            }
        }
    }

    /// The profiles that a flush writes: none where no change is counted,
    /// otherwise those that have changes counted, in ascending order.
    pub open spec fn to_flush(self) -> Seq<usize> {
        if self.commits == 0 {
            Seq::<usize>::empty()
        } else {
            dirty_below(self.profiles, 256)
        }
    }
}

/// A flush writes a profile exactly when changes are counted for the manager
/// and for that profile, and it writes no profile twice.
pub proof fn lemma_dirty_below(profiles: Seq<SeamProfileView>, n: int, i: usize)
    requires
        profiles.len() == 256,
        0 <= n <= 256,
    ensures
        dirty_below(profiles, n).contains(i) <==> (i < n && profiles[i as int].commits > 0),
        dirty_below(profiles, n).no_duplicates(),
        dirty_below(profiles, n).len() <= n,
    decreases n,
{
    if n > 0 {
        lemma_dirty_below(profiles, n - 1, i);
        let rest = dirty_below(profiles, n - 1);
        if profiles[n - 1].commits > 0 {
            let last = (n - 1) as usize;
            lemma_dirty_below(profiles, n - 1, last);
            assert(rest.push(last).len() == rest.len() + 1);
            assert(rest.push(last)[rest.len() as int] == last);
            assert forall|k: int, l: int|
                0 <= k < rest.push(last).len() && 0 <= l < rest.push(last).len() && k
                    != l implies rest.push(last)[k] != rest.push(last)[l] by {
                if k < rest.len() {
                    assert(rest.contains(rest[k]));
                }
                if l < rest.len() {
                    assert(rest.contains(rest[l]));
                }
            }
            if rest.push(last).contains(i) {
                let k = choose|k: int| 0 <= k < rest.push(last).len() && rest.push(last)[k] == i;
                if k < rest.len() {
                    assert(rest.contains(i));
                }
            }
            if i < n && profiles[i as int].commits > 0 {
                if i == last {
                    assert(rest.push(last)[rest.len() as int] == i);
                } else {
                    let k = choose|k: int| 0 <= k < rest.len() && rest[k] == i;
                    assert(rest.push(last)[k] == i);
                }
            }
        }
    }
}

/// A switch to the active profile changes nothing, and so sets no flag; a
/// switch to another profile makes it active and sets the flag; a switch to
/// what is no profile, such as 256 or -1, changes nothing.
pub proof fn lemma_switch(manager: SeamProfileManagerView, index: int)
    requires
        manager.wf(),
    ensures
        index == manager.current_index ==> manager.switched_to(index) == manager,
        0 <= index < 256 && index != manager.current_index ==> manager.switched_to(
            index,
        ).current_index == index && manager.switched_to(index).profile_switched,
        !(0 <= index < 256) ==> manager.switched_to(index) == manager,
        manager.switched_to(index).profiles == manager.profiles,
        manager.switched_to(index).commits == manager.commits,
{
}

/// A profile whose id names none of the 256 is merged into nothing. One
/// whose id names a profile overwrites that profile's enabled flag, name,
/// joint type and whole table, and leaves its id, every other profile and the
/// mirror as they were. Where every profile still has its index for id, as
/// in a manager in which no id was set by hand, the profile merged into has
/// the incoming id, and every profile still has its index for id afterwards.
pub proof fn lemma_merged_in(
    manager: SeamProfileManagerView,
    incoming: SeamProfileView,
    now: u64,
    other: int,
)
    requires
        manager.wf(),
        0 <= other < 256,
    ensures
        manager.ids_in_place() && 0 <= incoming.id < 256 ==> manager.merged_in(
            incoming,
            now,
        ).profiles[incoming.id as int].id == incoming.id,
        manager.ids_in_place() ==> manager.merged_in(incoming, now).ids_in_place(),
        !(0 <= incoming.id < 256) ==> manager.merged_in(incoming, now) == manager,
        0 <= incoming.id < 256 ==> {
            let merged = manager.merged_in(incoming, now).profiles[incoming.id as int];
            &&& merged.enabled == incoming.enabled
            &&& merged.meta.name == incoming.meta.name
            &&& merged.meta.joint_type == joint_type_of(incoming.v0)
            &&& merged.v0 == incoming.v0
            &&& merged.id == manager.profiles[incoming.id as int].id
            &&& manager.merged_in(incoming, now).all_modified == now
            &&& manager.merged_in(incoming, now).profiles_modified == now
        },
        other != incoming.id ==> manager.merged_in(incoming, now).profiles[other]
            == manager.profiles[other],
        manager.merged_in(incoming, now).mirror == manager.mirror,
        manager.merged_in(incoming, now).wf(),
{
}

/// A manager is made with every profile's id in place, and switching,
/// enabling, disabling and flushing keep the ids in place.
pub proof fn lemma_ids_in_place(
    manager: SeamProfileManagerView,
    backup_dir: Seq<char>,
    config_dir: Seq<char>,
    index: int,
    yes: bool,
    now: u64,
)
    requires
        manager.wf(),
        0 <= index < 256,
    ensures
        SeamProfileManagerView::fresh(backup_dir, config_dir, now).ids_in_place(),
        manager.ids_in_place() ==> manager.switched_to(index).ids_in_place(),
        manager.ids_in_place() ==> manager.with_enabled(index, yes, now).ids_in_place(),
        manager.ids_in_place() ==> manager.with_all_enabled(yes, now).ids_in_place(),
        manager.ids_in_place() ==> manager.flushed().ids_in_place(),
        manager.ids_in_place() ==> manager.committed(now).ids_in_place(),
        manager.ids_in_place() ==> manager.touched(now).ids_in_place(),
{
}

/// A flush that finds changes counts exactly one flush, writes exactly the
/// profiles that have changes counted, and leaves no change counted; what a
/// profile holds is not touched. A flush that finds none changes nothing.
pub proof fn lemma_flush(manager: SeamProfileManagerView, i: usize)
    requires
        manager.wf(),
        i < 256,
    ensures
        manager.to_flush().contains(i) <==> (manager.commits > 0 && manager.profiles[i as int].commits
            > 0),
        manager.to_flush().no_duplicates(),
        manager.commits > 0 ==> manager.flushed().flush_times == bumped(manager.flush_times),
        manager.commits > 0 ==> manager.flushed().commits == 0
            && manager.flushed().profiles[i as int] == (SeamProfileView {
            commits: 0,
            ..manager.profiles[i as int]
        }),
        manager.commits == 0 ==> manager.flushed() == manager && manager.to_flush().len() == 0,
        manager.flushed().to_flush().len() == 0,
{
    lemma_dirty_below(manager.profiles, 256, i);
}

impl SeamProfileManager {
    /// The path of the file of profile `id`.
    pub fn profile_path(&self, id: usize) -> (r: String)
        ensures
            r@ == profile_path_of(self@.config_dir, id as nat),
    {
        let mut path = String::from_str(self.config_dir());
        path.append("/seam-profile-");
        path.append(decimal_string(id).as_str());
        path.append(".json");
        path
    }

    /// The path of backup slot `slot`.
    pub fn backup_path(&self, slot: usize) -> (r: String)
        ensures
            r@ == backup_path_of(self@.backup_dir, slot as nat),
    {
        let mut path = String::from_str(self.backup_dir());
        path.append("/profiles-");
        path.append(decimal_string(slot).as_str());
        path.append(".tar.gz");
        path
    }

    /// Merges `incoming` into the profile that its id names, at the time the
    /// clock shows.
    pub fn merge_profile(&mut self, incoming: &SeamProfile)
        ensures
            exists|now: u64| final(self)@ == old(self)@.merged_in(incoming@, now),
    {
        let now = clock_millis();
        self.merge_profile_at(incoming, now)
    }

    /// Merges `incoming` at the time `now` into the profile that its id names
    /// and counts the change; both times of last change are set. A profile
    /// whose id names none of the 256 is passed over.
    pub fn merge_profile_at(&mut self, incoming: &SeamProfile, now: u64)
        ensures
            final(self)@ == old(self)@.merged_in(incoming@, now),
    {
        let id = incoming.id();
        if id >= 0 && id < 256 {
            let slot = self.get_profile_mut(id as usize);
            slot.merge(incoming);
            self.touch_profiles_at(now);
            self.commit_at(now);
        }
    }

    /// Reads one profile from JSON text and merges it in at the time the
    /// clock shows. Nothing changes where the text is no profile.
    pub fn load_profile_from_json_str(&mut self, json: &str) -> (r: Result<(), JsonError>)
        ensures
            match r {
                Ok(_) => json_document(json@).is_some() && decoded_profile(
                    json_document(json@).unwrap(),
                ).is_some() && exists|now: u64|
                    final(self)@ == old(self)@.merged_in(
                        decoded_profile(json_document(json@).unwrap()).unwrap(),
                        now,
                    ),
                Err(JsonError::Text(_)) => json_document(json@).is_none() && final(self)@ == old(
                    self,
                )@,
                Err(JsonError::Schema) => json_document(json@).is_some() && decoded_profile(
                    json_document(json@).unwrap(),
                ).is_none() && final(self)@ == old(self)@,
            },
    {
        match SeamProfile::from_json_str(json) {
            Ok(incoming) => {
                let now = clock_millis();
                self.merge_profile_at(&incoming, now);
                assert(self@ == old(self)@.merged_in(
                    decoded_profile(json_document(json@).unwrap()).unwrap(),
                    now,
                ));
                Ok(())
            },
            Err(e) => Err(e),
        }
    }

    /// Takes what was read from the file of profile `id` at start: a profile
    /// that was read replaces the one in memory by a merge that counts no
    /// change, and `false` is returned; where nothing could be read, nothing
    /// changes and `true` is returned: the file is to be written from what is
    /// in memory.
    pub fn install_loaded(&mut self, id: usize, loaded: Option<&SeamProfile>) -> (seed: bool)
        requires
            id < 256,
        ensures
            seed == loaded.is_none(),
            final(self)@ == (match loaded {
                Some(profile) => old(self)@.with_profile(
                    id as int,
                    old(self)@.profiles[id as int].merged(profile@),
                ),
                None => old(self)@,
            }),
    {
        match loaded {
            Some(profile) => {
                let slot = self.get_profile_mut(id);
                slot.merge_with_commit(profile);
                false
            },
            None => true,
        }
    }

    /// Closes a round of changes. Where no change is counted for the manager,
    /// nothing happens and nothing is to be written. Otherwise the counter of
    /// the manager is cleared, one more flush is counted, and the profiles
    /// with changes counted are returned in ascending order, their counters
    /// cleared: these are the files to write.
    pub fn flush(&mut self) -> (r: Vec<usize>)
        ensures
            r@ == old(self)@.to_flush(),
            final(self)@ == old(self)@.flushed(),
    {
        let mut dirty: Vec<usize> = Vec::new();
        let ghost before = self@;
        let count = self.profile_count();
        if self.commits() > 0 {
            self.clear_commits();
            self.count_flush();
            let mut i: usize = 0;
            while i < count
                invariant
                    i <= 256,
                    count == 256,
                    before.profiles.len() == 256,
                    self@.wf(),
                    dirty@ == dirty_below(before.profiles, i as int),
                    self@ == (SeamProfileManagerView {
                        profiles: self@.profiles,
                        commits: 0,
                        flush_times: bumped(before.flush_times),
                        ..before
                    }),
                    forall|k: int|
                        0 <= k < i ==> #[trigger] self@.profiles[k] == (SeamProfileView {
                            commits: 0,
                            ..before.profiles[k]
                        }),
                    forall|k: int| i <= k < 256 ==> #[trigger] self@.profiles[k] == before.profiles[k],
                decreases 256 - i,
            {
                if self.get_profile(i).commits() > 0 {
                    dirty.push(i);
                    let slot = self.get_profile_mut(i);
                    slot.flush();
                }
                i = i + 1;
            }
            proof {
                assert(self@.profiles =~= before.flushed().profiles);
            }
        }
        dirty
    }
}

} // verus!
