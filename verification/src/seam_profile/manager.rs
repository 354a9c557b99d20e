//! The profile manager: the owner of the 256 profiles and of the mirror that
//! shows them to native code, with the active profile, the change counters
//! and the times of the last changes.

use super::flat_id::SeamParamFlatId;
use super::param_value::{bits_of, value_of};
use super::params_v0::{read, SeamParamsV0};
use super::profile::{bumped, SeamProfile, SeamProfileView};
use crate::text::same_text;
use vstd::prelude::*;
use vstd::string::*;

verus! {

/// Reads the clock: calls `AtomicInstant::now` and hands out what
/// `AtomicInstant::as_millis` reads from it, the time in milliseconds.
/// Nothing is stated of the clock.
#[verifier::external_body]
pub(crate) fn clock_millis() -> u64 {
    atomic_instant::AtomicInstant::now().as_millis()
}

/// Number of profiles that a manager owns.
pub const PROFILE_COUNT: usize = 256;

/// Directory of the backups where none is given.
pub const DEFAULT_BACKUP_DIR: &'static str = "/var/lib/rklaser/backup";

/// Directory of the profile files where none is given.
pub const DEFAULT_CONFIG_DIR: &'static str = "/var/lib/rklaser/profiles";

/// The handle of a mirror record that shows no profile.
pub const NO_PROFILE: usize = usize::MAX;

/// One record of the mirror: what native code sees of a profile. The
/// metadata and the table are not held but named by the handle of the
/// profile that holds them, which is its index in the manager.
#[derive(Clone, Copy, Debug, PartialEq, Eq, Structural)]
pub struct SeamProfileFFI {
    /// `1` where the profile is enabled, else `0`.
    pub enabled: i32,
    /// The id of the profile.
    pub id: i32,
    /// Handle of the profile whose metadata the record shows.
    pub meta: usize,
    /// Handle of the profile whose table the record shows.
    pub v0: usize,
}

impl Default for SeamProfileFFI {
    fn default() -> (r: Self)
        ensures
            r == (SeamProfileFFI { enabled: 0, id: 0, meta: NO_PROFILE, v0: NO_PROFILE }),
    {
        SeamProfileFFI { enabled: 0, id: 0, meta: NO_PROFILE, v0: NO_PROFILE }
    }
}

/// The number that the mirror shows for an enabled flag.
pub open spec fn flag(yes: bool) -> i32 {
    if yes {
        1
    } else {
        0
    }
}

/// The model of a manager. The two times of last change are readings of the
/// clock in milliseconds.
#[verifier::ext_equal]
pub struct SeamProfileManagerView {
    pub backup_dir: Seq<char>,
    pub config_dir: Seq<char>,
    pub profiles: Seq<SeamProfileView>,
    pub mirror: Seq<SeamProfileFFI>,
    pub current_index: usize,
    pub profile_switched: bool,
    pub profile_updated: bool,
    pub profiles_changed: bool,
    pub commits: usize,
    pub flush_times: usize,
    pub all_modified: u64,
    pub profiles_modified: u64,
}

impl SeamProfileManagerView {
    /// What holds of every manager: it has 256 profiles and as many mirror
    /// records, and its active profile is one of them.
    pub open spec fn wf(self) -> bool {
        &&& self.profiles.len() == 256
        &&& self.mirror.len() == 256
        &&& self.current_index < 256
    }

    /// A manager as it is made at the time `now` over two directories: 256
    /// disabled profiles whose ids are their indices, a mirror that shows
    /// each of them under its own handle, profile 0 active, no flag set, no
    /// change counted, and `now` for both times of last change.
    pub open spec fn fresh(backup_dir: Seq<char>, config_dir: Seq<char>, now: u64) -> Self {
        SeamProfileManagerView {
            backup_dir,
            config_dir,
            profiles: Seq::new(256, |i: int| SeamProfileView::fresh(false, i as i32)),
            mirror: Seq::new(
                256,
                |i: int| SeamProfileFFI { enabled: 0, id: i as i32, meta: i as usize, v0: i as usize },
            ),
            current_index: 0,
            profile_switched: false,
            profile_updated: false,
            profiles_changed: false,
            commits: 0,
            flush_times: 0,
            all_modified: now,
            profiles_modified: now,
        }
    }

    /// The manager after one more change was counted at the time `now`, which
    /// becomes the time of the last change of any kind.
    pub open spec fn committed(self, now: u64) -> Self {
        SeamProfileManagerView { commits: bumped(self.commits), all_modified: now, ..self }
    }

    /// The manager after the set of profiles changed at the time `now`, which
    /// becomes the time of the last change to the set of profiles.
    pub open spec fn touched(self, now: u64) -> Self {
        SeamProfileManagerView { profiles_modified: now, ..self }
    }

    /// The manager after the active profile was renamed at the time `now`:
    /// the profile has the name and counts a change, and the manager counts
    /// a change, of the set of profiles too. Nothing changes where the
    /// profile has that name already.
    pub open spec fn renamed(self, name: Seq<char>, now: u64) -> Self {
        let active = self.profiles[self.current_index as int];
        if name == active.meta.name {
            self
        } else {
            self.with_profile(
                self.current_index as int,
                (SeamProfileView { meta: active.meta.with_name(name), ..active }).committed(),
            ).touched(now).committed(now)
        }
    }

    /// The manager after `value` was stored in register `i` of the active
    /// table at the time `now`: the profile is written and counts a change,
    /// and so does the manager. Nothing changes where `i` is outside the
    /// flat space.
    pub open spec fn with_value(self, i: int, value: i32, now: u64) -> Self {
        if 0 <= i < 250 {
            self.with_profile(
                self.current_index as int,
                self.profiles[self.current_index as int].with_value(i, value).committed(),
            ).committed(now)
        } else {
            self
        }
    }

    /// The manager with `profile` in place of profile `i`.
    pub open spec fn with_profile(self, i: int, profile: SeamProfileView) -> Self {
        SeamProfileManagerView { profiles: self.profiles.update(i, profile), ..self }
    }

    /// The manager after the active profile was switched to `index`: nothing
    /// changes where `index` names no profile or the active one; otherwise
    /// `index` becomes active and the switch is flagged.
    pub open spec fn switched_to(self, index: int) -> Self {
        if 0 <= index < 256 && index != self.current_index {
            SeamProfileManagerView {
                current_index: index as usize,
                profile_switched: true,
                ..self
            }
        } else {
            self
        }
    }

    /// The manager after profile `i` was enabled or disabled at the time
    /// `now`: the flag is set in the profile, which counts a change, and in
    /// its mirror record, the manager counts a change, and both times of last
    /// change are `now`. Nothing changes where `i` names no profile.
    pub open spec fn with_enabled(self, i: int, yes: bool, now: u64) -> Self {
        if 0 <= i < 256 {
            SeamProfileManagerView {
                profiles: self.profiles.update(
                    i,
                    (SeamProfileView { enabled: yes, ..self.profiles[i] }).committed(),
                ),
                mirror: self.mirror.update(
                    i,
                    SeamProfileFFI { enabled: flag(yes), ..self.mirror[i] },
                ),
                commits: bumped(self.commits),
                all_modified: now,
                profiles_modified: now,
                ..self
            }
        } else {
            self
        }
    }

    /// The manager after every profile was enabled or disabled at the time
    /// `now`: the flag is set in each profile, which counts a change, and in
    /// each mirror record, the manager counts one change, and both times of
    /// last change are `now`.
    pub open spec fn with_all_enabled(self, yes: bool, now: u64) -> Self {
        SeamProfileManagerView {
            profiles: Seq::new(
                256,
                |i: int| (SeamProfileView { enabled: yes, ..self.profiles[i] }).committed(),
            ),
            mirror: Seq::new(
                256,
                |i: int| SeamProfileFFI { enabled: flag(yes), ..self.mirror[i] },
            ),
            commits: bumped(self.commits),
            all_modified: now,
            profiles_modified: now,
            ..self
        }
    }
}

/// The manager.
pub struct SeamProfileManager {
    backup_dir: String,
    config_dir: String,
    profiles: Vec<SeamProfile>,
    profiles_ffi: Vec<SeamProfileFFI>,
    current_index: usize,
    profile_switched: bool,
    profile_updated: bool,
    profiles_changed: bool,
    commits: usize,
    flush_times: usize,
    all_modified: u64,
    profiles_modified: u64,
}

impl View for SeamProfileManager {
    type V = SeamProfileManagerView;

    closed spec fn view(&self) -> SeamProfileManagerView {
        SeamProfileManagerView {
            backup_dir: self.backup_dir@,
            config_dir: self.config_dir@,
            profiles: Seq::new(self.profiles@.len(), |i: int| self.profiles@[i]@),
            mirror: self.profiles_ffi@,
            current_index: self.current_index,
            profile_switched: self.profile_switched,
            profile_updated: self.profile_updated,
            profiles_changed: self.profiles_changed,
            commits: self.commits,
            flush_times: self.flush_times,
            all_modified: self.all_modified,
            profiles_modified: self.profiles_modified,
        }
    }
}

impl SeamProfileManager {
    #[verifier::type_invariant]
    spec fn inv(&self) -> bool {
        &&& self.profiles@.len() == 256
        &&& self.profiles_ffi@.len() == 256
        &&& self.current_index < 256
    }

    /// A manager over the two directories as it is made at the time the
    /// clock shows. The directories are not touched.
    pub fn new(backup_dir: &str, config_dir: &str) -> (r: Self)
        ensures
            exists|now: u64| r@ == SeamProfileManagerView::fresh(backup_dir@, config_dir@, now),
            r@.wf(),
    {
        let now = clock_millis();
        SeamProfileManager::new_at(backup_dir, config_dir, now)
    }

    /// A manager over the two directories as it is made at the time `now`,
    /// with 256 disabled profiles whose ids are their indices, a mirror that
    /// shows them, profile 0 active, no flag set and no change counted. The
    /// directories are not touched.
    pub fn new_at(backup_dir: &str, config_dir: &str, now: u64) -> (r: Self)
        ensures
            r@ == SeamProfileManagerView::fresh(backup_dir@, config_dir@, now),
            r@.wf(),
    {
        let mut profiles: Vec<SeamProfile> = Vec::with_capacity(256);
        let mut profiles_ffi: Vec<SeamProfileFFI> = Vec::with_capacity(256);
        let mut i: usize = 0;
        while i < 256
            invariant
                i <= 256,
                profiles@.len() == i,
                profiles_ffi@.len() == i,
                forall|k: int| 0 <= k < i ==> (#[trigger] profiles@[k])@ == SeamProfileView::fresh(
                    false,
                    k as i32,
                ),
                forall|k: int|
                    0 <= k < i ==> #[trigger] profiles_ffi@[k] == (SeamProfileFFI {
                        enabled: 0,
                        id: k as i32,
                        meta: k as usize,
                        v0: k as usize,
                    }),
            decreases 256 - i,
        {
            profiles.push(SeamProfile::new(false, i as i32));
            profiles_ffi.push(SeamProfileFFI { enabled: 0, id: i as i32, meta: i, v0: i });
            i = i + 1;
        }
        let r = SeamProfileManager {
            backup_dir: String::from_str(backup_dir),
            config_dir: String::from_str(config_dir),
            profiles,
            profiles_ffi,
            current_index: 0,
            profile_switched: false,
            profile_updated: false,
            profiles_changed: false,
            commits: 0,
            flush_times: 0,
            all_modified: now,
            profiles_modified: now,
        };
        assert(r@ =~= SeamProfileManagerView::fresh(backup_dir@, config_dir@, now));
        r
    }

    /// The directory of the backups.
    pub fn backup_dir(&self) -> (r: &str)
        ensures
            r@ == self@.backup_dir,
    {
        self.backup_dir.as_str()
    }

    /// The directory of the profile files.
    pub fn config_dir(&self) -> (r: &str)
        ensures
            r@ == self@.config_dir,
    {
        self.config_dir.as_str()
    }

    /// The number of profiles, which is 256 for every manager.
    pub fn profile_count(&self) -> (r: usize)
        ensures
            r == 256,
            self@.wf(),
    {
        proof {
            use_type_invariant(self);
        }
        self.profiles.len()
    }

    /// The active profile.
    pub fn current_profile(&self) -> (r: &SeamProfile)
        ensures
            self@.wf(),
            r@ == self@.profiles[self@.current_index as int],
    {
        proof {
            use_type_invariant(self);
        }
        &self.profiles[self.current_index]
    }

    /// The active profile, for writing.
    pub fn current_profile_mut(&mut self) -> (r: &mut SeamProfile)
        ensures
            old(self)@.wf(),
            r@ == old(self)@.profiles[old(self)@.current_index as int],
            final(self)@ =~= old(self)@.with_profile(
                old(self)@.current_index as int,
                final(r)@,
            ),
    {
        proof {
            use_type_invariant(&*self);
        }
        &mut self.profiles[self.current_index]
    }

    /// The mirror record of the active profile.
    pub fn current_profile_ffi(&self) -> (r: &SeamProfileFFI)
        ensures
            self@.wf(),
            *r == self@.mirror[self@.current_index as int],
    {
        proof {
            use_type_invariant(self);
        }
        &self.profiles_ffi[self.current_index]
    }

    /// The mirror record of the active profile, for writing.
    pub fn current_profile_ffi_mut(&mut self) -> (r: &mut SeamProfileFFI)
        ensures
            old(self)@.wf(),
            *r == old(self)@.mirror[old(self)@.current_index as int],
            final(self)@ =~= (SeamProfileManagerView {
                mirror: old(self)@.mirror.update(old(self)@.current_index as int, *final(r)),
                ..old(self)@
            }),
    {
        proof {
            use_type_invariant(&*self);
        }
        &mut self.profiles_ffi[self.current_index]
    }

    /// The index of the active profile.
    pub fn current_profile_id(&self) -> (r: usize)
        ensures
            self@.wf(),
            r == self@.current_index,
    {
        proof {
            use_type_invariant(self);
        }
        self.current_index
    }

    /// Makes profile `index` the active one and flags the switch. Nothing
    /// changes where `index` names no profile or the profile that is active.
    pub fn set_current_profile_id(&mut self, index: usize)
        ensures
            final(self)@ == old(self)@.switched_to(index as int),
    {
        proof {
            use_type_invariant(&*self);
        }
        if index < self.profiles.len() && self.current_index != index {
            self.current_index = index;
            self.profile_switched = true;
        }
    }

    /// Switches the active profile on behalf of native code: `0` and the
    /// switch where `id` lies in `[0, 255]`, `-1` and no change where it does
    /// not.
    pub fn switch_profile(&mut self, id: i32) -> (r: i32)
        ensures
            r == (if 0 <= id <= 255 {
                0i32
            } else {
                -1i32
            }),
            final(self)@ == old(self)@.switched_to(id as int),
    {
        if id < 0 || id > 255 {
            return -1;
        }
        self.set_current_profile_id(id as usize);
        0
    }

    /// The name of the active profile.
    pub fn current_profile_name(&self) -> (r: &str)
        ensures
            r@ == self@.profiles[self@.current_index as int].meta.name,
    {
        self.current_profile().name()
    }

    /// Renames the active profile at the time the clock shows.
    pub fn set_current_profile_name(&mut self, name: &str)
        ensures
            exists|now: u64| final(self)@ == old(self)@.renamed(name@, now),
    {
        let now = clock_millis();
        self.set_current_profile_name_at(name, now)
    }

    /// Renames the active profile at the time `now`; the profile and the
    /// manager each count a change, and both times of last change are `now`.
    /// Nothing changes where the profile has that name already.
    pub fn set_current_profile_name_at(&mut self, name: &str, now: u64)
        ensures
            final(self)@ == old(self)@.renamed(name@, now),
    {
        proof {
            use_type_invariant(&*self);
        }
        let ghost before = self@;
        if !same_text(name, self.current_profile_name()) {
            self.profiles[self.current_index].set_name(name);
            self.profiles_modified = now;
            proof {
                assert(self@.profiles =~= before.profiles.update(
                    before.current_index as int,
                    self.profiles@[before.current_index as int]@,
                ));
            }
            self.commit_at(now);
        }
    }

    /// Whether the active profile was switched since the flag was last
    /// cleared.
    pub fn is_profile_switched(&self) -> (r: bool)
        ensures
            r == self@.profile_switched,
    {
        self.profile_switched
    }

    /// Sets or clears the flag of a switch.
    pub fn set_profile_switched(&mut self, yes: bool)
        ensures
            final(self)@ == (SeamProfileManagerView { profile_switched: yes, ..old(self)@ }),
    {
        proof {
            use_type_invariant(&*self);
        }
        self.profile_switched = yes;
    }

    /// Whether the active profile is flagged as updated.
    pub fn is_profile_updated(&self) -> (r: bool)
        ensures
            r == self@.profile_updated,
    {
        self.profile_updated
    }

    /// Sets or clears the flag of an update of the active profile.
    pub fn set_profile_updated(&mut self, yes: bool)
        ensures
            final(self)@ == (SeamProfileManagerView { profile_updated: yes, ..old(self)@ }),
    {
        proof {
            use_type_invariant(&*self);
        }
        self.profile_updated = yes;
    }

    /// Whether the set of profiles is flagged as changed.
    pub fn is_profiles_changed(&self) -> (r: bool)
        ensures
            r == self@.profiles_changed,
    {
        self.profiles_changed
    }

    /// Sets or clears the flag of a change of the set of profiles.
    pub fn set_profiles_changed(&mut self, yes: bool)
        ensures
            final(self)@ == (SeamProfileManagerView { profiles_changed: yes, ..old(self)@ }),
    {
        proof {
            use_type_invariant(&*self);
        }
        self.profiles_changed = yes;
    }

    fn set_profile_enabled(&mut self, id: usize, yes: bool, now: u64)
        ensures
            final(self)@ == old(self)@.with_enabled(id as int, yes, now),
    {
        proof {
            use_type_invariant(&*self);
        }
        let ghost before = self@;
        if id < self.profiles.len() {
            self.profiles[id].set_enabled(yes);
            self.profiles_ffi[id].enabled = if yes {
                1
            } else {
                0
            };
            self.profiles_modified = now;
            proof {
                assert(self@.profiles =~= before.with_enabled(id as int, yes, now).profiles);
                assert(self@.mirror =~= before.with_enabled(id as int, yes, now).mirror);
            }
            self.commit_at(now);
        }
    }

    /// Disables profile `id` at the time the clock shows.
    pub fn disable_profile(&mut self, id: usize)
        ensures
            exists|now: u64| final(self)@ == old(self)@.with_enabled(id as int, false, now),
    {
        let now = clock_millis();
        self.disable_profile_at(id, now)
    }

    /// Disables profile `id` at the time `now`, in the profile and in the
    /// mirror, counts the change and sets both times of last change. Nothing
    /// changes where `id` names no profile.
    pub fn disable_profile_at(&mut self, id: usize, now: u64)
        ensures
            final(self)@ == old(self)@.with_enabled(id as int, false, now),
    {
        self.set_profile_enabled(id, false, now)
    }

    /// Enables profile `id` at the time the clock shows.
    pub fn enable_profile(&mut self, id: usize)
        ensures
            exists|now: u64| final(self)@ == old(self)@.with_enabled(id as int, true, now),
    {
        let now = clock_millis();
        self.enable_profile_at(id, now)
    }

    /// Enables profile `id` at the time `now`, in the profile and in the
    /// mirror, counts the change and sets both times of last change. Nothing
    /// changes where `id` names no profile.
    pub fn enable_profile_at(&mut self, id: usize, now: u64)
        ensures
            final(self)@ == old(self)@.with_enabled(id as int, true, now),
    {
        self.set_profile_enabled(id, true, now)
    }

    fn set_all_enabled(&mut self, yes: bool, now: u64)
        ensures
            final(self)@ == old(self)@.with_all_enabled(yes, now),
    {
        proof {
            use_type_invariant(&*self);
        }
        let ghost before = self@;
        let mut i: usize = 0;
        while i < 256
            invariant
                i <= 256,
                self.profiles@.len() == 256,
                self.profiles_ffi@.len() == 256,
                self.current_index < 256,
                before.wf(),
                self@ =~= (SeamProfileManagerView {
                    profiles: self@.profiles,
                    mirror: self@.mirror,
                    ..before
                }),
                forall|k: int|
                    0 <= k < i ==> (#[trigger] self.profiles@[k])@ == (SeamProfileView {
                        enabled: yes,
                        ..before.profiles[k]
                    }).committed(),
                forall|k: int|
                    i <= k < 256 ==> (#[trigger] self.profiles@[k])@ == before.profiles[k],
                forall|k: int|
                    0 <= k < i ==> #[trigger] self.profiles_ffi@[k] == (SeamProfileFFI {
                        enabled: flag(yes),
                        ..before.mirror[k]
                    }),
                forall|k: int|
                    i <= k < 256 ==> #[trigger] self.profiles_ffi@[k] == before.mirror[k],
            decreases 256 - i,
        {
            self.profiles[i].set_enabled(yes);
            self.profiles_ffi[i].enabled = if yes {
                1
            } else {
                0
            };
            i = i + 1;
        }
        self.profiles_modified = now;
        proof {
            assert(self@.profiles =~= before.with_all_enabled(yes, now).profiles);
            assert(self@.mirror =~= before.with_all_enabled(yes, now).mirror);
        }
        self.commit_at(now);
    }

    /// Disables every profile at the time the clock shows.
    pub fn disable_all_profiles(&mut self)
        ensures
            exists|now: u64| final(self)@ == old(self)@.with_all_enabled(false, now),
    {
        let now = clock_millis();
        self.disable_all_profiles_at(now)
    }

    /// Disables every profile at the time `now`, in the profiles and in the
    /// mirror, counts one change of the manager and sets both times of last
    /// change.
    pub fn disable_all_profiles_at(&mut self, now: u64)
        ensures
            final(self)@ == old(self)@.with_all_enabled(false, now),
    {
        self.set_all_enabled(false, now)
    }

    /// Enables every profile at the time the clock shows.
    pub fn enable_all_profiles(&mut self)
        ensures
            exists|now: u64| final(self)@ == old(self)@.with_all_enabled(true, now),
    {
        let now = clock_millis();
        self.enable_all_profiles_at(now)
    }

    /// Enables every profile at the time `now`, in the profiles and in the
    /// mirror, counts one change of the manager and sets both times of last
    /// change.
    pub fn enable_all_profiles_at(&mut self, now: u64)
        ensures
            final(self)@ == old(self)@.with_all_enabled(true, now),
    {
        self.set_all_enabled(true, now)
    }

    /// Profile `id`, which must be one of the 256.
    pub fn get_profile(&self, id: usize) -> (r: &SeamProfile)
        requires
            id < 256,
        ensures
            self@.wf(),
            r@ == self@.profiles[id as int],
    {
        proof {
            use_type_invariant(self);
        }
        &self.profiles[id]
    }

    /// Profile `id`, which must be one of the 256, for writing.
    pub fn get_profile_mut(&mut self, id: usize) -> (r: &mut SeamProfile)
        requires
            id < 256,
        ensures
            old(self)@.wf(),
            r@ == old(self)@.profiles[id as int],
            final(self)@ =~= old(self)@.with_profile(id as int, final(r)@),
    {
        proof {
            use_type_invariant(&*self);
        }
        &mut self.profiles[id]
    }

    /// The table of the active profile.
    pub fn cur_v0(&self) -> (r: &SeamParamsV0)
        ensures
            r@ == self@.profiles[self@.current_index as int].v0,
    {
        self.current_profile().v0()
    }

    /// The table of the active profile, for writing. Writes through the
    /// borrow are not counted as changes.
    pub fn cur_v0_mut(&mut self) -> (r: &mut SeamParamsV0)
        ensures
            old(self)@.wf(),
            r@ == old(self)@.profiles[old(self)@.current_index as int].v0,
            final(self)@ =~= old(self)@.with_profile(
                old(self)@.current_index as int,
                SeamProfileView {
                    v0: final(r)@,
                    ..old(self)@.profiles[old(self)@.current_index as int]
                },
            ),
    {
        proof {
            use_type_invariant(&*self);
        }
        self.profiles[self.current_index].v0_mut()
    }

    /// The register at `index` of the active table read as a float, as its
    /// IEEE-754 bit pattern; the pattern of `0.0` for `Invalid`.
    pub fn cur_v0_value_f32(&self, index: SeamParamFlatId) -> (r: u32)
        ensures
            r == bits_of(
                read(self@.profiles[self@.current_index as int].v0, index.spec_index()),
            ),
    {
        if index.is_valid() {
            self.current_profile().v0().value_f32(index)
        } else {
            0
        }
    }

    /// The register at `index` of the active table read as an integer; `0`
    /// for `Invalid`.
    pub fn cur_v0_value_i32(&self, index: SeamParamFlatId) -> (r: i32)
        ensures
            r == read(self@.profiles[self@.current_index as int].v0, index.spec_index()),
    {
        if index.is_valid() {
            self.current_profile().v0().value_i32(index)
        } else {
            0
        }
    }

    /// Stores the float with bit pattern `bits` at `index` of the active
    /// table at the time the clock shows.
    pub fn set_cur_v0_value_f32(&mut self, index: SeamParamFlatId, bits: u32)
        ensures
            exists|now: u64|
                final(self)@ == old(self)@.with_value(index.spec_index(), value_of(bits), now),
    {
        let now = clock_millis();
        self.set_cur_v0_value_f32_at(index, bits, now)
    }

    /// Stores the float with bit pattern `bits` at `index` of the active
    /// table at the time `now`; the profile and the manager each count a
    /// change, and `now` is the time of the last change of any kind. Nothing
    /// changes for `Invalid`.
    pub fn set_cur_v0_value_f32_at(&mut self, index: SeamParamFlatId, bits: u32, now: u64)
        ensures
            final(self)@ == old(self)@.with_value(index.spec_index(), value_of(bits), now),
    {
        proof {
            use_type_invariant(&*self);
        }
        let ghost before = self@;
        if index.is_valid() {
            self.profiles[self.current_index].set_v0_value_f32(index, bits);
            proof {
                assert(self@.profiles =~= before.profiles.update(
                    before.current_index as int,
                    self.profiles@[before.current_index as int]@,
                ));
            }
            self.commit_at(now);
        }
    }

    /// Stores `value` at `index` of the active table at the time the clock
    /// shows.
    pub fn set_cur_v0_value_i32(&mut self, index: SeamParamFlatId, value: i32)
        ensures
            exists|now: u64|
                final(self)@ == old(self)@.with_value(index.spec_index(), value, now),
    {
        let now = clock_millis();
        self.set_cur_v0_value_i32_at(index, value, now)
    }

    /// Stores `value` at `index` of the active table at the time `now`; the
    /// profile and the manager each count a change, and `now` is the time of
    /// the last change of any kind. Nothing changes for `Invalid`.
    pub fn set_cur_v0_value_i32_at(&mut self, index: SeamParamFlatId, value: i32, now: u64)
        ensures
            final(self)@ == old(self)@.with_value(index.spec_index(), value, now),
    {
        proof {
            use_type_invariant(&*self);
        }
        let ghost before = self@;
        if index.is_valid() {
            self.profiles[self.current_index].set_v0_value_i32(index, value);
            proof {
                assert(self@.profiles =~= before.profiles.update(
                    before.current_index as int,
                    self.profiles@[before.current_index as int]@,
                ));
            }
            self.commit_at(now);
        }
    }

    /// Counts one change of the manager at the time the clock shows.
    pub fn commit(&mut self)
        ensures
            exists|now: u64| final(self)@ == old(self)@.committed(now),
    {
        let now = clock_millis();
        self.commit_at(now)
    }

    /// Counts one change of the manager and sets the time of the last change
    /// of any kind to `now`.
    pub fn commit_at(&mut self, now: u64)
        ensures
            final(self)@ == old(self)@.committed(now),
    {
        proof {
            use_type_invariant(&*self);
        }
        self.commits = if self.commits == usize::MAX {
            0
        } else {
            self.commits + 1
        };
        self.all_modified = now;
    }

    /// Sets the time of the last change to the set of profiles to the time
    /// the clock shows.
    pub fn touch_profiles(&mut self)
        ensures
            exists|now: u64| final(self)@ == old(self)@.touched(now),
    {
        let now = clock_millis();
        self.touch_profiles_at(now)
    }

    /// Sets the time of the last change to the set of profiles to `now`.
    pub fn touch_profiles_at(&mut self, now: u64)
        ensures
            final(self)@ == old(self)@.touched(now),
    {
        proof {
            use_type_invariant(&*self);
        }
        self.profiles_modified = now;
    }

    /// Counts one flush.
    pub(crate) fn count_flush(&mut self)
        ensures
            final(self)@ == (SeamProfileManagerView {
                flush_times: bumped(old(self)@.flush_times),
                ..old(self)@
            }),
    {
        proof {
            use_type_invariant(&*self);
        }
        self.flush_times = if self.flush_times == usize::MAX {
            0
        } else {
            self.flush_times + 1
        };
    }

    /// The number of changes counted since the counter was last cleared.
    pub fn commits(&self) -> (r: usize)
        ensures
            r == self@.commits,
    {
        self.commits
    }

    /// Forgets the changes counted so far.
    pub fn clear_commits(&mut self)
        ensures
            final(self)@ == (SeamProfileManagerView { commits: 0, ..old(self)@ }),
    {
        proof {
            use_type_invariant(&*self);
        }
        self.commits = 0;
    }

    /// The number of flushes that found changes to write.
    pub fn flush_times(&self) -> (r: usize)
        ensures
            r == self@.flush_times,
    {
        self.flush_times
    }

    /// Sets the number of flushes back to zero.
    pub fn clear_flush_times(&mut self)
        ensures
            final(self)@ == (SeamProfileManagerView { flush_times: 0, ..old(self)@ }),
    {
        proof {
            use_type_invariant(&*self);
        }
        self.flush_times = 0;
    }

    /// The time of the last change of any kind, in milliseconds.
    pub fn all_modified(&self) -> (r: u64)
        ensures
            r == self@.all_modified,
    {
        self.all_modified
    }

    /// The time of the last change to the set of profiles, in milliseconds.
    pub fn profiles_modified(&self) -> (r: u64)
        ensures
            r == self@.profiles_modified,
    {
        self.profiles_modified
    }
}

/// A change that is counted leaves its time as the time of the last change of
/// any kind. Enabling, disabling and renaming leave it as the time of the last
/// change to the set of profiles too; a change that is only counted and a
/// stored value leave that time as it was.
pub proof fn lemma_times_of_change(
    manager: SeamProfileManagerView,
    index: int,
    yes: bool,
    name: Seq<char>,
    register: int,
    value: i32,
    now: u64,
)
    requires
        manager.wf(),
        0 <= index < 256,
        0 <= register < 250,
        name != manager.profiles[manager.current_index as int].meta.name,
    ensures
        manager.committed(now).all_modified == now,
        manager.committed(now).profiles_modified == manager.profiles_modified,
        manager.touched(now).all_modified == manager.all_modified,
        manager.touched(now).profiles_modified == now,
        manager.with_enabled(index, yes, now).all_modified == now,
        manager.with_enabled(index, yes, now).profiles_modified == now,
        manager.with_all_enabled(yes, now).all_modified == now,
        manager.with_all_enabled(yes, now).profiles_modified == now,
        manager.renamed(name, now).all_modified == now,
        manager.renamed(name, now).profiles_modified == now,
        manager.with_value(register, value, now).all_modified == now,
        manager.with_value(register, value, now).profiles_modified == manager.profiles_modified,
{
}

impl Default for SeamProfileManager {
    fn default() -> (r: Self)
        ensures
            exists|now: u64|
                r@ == SeamProfileManagerView::fresh(DEFAULT_BACKUP_DIR@, DEFAULT_CONFIG_DIR@, now),
            r@.wf(),
    {
        SeamProfileManager::new(DEFAULT_BACKUP_DIR, DEFAULT_CONFIG_DIR)
    }
}

} // verus!
