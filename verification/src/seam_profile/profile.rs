//! A profile: an identity, an enabled flag, descriptive metadata, one
//! parameter table, and a counter of the changes not yet written out.

use super::flat_id::SeamParamFlatId;
use super::param_value::value_of;
use super::params_v0::{joint_type_of, written, SeamParamsV0};
use vstd::prelude::*;
use vstd::string::*;

verus! {

/// Schema URI of a single profile document.
pub const SEAM_PROFILE_SCHEMA: &'static str = "https://full-v.com/schemas/seam-profile.json";

/// Schema URI of a list of full profiles.
pub const SEAM_PROFILES_SCHEMA: &'static str = "https://full-v.com/schemas/seam-profiles.json";

/// Schema URI of a list of profiles reduced to their metadata.
pub const SEAM_PROFILES_META_ONLY_SCHEMA: &'static str =
    "https://full-v.com/schemas/seam-profiles-meta-only.json";

/// A change counter after one more change. The counter wraps to zero past the
/// largest number it can hold.
pub open spec fn bumped(commits: usize) -> usize {
    if commits == usize::MAX {
        0
    } else {
        (commits + 1) as usize
    }
}

/// The model of a profile's metadata.
pub struct SeamProfileMetaView {
    pub name: Seq<char>,
    pub joint_type: i32,
    pub joint_type_major: i32,
    pub joint_type_minor: i32,
    pub version: i32,
}

impl SeamProfileMetaView {
    /// The metadata with its three joint type fields derived from `joint_type`:
    /// the number itself, its bits from 8 up, and its low byte.
    pub open spec fn with_joint_type(self, joint_type: i32) -> Self {
        SeamProfileMetaView {
            joint_type,
            joint_type_major: joint_type >> 8,
            joint_type_minor: joint_type & 0xff,
            ..self
        }
    }

    /// The metadata under another name.
    pub open spec fn with_name(self, name: Seq<char>) -> Self {
        SeamProfileMetaView { name, ..self }
    }
}

/// Descriptive metadata of a profile.
#[derive(Debug)]
pub struct SeamProfileMeta {
    /// Name of the profile.
    pub name: String,
    /// Joint type.
    pub joint_type: i32,
    /// Major joint type.
    pub joint_type_major: i32,
    /// Minor joint type.
    pub joint_type_minor: i32,
    /// Version of the profile.
    pub version: i32,
}

impl View for SeamProfileMeta {
    type V = SeamProfileMetaView;

    open spec fn view(&self) -> SeamProfileMetaView {
        SeamProfileMetaView {
            name: self.name@,
            joint_type: self.joint_type,
            joint_type_major: self.joint_type_major,
            joint_type_minor: self.joint_type_minor,
            version: self.version,
        }
    }
}

impl Default for SeamProfileMeta {
    fn default() -> (r: Self)
        ensures
            r@ == (SeamProfileMetaView {
                name: Seq::<char>::empty(),
                joint_type: 0,
                joint_type_major: 0,
                joint_type_minor: 0,
                version: 0,
            }),
    {
        SeamProfileMeta {
            name: String::new(),
            joint_type: 0,
            joint_type_major: 0,
            joint_type_minor: 0,
            version: 0,
        }
    }
}

impl Clone for SeamProfileMeta {
    fn clone(&self) -> (r: Self)
        ensures
            r@ == self@,
    {
        SeamProfileMeta {
            name: self.name.clone(),
            joint_type: self.joint_type,
            joint_type_major: self.joint_type_major,
            joint_type_minor: self.joint_type_minor,
            version: self.version,
        }
    }
}

impl SeamProfileMeta {
    /// Metadata under the name `Profile`, with every number zero.
    pub fn new() -> (r: Self)
        ensures
            r@ == (SeamProfileMetaView {
                name: "Profile"@,
                joint_type: 0,
                joint_type_major: 0,
                joint_type_minor: 0,
                version: 0,
            }),
    {
        SeamProfileMeta {
            name: String::from_str("Profile"),
            joint_type: 0,
            joint_type_major: 0,
            joint_type_minor: 0,
            version: 0,
        }
    }

    /// The name.
    pub fn name(&self) -> (r: &str)
        ensures
            r@ == self@.name,
    {
        self.name.as_str()
    }

    /// Replaces the name.
    pub fn set_name(&mut self, name: &str)
        ensures
            final(self)@ == old(self)@.with_name(name@),
    {
        self.name = String::from_str(name);
    }

    /// The joint type.
    pub fn joint_type(&self) -> (r: i32)
        ensures
            r == self@.joint_type,
    {
        self.joint_type
    }

    /// Replaces the joint type and derives the major and the minor type from it.
    pub fn set_joint_type(&mut self, value: i32)
        ensures
            final(self)@ == old(self)@.with_joint_type(value),
    {
        self.joint_type = value;
        self.joint_type_major = value >> 8;
        self.joint_type_minor = value & 0xff;
    }
}

/// The model of a profile.
pub struct SeamProfileView {
    pub schema: Seq<char>,
    pub enabled: bool,
    pub id: i32,
    pub meta: SeamProfileMetaView,
    pub v0: Seq<i32>,
    pub commits: usize,
}

impl SeamProfileView {
    /// A profile as it is made: the given flag and id, the profile schema,
    /// empty metadata, a zeroed table and no change counted.
    pub open spec fn fresh(enabled: bool, id: i32) -> Self {
        SeamProfileView {
            schema: SEAM_PROFILE_SCHEMA@,
            enabled,
            id,
            meta: SeamProfileMetaView {
                name: Seq::<char>::empty(),
                joint_type: 0,
                joint_type_major: 0,
                joint_type_minor: 0,
                version: 0,
            },
            v0: Seq::new(250, |i: int| 0i32),
            commits: 0,
        }
    }

    /// The profile after one more change was counted.
    pub open spec fn committed(self) -> Self {
        SeamProfileView { commits: bumped(self.commits), ..self }
    }

    /// The profile after `other` was merged into it, the change counter left
    /// alone: the enabled flag, the name and the table are those of `other`,
    /// the joint type fields are derived from that table, and the schema, the
    /// id and the version stay.
    pub open spec fn merged(self, other: Self) -> Self {
        SeamProfileView {
            enabled: other.enabled,
            meta: self.meta.with_name(other.meta.name).with_joint_type(joint_type_of(other.v0)),
            v0: other.v0,
            ..self
        }
    }

    /// The profile after a write of `value` to register `i` of its table, the
    /// change counter left alone: the table is written and the joint type
    /// fields are derived from it again.
    pub open spec fn with_value(self, i: int, value: i32) -> Self {
        SeamProfileView {
            meta: self.meta.with_joint_type(joint_type_of(written(self.v0, i, value))),
            v0: written(self.v0, i, value),
            ..self
        }
    }
}

/// A profile.
#[derive(Debug)]
pub struct SeamProfile {
    schema: String,
    enabled: bool,
    id: i32,
    meta: SeamProfileMeta,
    v0: SeamParamsV0,
    commits: usize,
}

impl View for SeamProfile {
    type V = SeamProfileView;

    closed spec fn view(&self) -> SeamProfileView {
        SeamProfileView {
            schema: self.schema@,
            enabled: self.enabled,
            id: self.id,
            meta: self.meta@,
            v0: self.v0@,
            commits: self.commits,
        }
    }
}

impl Default for SeamProfile {
    /// A disabled profile with id 0, an empty schema, empty metadata, a zeroed
    /// table and no change counted.
    fn default() -> (r: Self)
        ensures
            r@ == (SeamProfileView { schema: Seq::<char>::empty(), ..SeamProfileView::fresh(false, 0) }),
    {
        SeamProfile {
            schema: String::new(),
            enabled: false,
            id: 0,
            meta: SeamProfileMeta::default(),
            v0: SeamParamsV0::default(),
            commits: 0,
        }
    }
}

impl SeamProfile {
    /// A profile with the given flag and id, the profile schema, empty
    /// metadata, a zeroed table and no change counted.
    pub fn new(enabled: bool, id: i32) -> (r: Self)
        ensures
            r@ == SeamProfileView::fresh(enabled, id),
    {
        SeamProfile {
            schema: String::from_str(SEAM_PROFILE_SCHEMA),
            enabled,
            id,
            meta: SeamProfileMeta::default(),
            v0: SeamParamsV0::default(),
            commits: 0,
        }
    }

    /// A profile made of the given parts, with no change counted.
    pub fn from_parts(
        schema: String,
        enabled: bool,
        id: i32,
        meta: SeamProfileMeta,
        v0: SeamParamsV0,
    ) -> (r: Self)
        ensures
            r@ == (SeamProfileView {
                schema: schema@,
                enabled,
                id,
                meta: meta@,
                v0: v0@,
                commits: 0,
            }),
    {
        SeamProfile { schema, enabled, id, meta, v0, commits: 0 }
    }

    /// The schema URI that the profile carries.
    pub fn schema(&self) -> (r: &str)
        ensures
            r@ == self@.schema,
    {
        self.schema.as_str()
    }

    /// Whether the profile is enabled.
    pub fn is_enabled(&self) -> (r: bool)
        ensures
            r == self@.enabled,
    {
        self.enabled
    }

    /// Sets the enabled flag and counts a change.
    pub fn set_enabled(&mut self, yes: bool)
        ensures
            final(self)@ == (SeamProfileView { enabled: yes, ..old(self)@ }).committed(),
    {
        self.enabled = yes;
        self.commit();
    }

    /// The id.
    pub fn id(&self) -> (r: i32)
        ensures
            r == self@.id,
    {
        self.id
    }

    /// Sets the id and counts a change.
    pub fn set_id(&mut self, id: i32)
        ensures
            final(self)@ == (SeamProfileView { id, ..old(self)@ }).committed(),
    {
        self.id = id;
        self.commit();
    }

    /// The metadata.
    pub fn meta(&self) -> (r: &SeamProfileMeta)
        ensures
            r@ == self@.meta,
    {
        &self.meta
    }

    /// The metadata, from an exclusive borrow of the profile.
    pub fn meta_mut(&mut self) -> (r: &SeamProfileMeta)
        ensures
            r@ == old(self)@.meta,
            final(self)@ == old(self)@,
    {
        &self.meta
    }

    /// The table.
    pub fn v0(&self) -> (r: &SeamParamsV0)
        ensures
            r@ == self@.v0,
    {
        &self.v0
    }

    /// The table, for writing. Writes through the borrow are not counted as
    /// changes and leave the metadata as it is.
    pub fn v0_mut(&mut self) -> (r: &mut SeamParamsV0)
        ensures
            r@ == old(self)@.v0,
            final(self)@ == (SeamProfileView { v0: final(r)@, ..old(self)@ }),
    {
        &mut self.v0
    }

    /// The name.
    pub fn name(&self) -> (r: &str)
        ensures
            r@ == self@.meta.name,
    {
        self.meta.name()
    }

    /// Replaces the name and counts a change.
    pub fn set_name(&mut self, name: &str)
        ensures
            final(self)@ == (SeamProfileView {
                meta: old(self)@.meta.with_name(name@),
                ..old(self)@
            }).committed(),
    {
        self.meta.set_name(name);
        self.commit();
    }

    /// Stores the float with bit pattern `bits` at `index` of the table,
    /// derives the joint type fields from the table again, and counts a
    /// change. For `Invalid` the table stays as it is; the change is counted
    /// all the same.
    pub fn set_v0_value_f32(&mut self, index: SeamParamFlatId, bits: u32)
        ensures
            final(self)@ == old(self)@.with_value(index.spec_index(), value_of(bits)).committed(),
    {
        self.v0.set_value_f32(index, bits);
        self.meta.set_joint_type(self.v0.joint_type());
        self.commit();
    }

    /// Stores `value` at `index` of the table, derives the joint type fields
    /// from the table again, and counts a change. For `Invalid` the table
    /// stays as it is; the change is counted all the same.
    pub fn set_v0_value_i32(&mut self, index: SeamParamFlatId, value: i32)
        ensures
            final(self)@ == old(self)@.with_value(index.spec_index(), value).committed(),
    {
        self.v0.set_value_i32(index, value);
        self.meta.set_joint_type(self.v0.joint_type());
        self.commit();
    }

    /// Takes over the enabled flag, the name and the whole table of `other`,
    /// derives the joint type fields from that table, and counts two changes:
    /// one for the flag, one for the merge.
    pub fn merge(&mut self, other: &SeamProfile)
        ensures
            final(self)@ == old(self)@.merged(other@).committed().committed(),
    {
        self.set_enabled(other.is_enabled());
        self.meta.set_name(other.name());
        self.meta.set_joint_type(other.v0.joint_type());
        self.v0.merge(&other.v0);
        self.commit();
    }

    /// Takes over what `merge` takes over and counts no change. This is the
    /// merge for a profile read from disk, which is the new baseline and not a
    /// change still to be written.
    pub fn merge_with_commit(&mut self, other: &SeamProfile)
        ensures
            final(self)@ == old(self)@.merged(other@),
    {
        self.enabled = other.is_enabled();
        self.meta.set_name(other.name());
        self.meta.set_joint_type(other.v0.joint_type());
        self.v0.merge(&other.v0);
    }

    /// Counts one change.
    pub fn commit(&mut self)
        ensures
            final(self)@ == old(self)@.committed(),
    {
        self.commits = if self.commits == usize::MAX {
            0
        } else {
            self.commits + 1
        };
    }

    /// The number of changes counted since the last `flush`.
    pub fn commits(&self) -> (r: usize)
        ensures
            r == self@.commits,
    {
        self.commits
    }

    /// Forgets the changes counted so far.
    pub fn flush(&mut self)
        ensures
            final(self)@ == (SeamProfileView { commits: 0, ..old(self)@ }),
    {
        self.commits = 0;
    }
}

} // verus!
