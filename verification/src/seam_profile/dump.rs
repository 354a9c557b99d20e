//! Lists of profiles as JSON: the payload that carries full profiles in and
//! out, and the lighter list that carries only their metadata.

use super::codec::{decoded_profile, encodes_meta, encodes_profile, meta_keys, profile_keys};
use super::manager::{clock_millis, SeamProfileManager, SeamProfileManagerView};
use super::profile::{
    SeamProfile, SeamProfileMeta, SeamProfileMetaView, SeamProfileView,
    SEAM_PROFILES_META_ONLY_SCHEMA, SEAM_PROFILES_SCHEMA,
};
use crate::error::JsonError;
use crate::json::{
    elements, empty_object, from_boolean, from_elements, from_integer, from_string, json_array,
    json_bool, json_document, json_integer, json_member, json_object, json_string, json_text,
    member, parse, render, set_member, string,
};
use vstd::prelude::*;
use vstd::string::*;

verus! {

/// Whether a dump for `id` takes `profile`: the profile must be enabled and,
/// where an id is asked for, have that id.
pub open spec fn selects(profile: SeamProfileView, id: Option<i32>) -> bool {
    profile.enabled && (id.is_none() || profile.id == id.unwrap())
}

/// The indices below `n` of the profiles that a dump for `id` takes, in
/// ascending order.
pub open spec fn selected_below(profiles: Seq<SeamProfileView>, id: Option<i32>, n: int) -> Seq<
    usize,
>
    decreases n,
{
    if n <= 0 {
        Seq::<usize>::empty()
    } else if selects(profiles[n - 1], id) {
        selected_below(profiles, id, n - 1).push((n - 1) as usize)
    } else {
        selected_below(profiles, id, n - 1)
    }
}

/// The keys of the JSON form of a list of profiles.
pub open spec fn list_keys() -> Set<Seq<char>> {
    set!["schema"@, "profiles"@]
}

/// The keys of the JSON form of a profile reduced to its metadata.
pub open spec fn meta_only_keys() -> Set<Seq<char>> {
    set!["enabled"@, "id"@, "meta"@]
}

/// Whether `value` is the JSON form of a list of full profiles: an object of
/// the two members `schema` and `profiles`, the second an array in which each
/// element is the JSON form of the profile at its place.
pub open spec fn encodes_profiles(
    value: serde_json::Value,
    schema: Seq<char>,
    profiles: Seq<SeamProfileView>,
) -> bool {
    &&& json_object(value).is_some()
    &&& json_object(value).unwrap().dom() == list_keys()
    &&& json_string(json_object(value).unwrap()["schema"@]) == Some(schema)
    &&& json_array(json_object(value).unwrap()["profiles"@]) matches Some(items) && items.len()
        == profiles.len() && forall|k: int|
        0 <= k < items.len() ==> encodes_profile(#[trigger] items[k], profiles[k])
}

/// Whether `value` is the JSON form of a profile reduced to its metadata: an
/// object of the three members `enabled`, `id` and `meta`.
pub open spec fn encodes_meta_only(
    value: serde_json::Value,
    enabled: bool,
    id: i32,
    meta: SeamProfileMetaView,
) -> bool {
    &&& json_object(value).is_some()
    &&& json_object(value).unwrap().dom() == meta_only_keys()
    &&& json_bool(json_object(value).unwrap()["enabled"@]) == Some(enabled)
    &&& json_integer(json_object(value).unwrap()["id"@]) == Some(id as i64)
    &&& encodes_meta(json_object(value).unwrap()["meta"@], meta)
}

/// Whether `value` is the JSON form of a list of profiles reduced to their
/// metadata: an object of the two members `schema` and `profiles`, the second
/// an array in which each element is the reduced form of the profile at its
/// place.
pub open spec fn encodes_meta_list(
    value: serde_json::Value,
    schema: Seq<char>,
    profiles: Seq<SeamProfileView>,
) -> bool {
    &&& json_object(value).is_some()
    &&& json_object(value).unwrap().dom() == list_keys()
    &&& json_string(json_object(value).unwrap()["schema"@]) == Some(schema)
    &&& json_array(json_object(value).unwrap()["profiles"@]) matches Some(items) && items.len()
        == profiles.len() && forall|k: int|
        0 <= k < items.len() ==> encodes_meta_only(
            #[trigger] items[k],
            profiles[k].enabled,
            profiles[k].id,
            profiles[k].meta,
        )
}

/// The profiles that the documents of `items` are taken for, in order; `None`
/// where one of them is no profile.
pub open spec fn decoded_each(items: Seq<serde_json::Value>) -> Option<Seq<SeamProfileView>> {
    if forall|k: int| 0 <= k < items.len() ==> (#[trigger] decoded_profile(items[k])).is_some() {
        Some(Seq::new(items.len(), |k: int| decoded_profile(items[k]).unwrap()))
    } else {
        None
    }
}

/// The list of profiles that `value` is taken for: an object whose member
/// `schema` is a string and whose member `profiles` is an array of profiles.
pub open spec fn decoded_profiles(value: serde_json::Value) -> Option<Seq<SeamProfileView>> {
    let schema = match json_member(value, "schema"@) {
        Some(found) => json_string(found),
        None => None,
    };
    let items = match json_member(value, "profiles"@) {
        Some(found) => json_array(found),
        None => None,
    };
    if schema.is_some() && items.is_some() {
        decoded_each(items.unwrap())
    } else {
        None
    }
}

/// The profiles of `profiles` at the places that `picked` names.
pub open spec fn picked_from(profiles: Seq<SeamProfileView>, picked: Seq<usize>) -> Seq<
    SeamProfileView,
> {
    Seq::new(picked.len(), |k: int| profiles[picked[k] as int])
}

impl SeamProfileManagerView {
    /// The manager after each profile of `incoming` was merged in at the
    /// time `now`, in order.
    pub open spec fn merged_all(self, incoming: Seq<SeamProfileView>, now: u64) -> Self
        decreases incoming.len(),
    {
        if incoming.len() == 0 {
            self
        } else {
            self.merged_all(incoming.drop_last(), now).merged_in(incoming.last(), now)
        }
    }
}

/// In the JSON form of a list of full profiles, the element at the place of a
/// profile is an object of exactly the five members of a profile. Its `enabled`
/// and `id` are the profile's; its `meta` is an object of exactly the five
/// members of metadata, with the profile's name; and its `v0` is an object
/// whose one member, `values`, lists exactly 250 integers, the registers of
/// the profile in order.
pub proof fn lemma_list_shape(
    value: serde_json::Value,
    schema: Seq<char>,
    profiles: Seq<SeamProfileView>,
    k: int,
    i: int,
)
    requires
        encodes_profiles(value, schema, profiles),
        0 <= k < profiles.len(),
        0 <= i < 250,
    ensures
        json_array(json_object(value).unwrap()["profiles"@]).unwrap().len() == profiles.len(),
        ({
            let item = json_array(json_object(value).unwrap()["profiles"@]).unwrap()[k];
            let meta = json_object(item).unwrap()["meta"@];
            let v0 = json_object(item).unwrap()["v0"@];
            let values = json_array(json_object(v0).unwrap()["values"@]).unwrap();
            &&& json_object(item).unwrap().dom() == profile_keys()
            &&& json_bool(json_object(item).unwrap()["enabled"@]) == Some(profiles[k].enabled)
            &&& json_integer(json_object(item).unwrap()["id"@]) == Some(profiles[k].id as i64)
            &&& json_object(meta).unwrap().dom() == meta_keys()
            &&& json_string(json_object(meta).unwrap()["name"@]) == Some(profiles[k].meta.name)
            &&& json_object(v0).unwrap().dom() == set!["values"@]
            &&& values.len() == 250
            &&& json_integer(values[i]) == Some(profiles[k].v0[i] as i64)
        }),
{
    let items = json_array(json_object(value).unwrap()["profiles"@]).unwrap();
    assert(encodes_profile(items[k], profiles[k]));
}

proof fn lemma_list_keys_differ()
    ensures
        "schema"@ != "profiles"@,
        "enabled"@ != "id"@,
        "enabled"@ != "meta"@,
        "id"@ != "meta"@,
{
    reveal_strlit("schema");
    reveal_strlit("profiles");
    reveal_strlit("enabled");
    reveal_strlit("id");
    reveal_strlit("meta");
    assert("schema"@.len() == 6);
    assert("profiles"@.len() == 8);
    assert("enabled"@.len() == 7);
    assert("id"@.len() == 2);
    assert("meta"@.len() == 4);
}

/// A dump takes a profile exactly when the profile is enabled and has the id
/// asked for, and every index it gives names a profile.
pub proof fn lemma_selected_below(
    profiles: Seq<SeamProfileView>,
    id: Option<i32>,
    n: int,
    i: usize,
)
    requires
        profiles.len() == 256,
        0 <= n <= 256,
    ensures
        selected_below(profiles, id, n).contains(i) <==> (i < n && selects(
            profiles[i as int],
            id,
        )),
        selected_below(profiles, id, n).len() <= n,
        forall|k: int|
            0 <= k < selected_below(profiles, id, n).len() ==> #[trigger] selected_below(
                profiles,
                id,
                n,
            )[k] < n,
    decreases n,
{
    if n > 0 {
        lemma_selected_below(profiles, id, n - 1, i);
        let rest = selected_below(profiles, id, n - 1);
        if selects(profiles[n - 1], id) {
            let last = (n - 1) as usize;
            let all = rest.push(last);
            assert(all[rest.len() as int] == last);
            if all.contains(i) {
                let k = choose|k: int| 0 <= k < all.len() && all[k] == i;
                if k < rest.len() {
                    assert(rest.contains(i));
                }
            }
            if i < n && selects(profiles[i as int], id) {
                if i == last {
                    assert(all[rest.len() as int] == i);
                } else {
                    let k = choose|k: int| 0 <= k < rest.len() && rest[k] == i;
                    assert(all[k] == i);
                }
            }
        }
    }
}

/// A list of full profiles, as it is carried in a JSON payload.
#[derive(Debug)]
pub struct SeamProfilesInfo {
    /// The schema URI of the payload.
    pub schema: String,
    /// The profiles.
    pub profiles: Vec<SeamProfile>,
}

impl Default for SeamProfilesInfo {
    /// The list without profiles under the empty schema.
    fn default() -> (r: Self)
        ensures
            r.schema@ == Seq::<char>::empty(),
            r.profiles@.len() == 0,
    {
        SeamProfilesInfo { schema: String::new(), profiles: Vec::new() }
    }
}

impl SeamProfilesInfo {
    /// The models of the profiles, in order.
    pub open spec fn views(&self) -> Seq<SeamProfileView> {
        Seq::new(self.profiles@.len(), |k: int| self.profiles@[k]@)
    }

    /// Takes a JSON document for a list of profiles.
    pub fn from_json_value(value: &serde_json::Value) -> (r: Result<SeamProfilesInfo, JsonError>)
        ensures
            match r {
                Ok(info) => decoded_profiles(*value) == Some(info.views()) && json_member(
                    *value,
                    "schema"@,
                ).is_some() && json_string(json_member(*value, "schema"@).unwrap()) == Some(
                    info.schema@,
                ),
                Err(e) => decoded_profiles(*value).is_none() && e is Schema,
            },
    {
        let schema = match member(value, "schema") {
            Some(found) => match string(found) {
                Some(text) => String::from_str(text),
                None => {
                    return Err(JsonError::Schema);
                },
            },
            None => {
                return Err(JsonError::Schema);
            },
        };
        let items = match member(value, "profiles") {
            Some(found) => match elements(found) {
                Some(items) => items,
                None => {
                    return Err(JsonError::Schema);
                },
            },
            None => {
                return Err(JsonError::Schema);
            },
        };
        let mut profiles: Vec<SeamProfile> = Vec::new();
        let mut i: usize = 0;
        while i < items.len()
            invariant
                i <= items@.len(),
                profiles@.len() == i,
                json_member(*value, "schema"@).is_some(),
                json_string(json_member(*value, "schema"@).unwrap()) == Some(schema@),
                json_member(*value, "profiles"@).is_some(),
                json_array(json_member(*value, "profiles"@).unwrap()) == Some(items@),
                forall|k: int|
                    0 <= k < i ==> (#[trigger] decoded_profile(items@[k])) == Some(profiles@[k]@),
            decreases items@.len() - i,
        {
            match SeamProfile::from_json_value(&items[i]) {
                Ok(profile) => {
                    profiles.push(profile);
                },
                Err(e) => {
                    assert(decoded_profile(items@[i as int]).is_none());
                    return Err(e);
                },
            }
            i = i + 1;
        }
        let info = SeamProfilesInfo { schema, profiles };
        assert(info.views() =~= Seq::new(
            items@.len(),
            |k: int| decoded_profile(items@[k]).unwrap(),
        ));
        Ok(info)
    }
}

/// A profile reduced to its flag, its id and its metadata.
#[derive(Debug)]
pub struct SeamProfileMetaOnly<'r> {
    /// Whether the profile is enabled.
    pub enabled: bool,
    /// The id of the profile.
    pub id: i32,
    /// The metadata of the profile.
    pub meta: &'r SeamProfileMeta,
}

impl<'r> SeamProfileMetaOnly<'r> {
    /// The JSON form: an object of the three members `enabled`, `id` and
    /// `meta`.
    pub fn to_json_value(&self) -> (r: serde_json::Value)
        ensures
            encodes_meta_only(r, self.enabled, self.id, self.meta@),
    {
        proof {
            lemma_list_keys_differ();
        }
        let mut r = empty_object();
        set_member(&mut r, "enabled", from_boolean(self.enabled));
        set_member(&mut r, "id", from_integer(self.id as i64));
        set_member(&mut r, "meta", self.meta.to_json_value());
        assert(json_object(r).unwrap().dom() =~= meta_only_keys());
        r
    }
}

/// A list of profiles reduced to their metadata.
#[derive(Debug)]
pub struct SeamProfilesMetaOnly<'r> {
    /// The schema URI of the list.
    pub schema: String,
    /// The reduced profiles.
    pub profiles: Vec<SeamProfileMetaOnly<'r>>,
}

impl<'r> Default for SeamProfilesMetaOnly<'r> {
    /// The list without profiles under the empty schema.
    fn default() -> (r: Self)
        ensures
            r.schema@ == Seq::<char>::empty(),
            r.profiles@.len() == 0,
    {
        SeamProfilesMetaOnly { schema: String::new(), profiles: Vec::new() }
    }
}

/// The text that a dump hands out for the outcome of writing a document: the
/// text where there is one, the empty text where there is none.
pub open spec fn text_or_empty(text: Option<Seq<char>>) -> Seq<char> {
    match text {
        Some(t) => t,
        None => Seq::<char>::empty(),
    }
}

fn rendered(value: &serde_json::Value) -> (r: String)
    ensures
        r@ == text_or_empty(json_text(*value)),
{
    match render(value) {
        Ok(text) => text,
        Err(_) => String::new(),
    }
}

fn list_value(schema: &str, items: Vec<serde_json::Value>) -> (r: serde_json::Value)
    ensures
        json_object(r).is_some(),
        json_object(r).unwrap().dom() == list_keys(),
        json_string(json_object(r).unwrap()["schema"@]) == Some(schema@),
        json_array(json_object(r).unwrap()["profiles"@]) == Some(items@),
{
    proof {
        lemma_list_keys_differ();
    }
    let mut r = empty_object();
    set_member(&mut r, "schema", from_string(schema));
    set_member(&mut r, "profiles", from_elements(items));
    assert(json_object(r).unwrap().dom() =~= list_keys());
    r
}

impl<'r> SeamProfilesMetaOnly<'r> {
    /// The reduced profiles as models that hold what the list holds of them.
    pub open spec fn holds(&self, profiles: Seq<SeamProfileView>) -> bool {
        &&& self.profiles@.len() == profiles.len()
        &&& forall|k: int|
            0 <= k < profiles.len() ==> {
                &&& (#[trigger] self.profiles@[k]).enabled == profiles[k].enabled
                &&& self.profiles@[k].id == profiles[k].id
                &&& self.profiles@[k].meta@ == profiles[k].meta
            }
    }

    /// The JSON form of the list.
    pub fn to_json_value(&self) -> (r: serde_json::Value)
        ensures
            forall|profiles: Seq<SeamProfileView>|
                self.holds(profiles) ==> encodes_meta_list(r, self.schema@, profiles),
    {
        let mut items: Vec<serde_json::Value> = Vec::new();
        let mut i: usize = 0;
        while i < self.profiles.len()
            invariant
                i <= self.profiles@.len(),
                items@.len() == i,
                forall|k: int|
                    0 <= k < i ==> encodes_meta_only(
                        #[trigger] items@[k],
                        self.profiles@[k].enabled,
                        self.profiles@[k].id,
                        self.profiles@[k].meta@,
                    ),
            decreases self.profiles@.len() - i,
        {
            items.push(self.profiles[i].to_json_value());
            i = i + 1;
        }
        list_value(self.schema.as_str(), items)
    }

    /// The JSON text of the list; the empty text where `serde_json` writes
    /// none.
    pub fn to_json_string(&self) -> (r: String)
        ensures
            exists|value: serde_json::Value|
                r@ == text_or_empty(json_text(value)) && forall|profiles: Seq<SeamProfileView>|
                    self.holds(profiles) ==> encodes_meta_list(value, self.schema@, profiles),
    {
        let value = self.to_json_value();
        rendered(&value)
    }
}

impl SeamProfileManager {
    /// The profiles that a dump for `id` takes, by index in ascending order:
    /// those that are enabled and, where an id is given, have that id.
    pub fn select_profiles(&self, id: Option<i32>) -> (r: Vec<usize>)
        ensures
            self@.wf(),
            r@ == selected_below(self@.profiles, id, 256),
            forall|k: int| 0 <= k < r@.len() ==> #[trigger] r@[k] < 256,
    {
        let count = self.profile_count();
        let mut picked: Vec<usize> = Vec::new();
        let mut i: usize = 0;
        while i < count
            invariant
                i <= 256,
                count == 256,
                self@.wf(),
                picked@ == selected_below(self@.profiles, id, i as int),
                forall|k: int| 0 <= k < picked@.len() ==> #[trigger] picked@[k] < 256,
            decreases 256 - i,
        {
            let profile = self.get_profile(i);
            let wanted = match id {
                Some(wanted_id) => profile.id() == wanted_id,
                None => true,
            };
            if profile.is_enabled() && wanted {
                picked.push(i);
            }
            i = i + 1;
        }
        picked
    }

    fn profiles_value(&self, picked: &Vec<usize>) -> (r: serde_json::Value)
        requires
            forall|k: int| 0 <= k < picked@.len() ==> #[trigger] picked@[k] < 256,
        ensures
            encodes_profiles(r, SEAM_PROFILES_SCHEMA@, picked_from(self@.profiles, picked@)),
    {
        let mut items: Vec<serde_json::Value> = Vec::new();
        let mut i: usize = 0;
        while i < picked.len()
            invariant
                i <= picked@.len(),
                items@.len() == i,
                forall|k: int| 0 <= k < picked@.len() ==> #[trigger] picked@[k] < 256,
                forall|k: int|
                    0 <= k < i ==> encodes_profile(
                        #[trigger] items@[k],
                        self@.profiles[picked@[k] as int],
                    ),
            decreases picked@.len() - i,
        {
            items.push(self.get_profile(picked[i]).to_json_value());
            i = i + 1;
        }
        list_value(SEAM_PROFILES_SCHEMA, items)
    }

    /// The JSON form of the list of the profiles that a dump for `id` takes.
    pub fn dump_profiles_value(&self, id: Option<i32>) -> (r: serde_json::Value)
        ensures
            encodes_profiles(
                r,
                SEAM_PROFILES_SCHEMA@,
                picked_from(self@.profiles, selected_below(self@.profiles, id, 256)),
            ),
    {
        let picked = self.select_profiles(id);
        self.profiles_value(&picked)
    }

    /// The JSON text of the list of the profiles that a dump for `id` takes;
    /// the empty text where `serde_json` writes none.
    pub fn dump_profiles_string(&self, id: Option<i32>) -> (r: String)
        ensures
            exists|value: serde_json::Value|
                encodes_profiles(
                    value,
                    SEAM_PROFILES_SCHEMA@,
                    picked_from(self@.profiles, selected_below(self@.profiles, id, 256)),
                ) && r@ == text_or_empty(json_text(value)),
    {
        let value = self.dump_profiles_value(id);
        rendered(&value)
    }

    /// The JSON form of the list of all 256 profiles, enabled or not.
    pub fn to_json_value(&self) -> (r: serde_json::Value)
        ensures
            self@.wf(),
            encodes_profiles(r, SEAM_PROFILES_SCHEMA@, self@.profiles),
    {
        let count = self.profile_count();
        let mut all: Vec<usize> = Vec::new();
        let mut i: usize = 0;
        while i < count
            invariant
                i <= 256,
                count == 256,
                all@.len() == i,
                forall|k: int| 0 <= k < i ==> #[trigger] all@[k] == k,
            decreases 256 - i,
        {
            all.push(i);
            i = i + 1;
        }
        assert(picked_from(self@.profiles, all@) =~= self@.profiles);
        self.profiles_value(&all)
    }

    /// The JSON text of the list of all 256 profiles; the empty text where
    /// `serde_json` writes none.
    pub fn to_json_string(&self) -> (r: String)
        ensures
            exists|value: serde_json::Value|
                encodes_profiles(value, SEAM_PROFILES_SCHEMA@, self@.profiles) && r@
                    == text_or_empty(json_text(value)),
    {
        let value = self.to_json_value();
        rendered(&value)
    }

    /// The profiles that a dump for `id` takes, reduced to their metadata.
    pub fn dump_profiles_meta_only(&self, id: Option<i32>) -> (r: SeamProfilesMetaOnly<'_>)
        ensures
            r.schema@ == SEAM_PROFILES_META_ONLY_SCHEMA@,
            r.holds(picked_from(self@.profiles, selected_below(self@.profiles, id, 256))),
    {
        let picked = self.select_profiles(id);
        let mut profiles: Vec<SeamProfileMetaOnly<'_>> = Vec::new();
        let mut i: usize = 0;
        while i < picked.len()
            invariant
                i <= picked@.len(),
                profiles@.len() == i,
                forall|k: int| 0 <= k < picked@.len() ==> #[trigger] picked@[k] < 256,
                forall|k: int|
                    0 <= k < i ==> {
                        &&& (#[trigger] profiles@[k]).enabled
                            == self@.profiles[picked@[k] as int].enabled
                        &&& profiles@[k].id == self@.profiles[picked@[k] as int].id
                        &&& profiles@[k].meta@ == self@.profiles[picked@[k] as int].meta
                    },
            decreases picked@.len() - i,
        {
            let profile = self.get_profile(picked[i]);
            profiles.push(
                SeamProfileMetaOnly {
                    enabled: profile.is_enabled(),
                    id: profile.id(),
                    meta: profile.meta(),
                },
            );
            i = i + 1;
        }
        SeamProfilesMetaOnly { schema: String::from_str(SEAM_PROFILES_META_ONLY_SCHEMA), profiles }
    }

    /// The JSON text of the profiles that a dump for `id` takes, reduced to
    /// their metadata; the empty text where `serde_json` writes none.
    pub fn dump_profiles_meta_only_string(&self, id: Option<i32>) -> (r: String)
        ensures
            exists|value: serde_json::Value|
                encodes_meta_list(
                    value,
                    SEAM_PROFILES_META_ONLY_SCHEMA@,
                    picked_from(self@.profiles, selected_below(self@.profiles, id, 256)),
                ) && r@ == text_or_empty(json_text(value)),
    {
        let list = self.dump_profiles_meta_only(id);
        let value = list.to_json_value();
        rendered(&value)
    }

    /// Merges every profile of `incoming` in, in order, at the time the clock
    /// shows.
    pub fn merge_profiles(&mut self, incoming: &SeamProfilesInfo)
        ensures
            exists|now: u64| final(self)@ == old(self)@.merged_all(incoming.views(), now),
    {
        let now = clock_millis();
        self.merge_profiles_at(incoming, now)
    }

    /// Merges every profile of `incoming` in at the time `now`, in order; a
    /// profile whose id names none of the 256 is passed over.
    pub fn merge_profiles_at(&mut self, incoming: &SeamProfilesInfo, now: u64)
        ensures
            final(self)@ == old(self)@.merged_all(incoming.views(), now),
    {
        let ghost before = self@;
        let mut i: usize = 0;
        while i < incoming.profiles.len()
            invariant
                i <= incoming.profiles@.len(),
                self@ == before.merged_all(incoming.views().take(i as int), now),
            decreases incoming.profiles@.len() - i,
        {
            proof {
                let next = incoming.views().take(i + 1);
                assert(next.drop_last() =~= incoming.views().take(i as int));
                assert(next.last() == incoming.profiles@[i as int]@);
            }
            self.merge_profile_at(&incoming.profiles[i], now);
            i = i + 1;
        }
        assert(incoming.views().take(i as int) =~= incoming.views());
    }

    /// Reads a list of profiles from JSON text and merges each in at the time
    /// the clock shows. Nothing changes where the text is no list of
    /// profiles.
    pub fn load_profiles_from_json_str(&mut self, json: &str) -> (r: Result<(), JsonError>)
        ensures
            match r {
                Ok(_) => json_document(json@).is_some() && decoded_profiles(
                    json_document(json@).unwrap(),
                ).is_some() && exists|now: u64|
                    final(self)@ == old(self)@.merged_all(
                        decoded_profiles(json_document(json@).unwrap()).unwrap(),
                        now,
                    ),
                Err(JsonError::Text(_)) => json_document(json@).is_none() && final(self)@ == old(
                    self,
                )@,
                Err(JsonError::Schema) => json_document(json@).is_some() && decoded_profiles(
                    json_document(json@).unwrap(),
                ).is_none() && final(self)@ == old(self)@,
            },
    {
        match parse(json) {
            Ok(value) => match SeamProfilesInfo::from_json_value(&value) {
                Ok(incoming) => {
                    let now = clock_millis();
                    self.merge_profiles_at(&incoming, now);
                    assert(self@ == old(self)@.merged_all(
                        decoded_profiles(json_document(json@).unwrap()).unwrap(),
                        now,
                    ));
                    Ok(())
                },
                Err(e) => Err(e),
            },
            Err(e) => Err(JsonError::Text(e)),
        }
    }
}

} // verus!
