//! The JSON form of tables, metadata and profiles.
//!
//! A table is the object `{"values": [...]}`, a profile the object
//! `{"schema", "enabled", "id", "meta": {...}, "v0": {...}}`. The functions
//! here say which documents are taken and what they are taken for; the JSON
//! text itself is read and written by the functions of `crate::json`.

use super::param_value::SeamParamValue;
use super::params_v0::{table_of, SeamParamsV0};
use super::profile::{SeamProfile, SeamProfileMeta, SeamProfileMetaView, SeamProfileView};
use crate::error::JsonError;
use crate::json::{
    boolean, elements, empty_object, from_boolean, from_elements, from_integer, from_string,
    integer, json_array, json_bool, json_document, json_integer, json_member, json_object,
    json_string, json_text, member, member_count, parse, render, set_member, string,
};
use vstd::prelude::*;
use vstd::string::*;

verus! {

/// The 32-bit integer that `value` is; `None` where `value` is no integer or
/// an integer outside 32 bits.
pub open spec fn decoded_i32(value: serde_json::Value) -> Option<i32> {
    match json_integer(value) {
        Some(number) => if i32::MIN <= number <= i32::MAX {
            Some(number as i32)
        } else {
            None
        },
        None => None,
    }
}

/// The list of 32-bit integers that `value` is; `None` where `value` is no
/// array or holds an element that is no such integer.
pub open spec fn decoded_values(value: serde_json::Value) -> Option<Seq<i32>> {
    match json_array(value) {
        Some(items) => if forall|i: int|
            0 <= i < items.len() ==> (#[trigger] decoded_i32(items[i])).is_some() {
            Some(Seq::new(items.len(), |i: int| decoded_i32(items[i]).unwrap()))
        } else {
            None
        },
        None => None,
    }
}

/// The table that `value` is taken for: `value` must be an object with no
/// member but `values`; that member, where present, must be a list of 32-bit
/// integers, of which the first 250 fill the table from its start; what they
/// do not fill is zero.
pub open spec fn decoded_params(value: serde_json::Value) -> Option<Seq<i32>> {
    match json_object(value) {
        Some(members) => if !members.dom().subset_of(set!["values"@]) {
            None
        } else if members.contains_key("values"@) {
            match decoded_values(members["values"@]) {
                Some(values) => Some(table_of(values)),
                None => None,
            }
        } else {
            Some(table_of(Seq::<i32>::empty()))
        },
        None => None,
    }
}

/// Whether `value` is the JSON form of `table`: an object whose one member,
/// `values`, lists the registers in order.
pub open spec fn encodes_params(value: serde_json::Value, table: Seq<i32>) -> bool {
    &&& json_object(value).is_some()
    &&& json_object(value).unwrap().dom() == set!["values"@]
    &&& json_array(json_object(value).unwrap()["values"@]) matches Some(items) && items.len()
        == table.len() && forall|i: int|
        0 <= i < items.len() ==> json_integer(#[trigger] items[i]) == Some(table[i] as i64)
}

/// A finite set lies within `{key}` exactly when it is empty or is `{key}`.
proof fn lemma_within_singleton(keys: Set<Seq<char>>, key: Seq<char>)
    requires
        keys.finite(),
    ensures
        keys.subset_of(set![key]) <==> (keys.len() == 0 || (keys.len() == 1 && keys.contains(key))),
{
    if keys.len() == 0 {
        keys.lemma_len0_is_empty();
    } else if keys.contains(key) {
        let rest = keys.remove(key);
        if keys.len() == 1 {
            rest.lemma_len0_is_empty();
            assert forall|k: Seq<char>| keys.contains(k) implies k == key by {
                if k != key {
                    assert(rest.contains(k));
                }
            }
        } else {
            assert(rest.len() > 0);
            let other = rest.choose();
            assert(keys.contains(other) && other != key);
        }
    } else {
        let other = keys.choose();
        assert(keys.contains(other) && other != key);
    }
}

/// A table read back from its own JSON form is the table.
pub proof fn lemma_params_round_trip(value: serde_json::Value, table: Seq<i32>)
    requires
        table.len() == 250,
        encodes_params(value, table),
    ensures
        decoded_params(value) == Some(table),
{
    let members = json_object(value).unwrap();
    let items = json_array(members["values"@]).unwrap();
    assert(members.dom().subset_of(set!["values"@]));
    assert(members.contains_key("values"@));
    assert forall|i: int| 0 <= i < items.len() implies (#[trigger] decoded_i32(
        items[i],
    )).is_some() && decoded_i32(items[i]).unwrap() == table[i] by {}
    let values = decoded_values(members["values"@]).unwrap();
    assert(values =~= table);
    assert(table_of(values) =~= table);
}

/// A document with a member other than `values` is taken for no table.
pub proof fn lemma_unknown_member(value: serde_json::Value, key: Seq<char>)
    requires
        json_object(value).is_some(),
        json_object(value).unwrap().contains_key(key),
        key != "values"@,
    ensures
        decoded_params(value).is_none(),
{
    assert(json_object(value).unwrap().dom().contains(key));
    assert(!set!["values"@].contains(key));
}

/// A list shorter than the table fills the table from its start and leaves
/// the rest zero; a list at least as long fills all of it.
pub proof fn lemma_table_of(values: Seq<i32>, i: int)
    requires
        0 <= i < 250,
    ensures
        table_of(values).len() == 250,
        i < values.len() ==> table_of(values)[i] == values[i],
        i >= values.len() ==> table_of(values)[i] == 0,
{
}

fn read_i32(value: &serde_json::Value) -> (r: Option<i32>)
    ensures
        r == decoded_i32(*value),
{
    match integer(value) {
        Some(number) => {
            if number >= -2147483648 && number <= 2147483647 {
                Some(number as i32)
            } else {
                None
            }
        },
        None => None,
    }
}

fn read_values(value: &serde_json::Value) -> (r: Option<Vec<i32>>)
    ensures
        match r {
            Some(values) => decoded_values(*value) == Some(values@),
            None => decoded_values(*value).is_none(),
        },
{
    match elements(value) {
        Some(items) => {
            let mut values: Vec<i32> = Vec::new();
            let mut i: usize = 0;
            while i < items.len()
                invariant
                    i <= items@.len(),
                    values@.len() == i,
                    json_array(*value) == Some(items@),
                    forall|k: int|
                        0 <= k < i ==> (#[trigger] decoded_i32(items@[k])) == Some(values@[k]),
                decreases items@.len() - i,
            {
                match read_i32(&items[i]) {
                    Some(number) => {
                        values.push(number);
                    },
                    None => {
                        assert(decoded_i32(items@[i as int]).is_none());
                        return None;
                    },
                }
                i = i + 1;
            }
            assert(values@ =~= Seq::new(items@.len(), |k: int| decoded_i32(items@[k]).unwrap()));
            Some(values)
        },
        None => None,
    }
}

impl SeamParamValue {
    /// Takes a JSON document for a register: the document must be an integer
    /// of 32 bits, which is the integer reading of the register.
    pub fn from_json_value(value: &serde_json::Value) -> (r: Result<SeamParamValue, JsonError>)
        ensures
            match r {
                Ok(cell) => decoded_i32(*value) == Some(cell.i32_val),
                Err(e) => decoded_i32(*value).is_none() && e is Schema,
            },
    {
        match read_i32(value) {
            Some(number) => Ok(SeamParamValue { i32_val: number }),
            None => Err(JsonError::Schema),
        }
    }

    /// The JSON form of the register: its integer reading.
    pub fn to_json_value(&self) -> (r: serde_json::Value)
        ensures
            json_integer(r) == Some(self.i32_val as i64),
            decoded_i32(r) == Some(self.i32_val),
    {
        from_integer(self.i32_val as i64)
    }
}

impl SeamParamsV0 {
    /// Takes a JSON document for a table.
    pub fn from_json_value(value: &serde_json::Value) -> (r: Result<SeamParamsV0, JsonError>)
        ensures
            match r {
                Ok(table) => decoded_params(*value) == Some(table@),
                Err(e) => decoded_params(*value).is_none() && e is Schema,
            },
    {
        match member_count(value) {
            None => Err(JsonError::Schema),
            Some(count) => {
                proof {
                    lemma_within_singleton(json_object(*value).unwrap().dom(), "values"@);
                }
                match member(value, "values") {
                    Some(list) => {
                        if count != 1 {
                            return Err(JsonError::Schema);
                        }
                        match read_values(list) {
                            Some(values) => Ok(SeamParamsV0::from_values(values.as_slice())),
                            None => Err(JsonError::Schema),
                        }
                    },
                    None => {
                        if count != 0 {
                            return Err(JsonError::Schema);
                        }
                        let table = SeamParamsV0::from_values(Vec::<i32>::new().as_slice());
                        Ok(table)
                    },
                }
            },
        }
    }

    /// Reads a table from JSON text. The text must be one JSON document, and
    /// that document a table.
    pub fn from_json_str(text: &str) -> (r: Result<SeamParamsV0, JsonError>)
        ensures
            match r {
                Ok(table) => json_document(text@).is_some() && decoded_params(
                    json_document(text@).unwrap(),
                ) == Some(table@),
                Err(JsonError::Text(_)) => json_document(text@).is_none(),
                Err(JsonError::Schema) => json_document(text@).is_some() && decoded_params(
                    json_document(text@).unwrap(),
                ).is_none(),
            },
    {
        match parse(text) {
            Ok(value) => SeamParamsV0::from_json_value(&value),
            Err(e) => Err(JsonError::Text(e)),
        }
    }

    /// The JSON form of the table.
    pub fn to_json_value(&self) -> (r: serde_json::Value)
        ensures
            encodes_params(r, self@),
            decoded_params(r) == Some(self@),
    {
        let values = self.to_values();
        let mut items: Vec<serde_json::Value> = Vec::new();
        let mut i: usize = 0;
        while i < values.len()
            invariant
                i <= values@.len(),
                items@.len() == i,
                forall|k: int|
                    0 <= k < i ==> json_integer(#[trigger] items@[k]) == Some(values@[k] as i64),
            decreases values@.len() - i,
        {
            items.push(from_integer(values[i] as i64));
            i = i + 1;
        }
        let list = from_elements(items);
        let mut r = empty_object();
        set_member(&mut r, "values", list);
        assert(json_object(r).unwrap().dom() =~= set!["values"@]);
        proof {
            lemma_params_round_trip(r, self@);
        }
        r
    }

    /// The JSON text of the table: the text of its JSON form where that form
    /// has one, and the error of `serde_json` only where it has none.
    pub fn to_json_string(&self) -> (r: Result<String, JsonError>)
        ensures
            match r {
                Ok(text) => exists|value: serde_json::Value|
                    encodes_params(value, self@) && json_text(value) == Some(text@),
                Err(e) => e is Text && exists|value: serde_json::Value|
                    encodes_params(value, self@) && json_text(value).is_none(),
            },
    {
        let value = self.to_json_value();
        match render(&value) {
            Ok(text) => Ok(text),
            Err(e) => Err(JsonError::Text(e)),
        }
    }
}

/// The 32-bit integer under `key` of the object `value`; `None` where there is
/// no such member or it is no such integer.
pub open spec fn member_i32(value: serde_json::Value, key: Seq<char>) -> Option<i32> {
    match json_member(value, key) {
        Some(found) => decoded_i32(found),
        None => None,
    }
}

/// The metadata that `value` is taken for: an object whose member `name` is a
/// string and whose members `jointType`, `jointTypeMajor`, `jointTypeMinor` and
/// `version` are 32-bit integers. Other members are passed over.
pub open spec fn decoded_meta(value: serde_json::Value) -> Option<SeamProfileMetaView> {
    let name = match json_member(value, "name"@) {
        Some(found) => json_string(found),
        None => None,
    };
    let joint_type = member_i32(value, "jointType"@);
    let major = member_i32(value, "jointTypeMajor"@);
    let minor = member_i32(value, "jointTypeMinor"@);
    let version = member_i32(value, "version"@);
    if name.is_some() && joint_type.is_some() && major.is_some() && minor.is_some()
        && version.is_some() {
        Some(
            SeamProfileMetaView {
                name: name.unwrap(),
                joint_type: joint_type.unwrap(),
                joint_type_major: major.unwrap(),
                joint_type_minor: minor.unwrap(),
                version: version.unwrap(),
            },
        )
    } else {
        None
    }
}

/// The schema URI that the object `value` carries: the string under `schema`,
/// the empty string where there is no such member, and `None` where the
/// member is no string.
pub open spec fn decoded_schema(value: serde_json::Value) -> Option<Seq<char>> {
    match json_member(value, "schema"@) {
        Some(found) => json_string(found),
        None => Some(Seq::<char>::empty()),
    }
}

/// The profile that `value` is taken for: an object whose member `enabled` is
/// a boolean, `id` a 32-bit integer, `meta` metadata and `v0` a table, and
/// whose member `schema`, where present, is a string. Other members are
/// passed over. No change is counted for a profile that was read.
pub open spec fn decoded_profile(value: serde_json::Value) -> Option<SeamProfileView> {
    let schema = decoded_schema(value);
    let enabled = match json_member(value, "enabled"@) {
        Some(found) => json_bool(found),
        None => None,
    };
    let id = member_i32(value, "id"@);
    let meta = match json_member(value, "meta"@) {
        Some(found) => decoded_meta(found),
        None => None,
    };
    let v0 = match json_member(value, "v0"@) {
        Some(found) => decoded_params(found),
        None => None,
    };
    if schema.is_some() && enabled.is_some() && id.is_some() && meta.is_some() && v0.is_some() {
        Some(
            SeamProfileView {
                schema: schema.unwrap(),
                enabled: enabled.unwrap(),
                id: id.unwrap(),
                meta: meta.unwrap(),
                v0: v0.unwrap(),
                commits: 0,
            },
        )
    } else {
        None
    }
}

/// Whether `value` is the JSON form of `meta`: an object of exactly the five
/// members of metadata, the name a string and the others integers.
pub open spec fn encodes_meta(value: serde_json::Value, meta: SeamProfileMetaView) -> bool {
    &&& json_object(value).is_some()
    &&& json_object(value).unwrap().dom() == meta_keys()
    &&& json_string(json_object(value).unwrap()["name"@]) == Some(meta.name)
    &&& json_integer(json_object(value).unwrap()["jointType"@]) == Some(meta.joint_type as i64)
    &&& json_integer(json_object(value).unwrap()["jointTypeMajor"@]) == Some(
        meta.joint_type_major as i64,
    )
    &&& json_integer(json_object(value).unwrap()["jointTypeMinor"@]) == Some(
        meta.joint_type_minor as i64,
    )
    &&& json_integer(json_object(value).unwrap()["version"@]) == Some(meta.version as i64)
}

/// Whether `value` is the JSON form of `profile`: an object of exactly the
/// five members of a profile, in which `schema` is a string, `enabled` a
/// truth value, `id` an integer, `meta` the form of the metadata and `v0`
/// the form of the table with its 250 registers. Such a document reads back
/// as `profile`; the change counter is not written.
pub open spec fn encodes_profile(value: serde_json::Value, profile: SeamProfileView) -> bool {
    &&& json_object(value).is_some()
    &&& json_object(value).unwrap().dom() == profile_keys()
    &&& json_string(json_object(value).unwrap()["schema"@]) == Some(profile.schema)
    &&& json_bool(json_object(value).unwrap()["enabled"@]) == Some(profile.enabled)
    &&& json_integer(json_object(value).unwrap()["id"@]) == Some(profile.id as i64)
    &&& encodes_meta(json_object(value).unwrap()["meta"@], profile.meta)
    &&& encodes_params(json_object(value).unwrap()["v0"@], profile.v0)
    &&& profile.v0.len() == 250
    &&& decoded_profile(value) == Some(SeamProfileView { commits: 0, ..profile })
}

/// The keys of the JSON form of metadata.
pub open spec fn meta_keys() -> Set<Seq<char>> {
    set!["name"@, "jointType"@, "jointTypeMajor"@, "jointTypeMinor"@, "version"@]
}

/// The keys of the JSON form of a profile.
pub open spec fn profile_keys() -> Set<Seq<char>> {
    set!["schema"@, "enabled"@, "id"@, "meta"@, "v0"@]
}

proof fn lemma_meta_keys_differ()
    ensures
        "name"@ != "jointType"@,
        "name"@ != "jointTypeMajor"@,
        "name"@ != "jointTypeMinor"@,
        "name"@ != "version"@,
        "jointType"@ != "jointTypeMajor"@,
        "jointType"@ != "jointTypeMinor"@,
        "jointType"@ != "version"@,
        "jointTypeMajor"@ != "jointTypeMinor"@,
        "jointTypeMajor"@ != "version"@,
        "jointTypeMinor"@ != "version"@,
{
    reveal_strlit("name");
    reveal_strlit("jointType");
    reveal_strlit("jointTypeMajor");
    reveal_strlit("jointTypeMinor");
    reveal_strlit("version");
    assert("name"@.len() == 4);
    assert("jointType"@.len() == 9);
    assert("jointTypeMajor"@.len() == 14);
    assert("jointTypeMinor"@.len() == 14);
    assert("version"@.len() == 7);
    assert("jointTypeMajor"@[10] != "jointTypeMinor"@[10]);
}

proof fn lemma_profile_keys_differ()
    ensures
        "schema"@ != "enabled"@,
        "schema"@ != "id"@,
        "schema"@ != "meta"@,
        "schema"@ != "v0"@,
        "enabled"@ != "id"@,
        "enabled"@ != "meta"@,
        "enabled"@ != "v0"@,
        "id"@ != "meta"@,
        "id"@ != "v0"@,
        "meta"@ != "v0"@,
{
    reveal_strlit("schema");
    reveal_strlit("enabled");
    reveal_strlit("id");
    reveal_strlit("meta");
    reveal_strlit("v0");
    assert("schema"@.len() == 6);
    assert("enabled"@.len() == 7);
    assert("id"@.len() == 2);
    assert("meta"@.len() == 4);
    assert("v0"@.len() == 2);
    assert("id"@[0] != "v0"@[0]);
}

fn read_member_i32(value: &serde_json::Value, key: &str) -> (r: Option<i32>)
    ensures
        r == member_i32(*value, key@),
{
    match member(value, key) {
        Some(found) => read_i32(found),
        None => None,
    }
}

impl SeamProfileMeta {
    /// Takes a JSON document for metadata.
    pub fn from_json_value(value: &serde_json::Value) -> (r: Result<SeamProfileMeta, JsonError>)
        ensures
            match r {
                Ok(meta) => decoded_meta(*value) == Some(meta@),
                Err(e) => decoded_meta(*value).is_none() && e is Schema,
            },
    {
        let name = match member(value, "name") {
            Some(found) => match string(found) {
                Some(text) => String::from_str(text),
                None => {
                    return Err(JsonError::Schema);
                },
            },
            None => {
                return Err(JsonError::Schema);
            },
        };
        let joint_type = match read_member_i32(value, "jointType") {
            Some(number) => number,
            None => {
                return Err(JsonError::Schema);
            },
        };
        let joint_type_major = match read_member_i32(value, "jointTypeMajor") {
            Some(number) => number,
            None => {
                return Err(JsonError::Schema);
            },
        };
        let joint_type_minor = match read_member_i32(value, "jointTypeMinor") {
            Some(number) => number,
            None => {
                return Err(JsonError::Schema);
            },
        };
        let version = match read_member_i32(value, "version") {
            Some(number) => number,
            None => {
                return Err(JsonError::Schema);
            },
        };
        Ok(SeamProfileMeta { name, joint_type, joint_type_major, joint_type_minor, version })
    }

    /// The JSON form of the metadata: an object of five members, from which
    /// the metadata is read back as it is.
    pub fn to_json_value(&self) -> (r: serde_json::Value)
        ensures
            encodes_meta(r, self@),
            decoded_meta(r) == Some(self@),
    {
        proof {
            lemma_meta_keys_differ();
        }
        let mut r = empty_object();
        set_member(&mut r, "name", from_string(self.name.as_str()));
        set_member(&mut r, "jointType", from_integer(self.joint_type as i64));
        set_member(&mut r, "jointTypeMajor", from_integer(self.joint_type_major as i64));
        set_member(&mut r, "jointTypeMinor", from_integer(self.joint_type_minor as i64));
        set_member(&mut r, "version", from_integer(self.version as i64));
        assert(json_object(r).unwrap().dom() =~= meta_keys());
        r
    }
}

impl SeamProfile {
    /// Takes a JSON document for a profile.
    pub fn from_json_value(value: &serde_json::Value) -> (r: Result<SeamProfile, JsonError>)
        ensures
            match r {
                Ok(profile) => decoded_profile(*value) == Some(profile@),
                Err(e) => decoded_profile(*value).is_none() && e is Schema,
            },
    {
        let schema = match member(value, "schema") {
            Some(found) => match string(found) {
                Some(text) => String::from_str(text),
                None => {
                    return Err(JsonError::Schema);
                },
            },
            None => String::new(),
        };
        let enabled = match member(value, "enabled") {
            Some(found) => match boolean(found) {
                Some(truth) => truth,
                None => {
                    return Err(JsonError::Schema);
                },
            },
            None => {
                return Err(JsonError::Schema);
            },
        };
        let id = match read_member_i32(value, "id") {
            Some(number) => number,
            None => {
                return Err(JsonError::Schema);
            },
        };
        let meta = match member(value, "meta") {
            Some(found) => match SeamProfileMeta::from_json_value(found) {
                Ok(meta) => meta,
                Err(e) => {
                    return Err(e);
                },
            },
            None => {
                return Err(JsonError::Schema);
            },
        };
        let v0 = match member(value, "v0") {
            Some(found) => match SeamParamsV0::from_json_value(found) {
                Ok(table) => table,
                Err(e) => {
                    return Err(e);
                },
            },
            None => {
                return Err(JsonError::Schema);
            },
        };
        Ok(SeamProfile::from_parts(schema, enabled, id, meta, v0))
    }

    /// Reads a profile from JSON text. The text must be one JSON document,
    /// and that document a profile.
    pub fn from_json_str(text: &str) -> (r: Result<SeamProfile, JsonError>)
        ensures
            match r {
                Ok(profile) => json_document(text@).is_some() && decoded_profile(
                    json_document(text@).unwrap(),
                ) == Some(profile@),
                Err(JsonError::Text(_)) => json_document(text@).is_none(),
                Err(JsonError::Schema) => json_document(text@).is_some() && decoded_profile(
                    json_document(text@).unwrap(),
                ).is_none(),
            },
    {
        match parse(text) {
            Ok(value) => SeamProfile::from_json_value(&value),
            Err(e) => Err(JsonError::Text(e)),
        }
    }

    /// The JSON form of the profile: an object of five members, from which
    /// the profile is read back as it is but for its change counter, which is
    /// not written.
    pub fn to_json_value(&self) -> (r: serde_json::Value)
        ensures
            encodes_profile(r, self@),
    {
        proof {
            lemma_profile_keys_differ();
        }
        let mut r = empty_object();
        set_member(&mut r, "schema", from_string(self.schema()));
        set_member(&mut r, "enabled", from_boolean(self.is_enabled()));
        set_member(&mut r, "id", from_integer(self.id() as i64));
        set_member(&mut r, "meta", self.meta().to_json_value());
        set_member(&mut r, "v0", self.v0().to_json_value());
        assert(json_object(r).unwrap().dom() =~= profile_keys());
        r
    }

    /// The JSON text of the profile: the text of its JSON form where that
    /// form has one, and the error of `serde_json` only where it has none.
    pub fn to_json_string(&self) -> (r: Result<String, JsonError>)
        ensures
            match r {
                Ok(text) => exists|value: serde_json::Value|
                    encodes_profile(value, self@) && json_text(value) == Some(text@),
                Err(e) => e is Text && exists|value: serde_json::Value|
                    encodes_profile(value, self@) && json_text(value).is_none(),
            },
    {
        let value = self.to_json_value();
        match render(&value) {
            Ok(text) => Ok(text),
            Err(e) => Err(JsonError::Text(e)),
        }
    }
}

} // verus!
