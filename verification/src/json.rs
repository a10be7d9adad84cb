//! JSON objects, read with `serde_json` into names and plain values.
//!
//! An object is read one level at a time. Its members are read either with
//! the JSON text of their values, which can then be read in turn, or with
//! their values themselves, where every value is a string. Either way
//! `serde_json` reads them into a `BTreeMap` by way of `serde_with`'s
//! `MapPreventDuplicates`, which refuses an object that gives a name twice;
//! the map hands the members out in the order of their names.

use crate::text::{fields_view, Field, Named};
use serde_json::value::RawValue;
use serde_with::de::DeserializeAsWrap;
use serde_with::{MapPreventDuplicates, Same};
use std::collections::BTreeMap;
use vstd::prelude::*;

verus! {

/// A member of a JSON object: its name, and the JSON text of its value.
pub type Member = Named<Vec<u8>>;

/// The members of the JSON object that `document` holds, each with the JSON
/// text of its value, as `serde_json::from_slice` reads them into a
/// `BTreeMap` that takes no name twice; `None` where it refuses `document`.
pub uninterp spec fn json_members(document: Seq<u8>) -> Option<Seq<(Seq<char>, Seq<u8>)>>;

/// The members of the JSON object that `document` holds, where the value of
/// each is a JSON string, as `serde_json::from_slice` reads them into a
/// `BTreeMap` that takes no name twice; `None` where it refuses `document`.
pub uninterp spec fn json_strings(document: Seq<u8>) -> Option<Seq<(Seq<char>, Seq<char>)>>;

/// Calls `serde_json::from_slice` for a `BTreeMap` from `String` to
/// `Box<RawValue>`, read as `serde_with`'s `MapPreventDuplicates` reads a
/// map. Nothing is proved of the call: its outcome is given the name
/// `json_members`.
#[verifier::external_body]
pub(crate) fn read_members(document: &[u8]) -> (out: Option<Vec<Member>>)
    ensures
        match out {
            Some(members) => json_members(document@) == Some(fields_view(members@)),
            None => json_members(document@) is None,
        },
{
    let members = serde_json::from_slice::<
        DeserializeAsWrap<BTreeMap<String, Box<RawValue>>, MapPreventDuplicates<Same, Same>>,
    >(document).ok()?.into_inner();
    Some(
        members.into_iter().map(
            |(name, value)| Named { name, value: value.get().as_bytes().to_vec() },
        ).collect(),
    )
}

/// Calls `serde_json::from_slice` for a `BTreeMap` from `String` to
/// `String`, read as `serde_with`'s `MapPreventDuplicates` reads a map.
/// Nothing is proved of the call: its outcome is given the name
/// `json_strings`.
#[verifier::external_body]
pub(crate) fn read_strings(document: &[u8]) -> (out: Option<Vec<Field>>)
    ensures
        match out {
            Some(fields) => json_strings(document@) == Some(fields_view(fields@)),
            None => json_strings(document@) is None,
        },
{
    let strings = serde_json::from_slice::<
        DeserializeAsWrap<BTreeMap<String, String>, MapPreventDuplicates<Same, Same>>,
    >(document).ok()?.into_inner();
    Some(strings.into_iter().map(|(name, value)| Named { name, value }).collect())
}

} // verus!
