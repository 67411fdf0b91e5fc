//! Reading the values of the application that the host left in the region.

use vstd::prelude::*;
use crate::allocation::Allocation;
use crate::error::RibosomeErrorCode;
use crate::globals::AppGlobals;
use crate::json::{as_str, json_as_string, json_member, member};
use crate::region::LinearRegion;
use crate::serialization::{deserialized, try_deserialize_allocation};

verus! {

/// The text of the member of `value` under `key`, where `value` has such a
/// member and it is a string.
pub open spec fn text_member(value: serde_json::Value, key: Seq<char>) -> Option<Seq<char>> {
    match json_member(value, key) {
        Some(found) => json_as_string(found),
        None => None,
    }
}

/// Whether `value` holds the six values of an application, each a string
/// under the name of its field.
pub open spec fn holds_globals(value: serde_json::Value) -> bool {
    &&& text_member(value, "app_name"@) is Some
    &&& text_member(value, "app_dna_hash"@) is Some
    &&& text_member(value, "app_agent_id_str"@) is Some
    &&& text_member(value, "app_agent_key_hash"@) is Some
    &&& text_member(value, "app_agent_initial_hash"@) is Some
    &&& text_member(value, "app_agent_latest_hash"@) is Some
}

/// Whether `globals` are the six values that `value` holds.
pub open spec fn globals_of(value: serde_json::Value, globals: AppGlobals) -> bool {
    &&& text_member(value, "app_name"@) == Some(globals.app_name@)
    &&& text_member(value, "app_dna_hash"@) == Some(globals.app_dna_hash@)
    &&& text_member(value, "app_agent_id_str"@) == Some(globals.app_agent_id_str@)
    &&& text_member(value, "app_agent_key_hash"@) == Some(globals.app_agent_key_hash@)
    &&& text_member(value, "app_agent_initial_hash"@) == Some(globals.app_agent_initial_hash@)
    &&& text_member(value, "app_agent_latest_hash"@) == Some(globals.app_agent_latest_hash@)
}

/// Returns a copy of the text of the member of `value` under `key`, or `None`
/// where `value` has no such member or the member is no string.
pub fn string_member(value: &serde_json::Value, key: &str) -> (text: Option<String>)
    ensures
        text_member(*value, key@) == match text {
            Some(characters) => Some(characters@),
            None => None,
        },
{
    match member(value, key) {
        Some(found) => match as_str(&found) {
            Some(characters) => Some(characters.to_owned()),
            None => None,
        },
        None => None,
    }
}

impl AppGlobals {
    /// Reads the six values of an application out of `value`. Returns `None`
    /// where one of them is missing or is no string. Members under other
    /// names are not looked at.
    pub fn from_value(value: &serde_json::Value) -> (read: Option<AppGlobals>)
        ensures
            read is Some <==> holds_globals(*value),
            read matches Some(globals) ==> globals_of(*value, globals),
    {
        let app_name = string_member(value, "app_name")?;
        let app_dna_hash = string_member(value, "app_dna_hash")?;
        let app_agent_id_str = string_member(value, "app_agent_id_str")?;
        let app_agent_key_hash = string_member(value, "app_agent_key_hash")?;
        let app_agent_initial_hash = string_member(value, "app_agent_initial_hash")?;
        let app_agent_latest_hash = string_member(value, "app_agent_latest_hash")?;
        Some(
            AppGlobals {
                app_name,
                app_dna_hash,
                app_agent_id_str,
                app_agent_key_hash,
                app_agent_initial_hash,
                app_agent_latest_hash,
            },
        )
    }
}

/// Reads the values of the application that the host wrote into the region
/// and named by `encoded_allocation_of_result`.
///
/// Fails with `DeserializationFailed` where the word names no text of a value
/// inside the region, and where the value does not hold the six values.
pub fn init_globals(region: &LinearRegion, encoded_allocation_of_result: u32) -> (read: Result<
    AppGlobals,
    RibosomeErrorCode,
>)
    ensures
        match deserialized(region@, Allocation::decode_spec(encoded_allocation_of_result)) {
            Ok(value) => if holds_globals(value) {
                read is Ok && globals_of(value, read->Ok_0)
            } else {
                read is Err && read->Err_0 == RibosomeErrorCode::DeserializationFailed
            },
            Err(_) => read is Err && read->Err_0 == RibosomeErrorCode::DeserializationFailed,
        },
{
    match try_deserialize_allocation(region, encoded_allocation_of_result) {
        Ok(value) => match AppGlobals::from_value(&value) {
            Some(globals) => Ok(globals),
            None => Err(RibosomeErrorCode::DeserializationFailed),
        },
        Err(_) => Err(RibosomeErrorCode::DeserializationFailed),
    }
}

} // verus!
