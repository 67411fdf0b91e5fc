//! Functions that a guest exports to show its host that the kit works: one
//! that only logs, and one that takes an input, commits it and answers.

use vstd::prelude::*;
use crate::allocation::Allocation;
use crate::api::debug;
use crate::error::{RibosomeErrorCode, SUCCESS};
use crate::dispatch::{receive, received};
use crate::globals::{AppGlobals, HashString};
use crate::init_globals::{string_member, text_member};
use crate::json::{json_object, json_string, object_value, string_value};
use crate::region::LinearRegion;
use crate::ribosome_error::RibosomeError;
use crate::serialization::{responded, serialize_into_encoded_allocation};
use crate::stack::{Stack, StackView};

verus! {

/// The memory after each of `lines` was written above `stack` as a JSON
/// string and given back, in turn. Every line is written at the same place,
/// over the one before it; a line that finds no room leaves the memory as it
/// was.
pub open spec fn logged(stack: StackView, memory: Seq<u8>, lines: Seq<Seq<char>>) -> Seq<u8>
    decreases lines.len(),
{
    if lines.len() == 0 {
        memory
    } else {
        logged(
            stack,
            responded(stack, memory, json_string(lines.first())).memory,
            lines.drop_first(),
        )
    }
}

/// The six values of an application, in the order in which they are logged.
pub open spec fn lines_of(globals: AppGlobals) -> Seq<Seq<char>> {
    seq![
        globals.app_name@,
        globals.app_dna_hash@,
        globals.app_agent_id_str@,
        globals.app_agent_key_hash@,
        globals.app_agent_initial_hash@,
        globals.app_agent_latest_hash@,
    ]
}

/// Writes the six values of the application to the log of the host, one call
/// of `host` for each, and answers with success, without a payload.
///
/// The input is not read, but it is taken as occupied: the lines are written
/// above it. Where the input does not lie inside the region there is no room
/// to write to, and the answer is `ArgumentDeserializationFailed`; the region
/// is then left as it was. A line that cannot be written is left out.
pub fn check_global<H>(
    region: &mut LinearRegion,
    encoded_allocation_of_input: u32,
    globals: &AppGlobals,
    host: H,
) -> (word: u32) where H: Fn(u32) -> u32
    requires
        forall|line: u32| host.requires((line,)),
    ensures
        Allocation::decode_spec(encoded_allocation_of_input).within(old(region)@.len() as int)
            ==> word == SUCCESS && final(region)@ == logged(
            StackView {
                top: Allocation::decode_spec(encoded_allocation_of_input).end() as nat,
                capacity: old(region)@.len(),
            },
            old(region)@,
            lines_of(*globals),
        ),
        !Allocation::decode_spec(encoded_allocation_of_input).within(old(region)@.len() as int)
            ==> {
            &&& word == RibosomeErrorCode::ArgumentDeserializationFailed.word_spec()
            &&& final(region)@ == old(region)@
        },
{
    let mut stack = match Stack::from_encoded(encoded_allocation_of_input, region.capacity()) {
        Ok(stack) => stack,
        Err(_) => {
            return RibosomeErrorCode::ArgumentDeserializationFailed.to_word();
        },
    };
    proof {
        reveal_with_fuel(logged, 7);
    }
    let _ = debug(&mut stack, region, globals.app_name.as_str(), &host);
    let _ = debug(&mut stack, region, globals.app_dna_hash.as_str(), &host);
    let _ = debug(&mut stack, region, globals.app_agent_id_str.as_str(), &host);
    let _ = debug(&mut stack, region, globals.app_agent_key_hash.as_str(), &host);
    let _ = debug(&mut stack, region, globals.app_agent_initial_hash.as_str(), &host);
    let _ = debug(&mut stack, region, globals.app_agent_latest_hash.as_str(), &host);
    SUCCESS
}

/// What a caller sends to have an entry committed.
#[derive(Clone, Debug)]
pub struct CommitInput {
    /// The name of the type of the entry.
    pub entry_type_name: String,
    /// The content of the entry.
    pub entry_content: String,
}

/// The name and the content that `value` holds for a commit, where it holds
/// both as strings, under `entry_type_name` and `entry_content`.
pub open spec fn commit_input_of(value: serde_json::Value) -> Option<(Seq<char>, Seq<char>)> {
    match (text_member(value, "entry_type_name"@), text_member(value, "entry_content"@)) {
        (Some(name), Some(content)) => Some((name, content)),
        _ => None,
    }
}

/// The entry that is committed for `content`: an object that holds the
/// content under `entry_content`.
pub open spec fn commit_entry_of(content: Seq<char>) -> serde_json::Value {
    json_object("entry_content"@, json_string(content))
}

/// The value that a caller receives for the answer to a commit: the hash
/// under `hash` where the entry was committed, the reason as a string where
/// the commit failed, and the description under `error` for any other
/// failure.
pub open spec fn commit_output_of(answer: Result<HashString, RibosomeError>) -> serde_json::Value {
    match answer {
        Ok(hash) => json_object("hash"@, json_string(hash@)),
        Err(RibosomeError::RibosomeFailed(reason)) => json_string(reason@),
        Err(other) => json_object("error"@, json_string(other.description_spec())),
    }
}

impl CommitInput {
    /// Reads the input of a commit out of `value`. Returns `None` where the
    /// name or the content is missing or is no string.
    pub fn from_value(value: &serde_json::Value) -> (read: Option<CommitInput>)
        ensures
            match commit_input_of(*value) {
                Some((name, content)) => read is Some && read->Some_0.entry_type_name@ == name
                    && read->Some_0.entry_content@ == content,
                None => read is None,
            },
    {
        let entry_type_name = string_member(value, "entry_type_name")?;
        let entry_content = string_member(value, "entry_content")?;
        Some(CommitInput { entry_type_name, entry_content })
    }
}

/// Returns the value that a caller receives for the answer to a commit.
pub fn commit_output(answer: Result<HashString, RibosomeError>) -> (output: serde_json::Value)
    ensures
        output == commit_output_of(answer),
{
    match answer {
        Ok(hash) => object_value("hash", string_value(hash.as_str())),
        Err(RibosomeError::RibosomeFailed(reason)) => string_value(reason.as_str()),
        Err(other) => other.to_json(),
    }
}

/// Commits the entry that the input describes and answers with its hash.
///
/// The input holds the name of the type of the entry and its content.
/// `commit` is called with the name and with the entry, and what it answers
/// is written above the input for the caller. The word that comes back
/// reports `ArgumentDeserializationFailed`, and the region is left as it
/// was, where the input cannot be read or lacks the name or the content;
/// `commit` is then not called.
pub fn check_commit_entry<C>(
    region: &mut LinearRegion,
    encoded_allocation_of_input: u32,
    commit: C,
) -> (word: u32) where C: FnOnce(String, serde_json::Value) -> Result<HashString, RibosomeError>
    requires
        forall|name: String, entry: serde_json::Value| commit.requires((name, entry)),
    ensures
        match received(old(region)@, encoded_allocation_of_input) {
            Err(failure) => word == failure.word_spec() && final(region)@ == old(region)@,
            Ok((stack, value)) => match commit_input_of(value) {
                None => word == RibosomeErrorCode::ArgumentDeserializationFailed.word_spec()
                    && final(region)@ == old(region)@,
                Some((name, content)) => exists|
                    entry_type_name: String,
                    answer: Result<HashString, RibosomeError>,
                |
                    entry_type_name@ == name && #[trigger] commit.ensures(
                        (entry_type_name, commit_entry_of(content)),
                        answer,
                    ) && word == responded(stack, old(region)@, commit_output_of(answer)).word
                        && final(region)@ == responded(
                        stack,
                        old(region)@,
                        commit_output_of(answer),
                    ).memory,
            },
        },
{
    let (mut stack, value) = match receive(region, encoded_allocation_of_input) {
        Ok(begun) => begun,
        Err(failure) => {
            return failure.to_word();
        },
    };
    let input = match CommitInput::from_value(&value) {
        Some(input) => input,
        None => {
            return RibosomeErrorCode::ArgumentDeserializationFailed.to_word();
        },
    };
    let entry = object_value("entry_content", string_value(input.entry_content.as_str()));
    let ghost name = input.entry_type_name;
    let ghost content = input.entry_content@;
    let answer = commit(input.entry_type_name, entry);
    assert(commit.ensures((name, commit_entry_of(content)), answer));
    let output = commit_output(answer);
    serialize_into_encoded_allocation(&mut stack, region, &output)
}

} // verus!
