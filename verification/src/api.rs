//! The functions that a guest calls to reach its host.
//!
//! `debug` is the one call that this version of the interface carries through
//! to the host. The others are declared so that guests can be written against
//! them; each answers with `FunctionNotImplemented`, or with an empty result
//! where it has no failure to report.

use vstd::prelude::*;
use crate::error::{RibosomeErrorCode, RibosomeReturnCode};
use crate::globals::{BundleOnClose, HashString};
use crate::json::{json_string, string_value};
use crate::region::LinearRegion;
use crate::ribosome_error::RibosomeError;
use crate::serialization::{responded, serialize};
use crate::stack::Stack;

verus! {

/// The failure that a reply word reports, if it reports one.
pub open spec fn failure_of(word: u32) -> Option<RibosomeErrorCode> {
    match RibosomeReturnCode::from_word_spec(word) {
        Some(RibosomeReturnCode::Failure(failure)) => Some(failure),
        _ => None,
    }
}

/// Returns a property that the author of the application has set. No host
/// call serves properties, so the answer is `FunctionNotImplemented`.
pub fn property<S: Into<String>>(_name: S) -> (found: Result<String, RibosomeError>)
    ensures
        found == Err::<String, RibosomeError>(RibosomeError::FunctionNotImplemented),
{
    Err(RibosomeError::FunctionNotImplemented)
}

/// Returns the hash that an entry of the given type and content would have.
/// No host call serves hashes, so the answer is `FunctionNotImplemented`.
pub fn make_hash<S: Into<String>>(_entry_type: S, _entry_data: serde_json::Value) -> (hash: Result<
    HashString,
    RibosomeError,
>)
    ensures
        hash == Err::<HashString, RibosomeError>(RibosomeError::FunctionNotImplemented),
{
    Err(RibosomeError::FunctionNotImplemented)
}

/// Hands `msg` to the host as a line of its log.
///
/// The message is written above the stack as a JSON string, `host` is called
/// with the word that names it, and the bytes are given back, so the stack
/// ends where it began. What `host` returns is not looked at. Where the
/// message cannot be written or named, `host` is not called and the failure
/// is reported as a failed operation whose reason is the name of the failure.
pub fn debug<H>(stack: &mut Stack, region: &mut LinearRegion, msg: &str, host: H) -> (done: Result<
    (),
    RibosomeError,
>) where H: FnOnce(u32) -> u32
    requires
        forall|word: u32| host.requires((word,)),
    ensures
        final(stack)@ == old(stack)@,
        final(region)@ == responded(old(stack)@, old(region)@, json_string(msg@)).memory,
        match failure_of(responded(old(stack)@, old(region)@, json_string(msg@)).word) {
            Some(failure) => done is Err && done->Err_0.failed_with(failure.name_spec()),
            None => done is Ok && exists|answer: u32| #[trigger]
                host.ensures(
                    (responded(old(stack)@, old(region)@, json_string(msg@)).word,),
                    answer,
                ),
        },
{
    proof {
        use_type_invariant(&*stack);
        stack.lemma_bounds();
    }
    let value = string_value(msg);
    let allocation_of_input = match serialize(stack, region, &value) {
        Ok(allocation) => allocation,
        Err(failure) => {
            return Err(RibosomeError::RibosomeFailed(failure.to_string()));
        },
    };
    let word: u32 = match allocation_of_input.encode() {
        Ok(word) => word,
        Err(failure) => {
            let _ = stack.deallocate(allocation_of_input);
            return Err(RibosomeError::RibosomeFailed(failure.to_string()));
        },
    };
    let _ = host(word);
    let _ = stack.deallocate(allocation_of_input);
    Ok(())
}

/// Calls a function of another zome. No host call serves this, so the answer
/// is `FunctionNotImplemented`.
pub fn call<S: Into<String>>(
    _zome_name: S,
    _function_name: S,
    _arguments: serde_json::Value,
) -> (answer: Result<serde_json::Value, RibosomeError>)
    ensures
        answer is Err,
        answer->Err_0 == RibosomeError::FunctionNotImplemented,
{
    Err(RibosomeError::FunctionNotImplemented)
}

/// Signs `_doc` with the key of the agent. No host call serves this, so the
/// answer is `FunctionNotImplemented`.
pub fn sign<S: Into<String>>(_doc: S) -> (signature: Result<String, RibosomeError>)
    ensures
        signature == Err::<String, RibosomeError>(RibosomeError::FunctionNotImplemented),
{
    Err(RibosomeError::FunctionNotImplemented)
}

/// Checks a signature of `_data` against a public key. No host call serves
/// this, so the answer is `FunctionNotImplemented`.
pub fn verify_signature<S: Into<String>>(_signature: S, _data: S, _pub_key: S) -> (valid: Result<
    bool,
    RibosomeError,
>)
    ensures
        valid == Err::<bool, RibosomeError>(RibosomeError::FunctionNotImplemented),
{
    Err(RibosomeError::FunctionNotImplemented)
}

/// Commits an entry to the chain of the agent. No host call serves this, so
/// the answer is `FunctionNotImplemented`.
pub fn commit_entry(_entry_type_name: &str, _entry_content: serde_json::Value) -> (hash: Result<
    HashString,
    RibosomeError,
>)
    ensures
        hash == Err::<HashString, RibosomeError>(RibosomeError::FunctionNotImplemented),
{
    Err(RibosomeError::FunctionNotImplemented)
}

/// Commits an entry that replaces an earlier one. No host call serves this,
/// so the answer is `FunctionNotImplemented`.
pub fn update_entry<S: Into<String>>(
    _entry_type: S,
    _entry: serde_json::Value,
    _replaces: HashString,
) -> (hash: Result<HashString, RibosomeError>)
    ensures
        hash == Err::<HashString, RibosomeError>(RibosomeError::FunctionNotImplemented),
{
    Err(RibosomeError::FunctionNotImplemented)
}

/// Commits a new identity entry for the agent. No host call serves this, so
/// the answer is `FunctionNotImplemented`.
pub fn update_agent() -> (hash: Result<HashString, RibosomeError>)
    ensures
        hash == Err::<HashString, RibosomeError>(RibosomeError::FunctionNotImplemented),
{
    Err(RibosomeError::FunctionNotImplemented)
}

/// Commits an entry that marks an earlier one as deleted. No host call serves
/// this, so the answer is `FunctionNotImplemented`.
pub fn remove_entry<S: Into<String>>(_entry: HashString, _message: S) -> (hash: Result<
    HashString,
    RibosomeError,
>)
    ensures
        hash == Err::<HashString, RibosomeError>(RibosomeError::FunctionNotImplemented),
{
    Err(RibosomeError::FunctionNotImplemented)
}

/// Returns the entry that has the given hash. No host call serves this, so
/// the answer is `FunctionNotImplemented`.
pub fn get_entry(_entry_hash: HashString) -> (entry: Result<serde_json::Value, RibosomeError>)
    ensures
        entry is Err,
        entry->Err_0 == RibosomeError::FunctionNotImplemented,
{
    Err(RibosomeError::FunctionNotImplemented)
}

/// Links two entries under a tag. No host call serves this: nothing is
/// linked, and there is nothing to report.
pub fn link_entries<S: Into<String>>(_base: HashString, _target: HashString, _tag: S) {
}

/// Returns the entries that are linked from `_base` under `_tag`. Nothing is
/// ever linked, so the answer is the empty list.
pub fn get_links<S: Into<String>>(_base: HashString, _tag: S) -> (links: Result<
    Vec<HashString>,
    RibosomeError,
>)
    ensures
        links is Ok,
        links->Ok_0@ == Seq::<HashString>::empty(),
{
    Ok(Vec::new())
}

/// Returns the entries of the chain of the agent. No host call serves this,
/// so the answer is `FunctionNotImplemented`.
pub fn query() -> (entries: Result<Vec<String>, RibosomeError>)
    ensures
        entries is Err,
        entries->Err_0 == RibosomeError::FunctionNotImplemented,
{
    Err(RibosomeError::FunctionNotImplemented)
}

/// Sends a message to another agent. No host call serves this, so the answer
/// is `FunctionNotImplemented`.
pub fn send(_to: HashString, _message: serde_json::Value) -> (answer: Result<
    serde_json::Value,
    RibosomeError,
>)
    ensures
        answer is Err,
        answer->Err_0 == RibosomeError::FunctionNotImplemented,
{
    Err(RibosomeError::FunctionNotImplemented)
}

/// Starts a bundle of commits. No host call serves this: nothing is started,
/// and there is nothing to report.
pub fn start_bundle(_timeout: usize, _user_param: serde_json::Value) {
}

/// Closes the bundle that was started. No bundle is ever started: nothing is
/// closed, and there is nothing to report.
pub fn close_bundle(_action: BundleOnClose) {
}

} // verus!
