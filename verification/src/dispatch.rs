//! The calling convention of an exported guest function.
//!
//! Every exported function takes one word and returns one word. The word that
//! comes in names the text of the input. The function reads it as the value
//! that it declares, runs its handler, writes the text of the result above the
//! input and returns the word that names it. Input that cannot be read is
//! answered with a status word; the handler is then not run.

use vstd::prelude::*;
use crate::allocation::Allocation;
use crate::error::{RibosomeErrorCode, SUCCESS};
use crate::json::{json_member, json_string, member, string_value};
use crate::region::LinearRegion;
use crate::serialization::{
    deserialized,
    responded,
    serialize_into_encoded_allocation,
    try_deserialize_allocation,
    Reply,
};
use crate::stack::{Stack, StackView};

verus! {

/// The stack and the value that a call starts with, in a region that holds
/// `memory`, when its input word is `input`.
///
/// The input has to lie inside the region and hold the text of a value. The
/// stack then starts above the input and may use the whole region.
pub open spec fn received(memory: Seq<u8>, input: u32) -> Result<
    (StackView, serde_json::Value),
    RibosomeErrorCode,
> {
    match deserialized(memory, Allocation::decode_spec(input)) {
        Ok(value) => Ok(
            (
                StackView {
                    top: Allocation::decode_spec(input).end() as nat,
                    capacity: memory.len(),
                },
                value,
            ),
        ),
        Err(_) => Err(RibosomeErrorCode::ArgumentDeserializationFailed),
    }
}

/// The two values that the input of a validation holds: the member under
/// `entry_key` and the member under `context_key`.
pub open spec fn validation_input(
    value: serde_json::Value,
    entry_key: Seq<char>,
    context_key: Seq<char>,
) -> Option<(serde_json::Value, serde_json::Value)> {
    match (json_member(value, entry_key), json_member(value, context_key)) {
        (Some(entry), Some(context)) => Some((entry, context)),
        _ => None,
    }
}

/// What a validation answers for the outcome of its handler: success without
/// a payload where the entry passed, and the reason as a JSON string where it
/// did not.
pub open spec fn validated(
    stack: StackView,
    memory: Seq<u8>,
    outcome: Result<(), String>,
) -> Reply {
    match outcome {
        Ok(_) => Reply { word: SUCCESS, stack, memory },
        Err(reason) => responded(stack, memory, json_string(reason@)),
    }
}

/// Starts a call: makes the stack above the input that `input` names and
/// reads the input as a value.
///
/// Fails with `ArgumentDeserializationFailed` where the input does not lie
/// inside the region, is empty, or is not the text of a value.
pub fn receive(region: &LinearRegion, input: u32) -> (begun: Result<
    (Stack, serde_json::Value),
    RibosomeErrorCode,
>)
    ensures
        match received(region@, input) {
            Ok((stack, value)) => begun is Ok && begun->Ok_0.0@ == stack && begun->Ok_0.1 == value,
            Err(failure) => begun is Err && begun->Err_0 == failure,
        },
{
    let stack = match Stack::from_encoded(input, region.capacity()) {
        Ok(stack) => stack,
        Err(_) => {
            return Err(RibosomeErrorCode::ArgumentDeserializationFailed);
        },
    };
    match try_deserialize_allocation(region, input) {
        Ok(value) => Ok((stack, value)),
        Err(_) => Err(RibosomeErrorCode::ArgumentDeserializationFailed),
    }
}

/// Splits the input of a validation into the entry and the context.
///
/// Returns `None` where `value` lacks one of the two members.
pub fn validation_parts(value: &serde_json::Value, entry_key: &str, context_key: &str) -> (parts:
    Option<(serde_json::Value, serde_json::Value)>)
    ensures
        parts == validation_input(*value, entry_key@, context_key@),
{
    match member(value, entry_key) {
        Some(entry) => match member(value, context_key) {
            Some(context) => Some((entry, context)),
            None => None,
        },
        None => None,
    }
}

/// Ends a validation: returns the word for `outcome`.
///
/// An entry that passed is answered with the status word of success. An entry
/// that failed is answered with the word that names the reason, written above
/// the stack as a JSON string, or with the status word of what kept it from
/// being written.
pub fn validation_reply(
    stack: &mut Stack,
    region: &mut LinearRegion,
    outcome: Result<(), String>,
) -> (word: u32)
    ensures
        word == validated(old(stack)@, old(region)@, outcome).word,
        final(stack)@ == validated(old(stack)@, old(region)@, outcome).stack,
        final(region)@ == validated(old(stack)@, old(region)@, outcome).memory,
{
    match outcome {
        Ok(_) => SUCCESS,
        Err(reason) => {
            let value = string_value(reason.as_str());
            serialize_into_encoded_allocation(stack, region, &value)
        },
    }
}

/// Runs an exported function: reads the input that `input` names, shapes it
/// with `shape`, runs `handler` on the shaped input and returns the word that
/// names the text of what the handler returned.
///
/// `shape` says what input the function declares: it returns `None` for a
/// value that is not of that form. The word that comes back reports
/// `ArgumentDeserializationFailed`, and the region is left as it was, where
/// the input cannot be read or `shape` refuses it. Otherwise the result of
/// the handler is serialized above the input, and the word names it or
/// reports why it could not be written.
pub fn zome_function<I, S, H>(region: &mut LinearRegion, input: u32, shape: S, handler: H) -> (word:
    u32) where S: FnOnce(serde_json::Value) -> Option<I>, H: FnOnce(I) -> serde_json::Value
    requires
        forall|value: serde_json::Value| shape.requires((value,)),
        forall|arguments: I| handler.requires((arguments,)),
    ensures
        match received(old(region)@, input) {
            Err(failure) => word == failure.word_spec() && final(region)@ == old(region)@,
            Ok((stack, value)) => exists|shaped: Option<I>| #[trigger]
                shape.ensures((value,), shaped) && match shaped {
                    None => word == RibosomeErrorCode::ArgumentDeserializationFailed.word_spec()
                        && final(region)@ == old(region)@,
                    Some(arguments) => exists|output: serde_json::Value| #[trigger]
                        handler.ensures((arguments,), output) && word == responded(
                            stack,
                            old(region)@,
                            output,
                        ).word && final(region)@ == responded(stack, old(region)@, output).memory,
                },
        },
{
    let (mut stack, value) = match receive(region, input) {
        Ok(begun) => begun,
        Err(failure) => {
            return failure.to_word();
        },
    };
    match shape(value) {
        Some(arguments) => {
            let output = handler(arguments);
            serialize_into_encoded_allocation(&mut stack, region, &output)
        },
        None => RibosomeErrorCode::ArgumentDeserializationFailed.to_word(),
    }
}

/// Runs an exported validation: reads the input that `input` names, takes
/// the entry and the context out of it, shapes them with `shape`, runs
/// `handler` on them and returns the word for its verdict.
///
/// The input is an object that holds the entry under `entry_key` and the
/// context under `context_key`. The word that comes back reports
/// `ArgumentDeserializationFailed`, and the region is left as it was, where
/// the input cannot be read, lacks one of the two members, or `shape` refuses
/// them. Otherwise a verdict of `Ok` is answered with the status word of
/// success, and a verdict of `Err` with the word that names the reason.
pub fn validation<E, C, S, H>(
    region: &mut LinearRegion,
    input: u32,
    entry_key: &str,
    context_key: &str,
    shape: S,
    handler: H,
) -> (word: u32) where
    S: FnOnce(serde_json::Value, serde_json::Value) -> Option<(E, C)>,
    H: FnOnce(E, C) -> Result<(), String>,

    requires
        forall|entry: serde_json::Value, context: serde_json::Value|
            shape.requires((entry, context)),
        forall|entry: E, context: C| handler.requires((entry, context)),
    ensures
        match received(old(region)@, input) {
            Err(failure) => word == failure.word_spec() && final(region)@ == old(region)@,
            Ok((stack, value)) => match validation_input(value, entry_key@, context_key@) {
                None => word == RibosomeErrorCode::ArgumentDeserializationFailed.word_spec()
                    && final(region)@ == old(region)@,
                Some((entry, context)) => exists|shaped: Option<(E, C)>| #[trigger]
                    shape.ensures((entry, context), shaped) && match shaped {
                        None => word
                            == RibosomeErrorCode::ArgumentDeserializationFailed.word_spec()
                            && final(region)@ == old(region)@,
                        Some((typed_entry, typed_context)) => exists|verdict: Result<(), String>|
                         #[trigger]
                            handler.ensures((typed_entry, typed_context), verdict) && word
                                == validated(stack, old(region)@, verdict).word && final(region)@
                                == validated(stack, old(region)@, verdict).memory,
                    },
            },
        },
{
    let (mut stack, value) = match receive(region, input) {
        Ok(begun) => begun,
        Err(failure) => {
            return failure.to_word();
        },
    };
    let (entry, context) = match validation_parts(&value, entry_key, context_key) {
        Some(parts) => parts,
        None => {
            return RibosomeErrorCode::ArgumentDeserializationFailed.to_word();
        },
    };
    match shape(entry, context) {
        Some((typed_entry, typed_context)) => {
            let verdict = handler(typed_entry, typed_context);
            validation_reply(&mut stack, region, verdict)
        },
        None => RibosomeErrorCode::ArgumentDeserializationFailed.to_word(),
    }
}

} // verus!
