//! Values in the linear region: the text of a value written on top of the
//! stack, and the value read back from the bytes of an allocation.

use vstd::prelude::*;
use crate::allocation::{lemma_decode_inverts_encode, Allocation};
use crate::error::{is_status_word, RibosomeErrorCode, RibosomeReturnCode, SUCCESS};
use crate::json::{from_slice, json_text, json_value, to_vec};
use crate::region::{bytes_at, written, LinearRegion};
use crate::stack::{Stack, StackView};

verus! {

/// A stack, the memory under it, and the allocation made last.
pub struct Stored {
    pub allocation: Allocation,
    pub stack: StackView,
    pub memory: Seq<u8>,
}

/// What becomes of `stack` and `memory` when `text` is stored on top of the
/// stack.
///
/// An empty text is no text of a value, so nothing is stored for it. The text
/// has to fit both under the capacity of the stack and inside the memory.
pub open spec fn stored(stack: StackView, memory: Seq<u8>, text: Seq<u8>) -> Result<
    Stored,
    RibosomeErrorCode,
> {
    if text.len() == 0 {
        Err(RibosomeErrorCode::SerializationFailed)
    } else if !stack.has_room(text.len()) || stack.top + text.len() > memory.len() {
        Err(RibosomeErrorCode::OutOfMemory)
    } else {
        Ok(
            Stored {
                allocation: Allocation { offset: stack.top as u32, length: text.len() as u32 },
                stack: StackView { top: stack.top + text.len(), capacity: stack.capacity },
                memory: written(memory, stack.top as int, text),
            },
        )
    }
}

/// The text that `allocation` holds in `memory`: its bytes, if it has any and
/// lies inside the memory.
pub open spec fn loaded(memory: Seq<u8>, allocation: Allocation) -> Option<Seq<u8>> {
    if allocation.length > 0 && allocation.within(memory.len() as int) {
        Some(bytes_at(memory, allocation))
    } else {
        None
    }
}

/// What becomes of `stack` and `memory` when `value` is serialized.
pub open spec fn serialized(stack: StackView, memory: Seq<u8>, value: serde_json::Value) -> Result<
    Stored,
    RibosomeErrorCode,
> {
    match json_text(value) {
        Some(text) => stored(stack, memory, text),
        None => Err(RibosomeErrorCode::SerializationFailed),
    }
}

/// The value that `allocation` holds in `memory`.
pub open spec fn deserialized(memory: Seq<u8>, allocation: Allocation) -> Result<
    serde_json::Value,
    RibosomeErrorCode,
> {
    match loaded(memory, allocation) {
        Some(text) => match json_value(text) {
            Some(value) => Ok(value),
            None => Err(RibosomeErrorCode::DeserializationFailed),
        },
        None => Err(RibosomeErrorCode::DeserializationFailed),
    }
}

/// What a call hands back after it tried to store a text: the word for the
/// other side, and the stack and the memory as they are then.
pub struct Reply {
    pub word: u32,
    pub stack: StackView,
    pub memory: Seq<u8>,
}

/// What comes of storing `text` on top of `stack` and naming it in one word.
///
/// Where the text is stored and its allocation fits a word, the word names
/// the allocation. Where the allocation does not fit a word, it is given back
/// and the word reports `EncodingOverflow`; the bytes stay written above the
/// first free byte. Where nothing is stored, the word reports why.
pub open spec fn replied(stack: StackView, memory: Seq<u8>, text: Seq<u8>) -> Reply {
    match stored(stack, memory, text) {
        Ok(after) => if after.allocation.encodable() {
            Reply {
                word: after.allocation.encode_spec() as u32,
                stack: after.stack,
                memory: after.memory,
            }
        } else {
            Reply {
                word: RibosomeErrorCode::EncodingOverflow.word_spec(),
                stack,
                memory: after.memory,
            }
        },
        Err(failure) => Reply { word: failure.word_spec(), stack, memory },
    }
}

/// What comes of serializing `value` on top of `stack` and naming it in one
/// word.
pub open spec fn responded(stack: StackView, memory: Seq<u8>, value: serde_json::Value) -> Reply {
    match json_text(value) {
        Some(text) => replied(stack, memory, text),
        None => Reply { word: RibosomeErrorCode::SerializationFailed.word_spec(), stack, memory },
    }
}

/// Takes room for `text` on top of the stack and writes it there.
///
/// Fails with `SerializationFailed` for an empty text, and with `OutOfMemory`
/// where the text does not fit. A failure changes neither the stack nor the
/// region.
pub fn store(stack: &mut Stack, region: &mut LinearRegion, text: &[u8]) -> (kept: Result<
    Allocation,
    RibosomeErrorCode,
>)
    ensures
        match stored(old(stack)@, old(region)@, text@) {
            Ok(after) => {
                &&& kept == Ok::<Allocation, RibosomeErrorCode>(after.allocation)
                &&& final(stack)@ == after.stack
                &&& final(region)@ == after.memory
            },
            Err(failure) => {
                &&& kept == Err::<Allocation, RibosomeErrorCode>(failure)
                &&& final(stack)@ == old(stack)@
                &&& final(region)@ == old(region)@
            },
        },
{
    let count: usize = text.len();
    if count == 0 {
        return Err(RibosomeErrorCode::SerializationFailed);
    }
    let top: u32 = stack.top();
    let room: u32 = stack.available();
    let size: u32 = region.capacity();
    if count > room as usize || top > size || count > (size - top) as usize {
        return Err(RibosomeErrorCode::OutOfMemory);
    }
    let length: u32 = count as u32;
    match stack.allocate(length) {
        Ok(allocation) => {
            match region.write(allocation.offset, text) {
                Ok(_) => Ok(allocation),
                Err(failure) => Err(failure),
            }
        },
        Err(failure) => Err(failure),
    }
}

/// Copies the text that `allocation` holds out of the region. Returns `None`
/// where the allocation is empty or does not lie inside the region.
pub fn load(region: &LinearRegion, allocation: Allocation) -> (text: Option<Vec<u8>>)
    ensures
        match loaded(region@, allocation) {
            Some(bytes) => text is Some && text->Some_0@ == bytes,
            None => text is None,
        },
{
    if allocation.length == 0 {
        return None;
    }
    region.read(allocation)
}

/// Renders `value` as JSON text, takes exactly as many bytes as the text has
/// on top of the stack, and writes the text there.
///
/// Fails with `SerializationFailed` where the value has no text, and with
/// `OutOfMemory` where the text does not fit. A failure changes neither the
/// stack nor the region.
pub fn serialize(stack: &mut Stack, region: &mut LinearRegion, value: &serde_json::Value) -> (kept:
    Result<Allocation, RibosomeErrorCode>)
    ensures
        match serialized(old(stack)@, old(region)@, *value) {
            Ok(after) => {
                &&& kept == Ok::<Allocation, RibosomeErrorCode>(after.allocation)
                &&& final(stack)@ == after.stack
                &&& final(region)@ == after.memory
            },
            Err(failure) => {
                &&& kept == Err::<Allocation, RibosomeErrorCode>(failure)
                &&& final(stack)@ == old(stack)@
                &&& final(region)@ == old(region)@
            },
        },
{
    match to_vec(value) {
        Ok(text) => store(stack, region, text.as_slice()),
        Err(_) => Err(RibosomeErrorCode::SerializationFailed),
    }
}

/// Stores `text` on top of the stack and returns the word that names it, or
/// the status word of the failure.
///
/// The word is a status word exactly where the text was not stored or where
/// its allocation does not fit a word; the stack is then as it was before.
pub fn store_into_encoded_allocation(
    stack: &mut Stack,
    region: &mut LinearRegion,
    text: &[u8],
) -> (word: u32)
    ensures
        word == replied(old(stack)@, old(region)@, text@).word,
        final(stack)@ == replied(old(stack)@, old(region)@, text@).stack,
        final(region)@ == replied(old(stack)@, old(region)@, text@).memory,
{
    proof {
        use_type_invariant(&*stack);
        stack.lemma_bounds();
    }
    match store(stack, region, text) {
        Ok(allocation) => match allocation.encode() {
            Ok(word) => word,
            Err(failure) => {
                let _ = stack.deallocate(allocation);
                failure.to_word()
            },
        },
        Err(failure) => failure.to_word(),
    }
}

/// Serializes `value` on top of the stack and returns the word that names its
/// text, or the status word of the failure.
pub fn serialize_into_encoded_allocation(
    stack: &mut Stack,
    region: &mut LinearRegion,
    value: &serde_json::Value,
) -> (word: u32)
    ensures
        word == responded(old(stack)@, old(region)@, *value).word,
        final(stack)@ == responded(old(stack)@, old(region)@, *value).stack,
        final(region)@ == responded(old(stack)@, old(region)@, *value).memory,
{
    match to_vec(value) {
        Ok(text) => store_into_encoded_allocation(stack, region, text.as_slice()),
        Err(_) => RibosomeErrorCode::SerializationFailed.to_word(),
    }
}

/// Reads the bytes that `allocation` names and parses them as JSON text.
///
/// Fails with `DeserializationFailed` where the allocation is empty or does
/// not lie inside the region, and where its bytes are not the text of a value.
pub fn deserialize(region: &LinearRegion, allocation: Allocation) -> (read: Result<
    serde_json::Value,
    RibosomeErrorCode,
>)
    ensures
        read == deserialized(region@, allocation),
{
    match load(region, allocation) {
        Some(text) => match from_slice(text.as_slice()) {
            Ok(value) => Ok(value),
            Err(_) => Err(RibosomeErrorCode::DeserializationFailed),
        },
        None => Err(RibosomeErrorCode::DeserializationFailed),
    }
}

/// Reads the value that the encoded allocation `word` names.
///
/// Input from the other side of the boundary may be malformed, so this never
/// does worse than fail: with `DeserializationFailed`, on the same words and
/// bytes as `deserialize` on the decoded allocation.
pub fn try_deserialize_allocation(region: &LinearRegion, word: u32) -> (read: Result<
    serde_json::Value,
    RibosomeErrorCode,
>)
    ensures
        read == deserialized(region@, Allocation::decode_spec(word)),
        is_status_word(word) ==> read is Err,
{
    deserialize(region, Allocation::decode(word))
}

/// What is stored is what is loaded: the allocation that `stored` returns
/// holds, in the memory that it returns, the text that was stored.
pub proof fn lemma_load_after_store(stack: StackView, memory: Seq<u8>, text: Seq<u8>)
    requires
        stack.valid(),
        stored(stack, memory, text) is Ok,
    ensures
        stored(stack, memory, text) matches Ok(after) && loaded(after.memory, after.allocation)
            == Some(text),
{
    let after = stored(stack, memory, text)->Ok_0;
    assert(bytes_at(after.memory, after.allocation) =~= text);
}

/// Round trip: deserializing the allocation that `serialize` returned, from
/// the memory that it left, parses the very text that the value was rendered
/// to. So a value whose text parses back to itself comes back unchanged.
pub proof fn lemma_deserialize_after_serialize(
    stack: StackView,
    memory: Seq<u8>,
    value: serde_json::Value,
)
    requires
        stack.valid(),
    ensures
        serialized(stack, memory, value) matches Ok(after) ==> {
            &&& loaded(after.memory, after.allocation) == json_text(value)
            &&& deserialized(after.memory, after.allocation) == match json_value(
                json_text(value)->Some_0,
            ) {
                Some(back) => Ok::<serde_json::Value, RibosomeErrorCode>(back),
                None => Err::<serde_json::Value, RibosomeErrorCode>(
                    RibosomeErrorCode::DeserializationFailed,
                ),
            }
            &&& json_value(json_text(value)->Some_0) == Some(value) ==> deserialized(
                after.memory,
                after.allocation,
            ) == Ok::<serde_json::Value, RibosomeErrorCode>(value)
        },
{
    if serialized(stack, memory, value) is Ok {
        lemma_load_after_store(stack, memory, json_text(value)->Some_0);
    }
}

/// Storing a text leaves every allocation below the top of the stack as it
/// was: what a caller put there is still there.
pub proof fn lemma_store_keeps_lower(
    stack: StackView,
    memory: Seq<u8>,
    text: Seq<u8>,
    lower: Allocation,
)
    requires
        stack.valid(),
        stored(stack, memory, text) is Ok,
        lower.end() <= stack.top,
    ensures
        stored(stack, memory, text) matches Ok(after) && loaded(after.memory, lower) == loaded(
            memory,
            lower,
        ),
{
    let after = stored(stack, memory, text)->Ok_0;
    assert(bytes_at(after.memory, lower) =~= bytes_at(memory, lower));
}

/// The word that comes back is either a payload or a status, never both and
/// never neither: it is a status word exactly where the text was not stored
/// or could not be named, and otherwise it names an allocation that holds the
/// text.
pub proof fn lemma_reply_is_payload_or_status(stack: StackView, memory: Seq<u8>, text: Seq<u8>)
    requires
        stack.valid(),
    ensures
        ({
            let reply = replied(stack, memory, text);
            &&& is_status_word(reply.word) <==> (stored(stack, memory, text) is Err || !stored(
                stack,
                memory,
                text,
            )->Ok_0.allocation.encodable())
            &&& is_status_word(reply.word) ==> {
                &&& reply.stack == stack
                &&& reply.word != SUCCESS
                &&& RibosomeReturnCode::from_word_spec(reply.word) is Some
            }
            &&& !is_status_word(reply.word) ==> loaded(
                reply.memory,
                Allocation::decode_spec(reply.word),
            ) == Some(text)
        }),
{
    if stored(stack, memory, text) is Ok {
        let after = stored(stack, memory, text)->Ok_0;
        lemma_load_after_store(stack, memory, text);
        if after.allocation.encodable() {
            lemma_decode_inverts_encode(after.allocation);
            let word = after.allocation.encode_spec() as u32;
            assert(word % 0x1_0000 == after.allocation.length);
        }
    }
}

/// The same holds of a value: the word that comes back for it is a status word
/// exactly where its text was not written or could not be named, and
/// otherwise it names an allocation from which the text of the value is read
/// back.
pub proof fn lemma_response_is_payload_or_status(
    stack: StackView,
    memory: Seq<u8>,
    value: serde_json::Value,
)
    requires
        stack.valid(),
    ensures
        ({
            let reply = responded(stack, memory, value);
            &&& is_status_word(reply.word) <==> (serialized(stack, memory, value) is Err
                || !serialized(stack, memory, value)->Ok_0.allocation.encodable())
            &&& is_status_word(reply.word) ==> {
                &&& reply.stack == stack
                &&& reply.word != SUCCESS
                &&& RibosomeReturnCode::from_word_spec(reply.word) is Some
            }
            &&& !is_status_word(reply.word) ==> loaded(
                reply.memory,
                Allocation::decode_spec(reply.word),
            ) == json_text(value)
        }),
{
    if json_text(value) is Some {
        lemma_reply_is_payload_or_status(stack, memory, json_text(value)->Some_0);
    }
}

} // verus!
