//! The failures of the boundary protocol and the words that report them.
//!
//! A word whose length field is zero names no bytes, so it cannot be the
//! encoding of a payload. Such words are the status words: zero reports
//! success without a payload, and a failure puts its code in the offset field.

use vstd::prelude::*;

verus! {

/// What can go wrong between a guest and its host.
///
/// The first three are failures of the allocator: the region is exhausted or
/// the caller broke the protocol. The last three are failures of the data that
/// crossed the boundary.
#[derive(Clone, Copy, Debug, PartialEq, Eq, Structural)]
pub enum RibosomeErrorCode {
    /// The region has no room for the bytes that were asked for.
    OutOfMemory,
    /// An allocation other than the most recent live one was handed back.
    StackCorruption,
    /// An offset or a length does not fit its field of the encoded word.
    EncodingOverflow,
    /// The input of an exported function could not be read as the value it
    /// declares.
    ArgumentDeserializationFailed,
    /// A value could not be rendered as text.
    SerializationFailed,
    /// The bytes of an allocation are not the text of a value.
    DeserializationFailed,
}

/// The outcome that a status word reports.
#[derive(Clone, Copy, Debug, PartialEq, Eq, Structural)]
pub enum RibosomeReturnCode {
    /// The call succeeded and returned no payload.
    Success,
    /// The call failed for the given reason.
    Failure(RibosomeErrorCode),
}

/// The status word of a call that succeeded without a payload.
pub const SUCCESS: u32 = 0;

/// Whether `word` is a status word: one whose length field is zero.
pub open spec fn is_status_word(word: u32) -> bool {
    word % 0x1_0000 == 0
}

impl RibosomeErrorCode {
    /// The number that stands for this failure, from 1 to 6.
    pub open spec fn code_spec(self) -> u32 {
        match self {
            RibosomeErrorCode::OutOfMemory => 1,
            RibosomeErrorCode::StackCorruption => 2,
            RibosomeErrorCode::EncodingOverflow => 3,
            RibosomeErrorCode::ArgumentDeserializationFailed => 4,
            RibosomeErrorCode::SerializationFailed => 5,
            RibosomeErrorCode::DeserializationFailed => 6,
        }
    }

    /// The status word of this failure: its code in the offset field, above a
    /// length field of zero.
    pub open spec fn word_spec(self) -> u32 {
        (self.code_spec() * 0x1_0000) as u32
    }

    /// Whether this failure leaves the region unusable for the rest of the
    /// call.
    pub open spec fn is_fatal_spec(self) -> bool {
        self == RibosomeErrorCode::OutOfMemory || self == RibosomeErrorCode::EncodingOverflow
    }

    /// The failure whose code is `code`, if there is one.
    pub open spec fn from_code_spec(code: u32) -> Option<RibosomeErrorCode> {
        if code == 1 {
            Some(RibosomeErrorCode::OutOfMemory)
        } else if code == 2 {
            Some(RibosomeErrorCode::StackCorruption)
        } else if code == 3 {
            Some(RibosomeErrorCode::EncodingOverflow)
        } else if code == 4 {
            Some(RibosomeErrorCode::ArgumentDeserializationFailed)
        } else if code == 5 {
            Some(RibosomeErrorCode::SerializationFailed)
        } else if code == 6 {
            Some(RibosomeErrorCode::DeserializationFailed)
        } else {
            None
        }
    }

    /// The name of this failure.
    pub open spec fn name_spec(self) -> Seq<char> {
        match self {
            RibosomeErrorCode::OutOfMemory => "OutOfMemory"@,
            RibosomeErrorCode::StackCorruption => "StackCorruption"@,
            RibosomeErrorCode::EncodingOverflow => "EncodingOverflow"@,
            RibosomeErrorCode::ArgumentDeserializationFailed => "ArgumentDeserializationFailed"@,
            RibosomeErrorCode::SerializationFailed => "SerializationFailed"@,
            RibosomeErrorCode::DeserializationFailed => "DeserializationFailed"@,
        }
    }

    /// Returns the name of this failure.
    pub fn to_string(&self) -> (name: String)
        ensures
            name@ == self.name_spec(),
    {
        match self {
            RibosomeErrorCode::OutOfMemory => "OutOfMemory".to_owned(),
            RibosomeErrorCode::StackCorruption => "StackCorruption".to_owned(),
            RibosomeErrorCode::EncodingOverflow => "EncodingOverflow".to_owned(),
            RibosomeErrorCode::ArgumentDeserializationFailed => {
                "ArgumentDeserializationFailed".to_owned()
            },
            RibosomeErrorCode::SerializationFailed => "SerializationFailed".to_owned(),
            RibosomeErrorCode::DeserializationFailed => "DeserializationFailed".to_owned(),
        }
    }

    /// Returns the number that stands for this failure.
    pub fn code(self) -> (code: u32)
        ensures
            code == self.code_spec(),
    {
        match self {
            RibosomeErrorCode::OutOfMemory => 1,
            RibosomeErrorCode::StackCorruption => 2,
            RibosomeErrorCode::EncodingOverflow => 3,
            RibosomeErrorCode::ArgumentDeserializationFailed => 4,
            RibosomeErrorCode::SerializationFailed => 5,
            RibosomeErrorCode::DeserializationFailed => 6,
        }
    }

    /// Returns the status word that reports this failure across the boundary.
    pub fn to_word(self) -> (word: u32)
        ensures
            word == self.word_spec(),
            is_status_word(word),
            word != SUCCESS,
    {
        let code: u32 = self.code();
        code * 0x1_0000
    }

    /// Returns the failure whose code is `code`, or `None` where no failure has
    /// that code.
    pub fn from_code(code: u32) -> (found: Option<RibosomeErrorCode>)
        ensures
            found == Self::from_code_spec(code),
    {
        if code == 1 {
            Some(RibosomeErrorCode::OutOfMemory)
        } else if code == 2 {
            Some(RibosomeErrorCode::StackCorruption)
        } else if code == 3 {
            Some(RibosomeErrorCode::EncodingOverflow)
        } else if code == 4 {
            Some(RibosomeErrorCode::ArgumentDeserializationFailed)
        } else if code == 5 {
            Some(RibosomeErrorCode::SerializationFailed)
        } else if code == 6 {
            Some(RibosomeErrorCode::DeserializationFailed)
        } else {
            None
        }
    }

    /// Tells whether this failure ends the call: the allocator can neither
    /// make room nor name the bytes, so nothing more can be returned as data.
    pub fn is_fatal(self) -> (fatal: bool)
        ensures
            fatal == self.is_fatal_spec(),
    {
        match self {
            RibosomeErrorCode::OutOfMemory => true,
            RibosomeErrorCode::EncodingOverflow => true,
            _ => false,
        }
    }
}

impl RibosomeReturnCode {
    /// The outcome that `word` reports, if `word` is a status word that this
    /// protocol assigns.
    pub open spec fn from_word_spec(word: u32) -> Option<RibosomeReturnCode> {
        if word == SUCCESS {
            Some(RibosomeReturnCode::Success)
        } else if is_status_word(word) {
            match RibosomeErrorCode::from_code_spec(word / 0x1_0000) {
                Some(failure) => Some(RibosomeReturnCode::Failure(failure)),
                None => None,
            }
        } else {
            None
        }
    }

    /// The status word that reports this outcome.
    pub open spec fn word_spec(self) -> u32 {
        match self {
            RibosomeReturnCode::Success => SUCCESS,
            RibosomeReturnCode::Failure(failure) => failure.word_spec(),
        }
    }

    /// Returns the status word that reports this outcome.
    pub fn to_word(self) -> (word: u32)
        ensures
            word == self.word_spec(),
            is_status_word(word),
    {
        match self {
            RibosomeReturnCode::Success => SUCCESS,
            RibosomeReturnCode::Failure(failure) => failure.to_word(),
        }
    }

    /// Reads a word that came back across the boundary as a status. Returns
    /// `None` for a word that names a payload and for a status word that this
    /// protocol does not assign.
    pub fn from_word(word: u32) -> (status: Option<RibosomeReturnCode>)
        ensures
            status == Self::from_word_spec(word),
    {
        if word == SUCCESS {
            Some(RibosomeReturnCode::Success)
        } else if word % 0x1_0000 == 0 {
            match RibosomeErrorCode::from_code(word / 0x1_0000) {
                Some(failure) => Some(RibosomeReturnCode::Failure(failure)),
                None => None,
            }
        } else {
            None
        }
    }
}

/// Reading the status word of an outcome gives that outcome back.
pub proof fn lemma_status_round_trip(status: RibosomeReturnCode)
    ensures
        RibosomeReturnCode::from_word_spec(status.word_spec()) == Some(status),
{
}

/// A word is read as a status only if it is the status word of that status.
pub proof fn lemma_status_word_unique(word: u32, status: RibosomeReturnCode)
    requires
        RibosomeReturnCode::from_word_spec(word) == Some(status),
    ensures
        status.word_spec() == word,
{
}

} // verus!
