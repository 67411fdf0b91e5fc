use hdk::error::{RibosomeErrorCode, RibosomeReturnCode, SUCCESS};

const ALL: [RibosomeErrorCode; 6] = [
    RibosomeErrorCode::OutOfMemory,
    RibosomeErrorCode::StackCorruption,
    RibosomeErrorCode::EncodingOverflow,
    RibosomeErrorCode::ArgumentDeserializationFailed,
    RibosomeErrorCode::SerializationFailed,
    RibosomeErrorCode::DeserializationFailed,
];

#[test]
fn every_failure_has_its_code() {
    let codes: Vec<u32> = ALL.iter().map(|failure| failure.code()).collect();
    assert_eq!(codes, vec![1, 2, 3, 4, 5, 6]);
}

#[test]
fn a_status_word_holds_the_code_above_an_empty_length() {
    assert_eq!(RibosomeErrorCode::OutOfMemory.to_word(), 65_536);
    assert_eq!(RibosomeErrorCode::ArgumentDeserializationFailed.to_word(), 262_144);
    assert_eq!(RibosomeErrorCode::DeserializationFailed.to_word(), 393_216);
    for failure in ALL {
        assert_eq!(failure.to_word(), failure.code() << 16);
        assert_eq!(failure.to_word() & 0xFFFF, 0);
    }
}

#[test]
fn from_code_inverts_code() {
    for failure in ALL {
        assert_eq!(RibosomeErrorCode::from_code(failure.code()), Some(failure));
    }
    assert_eq!(RibosomeErrorCode::from_code(0), None);
    assert_eq!(RibosomeErrorCode::from_code(7), None);
    assert_eq!(RibosomeErrorCode::from_code(u32::MAX), None);
}

#[test]
fn only_the_failures_of_the_allocator_are_fatal() {
    let fatal: Vec<bool> = ALL.iter().map(|failure| failure.is_fatal()).collect();
    assert_eq!(fatal, vec![true, false, true, false, false, false]);
}

#[test]
fn every_failure_has_its_name() {
    let names: Vec<String> = ALL.iter().map(|failure| failure.to_string()).collect();
    assert_eq!(
        names,
        vec![
            "OutOfMemory",
            "StackCorruption",
            "EncodingOverflow",
            "ArgumentDeserializationFailed",
            "SerializationFailed",
            "DeserializationFailed",
        ]
    );
}

#[test]
fn success_is_the_word_zero() {
    assert_eq!(SUCCESS, 0);
    assert_eq!(RibosomeReturnCode::Success.to_word(), 0);
    assert_eq!(RibosomeReturnCode::from_word(0), Some(RibosomeReturnCode::Success));
}

#[test]
fn from_word_inverts_to_word() {
    for failure in ALL {
        let status = RibosomeReturnCode::Failure(failure);
        assert_eq!(RibosomeReturnCode::from_word(status.to_word()), Some(status));
    }
}

#[test]
fn a_payload_word_is_no_status() {
    assert_eq!(RibosomeReturnCode::from_word(1), None);
    assert_eq!(RibosomeReturnCode::from_word(0x0004_0001), None);
    assert_eq!(RibosomeReturnCode::from_word(u32::MAX), None);
}

#[test]
fn an_unassigned_status_word_is_no_status() {
    assert_eq!(RibosomeReturnCode::from_word(7 << 16), None);
    assert_eq!(RibosomeReturnCode::from_word(0xFFFF_0000), None);
}
