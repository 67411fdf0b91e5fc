use hdk::allocation::Allocation;
use hdk::error::{RibosomeErrorCode, RibosomeReturnCode};
use hdk::region::LinearRegion;
use hdk::serialization::{
    deserialize, load, serialize, serialize_into_encoded_allocation, store,
    store_into_encoded_allocation, try_deserialize_allocation,
};
use hdk::stack::Stack;
use serde_json::Value;

fn parse(text: &str) -> Value {
    serde_json::from_str(text).unwrap()
}

#[test]
fn store_writes_the_text_on_top_of_the_stack() {
    let mut region = LinearRegion::new(16);
    let mut stack = Stack::new(16);
    stack.allocate(4).unwrap();
    assert_eq!(store(&mut stack, &mut region, b"true"), Ok(Allocation::new(4, 4)));
    assert_eq!(stack.top(), 8);
    assert_eq!(region.read(Allocation::new(4, 4)), Some(b"true".to_vec()));
    assert_eq!(region.read(Allocation::new(0, 4)), Some(vec![0u8; 4]));
}

#[test]
fn store_of_an_empty_text_fails() {
    let mut region = LinearRegion::new(16);
    let mut stack = Stack::new(16);
    assert_eq!(store(&mut stack, &mut region, b""), Err(RibosomeErrorCode::SerializationFailed));
    assert_eq!(stack.top(), 0);
}

#[test]
fn store_without_room_is_out_of_memory() {
    let mut region = LinearRegion::new(16);
    let mut stack = Stack::new(16);
    stack.allocate(14).unwrap();
    assert_eq!(store(&mut stack, &mut region, b"123"), Err(RibosomeErrorCode::OutOfMemory));
    assert_eq!(stack.top(), 14);
    assert_eq!(region.read(Allocation::new(14, 2)), Some(vec![0u8; 2]));
    assert_eq!(store(&mut stack, &mut region, b"12"), Ok(Allocation::new(14, 2)));
}

#[test]
fn store_beyond_the_region_is_out_of_memory() {
    let mut region = LinearRegion::new(4);
    let mut stack = Stack::new(16);
    assert_eq!(store(&mut stack, &mut region, b"12345"), Err(RibosomeErrorCode::OutOfMemory));
    assert_eq!(stack.top(), 0);
    assert_eq!(store(&mut stack, &mut region, b"1234"), Ok(Allocation::new(0, 4)));
}

#[test]
fn load_copies_the_bytes_of_an_allocation() {
    let mut region = LinearRegion::new(8);
    region.write(1, b"null").unwrap();
    assert_eq!(load(&region, Allocation::new(1, 4)), Some(b"null".to_vec()));
}

#[test]
fn load_of_nothing_finds_nothing() {
    let region = LinearRegion::new(8);
    assert_eq!(load(&region, Allocation::new(3, 0)), None);
    assert_eq!(load(&region, Allocation::new(6, 3)), None);
}

#[test]
fn serialize_takes_exactly_the_bytes_of_the_text() {
    let mut region = LinearRegion::new(64);
    let mut stack = Stack::new(64);
    let value = parse(r#"{"b":[1,2,3],"a":"x"}"#);
    let allocation = serialize(&mut stack, &mut region, &value).unwrap();
    let text = br#"{"a":"x","b":[1,2,3]}"#;
    assert_eq!(allocation, Allocation::new(0, text.len() as u32));
    assert_eq!(stack.top(), text.len() as u32);
    assert_eq!(region.read(allocation), Some(text.to_vec()));
}

#[test]
fn serialize_renders_a_string_in_quotes() {
    let mut region = LinearRegion::new(64);
    let mut stack = Stack::new(64);
    let value = Value::String("hi".to_string());
    let allocation = serialize(&mut stack, &mut region, &value).unwrap();
    assert_eq!(region.read(allocation), Some(b"\"hi\"".to_vec()));
}

#[test]
fn serialize_without_room_is_out_of_memory() {
    let mut region = LinearRegion::new(8);
    let mut stack = Stack::new(8);
    let value = Value::String("far too long".to_string());
    assert_eq!(serialize(&mut stack, &mut region, &value), Err(RibosomeErrorCode::OutOfMemory));
    assert_eq!(stack.top(), 0);
    assert_eq!(region.read(Allocation::new(0, 8)), Some(vec![0u8; 8]));
}

#[test]
fn deserialize_reads_back_what_serialize_wrote() {
    let texts = [
        "null",
        "true",
        "false",
        "0",
        "-17",
        "18446744073709551615",
        "\"\"",
        "\"text with \\\"quotes\\\" and \\n\"",
        "[]",
        "[1,[2,[3,[]]]]",
        "{}",
        r#"{"entry_type_name":"typename1","entry_content":"some content"}"#,
        r#"{"a":{"b":{"c":[null,true,"x",{"d":1}]}}}"#,
    ];
    let mut region = LinearRegion::new(4_096);
    let mut stack = Stack::new(4_096);
    for text in texts {
        let value = parse(text);
        let allocation = serialize(&mut stack, &mut region, &value).unwrap();
        assert_eq!(deserialize(&region, allocation), Ok(value));
    }
}

#[test]
fn deserialize_keeps_earlier_values_readable() {
    let mut region = LinearRegion::new(256);
    let mut stack = Stack::new(256);
    let first = parse(r#"{"first":1}"#);
    let second = parse(r#"["second"]"#);
    let lower = serialize(&mut stack, &mut region, &first).unwrap();
    let upper = serialize(&mut stack, &mut region, &second).unwrap();
    assert_eq!(upper.offset, lower.offset + lower.length);
    assert_eq!(deserialize(&region, lower), Ok(first));
    assert_eq!(deserialize(&region, upper), Ok(second));
}

#[test]
fn deserialize_of_malformed_text_fails() {
    let mut region = LinearRegion::new(64);
    let written = region.write(0, b"{\"a\":").unwrap();
    assert_eq!(deserialize(&region, written), Err(RibosomeErrorCode::DeserializationFailed));
    let written = region.write(0, b"1 2").unwrap();
    assert_eq!(deserialize(&region, written), Err(RibosomeErrorCode::DeserializationFailed));
    let written = region.write(0, &[0xFF, 0xFE]).unwrap();
    assert_eq!(deserialize(&region, written), Err(RibosomeErrorCode::DeserializationFailed));
}

#[test]
fn deserialize_of_an_empty_allocation_fails() {
    let mut region = LinearRegion::new(64);
    region.write(0, b"null").unwrap();
    assert_eq!(
        deserialize(&region, Allocation::new(0, 0)),
        Err(RibosomeErrorCode::DeserializationFailed)
    );
}

#[test]
fn deserialize_outside_the_region_fails() {
    let region = LinearRegion::new(8);
    assert_eq!(
        deserialize(&region, Allocation::new(6, 3)),
        Err(RibosomeErrorCode::DeserializationFailed)
    );
}

#[test]
fn deserialize_accepts_white_space_around_the_value() {
    let mut region = LinearRegion::new(64);
    let written = region.write(0, b"  { \"a\" : 1 }\n").unwrap();
    assert_eq!(deserialize(&region, written), Ok(parse(r#"{"a":1}"#)));
}

#[test]
fn try_deserialize_allocation_decodes_the_word() {
    let mut region = LinearRegion::new(64);
    let written = region.write(5, b"[1,2]").unwrap();
    let word = written.encode().unwrap();
    assert_eq!(word, 0x0005_0005);
    assert_eq!(try_deserialize_allocation(&region, word), Ok(parse("[1,2]")));
}

#[test]
fn try_deserialize_allocation_of_a_status_word_fails() {
    let mut region = LinearRegion::new(64);
    region.write(0, b"null").unwrap();
    for word in [0u32, 1 << 16, 4 << 16, 9 << 16] {
        assert_eq!(
            try_deserialize_allocation(&region, word),
            Err(RibosomeErrorCode::DeserializationFailed)
        );
    }
}

#[test]
fn try_deserialize_allocation_of_a_word_out_of_range_fails() {
    let region = LinearRegion::new(64);
    assert_eq!(
        try_deserialize_allocation(&region, u32::MAX),
        Err(RibosomeErrorCode::DeserializationFailed)
    );
}

#[test]
fn store_into_encoded_allocation_names_the_text() {
    let mut region = LinearRegion::new(64);
    let mut stack = Stack::new(64);
    stack.allocate(3).unwrap();
    let word = store_into_encoded_allocation(&mut stack, &mut region, b"[7]");
    assert_eq!(word, 0x0003_0003);
    assert_eq!(stack.top(), 6);
    assert_eq!(region.read(Allocation::decode(word)), Some(b"[7]".to_vec()));
}

#[test]
fn store_into_encoded_allocation_reports_failures_as_status_words() {
    let mut region = LinearRegion::new(4);
    let mut stack = Stack::new(4);
    let word = store_into_encoded_allocation(&mut stack, &mut region, b"12345");
    assert_eq!(word, 1 << 16);
    assert_eq!(
        RibosomeReturnCode::from_word(word),
        Some(RibosomeReturnCode::Failure(RibosomeErrorCode::OutOfMemory))
    );
    let word = store_into_encoded_allocation(&mut stack, &mut region, b"");
    assert_eq!(word, 5 << 16);
    assert_eq!(stack.top(), 0);
}

#[test]
fn store_into_encoded_allocation_gives_back_what_it_cannot_name() {
    let mut region = LinearRegion::new(70_000);
    let mut stack = Stack::new(70_000);
    stack.allocate(65_536).unwrap();
    let word = store_into_encoded_allocation(&mut stack, &mut region, b"null");
    assert_eq!(word, 3 << 16);
    assert_eq!(
        RibosomeReturnCode::from_word(word),
        Some(RibosomeReturnCode::Failure(RibosomeErrorCode::EncodingOverflow))
    );
    assert_eq!(stack.top(), 65_536);
    assert_eq!(region.read(Allocation::new(65_536, 4)), Some(b"null".to_vec()));
}

#[test]
fn serialize_into_encoded_allocation_names_the_value() {
    let mut region = LinearRegion::new(128);
    let mut stack = Stack::new(128);
    let value = parse(r#"{"hash":"fail"}"#);
    let word = serialize_into_encoded_allocation(&mut stack, &mut region, &value);
    assert!(!is_status_word_at_run_time(word));
    assert_eq!(word, 15);
    assert_eq!(try_deserialize_allocation(&region, word), Ok(value));
}

#[test]
fn serialize_into_encoded_allocation_reports_exhaustion() {
    let mut region = LinearRegion::new(4);
    let mut stack = Stack::new(4);
    let value = Value::String("too long".to_string());
    let word = serialize_into_encoded_allocation(&mut stack, &mut region, &value);
    assert_eq!(word, RibosomeErrorCode::OutOfMemory.to_word());
    assert_eq!(stack.top(), 0);
}

fn is_status_word_at_run_time(word: u32) -> bool {
    word % 0x1_0000 == 0
}

#[test]
fn deserialize_reads_back_every_float() {
    let mut region = LinearRegion::new(256);
    let mut floats = vec![0.0f64, -0.0, 1.0, 0.1, 1e21, 5e-324, f64::MAX, f64::MIN_POSITIVE];
    floats.push(f64::from_bits(0x305f_050c_368d_cc74));
    let mut state: u64 = 0x9E37_79B9_7F4A_7C15;
    for _ in 0..20_000 {
        state ^= state << 13;
        state ^= state >> 7;
        state ^= state << 17;
        if f64::from_bits(state).is_finite() {
            floats.push(f64::from_bits(state));
        }
    }
    for float in floats {
        let value = Value::from(float);
        let mut stack = Stack::new(256);
        let allocation = serialize(&mut stack, &mut region, &value).unwrap();
        assert_eq!(deserialize(&region, allocation), Ok(value));
    }
}

#[test]
fn serialize_writes_a_float_in_its_shortest_form() {
    let mut region = LinearRegion::new(64);
    let mut stack = Stack::new(64);
    let value = Value::from(f64::from_bits(0x305f_050c_368d_cc74));
    let allocation = serialize(&mut stack, &mut region, &value).unwrap();
    assert_eq!(region.read(allocation), Some(b"1.0715660391465826e-75".to_vec()));
}

#[test]
fn a_value_nested_too_deep_is_written_but_not_read_back() {
    let mut value = Value::Array(Vec::new());
    for _ in 0..200 {
        value = Value::Array(vec![value]);
    }
    let mut region = LinearRegion::new(1_024);
    let mut stack = Stack::new(1_024);
    let allocation = serialize(&mut stack, &mut region, &value).unwrap();
    assert_eq!(allocation, Allocation::new(0, 402));
    assert_eq!(deserialize(&region, allocation), Err(RibosomeErrorCode::DeserializationFailed));
}

#[test]
fn a_value_nested_within_the_limit_is_read_back() {
    let mut value = Value::Array(Vec::new());
    for _ in 0..100 {
        value = Value::Array(vec![value]);
    }
    let mut region = LinearRegion::new(1_024);
    let mut stack = Stack::new(1_024);
    let allocation = serialize(&mut stack, &mut region, &value).unwrap();
    assert_eq!(deserialize(&region, allocation), Ok(value));
}
