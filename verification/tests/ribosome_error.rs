use hdk::RibosomeError;

#[test]
fn test_to_string() {
    let err = RibosomeError::FunctionNotImplemented.to_string();
    assert_eq!(r#"FunctionNotImplemented"#, err)
}

#[test]
fn test_description() {
    let err = RibosomeError::FunctionNotImplemented;
    assert_eq!("Function not implemented", err.description())
}

#[test]
fn to_string_names_every_case() {
    assert_eq!(RibosomeError::HashNotFound.to_string(), "HashNotFound");
    assert_eq!(RibosomeError::new("boom").to_string(), "RibosomeFailed(\"boom\")");
}

#[test]
fn to_string_quotes_the_reason_as_debug_does() {
    let reason = "a \"quoted\" line\nand a tab\t";
    let failure = RibosomeError::new(reason);
    assert_eq!(failure.to_string(), format!("{:?}", failure));
    assert_eq!(
        failure.to_string(),
        "RibosomeFailed(\"a \\\"quoted\\\" line\\nand a tab\\t\")"
    );
}

#[test]
fn description_of_every_case() {
    assert_eq!(RibosomeError::HashNotFound.description(), "Hash not found");
    assert_eq!(RibosomeError::new("disk full").description(), "disk full");
    assert_eq!(RibosomeError::new("").description(), "");
}

#[test]
fn new_makes_a_failed_operation() {
    assert_eq!(RibosomeError::new("why"), RibosomeError::RibosomeFailed("why".to_string()));
}

#[test]
fn to_json_holds_the_description_under_error() {
    let expected: serde_json::Value =
        serde_json::from_str(r#"{"error":"Function not implemented"}"#).unwrap();
    assert_eq!(RibosomeError::FunctionNotImplemented.to_json(), expected);
    assert_eq!(
        serde_json::to_string(&RibosomeError::HashNotFound.to_json()).unwrap(),
        r#"{"error":"Hash not found"}"#
    );
    assert_eq!(
        serde_json::to_string(&RibosomeError::new("say \"no\"").to_json()).unwrap(),
        r#"{"error":"say \"no\""}"#
    );
}

#[test]
fn failures_compare_by_case_and_reason() {
    assert_eq!(RibosomeError::HashNotFound, RibosomeError::HashNotFound);
    assert_eq!(RibosomeError::new("a"), RibosomeError::new("a"));
    assert_ne!(RibosomeError::new("a"), RibosomeError::new("b"));
    assert_ne!(RibosomeError::HashNotFound, RibosomeError::FunctionNotImplemented);
    assert_ne!(RibosomeError::new("Hash not found"), RibosomeError::HashNotFound);
}

#[test]
fn a_failed_operation_equals_its_reason() {
    assert!(RibosomeError::new("no room") == "no room".to_string());
    assert!(RibosomeError::new("no room") != "room".to_string());
    assert!(RibosomeError::new("") == String::new());
}

#[test]
fn the_other_failures_equal_no_string() {
    assert!(RibosomeError::HashNotFound != "Hash not found".to_string());
    assert!(RibosomeError::HashNotFound != "HashNotFound".to_string());
    assert!(RibosomeError::FunctionNotImplemented != "Function not implemented".to_string());
    assert!(RibosomeError::FunctionNotImplemented != String::new());
}

#[test]
fn a_failure_can_be_cloned() {
    let failure = RibosomeError::new("copy me");
    assert_eq!(failure.clone(), failure);
}
