use sdm_lister::render;
use sdm_lister::validate;
use sdm_lister::DynamicValue;
use sdm_lister::RawValue;

fn empty_raw() -> RawValue {
    RawValue {
        null_case: false,
        number: None,
        text: None,
        boolean: None,
        object: None,
        list: None,
    }
}

#[test]
fn single_case_payload_is_accepted() {
    let raw = RawValue { number: Some("3".to_string()), ..empty_raw() };
    let v = validate(&raw).unwrap();
    assert!(matches!(v, DynamicValue::Number(ref n) if n == "3"));
}

#[test]
fn null_case_payload_is_accepted() {
    let raw = RawValue { null_case: true, ..empty_raw() };
    let v = validate(&raw).unwrap();
    assert!(matches!(v, DynamicValue::Null));
}

#[test]
fn payload_with_no_case_is_rejected() {
    assert!(validate(&empty_raw()).is_err());
}

#[test]
fn payload_with_two_cases_is_rejected() {
    let raw = RawValue {
        number: Some("3".to_string()),
        text: Some("three".to_string()),
        ..empty_raw()
    };
    assert!(validate(&raw).is_err());
}

#[test]
fn nested_malformed_payload_is_rejected() {
    let raw = RawValue {
        object: Some(vec![("bad".to_string(), empty_raw())]),
        ..empty_raw()
    };
    assert!(validate(&raw).is_err());
}

#[test]
fn malformed_list_item_is_rejected() {
    let two_cases = RawValue { null_case: true, boolean: Some(true), ..empty_raw() };
    let raw = RawValue { list: Some(vec![two_cases]), ..empty_raw() };
    assert!(validate(&raw).is_err());
}

#[test]
fn validated_object_keeps_key_order() {
    let raw = RawValue {
        object: Some(vec![
            ("z".to_string(), RawValue { boolean: Some(false), ..empty_raw() }),
            ("a".to_string(), RawValue { text: Some("v".to_string()), ..empty_raw() }),
        ]),
        ..empty_raw()
    };
    let v = validate(&raw).unwrap();
    let lines = render(&v, "");
    assert_eq!(
        lines,
        vec![
            "[z]".to_string(),
            "false".to_string(),
            "[a]".to_string(),
            "\"v\"".to_string(),
        ]
    );
}

#[test]
fn validated_list_keeps_item_order() {
    let raw = RawValue {
        list: Some(vec![
            RawValue { number: Some("1".to_string()), ..empty_raw() },
            RawValue { number: Some("2".to_string()), ..empty_raw() },
        ]),
        ..empty_raw()
    };
    let v = validate(&raw).unwrap();
    let lines = render(&v, "");
    assert_eq!(lines, vec!["\t1".to_string(), "\t2".to_string()]);
}
