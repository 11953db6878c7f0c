use taskbridge::doc::merge_document;
use taskbridge::numfmt::{i64_to_dec, u64_to_dec};

#[test]
fn unsigned_decimal_formatting() {
    assert_eq!(u64_to_dec(0), "0");
    assert_eq!(u64_to_dec(7), "7");
    assert_eq!(u64_to_dec(10), "10");
    assert_eq!(u64_to_dec(90210), "90210");
    assert_eq!(u64_to_dec(u64::MAX), "18446744073709551615");
}

#[test]
fn signed_decimal_formatting() {
    assert_eq!(i64_to_dec(0), "0");
    assert_eq!(i64_to_dec(1735689600), "1735689600");
    assert_eq!(i64_to_dec(-123), "-123");
    assert_eq!(i64_to_dec(i64::MIN), "-9223372036854775808");
    assert_eq!(i64_to_dec(i64::MAX), "9223372036854775807");
}

#[test]
fn merged_document_layout_is_exact() {
    let props = vec![
        ("description".to_string(), "hello".to_string()),
        ("status".to_string(), "pending".to_string()),
    ];
    let tags = vec!["work".to_string(), "home".to_string()];
    let anns = vec![(5i64, "note".to_string()), (-2i64, "old note".to_string())];
    let id = "0a4897b8-40b5-4b17-a5c9-6dbe4f46e121".to_string();

    let doc = merge_document(&props, &tags, &anns, &id);

    let expected = vec![
        ("description".to_string(), "hello".to_string()),
        ("status".to_string(), "pending".to_string()),
        ("tag_0".to_string(), "work".to_string()),
        ("tag_1".to_string(), "home".to_string()),
        ("annotation_0_entry".to_string(), "5".to_string()),
        ("annotation_0_description".to_string(), "note".to_string()),
        ("annotation_1_entry".to_string(), "-2".to_string()),
        ("annotation_1_description".to_string(), "old note".to_string()),
        ("uuid".to_string(), id.clone()),
    ];
    assert_eq!(doc, expected);
}

#[test]
fn empty_sections_leave_only_the_id() {
    let props: Vec<(String, String)> = Vec::new();
    let tags: Vec<String> = Vec::new();
    let anns: Vec<(i64, String)> = Vec::new();
    let id = "0a4897b8-40b5-4b17-a5c9-6dbe4f46e121".to_string();

    let doc = merge_document(&props, &tags, &anns, &id);
    assert_eq!(doc, vec![("uuid".to_string(), id)]);
}
