use giteki::repair::repair;

const RAW: &str = r#"{"gitekiInformation":{"lastUpdateDate":"20240101","totalCount":"2"},"giteki":[{"gitekiInfo":{"no":"1","number":"A"}},{"gitekiInfo":{"no":"2","number":"B"}}]}"#;
const FIXED: &str = r#"{"gitekiInformation":{"lastUpdateDate":"20240101","totalCount":"2"},"giteki":[{"no":"1","number":"A"},{"no":"2","number":"B"}]}"#;

#[test]
fn repair_of_literal_fixture() {
    assert_eq!(repair(RAW), FIXED);
}

#[test]
fn repair_twice_equals_once() {
    let raw = r#"{"a":[{"gitekiInfo":{"x":1}},{"gitekiInfo":{"x":2}}]}"#;
    let once = repair(raw);
    assert_eq!(once, r#"{"a":[{{"x":1},{"x":2}]}"#);
    assert_eq!(repair(&once), once);
    let list_once = repair(RAW);
    assert_eq!(repair(&list_once), list_once);
}

#[test]
fn repair_leaves_repaired_list_alone() {
    assert_eq!(repair(FIXED), FIXED);
}

#[test]
fn repair_leaves_sound_json_alone() {
    let sound = r#"{"gitekiInformation":{"lastUpdateDate":"20240101","totalCount":"0"},"giteki":{"count":"3"}}"#;
    assert_eq!(repair(sound), sound);
}

#[test]
fn repair_of_empty_text() {
    assert_eq!(repair(""), "");
}

#[test]
fn repair_each_substitution() {
    assert_eq!(repair(r#""giteki":[{"gitekiInfo":{"#), r#""giteki":[{"#);
    assert_eq!(repair(r#""giteki":[{"#), r#""giteki":[{"#);
    assert_eq!(repair(r#""gitekiInfo":{"#), "{");
    assert_eq!(repair("}},{{"), "},{");
    assert_eq!(repair("}}]"), "}]");
}

#[test]
fn repair_keeps_other_characters() {
    assert_eq!(repair("無線}}]設備"), "無線}]設備");
    assert_eq!(repair("}}}]"), "}}]");
}

#[test]
fn repair_single_record() {
    let raw = r#"{"giteki":[{"gitekiInfo":{"no":"1"}}]}"#;
    assert_eq!(repair(raw), r#"{"giteki":[{"no":"1"}]}"#);
}
