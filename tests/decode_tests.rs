use giteki::error::ResponseError;
use giteki::json::{parse_json, JsonValue};
use giteki::scalar::{decode_digits, decode_tolerant};
use giteki::{list, num};

fn decode_field(e: &ResponseError) -> (String, String) {
    match e {
        ResponseError::Decode { endpoint, field } => (endpoint.clone(), field.clone()),
        ResponseError::Malformed(t) => panic!("unexpected parse failure on {}", t),
    }
}

fn full_record(no: &str, number: &str) -> String {
    format!(
        r#"{{"no":{},"techCode":"1","number":"{}","date":"2020-01-01","name":"n","radioEquipmentCode":"1","typeName":"t","elecWave":"w","spuriousRules":"s","bodySar":"b","note":"","organName":"o","attachmentFileName":"f","attachmentFileKey":"k","attachmentFileCntForCd1":"1","attachmentFileCntForCd2":"0"}}"#,
        no, number
    )
}

#[test]
fn total_count_as_number_or_string() {
    let a = num::parse_response(r#"{"gitekiInformation":{"lastUpdateDate":"2024","totalCount":42},"giteki":{"count":1}}"#);
    let b = num::parse_response(r#"{"gitekiInformation":{"lastUpdateDate":"2024","totalCount":"42"},"giteki":{"count":"1"}}"#);
    assert_eq!(a.ok().unwrap().giteki_information.total_count, 42);
    assert_eq!(b.ok().unwrap().giteki_information.total_count, 42);
}

#[test]
fn total_count_of_letters_is_refused() {
    let r = num::parse_response(r#"{"gitekiInformation":{"lastUpdateDate":"2024","totalCount":"abc"},"giteki":{"count":1}}"#);
    let e = r.err().unwrap();
    assert_eq!(decode_field(&e), ("count".to_string(), "totalCount".to_string()));
}

#[test]
fn tolerant_decoder_edges() {
    assert_eq!(decode_digits("42"), Some(42));
    assert_eq!(decode_digits("007"), Some(7));
    assert_eq!(decode_digits(""), None);
    assert_eq!(decode_digits("+42"), None);
    assert_eq!(decode_digits("-1"), None);
    assert_eq!(decode_digits("4.0"), None);
    assert_eq!(decode_digits("18446744073709551615"), Some(u64::MAX));
    assert_eq!(decode_digits("18446744073709551616"), None);
    assert_eq!(decode_tolerant(&JsonValue::Number("42".to_string())), Some(42));
    assert_eq!(decode_tolerant(&JsonValue::Str("42".to_string())), Some(42));
    assert_eq!(decode_tolerant(&JsonValue::Bool(true)), None);
    assert_eq!(decode_tolerant(&JsonValue::Null), None);
}

#[test]
fn parse_json_reads_numbers_as_text() {
    match parse_json("[12, -3, \"x\", null, true]") {
        Some(JsonValue::Array(items)) => {
            assert_eq!(items.len(), 5);
            assert!(matches!(&items[0], JsonValue::Number(t) if t == "12"));
            assert!(matches!(&items[1], JsonValue::Number(t) if t == "-3"));
            assert!(matches!(&items[2], JsonValue::Str(t) if t == "x"));
            assert!(matches!(&items[3], JsonValue::Null));
            assert!(matches!(&items[4], JsonValue::Bool(true)));
        },
        _ => panic!("expected an array"),
    }
    assert!(parse_json("{\"a\":").is_none());
}

#[test]
fn float_count_is_refused() {
    let r = num::parse_response(r#"{"gitekiInformation":{"lastUpdateDate":"2024","totalCount":4.5},"giteki":{"count":1}}"#);
    assert_eq!(decode_field(&r.err().unwrap()).1, "totalCount");
}

#[test]
fn count_and_total_are_separate() {
    let r = num::parse_response(r#"{"gitekiInformation":{"lastUpdateDate":"20240101","totalCount":"500"},"giteki":{"count":"7"}}"#)
        .ok()
        .unwrap();
    assert_eq!(r.giteki_information.total_count, 500);
    assert_eq!(r.giteki.count, 7);
    assert_eq!(r.giteki_information.last_update_date, "20240101");
    let same = num::parse_response(r#"{"gitekiInformation":{"lastUpdateDate":"20240101","totalCount":"9"},"giteki":{"count":"9"}}"#)
        .ok()
        .unwrap();
    assert_eq!(same.giteki_information.total_count, 9);
    assert_eq!(same.giteki.count, 9);
}

#[test]
fn count_response_errors() {
    let missing = num::parse_response(r#"{"gitekiInformation":{"lastUpdateDate":"1","totalCount":1}}"#);
    assert_eq!(decode_field(&missing.err().unwrap()), ("count".to_string(), "giteki".to_string()));
    let no_count = num::parse_response(r#"{"gitekiInformation":{"lastUpdateDate":"1","totalCount":1},"giteki":{}}"#);
    assert_eq!(decode_field(&no_count.err().unwrap()).1, "count");
    let no_header = num::parse_response(r#"{"giteki":{"count":1}}"#);
    assert_eq!(decode_field(&no_header.err().unwrap()).1, "gitekiInformation");
    let no_date = num::parse_response(r#"{"gitekiInformation":{"lastUpdateDate":5,"totalCount":1},"giteki":{"count":1}}"#);
    assert_eq!(decode_field(&no_date.err().unwrap()).1, "lastUpdateDate");
    let too_big = num::parse_response(r#"{"gitekiInformation":{"lastUpdateDate":"1","totalCount":"4294967296"},"giteki":{"count":1}}"#);
    assert_eq!(decode_field(&too_big.err().unwrap()).1, "totalCount");
    match num::parse_response("not json") {
        Err(ResponseError::Malformed(t)) => assert_eq!(t, "not json"),
        _ => panic!("expected a parse failure"),
    }
}

#[test]
fn count_response_ignores_extra_members() {
    let r = num::parse_response(r#"{"extra":[1,2],"gitekiInformation":{"lastUpdateDate":"d","totalCount":3,"x":null},"giteki":{"count":"4","y":"z"}}"#)
        .ok()
        .unwrap();
    assert_eq!(r.giteki_information.total_count, 3);
    assert_eq!(r.giteki.count, 4);
}

#[test]
fn list_fixture_after_repair() {
    let raw = r#"{"gitekiInformation":{"lastUpdateDate":"20240101","totalCount":"2"},"giteki":[{"gitekiInfo":{"no":"1","number":"A"}},{"gitekiInfo":{"no":"2","number":"B"}}]}"#;
    let r = list::parse_response(raw).ok().unwrap();
    assert_eq!(r.giteki_information.last_update_date, "20240101");
    assert_eq!(r.giteki_information.total_count, 2);
    assert_eq!(r.giteki.len(), 2);
    assert_eq!(r.giteki[0].no, 1);
    assert_eq!(r.giteki[0].number, Some("A".to_string()));
    assert_eq!(r.giteki[1].no, 2);
    assert_eq!(r.giteki[1].number, Some("B".to_string()));
    assert_eq!(r.giteki[0].tech_code, None);
    assert_eq!(r.giteki[1].attachment_file_key, None);
}

#[test]
fn list_record_text_members() {
    let raw = r#"{"gitekiInformation":{"lastUpdateDate":"1","totalCount":"1"},"giteki":[{"gitekiInfo":{"no":"1","number":null,"note":""}}]}"#;
    let r = list::parse_response(raw).ok().unwrap();
    assert_eq!(r.giteki[0].number, None);
    assert_eq!(r.giteki[0].note, Some(String::new()));
    let wrong = r#"{"gitekiInformation":{"lastUpdateDate":"1","totalCount":"1"},"giteki":[{"gitekiInfo":{"no":"1","number":"A","date":20200101}}]}"#;
    assert_eq!(decode_field(&list::parse_response(wrong).err().unwrap()), ("list".to_string(), "date".to_string()));
    let no_number = r#"{"gitekiInformation":{"lastUpdateDate":"1","totalCount":"1"},"giteki":[{"gitekiInfo":{"number":"A"}}]}"#;
    assert_eq!(decode_field(&list::parse_response(no_number).err().unwrap()).1, "no");
}

#[test]
fn list_response_with_two_records() {
    let raw = format!(
        r#"{{"gitekiInformation":{{"lastUpdateDate":"20240101","totalCount":"2"}},"giteki":[{{"gitekiInfo":{}}},{{"gitekiInfo":{}}}]}}"#,
        full_record("\"1\"", "A"),
        full_record("2", "B")
    );
    let r = list::parse_response(&raw).ok().unwrap();
    assert_eq!(r.giteki_information.last_update_date, "20240101");
    assert_eq!(r.giteki_information.total_count, 2);
    assert_eq!(r.giteki.len(), 2);
    assert_eq!(r.giteki[0].no, 1);
    assert_eq!(r.giteki[0].number, Some("A".to_string()));
    assert_eq!(r.giteki[1].no, 2);
    assert_eq!(r.giteki[1].number, Some("B".to_string()));
    assert_eq!(r.giteki[1].equipment_type_name, Some("t".to_string()));
    assert_eq!(r.giteki[1].attachment_file_cnt_for_cd_1, Some("1".to_string()));
}

#[test]
fn list_response_without_records() {
    let r = list::parse_response(r#"{"gitekiInformation":{"lastUpdateDate":"20240101","totalCount":0}}"#)
        .ok()
        .unwrap();
    assert_eq!(r.giteki_information.total_count, 0);
    assert!(r.giteki.is_empty());
    let empty = list::parse_response(r#"{"gitekiInformation":{"lastUpdateDate":"20240101","totalCount":0},"giteki":[]}"#)
        .ok()
        .unwrap();
    assert!(empty.giteki.is_empty());
}

#[test]
fn list_response_errors() {
    let bad_no = format!(
        r#"{{"gitekiInformation":{{"lastUpdateDate":"1","totalCount":"1"}},"giteki":[{{"gitekiInfo":{}}}]}}"#,
        full_record("\"x1\"", "A")
    );
    assert_eq!(decode_field(&list::parse_response(&bad_no).err().unwrap()), ("list".to_string(), "no".to_string()));
    let not_array = r#"{"gitekiInformation":{"lastUpdateDate":"1","totalCount":"1"},"giteki":"none"}"#;
    assert_eq!(decode_field(&list::parse_response(not_array).err().unwrap()).1, "giteki");
    match list::parse_response(r#"{"gitekiInformation":"#) {
        Err(ResponseError::Malformed(t)) => assert_eq!(t, r#"{"gitekiInformation":"#),
        _ => panic!("expected a parse failure"),
    }
    match list::parse_response(r#"{"giteki":[{"gitekiInfo":{"no":"1"}}]"#) {
        Err(ResponseError::Malformed(t)) => assert_eq!(t, r#"{"giteki":[{"no":"1"}]"#),
        _ => panic!("expected a parse failure"),
    }
}
