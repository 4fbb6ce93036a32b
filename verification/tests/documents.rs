use fpl_tables::json::{same_text, Json};
use fpl_tables::payload::parse_json;

fn parsed(text: &str) -> Json {
    parse_json(text.as_bytes()).expect("the text is JSON")
}

fn text_of(json: &Json) -> String {
    format!("{:?}", json)
}

#[test]
fn reads_the_scalars() {
    assert_eq!(text_of(&parsed("null")), "Null");
    assert_eq!(text_of(&parsed("true")), "Bool(true)");
    assert_eq!(text_of(&parsed(" false ")), "Bool(false)");
    assert_eq!(text_of(&parsed("0")), "Int(0)");
    assert_eq!(text_of(&parsed("-17")), "Int(-17)");
    assert_eq!(text_of(&parsed("\"\"")), "Text(\"\")");
    assert_eq!(text_of(&parsed("\"a\\u00e9\\n\"")), "Text(\"aé\\n\")");
}

#[test]
fn a_number_is_whole_within_the_range_and_text_beyond_it() {
    assert_eq!(text_of(&parsed("9223372036854775807")), "Int(9223372036854775807)");
    assert_eq!(text_of(&parsed("-9223372036854775808")), "Int(-9223372036854775808)");
    assert_eq!(text_of(&parsed("9223372036854775808")), "Real(\"9223372036854775808\")");
    assert_eq!(text_of(&parsed("0.5")), "Real(\"0.5\")");
    assert_eq!(text_of(&parsed("-2.25")), "Real(\"-2.25\")");
    assert_eq!(text_of(&parsed("1e2")), "Real(\"100.0\")");
    assert_eq!(text_of(&parsed("7.0")), "Real(\"7.0\")");
}

#[test]
fn reads_lists_and_records_in_depth() {
    let json = parsed("{\"a\": [1, [true, null], {\"b\": \"c\"}], \"d\": {}}");
    let a = json.member("a").unwrap();
    match a {
        Json::List(items) => {
            assert_eq!(items.len(), 3);
            assert_eq!(text_of(&items[0]), "Int(1)");
            assert_eq!(text_of(&items[1]), "List([Bool(true), Null])");
            assert_eq!(text_of(items[2].member("b").unwrap()), "Text(\"c\")");
        }
        other => panic!("{:?}", other),
    }
    assert_eq!(text_of(json.member("d").unwrap()), "Record([])");
    assert_eq!(text_of(&parsed("[]")), "List([])");
}

#[test]
fn text_that_is_no_json_reads_as_nothing() {
    for text in ["", " ", "{", "[1,]", "tru", "01", "\"a", "{\"a\" 1}", "1 2", "'a'"] {
        assert!(parse_json(text.as_bytes()).is_none(), "{}", text);
    }
    assert!(parse_json(&[b'"', 0xc3, b'"']).is_none());
}

#[test]
fn a_record_is_asked_for_its_members() {
    let json = parsed("{\"id\": 7, \"name\": \"x\", \"\": null}");
    assert!(json.is_record());
    assert_eq!(text_of(json.member("id").unwrap()), "Int(7)");
    assert_eq!(text_of(json.member("name").unwrap()), "Text(\"x\")");
    assert_eq!(text_of(json.member("").unwrap()), "Null");
    assert!(json.member("Id").is_none());
    assert!(json.member("i").is_none());
    assert!(json.member("id ").is_none());
}

#[test]
fn what_is_no_record_has_no_members() {
    for text in ["null", "1", "\"id\"", "[{\"id\": 1}]", "true"] {
        let json = parsed(text);
        assert!(!json.is_record());
        assert!(json.member("id").is_none());
    }
}

#[test]
fn a_later_entry_replaces_an_earlier_one() {
    let record = Json::Record(vec![
        ("a".to_string(), Json::Int(1)),
        ("b".to_string(), Json::Int(2)),
        ("a".to_string(), Json::Int(3)),
    ]);
    assert_eq!(text_of(record.member("a").unwrap()), "Int(3)");
    assert_eq!(text_of(record.member("b").unwrap()), "Int(2)");
    assert_eq!(text_of(parsed("{\"a\": 1, \"a\": 3}").member("a").unwrap()), "Int(3)");
}

#[test]
fn texts_are_the_same_character_for_character() {
    assert!(same_text("", ""));
    assert!(same_text("now_cost", "now_cost"));
    assert!(same_text("Rúnar", "Rúnar"));
    assert!(!same_text("now_cost", "now_cosu"));
    assert!(!same_text("now_cost", "now_cos"));
    assert!(!same_text("", "a"));
    assert!(!same_text("Runar", "Rúnar"));
}
