use serde_json::Value;
use tomato_ui::search_json::{
    collect_maps, detail_from_directory, downloaded_count, status_file_names, detail_from_search, pick_chapter_count, pick_string_field, pick_tags_field, tags_from_value, JsonValue,
};

fn conv(v: &Value) -> JsonValue {
    match v {
        Value::Null => JsonValue::Null,
        Value::Bool(b) => JsonValue::Bool(*b),
        Value::Number(n) => match (n.as_u64(), n.as_i64()) {
            (Some(u), _) => JsonValue::PosInt(u),
            (None, Some(i)) => JsonValue::NegInt(i),
            (None, None) => JsonValue::Float(n.as_f64().unwrap().to_bits()),
        },
        Value::String(s) => JsonValue::Str(s.clone()),
        Value::Array(a) => JsonValue::Array(a.iter().map(conv).collect()),
        Value::Object(m) => JsonValue::Object(m.iter().map(|(k, v)| (k.clone(), conv(v))).collect()),
    }
}

fn parse(text: &str) -> JsonValue {
    conv(&serde_json::from_str::<Value>(text).unwrap())
}

fn object(v: &JsonValue) -> &Vec<(String, JsonValue)> {
    match v {
        JsonValue::Object(m) => m,
        _ => panic!("not an object"),
    }
}

#[test]
fn searched_objects() {
    let v = parse(r#"{"a": 1, "book_info": {"x": 1}, "bookInfo": {"y": 2}}"#);
    assert_eq!(collect_maps(&v).len(), 3);
    let v = parse(r#"{"a": 1, "book_info": "no"}"#);
    assert_eq!(collect_maps(&v).len(), 1);
    assert!(collect_maps(&parse("[1, 2]")).is_empty());
}

#[test]
fn string_fields() {
    let v = parse(r#"{"desc": "   ", "abstract": 42, "intro": " 好书 "}"#);
    let m = object(&v);
    assert_eq!(pick_string_field(m, &["desc", "intro"]), Some("好书".to_string()));
    assert_eq!(pick_string_field(m, &["abstract", "intro"]), Some("42".to_string()));
    let v = parse(r#"{"n": -7, "f": 1.5, "big": 18446744073709551615}"#);
    let m = object(&v);
    assert_eq!(pick_string_field(m, &["n"]), Some("-7".to_string()));
    assert_eq!(pick_string_field(m, &["f", "big"]), None);
}

#[test]
fn tags_and_counts() {
    assert_eq!(tags_from_value(&parse(r#"[" 玄幻 ", 3, "", "热血"]"#)), vec!["玄幻", "热血"]);
    assert_eq!(tags_from_value(&parse(r#""a|b, c  d""#)), vec!["a", "b", "c", "d"]);
    assert!(tags_from_value(&parse("12")).is_empty());
    let v = parse(r#"{"tags": [], "category": "都市"}"#);
    assert_eq!(pick_tags_field(object(&v)), Some(vec!["都市".to_string()]));
    let v = parse(r#"{"tags": []}"#);
    assert_eq!(pick_tags_field(object(&v)), None);
    let v = parse(r#"{"item_cnt": "x", "chapter_num": " +12 "}"#);
    assert_eq!(pick_chapter_count(object(&v)), Some(12));
    let v = parse(r#"{"book_item_cnt": -3, "chapter_num": 9}"#);
    assert_eq!(pick_chapter_count(object(&v)), Some(0));
    let v = parse(r#"{"item_cnt": 1.5}"#);
    assert_eq!(pick_chapter_count(object(&v)), None);
}

#[test]
fn search_result_details() {
    let v = parse(r#"{"title": "t", "book_info": {"abstract": "简介", "tags": "a|b", "item_cnt": 30}}"#);
    let d = detail_from_search(&v);
    assert_eq!(d.description, Some("简介".to_string()));
    assert_eq!(d.tags, vec!["a".to_string(), "b".to_string()]);
    assert_eq!(d.chapter_count, Some(30));
    assert_eq!(d.word_count, None);
    let v = parse(r#"{"desc": "外层", "book_info": {"desc": "内层"}}"#);
    assert_eq!(detail_from_search(&v).description, Some("外层".to_string()));
    let d = detail_from_search(&parse("null"));
    assert!(!d.has_data());
}

#[test]
fn directory_details() {
    let v = parse(r#"{"abstract": "甲", "description": "乙", "tags": ["x"], "item_cnt": 5}"#);
    let d = detail_from_directory(&v, 120);
    assert_eq!(d.description, Some("乙".to_string()));
    assert_eq!(d.tags, vec!["x".to_string()]);
    assert_eq!(d.chapter_count, Some(120));
    assert_eq!(detail_from_search(&v).description, Some("甲".to_string()));
}

#[test]
fn status_files() {
    assert_eq!(status_file_names("77"), ("status.json".to_string(), "chapter_status_77.json".to_string()));
    let v = parse(r#"{"downloaded": {"1": ["a", "b"], "2": ["c", "d"]}, "x": 1}"#);
    assert_eq!(downloaded_count(&v), Some(2));
    assert_eq!(downloaded_count(&parse(r#"{"downloaded": []}"#)), None);
    assert_eq!(downloaded_count(&parse(r#"{"other": {}}"#)), None);
}
