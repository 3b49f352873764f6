use gula_db_core::json::{as_str, get, json_clone, object_insert, object_remove, Json, Member};
use gula_db_core::text::{
    before_first, contains_text, head_before, int_text, join_texts, parse_i32, parse_i64,
    starts_with_text, str_eq, text_less,
};

fn show(j: &Json) -> String {
    match j {
        Json::Null => "null".to_string(),
        Json::Bool(b) => b.to_string(),
        Json::Int(i) => i.to_string(),
        Json::UInt(u) => u.to_string(),
        Json::Float(t) => t.clone(),
        Json::Str(s) => format!("{:?}", s),
        Json::Array(items) => {
            let parts: Vec<String> = items.iter().map(show).collect();
            format!("[{}]", parts.join(","))
        }
        Json::Object(ms) => {
            let parts: Vec<String> = ms
                .iter()
                .map(|m| format!("{:?}:{}", m.key, show(&m.value)))
                .collect();
            format!("{{{}}}", parts.join(","))
        }
    }
}

#[test]
fn int_text_writes_decimal() {
    assert_eq!(int_text(0), "0");
    assert_eq!(int_text(7), "7");
    assert_eq!(int_text(-42), "-42");
    assert_eq!(int_text(1234567890), "1234567890");
    assert_eq!(int_text(i64::MIN), "-9223372036854775808");
    assert_eq!(int_text(i64::MAX), "9223372036854775807");
}

#[test]
fn split_helpers_follow_split_once_and_split() {
    assert_eq!(before_first("openai:gpt-4o", ':'), Some("openai".to_string()));
    assert_eq!(before_first("a:b:c", ':'), Some("a".to_string()));
    assert_eq!(before_first("plain", ':'), None);
    assert_eq!(before_first(":x", ':'), Some(String::new()));
    assert_eq!(head_before("2026-01-02T03:04:05Z", 'T'), "2026-01-02");
    assert_eq!(head_before("no-time", 'T'), "no-time");
    assert_eq!(head_before("", 'T'), "");
}

#[test]
fn text_predicates() {
    assert!(starts_with_text("data:image/png", "data:"));
    assert!(!starts_with_text("dat", "data:"));
    assert!(starts_with_text("x", ""));
    assert!(contains_text("image/png", "image"));
    assert!(!contains_text("text/plain", "image"));
    assert!(contains_text("abc", ""));
    assert!(str_eq("same", "same"));
    assert!(!str_eq("same", "Same"));
    assert!(text_less("a", "b"));
    assert!(text_less("ab", "abc"));
    assert!(!text_less("b", "a"));
    assert!(!text_less("a", "a"));
    assert!(text_less("Z", "a"));
}

#[test]
fn join_texts_places_separators_between() {
    let parts = vec!["a".to_string(), "b".to_string(), "c".to_string()];
    assert_eq!(join_texts(&parts, ", "), "a, b, c");
    assert_eq!(join_texts(&vec!["only".to_string()], ", "), "only");
    assert_eq!(join_texts(&Vec::new(), ", "), "");
}

#[test]
fn integer_parsing_matches_str_parse() {
    assert_eq!(parse_i32("6"), Some(6));
    assert_eq!(parse_i32("-12"), Some(-12));
    assert_eq!(parse_i32("+3"), Some(3));
    assert_eq!(parse_i32("2147483647"), Some(i32::MAX));
    assert_eq!(parse_i32("2147483648"), None);
    assert_eq!(parse_i32(""), None);
    assert_eq!(parse_i32("1.5"), None);
    assert_eq!(parse_i32(" 1"), None);
    assert_eq!(parse_i64("-9223372036854775808"), Some(i64::MIN));
    assert_eq!(parse_i64("9223372036854775808"), None);
    assert_eq!(parse_i64("-"), None);
}

#[test]
fn object_insert_then_get_reads_back() {
    let mut ms: Vec<Member> = Vec::new();
    object_insert(&mut ms, "a".to_string(), Json::Int(1));
    object_insert(&mut ms, "b".to_string(), Json::Str("x".to_string()));
    object_insert(&mut ms, "a".to_string(), Json::Int(2));
    let doc = Json::Object(ms);
    assert_eq!(show(&doc), "{\"a\":2,\"b\":\"x\"}");
    assert_eq!(show(get(&doc, "a").unwrap()), "2");
    assert_eq!(as_str(get(&doc, "b")).map(|s| s.as_str()), Some("x"));
    assert!(get(&doc, "c").is_none());
    assert!(get(&Json::Int(3), "a").is_none());
}

#[test]
fn object_remove_hands_back_value() {
    let mut ms: Vec<Member> = Vec::new();
    object_insert(&mut ms, "capabilities".to_string(), Json::Bool(true));
    object_insert(&mut ms, "id".to_string(), Json::Str("m".to_string()));
    let removed = object_remove(&mut ms, "capabilities");
    assert_eq!(removed.map(|v| show(&v)), Some("true".to_string()));
    assert!(object_remove(&mut ms, "capabilities").is_none());
    assert_eq!(show(&Json::Object(ms)), "{\"id\":\"m\"}");
}

#[test]
fn json_clone_copies_nested_documents() {
    let doc = Json::Array(vec![
        Json::Null,
        Json::Float("1.5".to_string()),
        Json::Object(vec![Member { key: "k".to_string(), value: Json::UInt(u64::MAX) }]),
    ]);
    assert_eq!(show(&json_clone(&doc)), show(&doc));
}
