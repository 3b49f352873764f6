use gula_db_core::json::{get, Json, Member};
use gula_db_core::memory::{memory_json, memory_list_limit, memory_source, memory_stats, tally, MemoryRow, MemoryStatRow};

fn obj(pairs: Vec<(&str, Json)>) -> Json {
    Json::Object(pairs.into_iter().map(|(k, v)| Member { key: k.to_string(), value: v }).collect())
}

fn count(doc: &Json, key: &str) -> Option<u64> {
    match get(doc, key) {
        Some(Json::UInt(n)) => Some(*n),
        Some(Json::Int(n)) => Some(*n as u64),
        _ => None,
    }
}

#[test]
fn memory_source_defaults_to_unknown() {
    assert_eq!(memory_source(&Some(obj(vec![("source", Json::Str("chat".to_string()))]))), "chat");
    assert_eq!(memory_source(&Some(obj(vec![("source", Json::Int(1))]))), "unknown");
    assert_eq!(memory_source(&Some(obj(Vec::new()))), "unknown");
    assert_eq!(memory_source(&None), "unknown");
}

#[test]
fn tally_counts_in_first_seen_order() {
    let keys: Vec<String> = ["b", "a", "b", "c", "b"].iter().map(|s| s.to_string()).collect();
    let t = tally(&keys);
    assert_eq!(t, vec![("b".to_string(), 3), ("a".to_string(), 1), ("c".to_string(), 1)]);
    let total: usize = t.iter().map(|(_, c)| *c).sum();
    assert_eq!(total, keys.len());
    assert!(tally(&Vec::new()).is_empty());
}

#[test]
fn memory_stats_count_by_source_and_thread() {
    let src = |s: &str| Some(obj(vec![("source", Json::Str(s.to_string()))]));
    let rows = vec![
        MemoryStatRow { metadata: src("chat"), thread_id: Some("t1".to_string()) },
        MemoryStatRow { metadata: None, thread_id: None },
        MemoryStatRow { metadata: src("chat"), thread_id: Some("t2".to_string()) },
        MemoryStatRow { metadata: src("import"), thread_id: Some("t1".to_string()) },
    ];
    let stats = memory_stats(&rows);
    assert_eq!(count(&stats, "total"), Some(4));
    let by_source = get(&stats, "bySource").unwrap();
    assert_eq!(count(by_source, "chat"), Some(2));
    assert_eq!(count(by_source, "unknown"), Some(1));
    assert_eq!(count(by_source, "import"), Some(1));
    let by_thread = get(&stats, "byThread").unwrap();
    assert_eq!(count(by_thread, "t1"), Some(2));
    assert_eq!(count(by_thread, "t2"), Some(1));
    match by_thread {
        Json::Object(ms) => assert_eq!(ms.len(), 2),
        _ => panic!("byThread is an object"),
    }
    let sum: u64 = match by_source {
        Json::Object(ms) => ms
            .iter()
            .map(|m| match &m.value {
                Json::UInt(n) => *n,
                _ => 0,
            })
            .sum(),
        _ => 0,
    };
    assert_eq!(sum, 4);
}

#[test]
fn empty_store_has_zero_memories() {
    let stats = memory_stats(&Vec::new());
    assert_eq!(count(&stats, "total"), Some(0));
    assert!(matches!(get(&stats, "bySource"), Some(Json::Object(ms)) if ms.is_empty()));
}

#[test]
fn listing_limit_defaults_and_clamps() {
    assert_eq!(memory_list_limit(None), 100);
    assert_eq!(memory_list_limit(Some(0)), 1);
    assert_eq!(memory_list_limit(Some(-5)), 1);
    assert_eq!(memory_list_limit(Some(50)), 50);
    assert_eq!(memory_list_limit(Some(5000)), 1000);
}

#[test]
fn memory_json_hands_out_empty_metadata_for_bad_text() {
    let m = MemoryRow {
        id: "mem-1".to_string(),
        content: "likes tea".to_string(),
        metadata: None,
        thread_id: Some("t1".to_string()),
        message_id: None,
        user_id: None,
        created_at: "c".to_string(),
        updated_at: "u".to_string(),
    };
    let doc = memory_json(m);
    assert!(matches!(get(&doc, "metadata"), Some(Json::Object(ms)) if ms.is_empty()));
    assert!(matches!(get(&doc, "threadId"), Some(Json::Str(t)) if t == "t1"));
    assert!(matches!(get(&doc, "messageId"), Some(Json::Null)));
    assert!(matches!(get(&doc, "content"), Some(Json::Str(t)) if t == "likes tea"));
    assert!(matches!(get(&doc, "updatedAt"), Some(Json::Str(t)) if t == "u"));
}
