use gula_db_core::json::{get, Json, Member};
use gula_db_core::records_json::{message_json, thread_with_messages_payload};
use gula_db_core::thread_view::{resolve_active_path, select_active_messages, version_metadata};
use gula_db_core::types::{MessageRecord, MessageVersionInfoRecord, ThreadRecord};

fn message(id: &str, slot: Option<&str>, depth: Option<i32>, at: &str) -> MessageRecord {
    MessageRecord {
        id: id.to_string(),
        thread_id: "thread-active".to_string(),
        parent_id: None,
        slot_id: slot.map(str::to_string),
        depth,
        parent_tool_call_id: None,
        message: format!("{{\"id\":\"{}\"}}", id),
        timestamp: at.to_string(),
        metadata: "{}".to_string(),
        created_at: at.to_string(),
        updated_at: at.to_string(),
    }
}

fn info(m: &MessageRecord) -> MessageVersionInfoRecord {
    MessageVersionInfoRecord { id: m.id.clone(), slot_id: m.slot_id.clone(), created_at: m.created_at.clone() }
}

fn int_at(doc: &Json, key: &str) -> Option<i64> {
    match get(doc, key) {
        Some(Json::Int(n)) => Some(*n),
        _ => None,
    }
}

fn path_meta(ids: &[&str]) -> Json {
    Json::Object(vec![Member {
        key: "activePath".to_string(),
        value: Json::Array(ids.iter().map(|s| Json::Str(s.to_string())).collect()),
    }])
}

#[test]
fn active_path_selects_messages_and_counts_versions() {
    let messages = vec![
        message("thread-active--m1", Some("slot-a"), Some(0), "2026-01-01T00:00:01.000Z"),
        message("thread-active--m2", Some("slot-a"), Some(1), "2026-01-01T00:00:02.000Z"),
        message("thread-active--m3", Some("slot-a"), Some(2), "2026-01-01T00:00:03.000Z"),
    ];
    let versions: Vec<MessageVersionInfoRecord> = messages.iter().map(info).collect();
    let path = resolve_active_path(Some(path_meta(&["thread-active--m2", "thread-active--m3"])), &messages);
    assert_eq!(path.ids, vec!["thread-active--m2", "thread-active--m3"]);
    assert!(path.new_metadata.is_none());
    let selected = select_active_messages(&path.ids, &messages);
    assert_eq!(selected.len(), 2);
    let metas = version_metadata(&selected, vec![None, None], &versions);
    assert_eq!(metas.len(), 2);
    assert!(matches!(get(&metas[0], "slotId"), Some(Json::Str(s)) if s == "slot-a"));
    assert_eq!(int_at(&metas[0], "depth"), Some(1));
    assert_eq!(int_at(&metas[0], "versionIndex"), Some(1));
    assert_eq!(int_at(&metas[0], "versionCount"), Some(3));
    assert_eq!(int_at(&metas[1], "versionIndex"), Some(2));
    assert_eq!(int_at(&metas[1], "versionCount"), Some(3));
}

#[test]
fn a_thread_without_a_path_shows_every_message() {
    let messages = vec![
        message("thread-fallback--m1", Some("slot-a"), Some(0), "2026-01-01T00:00:01.000Z"),
        message("thread-fallback--m2", Some("slot-b"), Some(1), "2026-01-01T00:00:02.000Z"),
    ];
    let path = resolve_active_path(Some(Json::Object(Vec::new())), &messages);
    assert_eq!(path.ids, vec!["thread-fallback--m1", "thread-fallback--m2"]);
    let meta = path.new_metadata.unwrap();
    match get(&meta, "activePath") {
        Some(Json::Array(items)) => assert_eq!(items.len(), 2),
        _ => panic!("activePath is recorded"),
    }
    let path = resolve_active_path(None, &messages);
    assert_eq!(path.ids.len(), 2);
}

#[test]
fn unknown_path_entries_are_skipped() {
    let messages = vec![message("a", None, None, "1"), message("b", None, None, "2")];
    let selected = select_active_messages(&vec!["b".to_string(), "zz".to_string(), "a".to_string()], &messages);
    let ids: Vec<&str> = selected.iter().map(|m| m.id.as_str()).collect();
    assert_eq!(ids, vec!["b", "a"]);
}

#[test]
fn a_message_without_listed_versions_counts_as_its_own_version() {
    let messages = vec![message("solo", None, None, "1")];
    let metas = version_metadata(&messages, vec![Some(Json::Object(vec![Member { key: "k".to_string(), value: Json::Str("v".to_string()) }]))], &Vec::new());
    assert_eq!(int_at(&metas[0], "versionIndex"), Some(0));
    assert_eq!(int_at(&metas[0], "versionCount"), Some(1));
    assert_eq!(int_at(&metas[0], "depth"), Some(0));
    assert!(matches!(get(&metas[0], "slotId"), Some(Json::Str(s)) if s == "solo"));
    assert!(matches!(get(&metas[0], "k"), Some(Json::Str(s)) if s == "v"));
}

#[test]
fn versions_are_ordered_by_creation_time() {
    let late = message("late", Some("s"), Some(0), "2026-01-03");
    let early = message("early", Some("s"), Some(0), "2026-01-01");
    let versions = vec![info(&late), info(&early)];
    let metas = version_metadata(&vec![late, early], vec![None, None], &versions);
    assert_eq!(int_at(&metas[0], "versionIndex"), Some(1));
    assert_eq!(int_at(&metas[1], "versionIndex"), Some(0));
}

#[test]
fn records_become_json_objects() {
    let m = message("m1", Some("slot"), Some(2), "t");
    let doc = message_json(&m);
    assert!(matches!(get(&doc, "id"), Some(Json::Str(s)) if s == "m1"));
    assert!(matches!(get(&doc, "slot_id"), Some(Json::Str(s)) if s == "slot"));
    assert!(matches!(get(&doc, "depth"), Some(Json::Int(2))));
    assert!(matches!(get(&doc, "parent_id"), Some(Json::Null)));
    let thread = ThreadRecord {
        id: "t1".to_string(),
        title: "Title".to_string(),
        model: None,
        prompt_app_id: None,
        tools: None,
        is_favorited: Some(true),
        is_incognito: None,
        workspace_id: None,
        artifact_workspace_id: None,
        enable_artifacts: Some(false),
        skill_ids: None,
        tools_compact_view: None,
        parent_thread_id: None,
        is_favorite_pinned: None,
        favorite_pinned_order: Some(4),
        is_generating: None,
        reasoning_effort: Some("medium".to_string()),
        metadata: "{}".to_string(),
        created_at: "c".to_string(),
        updated_at: "u".to_string(),
    };
    let payload = thread_with_messages_payload(&thread, &vec![m]);
    let t = get(&payload, "thread").unwrap();
    assert!(matches!(get(t, "title"), Some(Json::Str(s)) if s == "Title"));
    assert!(matches!(get(t, "is_favorited"), Some(Json::Bool(true))));
    assert!(matches!(get(t, "favorite_pinned_order"), Some(Json::Int(4))));
    assert!(matches!(get(t, "model"), Some(Json::Null)));
    assert!(matches!(get(&payload, "messages"), Some(Json::Array(items)) if items.len() == 1));
}
