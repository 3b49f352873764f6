use gula_db_core::json::{get, Json};
use gula_db_core::search::{
    fts_search_limit, group_hits, matched_positions, rank_search_hits, search_limits,
    search_results, shown_positions, thread_search_hit, title_like_pattern, FetchedThread,
};
use gula_db_core::types::{MessageRecord, ThreadRecord};

fn message(id: &str) -> MessageRecord {
    MessageRecord {
        id: id.to_string(),
        thread_id: "thread-search".to_string(),
        parent_id: None,
        slot_id: None,
        depth: None,
        parent_tool_call_id: None,
        message: "{}".to_string(),
        timestamp: "t".to_string(),
        metadata: "{}".to_string(),
        created_at: "c".to_string(),
        updated_at: "u".to_string(),
    }
}

fn thread(id: &str, updated_at: &str) -> ThreadRecord {
    ThreadRecord {
        id: id.to_string(),
        title: "Rust Search Thread".to_string(),
        model: Some("openai:gpt-4o".to_string()),
        prompt_app_id: None,
        tools: None,
        is_favorited: None,
        is_incognito: None,
        workspace_id: None,
        artifact_workspace_id: None,
        enable_artifacts: None,
        skill_ids: None,
        tools_compact_view: None,
        parent_thread_id: None,
        is_favorite_pinned: None,
        favorite_pinned_order: None,
        is_generating: None,
        reasoning_effort: None,
        metadata: "{}".to_string(),
        created_at: "c".to_string(),
        updated_at: updated_at.to_string(),
    }
}

fn texts(v: &[&str]) -> Vec<String> {
    v.iter().map(|s| s.to_string()).collect()
}

#[test]
fn limits_default_and_clamp() {
    let l = search_limits(None, None, None);
    assert_eq!((l.limit, l.context, l.max_per_thread), (20, 3, 50));
    let l = search_limits(Some(500), Some(-4), Some(0));
    assert_eq!((l.limit, l.context, l.max_per_thread), (50, 0, 1));
    let l = search_limits(Some(0), Some(10), Some(5));
    assert_eq!((l.limit, l.context, l.max_per_thread), (1, 10, 21));
    assert_eq!(fts_search_limit(None), 1000);
    assert_eq!(fts_search_limit(Some(5000)), 2000);
    assert_eq!(fts_search_limit(Some(-1)), 1);
}

#[test]
fn title_pattern_is_lower_cased_and_wrapped() {
    assert_eq!(title_like_pattern("Rust SEARCH"), "%rust search%");
    assert_eq!(title_like_pattern(""), "%%");
    assert_eq!(title_like_pattern("ÄB"), "%äb%");
}

#[test]
fn hits_group_by_thread_without_repeats() {
    let fts = vec![
        ("t1".to_string(), "m1".to_string()),
        ("t2".to_string(), "m9".to_string()),
        ("t1".to_string(), "m1".to_string()),
        ("t1".to_string(), "m2".to_string()),
    ];
    let groups = group_hits(&fts, &texts(&["t3", "t2"]));
    assert_eq!(
        groups,
        vec![
            ("t1".to_string(), texts(&["m1", "m2"])),
            ("t2".to_string(), texts(&["m9"])),
            ("t3".to_string(), Vec::new()),
        ]
    );
}

#[test]
fn shown_positions_are_windows_around_hits() {
    assert_eq!(shown_positions(10, &vec![5], 1, 50), vec![4, 5, 6]);
    assert_eq!(shown_positions(10, &vec![0, 9], 1, 50), vec![0, 1, 8, 9]);
    assert_eq!(shown_positions(10, &vec![5], 3, 2), vec![2, 3]);
    assert_eq!(shown_positions(5, &Vec::new(), 3, 50), vec![0, 1, 2]);
    assert_eq!(shown_positions(2, &Vec::new(), 3, 50), vec![0, 1]);
    assert!(shown_positions(0, &Vec::new(), 3, 50).is_empty());
}

#[test]
fn matched_positions_follow_message_order() {
    let messages = vec![message("a"), message("b"), message("c")];
    assert_eq!(matched_positions(&messages, &texts(&["c", "a", "zz"])), vec![0, 2]);
}

#[test]
fn a_thread_result_shows_context_around_its_match() {
    let messages = vec![
        message("thread-search--m1"),
        message("thread-search--m2"),
        message("thread-search--m3"),
        message("thread-search--m4"),
        message("thread-search--m5"),
    ];
    let limits = search_limits(None, Some(1), None);
    let hit = thread_search_hit(&thread("thread-search", "u1"), &messages, &texts(&["thread-search--m2"]), &limits).unwrap();
    assert_eq!(hit.match_count, 1);
    assert!(matches!(get(&hit.payload, "id"), Some(Json::Str(s)) if s == "thread-search"));
    assert!(matches!(get(&hit.payload, "isGenerating"), Some(Json::Bool(false))));
    match get(&hit.payload, "messages") {
        Some(Json::Array(items)) => {
            let ids: Vec<String> = items
                .iter()
                .map(|m| match get(m, "id") {
                    Some(Json::Str(s)) => s.clone(),
                    _ => String::new(),
                })
                .collect();
            assert_eq!(ids, vec!["thread-search--m1", "thread-search--m2", "thread-search--m3"]);
        }
        _ => panic!("messages is an array"),
    }
    assert!(thread_search_hit(&thread("empty", "u"), &Vec::new(), &Vec::new(), &limits).is_none());
    let title_only = thread_search_hit(&thread("t", "u"), &Vec::new(), &Vec::new(), &limits);
    assert!(title_only.is_none());
    let title_only = thread_search_hit(&thread("t", "u"), &vec![message("x")], &Vec::new(), &limits).unwrap();
    assert_eq!(title_only.match_count, 1);
}

#[test]
fn results_rank_by_matches_then_recency() {
    let limits = search_limits(None, None, None);
    let mk = |id: &str, updated: &str, matched: &[&str]| {
        let msgs: Vec<MessageRecord> = matched.iter().map(|m| message(m)).collect();
        thread_search_hit(&thread(id, updated), &msgs, &texts(matched), &limits).unwrap()
    };
    let hits = vec![
        mk("a", "2026-01-01", &["x"]),
        mk("b", "2026-01-05", &["x"]),
        mk("c", "2026-01-02", &["x", "y"]),
        mk("d", "2026-01-05", &["z"]),
    ];
    let ranked = rank_search_hits(hits, 10);
    let ids: Vec<String> = ranked
        .iter()
        .map(|r| match get(r, "id") {
            Some(Json::Str(s)) => s.clone(),
            _ => String::new(),
        })
        .collect();
    assert_eq!(ids, vec!["c", "b", "d", "a"]);
    let hits = vec![mk("a", "1", &["x"]), mk("b", "2", &["x"])];
    assert_eq!(rank_search_hits(hits, 1).len(), 1);
}

fn result_ids(r: &Json) -> Vec<String> {
    match r {
        Json::Array(items) => items
            .iter()
            .map(|x| match get(x, "id") {
                Some(Json::Str(s)) => s.clone(),
                _ => String::new(),
            })
            .collect(),
        _ => panic!("not an array"),
    }
}

#[test]
fn search_results_skip_missing_threads_and_rank() {
    let limits = search_limits(Some(2), None, None);
    let groups = vec![
        ("a".to_string(), texts(&["a1"])),
        ("gone".to_string(), texts(&["g1"])),
        ("b".to_string(), texts(&["b1", "b2"])),
        ("c".to_string(), Vec::new()),
    ];
    let fetched = vec![
        FetchedThread { thread: Some(thread("a", "2026-01-03")), messages: vec![message("a1")] },
        FetchedThread { thread: None, messages: Vec::new() },
        FetchedThread { thread: Some(thread("b", "2026-01-01")), messages: vec![message("b1"), message("b2")] },
        FetchedThread { thread: Some(thread("c", "2026-01-09")), messages: vec![message("c1")] },
    ];
    let r = search_results(&groups, &fetched, &limits);
    assert_eq!(result_ids(&r), vec!["b", "c"]);
    let all = search_results(&groups, &fetched, &search_limits(None, None, None));
    assert_eq!(result_ids(&all), vec!["b", "c", "a"]);
    let none = search_results(&Vec::new(), &Vec::new(), &limits);
    assert!(matches!(none, Json::Array(ref v) if v.is_empty()));
}
