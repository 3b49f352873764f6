use gula_db_core::json::{Json, Member};
use gula_db_core::types::{GetUsageStatsInput, SaveUsageRecordInput, UsageMigrationBatchItem};
use gula_db_core::usage::{
    batch_usage_row, json_usage_i32, provider_of, save_usage_row, usage_batch_item, usage_stats_query,
};

fn obj(pairs: Vec<(&str, Json)>) -> Json {
    Json::Object(pairs.into_iter().map(|(k, v)| Member { key: k.to_string(), value: v }).collect())
}

fn input(model: Option<&str>, total: Option<i32>) -> SaveUsageRecordInput {
    SaveUsageRecordInput {
        message_id: "t--m1".to_string(),
        thread_id: "t".to_string(),
        model: model.map(str::to_string),
        timestamp: "2026-02-03T04:05:06.000Z".to_string(),
        input_tokens: Some(10),
        output_tokens: Some(5),
        cached_input_tokens: None,
        cache_write_input_tokens: Some(2),
        reasoning_tokens: None,
        total_tokens: total,
    }
}

#[test]
fn saved_usage_row_derives_id_provider_date_and_total() {
    let row = save_usage_row(input(Some("openai:gpt-4o"), None));
    assert_eq!(row.id, "usage_t--m1");
    assert_eq!(row.provider_id.as_deref(), Some("openai"));
    assert_eq!(row.model.as_deref(), Some("openai:gpt-4o"));
    assert_eq!(row.date, "2026-02-03");
    assert_eq!(row.input_tokens, 10);
    assert_eq!(row.output_tokens, 5);
    assert_eq!(row.cached_input_tokens, 0);
    assert_eq!(row.cache_write_input_tokens, 2);
    assert_eq!(row.reasoning_tokens, 0);
    assert_eq!(row.total_tokens, 15);
    assert_eq!(row.timestamp, "2026-02-03T04:05:06.000Z");
}

#[test]
fn a_given_total_is_kept_and_a_bare_model_has_no_provider() {
    let row = save_usage_row(input(Some("local-model"), Some(99)));
    assert_eq!(row.total_tokens, 99);
    assert_eq!(row.provider_id, None);
    let row = save_usage_row(input(None, None));
    assert_eq!(row.provider_id, None);
    assert_eq!(provider_of(&Some("anthropic:sonnet:x".to_string())).as_deref(), Some("anthropic"));
}

#[test]
fn batch_rows_follow_the_same_rules() {
    let item = UsageMigrationBatchItem {
        message_id: "m9".to_string(),
        thread_id: "t9".to_string(),
        model: Some("gemini:flash".to_string()),
        timestamp: "2025-12-31".to_string(),
        input_tokens: None,
        output_tokens: Some(7),
        cached_input_tokens: Some(1),
        cache_write_input_tokens: None,
        reasoning_tokens: Some(3),
        total_tokens: None,
    };
    let row = batch_usage_row(item);
    assert_eq!(row.id, "usage_m9");
    assert_eq!(row.provider_id.as_deref(), Some("gemini"));
    assert_eq!(row.date, "2025-12-31");
    assert_eq!(row.total_tokens, 7);
    assert_eq!(row.reasoning_tokens, 3);
}

#[test]
fn usage_counts_are_read_from_metadata() {
    let meta = Some(obj(vec![(
        "usage",
        obj(vec![
            ("inputTokens", Json::Int(12)),
            ("outputTokens", Json::Int(3_000_000_000)),
            ("reasoningTokens", Json::Str("4".to_string())),
            ("cachedInputTokens", Json::UInt(7)),
            ("totalTokens", Json::Float("2.5".to_string())),
        ]),
    )]));
    assert_eq!(json_usage_i32(&meta, "inputTokens"), Some(12));
    assert_eq!(json_usage_i32(&meta, "outputTokens"), None);
    assert_eq!(json_usage_i32(&meta, "reasoningTokens"), None);
    assert_eq!(json_usage_i32(&meta, "cachedInputTokens"), Some(7));
    assert_eq!(json_usage_i32(&meta, "totalTokens"), None);
    assert_eq!(json_usage_i32(&meta, "missing"), None);
    assert_eq!(json_usage_i32(&None, "inputTokens"), None);
    assert_eq!(json_usage_i32(&Some(Json::Null), "inputTokens"), None);
}

#[test]
fn batch_items_compute_a_missing_total() {
    let meta = Some(obj(vec![("usage", obj(vec![("inputTokens", Json::Int(4)), ("outputTokens", Json::Int(6))]))]));
    let item = usage_batch_item("m".to_string(), "t".to_string(), None, "ts".to_string(), meta);
    assert_eq!(item.input_tokens, Some(4));
    assert_eq!(item.output_tokens, Some(6));
    assert_eq!(item.total_tokens, Some(10));
    assert_eq!(item.cached_input_tokens, None);
    let item = usage_batch_item("m".to_string(), "t".to_string(), None, "ts".to_string(), None);
    assert_eq!(item.total_tokens, Some(0));
    let meta = Some(obj(vec![("usage", obj(vec![("totalTokens", Json::Int(50)), ("inputTokens", Json::Int(4))]))]));
    let item = usage_batch_item("m".to_string(), "t".to_string(), None, "ts".to_string(), meta);
    assert_eq!(item.total_tokens, Some(50));
}

const HEAD: &str = "SELECT COALESCE(model, 'unknown') as model, date, SUM(COALESCE(input_tokens, 0)) as inputTokens, SUM(COALESCE(output_tokens, 0)) as outputTokens, SUM(COALESCE(cached_input_tokens, 0)) as cachedTokens, SUM(COALESCE(cache_write_input_tokens, 0)) as cacheWriteTokens, SUM(COALESCE(reasoning_tokens, 0)) as reasoningTokens, SUM(COALESCE(total_tokens, 0)) as totalTokens, COUNT(*) as messageCount FROM usage_records";
const TAIL: &str = " GROUP BY model, date ORDER BY date ASC, model ASC";

#[test]
fn stats_query_without_filter_has_no_conditions() {
    let (sql, args) = usage_stats_query(&None);
    assert_eq!(sql, format!("{}{}", HEAD, TAIL));
    assert!(args.is_empty());
    let (sql, args) = usage_stats_query(&Some(GetUsageStatsInput {
        from_date: None,
        to_date: None,
        provider_id: None,
        model_id: None,
    }));
    assert_eq!(sql, format!("{}{}", HEAD, TAIL));
    assert!(args.is_empty());
}

#[test]
fn stats_query_joins_conditions_in_order() {
    let filter = Some(GetUsageStatsInput {
        from_date: Some("2026-01-01".to_string()),
        to_date: None,
        provider_id: Some("openai".to_string()),
        model_id: Some("gpt-4o".to_string()),
    });
    let (sql, args) = usage_stats_query(&filter);
    assert_eq!(
        sql,
        format!(
            "{} WHERE timestamp >= ? AND provider_id = ? AND (model LIKE '%:' || ? OR model = ?){}",
            HEAD, TAIL
        )
    );
    assert_eq!(args, vec!["2026-01-01", "openai", "gpt-4o", "gpt-4o"]);
}
