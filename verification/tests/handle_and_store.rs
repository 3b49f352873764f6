use gula_db_core::handle::{ping_result, DbState, HandleError};
use gula_db_core::schema::{
    meta_number, migration_status_payload, oauth_tokens_need_rebuild, pending_post_migrations,
    post_migration_metadata, post_migration_names, providers_probe_outcome, MigrationsRun,
    ProbeOutcome, POST_MIGRATIONS_VERSION, SCHEMA_VERSION,
};
use gula_db_core::json::{get, Json};
use gula_db_core::types::AddMessageInput;
use gula_db_core::field_updates::{edit_step, FieldUpdate, SqlParam};
use gula_db_core::store::{
    channel_mapping_to_insert, content_indexable, execution_limit, fts_drop_old,
    fts_rebuild_needed, fts_version, indexable_entries, is_blank, message_row_id,
    next_sort_order, permission_write, placeholders, reorder_positions, skill_update_values,
    text_or, workspace_list_suffix, message_write, MessageWrite, PermissionWrite, WriteError,
};
use gula_db_core::types::{FtsEntryInput, GetAllWorkspacesInput, SkillStateRecord};

#[test]
fn an_open_handle_serves_until_closed() {
    let mut state = DbState::opened(7u8);
    assert!(state.access().is_ok());
    state.close();
    assert!(matches!(state.access(), Err(HandleError::Closed)));
    state.close();
    assert!(matches!(state.access(), Err(HandleError::Closed)));
    assert!(state.conn.is_none());
}

#[test]
fn a_handle_without_connection_is_refused() {
    let state: DbState<u8> = DbState { conn: None, closed: false };
    assert!(matches!(state.access(), Err(HandleError::NoConnection)));
    assert_eq!(HandleError::Closed.message(), "db handle is already closed");
    assert_eq!(HandleError::NoConnection.message(), "db connection is not available");
}

#[test]
fn ping_reports_the_version_or_unknown() {
    let r = ping_result(Some("3.45.0".to_string()));
    assert!(r.ok);
    assert_eq!(r.sqlite_version, "3.45.0");
    assert_eq!(ping_result(None).sqlite_version, "unknown");
}

#[test]
fn blank_content_is_not_indexed() {
    assert!(is_blank(""));
    assert!(is_blank(" \t\n\r"));
    assert!(is_blank("\u{3000}\u{a0}\u{2028}"));
    assert!(!is_blank(" a "));
    assert!(!is_blank("\u{200b}"));
    assert!(content_indexable("hello"));
    assert!(!content_indexable("   "));
}

#[test]
fn rebuild_keeps_only_indexable_entries() {
    let e = |m: &str, c: &str| FtsEntryInput { message_id: m.to_string(), thread_id: "t".to_string(), content: c.to_string() };
    let (kept, count) = indexable_entries(vec![e("m1", "alpha"), e("m2", "  "), e("m3", "beta"), e("m4", "")]);
    assert_eq!(count, 2);
    let ids: Vec<&str> = kept.iter().map(|x| x.message_id.as_str()).collect();
    assert_eq!(ids, vec!["m1", "m3"]);
}

#[test]
fn index_version_and_rebuild_decision() {
    assert_eq!(fts_version(Some("6")), 6);
    assert_eq!(fts_version(Some("v6")), 0);
    assert_eq!(fts_version(None), 0);
    assert!(fts_drop_old(true, 5));
    assert!(!fts_drop_old(true, 6));
    assert!(!fts_drop_old(false, 1));
    assert!(fts_rebuild_needed(false, false, 6, 3));
    assert!(!fts_rebuild_needed(false, false, 6, 0));
    assert!(fts_rebuild_needed(true, true, 5, 0));
    assert!(!fts_rebuild_needed(true, false, 6, 10));
}

#[test]
fn message_rows_and_defaults() {
    assert_eq!(message_row_id("thread-2", "msg-1"), "thread-2--msg-1");
    assert_eq!(text_or(None, "medium"), "medium");
    assert_eq!(text_or(Some("high".to_string()), "medium"), "high");
    assert_eq!(text_or(None, "{}"), "{}");
}

#[test]
fn sort_orders_follow_the_largest_in_use() {
    assert_eq!(next_sort_order(Some(4), Some(10)), 4);
    assert_eq!(next_sort_order(None, Some(10)), 11);
    assert_eq!(next_sort_order(None, None), 0);
    let r = reorder_positions(vec!["c".to_string(), "a".to_string(), "b".to_string()]);
    assert_eq!(r, vec![("c".to_string(), 0), ("a".to_string(), 1), ("b".to_string(), 2)]);
}

#[test]
fn skill_upsert_keeps_old_values_when_not_given() {
    let old = SkillStateRecord { id: "s".to_string(), path: "/p".to_string(), enabled: None, sort_order: 3, updated_at: "u".to_string() };
    assert_eq!(skill_update_values(None, None, &old), (true, 3));
    assert_eq!(skill_update_values(Some(false), Some(9), &old), (false, 9));
    let old = SkillStateRecord { enabled: Some(false), ..old };
    assert_eq!(skill_update_values(None, None, &old), (false, 3));
}

#[test]
fn permission_writes_and_channel_activation() {
    assert!(matches!(permission_write(Some("p1".to_string()), Some("new".to_string())), Ok(PermissionWrite::Update(id)) if id == "p1"));
    assert!(matches!(permission_write(None, Some("new".to_string())), Ok(PermissionWrite::Insert(id)) if id == "new"));
    assert!(matches!(permission_write(None, None), Err(WriteError::MissingPermissionId)));
    assert_eq!(WriteError::MissingPermissionId.message(), "plugin permission id is required for insert");
    assert!(matches!(channel_mapping_to_insert(1, None), Ok(None)));
    assert!(matches!(channel_mapping_to_insert(0, Some("cm".to_string())), Ok(Some(id)) if id == "cm"));
    assert!(matches!(channel_mapping_to_insert(0, None), Err(WriteError::MissingMappingId)));
    assert_eq!(WriteError::MissingMappingId.message(), "new_mapping_id");
}

#[test]
fn workspace_listing_hides_worktrees_and_hidden_temporaries() {
    assert_eq!(
        workspace_list_suffix(&None),
        " WHERE (is_worktree = 0 OR is_worktree IS NULL) AND show_in_list = 1 ORDER BY created_at DESC"
    );
    let all = Some(GetAllWorkspacesInput { include_worktrees: Some(true), include_hidden_temporary: Some(true) });
    assert_eq!(workspace_list_suffix(&all), " ORDER BY created_at DESC");
    let some = Some(GetAllWorkspacesInput { include_worktrees: Some(true), include_hidden_temporary: None });
    assert_eq!(workspace_list_suffix(&some), " WHERE show_in_list = 1 ORDER BY created_at DESC");
}

#[test]
fn placeholders_and_limits() {
    assert_eq!(placeholders(3), "?, ?, ?");
    assert_eq!(placeholders(1), "?");
    assert_eq!(placeholders(0), "");
    assert_eq!(execution_limit(Some(5)), Some(5));
    assert_eq!(execution_limit(Some(0)), None);
    assert_eq!(execution_limit(None), None);
}

#[test]
fn post_migrations_run_once_each() {
    assert_eq!(post_migration_names().len(), 5);
    let none_run = MigrationsRun {
        oauth_tokens_remove_fk: false,
        duplicate_predefined_providers: false,
        provider_available_models: false,
        provider_models_to_ids: false,
        capability_overrides: false,
    };
    assert_eq!(pending_post_migrations(&none_run), post_migration_names());
    let some_run = MigrationsRun { duplicate_predefined_providers: true, provider_models_to_ids: true, ..none_run };
    assert_eq!(
        pending_post_migrations(&some_run),
        vec!["mcp_oauth_tokens_remove_fk_v1", "provider_available_models_v1", "capabilities_to_capability_overrides_v1"]
    );
    let all_run = MigrationsRun {
        oauth_tokens_remove_fk: true,
        duplicate_predefined_providers: true,
        provider_available_models: true,
        provider_models_to_ids: true,
        capability_overrides: true,
    };
    assert!(pending_post_migrations(&all_run).is_empty());
    assert_eq!(
        post_migration_metadata(true),
        vec![("providers_type_constraint_removed", 1), ("post_migrations_version", POST_MIGRATIONS_VERSION)]
    );
    assert_eq!(post_migration_metadata(false), vec![("post_migrations_version", 3)]);
}

#[test]
fn schema_decisions() {
    assert!(matches!(providers_probe_outcome(None), ProbeOutcome::Accepted));
    assert!(matches!(
        providers_probe_outcome(Some("CHECK constraint failed: type IN ('a')")),
        ProbeOutcome::RebuildWithoutCheck
    ));
    assert!(matches!(providers_probe_outcome(Some("no such table: providers")), ProbeOutcome::Failed));
    assert!(oauth_tokens_need_rebuild(Some("CREATE TABLE t (server_id TEXT REFERENCES mcp_servers(id))")));
    assert!(!oauth_tokens_need_rebuild(Some("CREATE TABLE t (id TEXT)")));
    assert!(!oauth_tokens_need_rebuild(None));
    assert_eq!(meta_number(Some("2")), Some(2));
    assert_eq!(meta_number(Some("x")), None);
    assert_eq!(meta_number(None), None);
}

#[test]
fn status_report_compares_versions_with_targets() {
    let ran = MigrationsRun {
        oauth_tokens_remove_fk: true,
        duplicate_predefined_providers: false,
        provider_available_models: true,
        provider_models_to_ids: false,
        capability_overrides: false,
    };
    let doc = migration_status_payload(Some(2), None, Some(1), ran);
    let sv = get(&doc, "schemaVersion").unwrap();
    assert!(matches!(get(sv, "current"), Some(Json::Int(2))));
    assert!(matches!(get(sv, "target"), Some(Json::Int(t)) if *t == SCHEMA_VERSION));
    let pv = get(&doc, "postMigrationsVersion").unwrap();
    assert!(matches!(get(pv, "current"), Some(Json::Int(0))));
    assert!(matches!(get(pv, "target"), Some(Json::Int(3))));
    let m = get(&doc, "migrations").unwrap();
    assert!(matches!(get(m, "mcp_oauth_tokens_remove_fk_v1"), Some(Json::Bool(true))));
    assert!(matches!(get(m, "provider_models_to_ids_v1"), Some(Json::Bool(false))));
    assert!(matches!(get(&doc, "providersTypeConstraintRemoved"), Some(Json::Bool(true))));
    let ran = MigrationsRun {
        oauth_tokens_remove_fk: false,
        duplicate_predefined_providers: false,
        provider_available_models: false,
        provider_models_to_ids: false,
        capability_overrides: false,
    };
    let doc = migration_status_payload(None, None, Some(0), ran);
    assert!(matches!(get(&doc, "providersTypeConstraintRemoved"), Some(Json::Bool(false))));
}

fn add_input() -> AddMessageInput {
    AddMessageInput {
        thread_id: "t1".to_string(),
        message_id: "m1".to_string(),
        message: "{\"role\":\"user\"}".to_string(),
        metadata: None,
        parent_id: Some("p".to_string()),
        slot_id: None,
        depth: None,
        parent_tool_call_id: None,
        timestamp: Some("ts".to_string()),
        created_at: None,
        updated_at: Some("u".to_string()),
    }
}

#[test]
fn adding_an_existing_message_only_replaces_its_content() {
    match message_write(true, add_input()) {
        MessageWrite::ReplaceContent { id, message } => {
            assert_eq!(id, "t1--m1");
            assert_eq!(message, "{\"role\":\"user\"}");
        }
        MessageWrite::Insert { .. } => panic!("existing row must not be inserted"),
    }
}

#[test]
fn adding_a_new_message_inserts_with_defaults_and_touches_thread() {
    match message_write(false, add_input()) {
        MessageWrite::Insert { row, thread_updated_at } => {
            assert_eq!(row.id, "t1--m1");
            assert_eq!(row.slot_id, "t1--m1");
            assert_eq!(row.depth, 0);
            assert_eq!(row.metadata, "{}");
            assert_eq!(row.parent_id.as_deref(), Some("p"));
            assert_eq!(thread_updated_at.as_deref(), Some("u"));
        }
        MessageWrite::ReplaceContent { .. } => panic!("new row must be inserted"),
    }
    let mut input = add_input();
    input.slot_id = Some("slot".to_string());
    input.depth = Some(2);
    input.metadata = Some("{\"a\":1}".to_string());
    match message_write(false, input) {
        MessageWrite::Insert { row, .. } => {
            assert_eq!(row.slot_id, "slot");
            assert_eq!(row.depth, 2);
            assert_eq!(row.metadata, "{\"a\":1}");
        }
        MessageWrite::ReplaceContent { .. } => panic!("new row must be inserted"),
    }
}

#[test]
fn editing_a_missing_row_writes_nothing() {
    let plan = || vec![FieldUpdate { column: "name", value: SqlParam::Text("n".to_string()), default_now: false }];
    assert!(edit_step(false, plan()).is_none());
    assert_eq!(edit_step(true, plan()).unwrap().len(), 1);
}
