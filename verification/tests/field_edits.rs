use gula_db_core::field_updates::{
    field_update_sql, oauth_merge_updates, provider_field_updates, thread_core_updates, thread_field_updates, usage_migration_updates,
    workspace_field_updates, FieldUpdate, SqlParam,
};
use gula_db_core::types::{
    McpOauthTokenRecord,
    UpdateProviderFieldsInput, UpdateThreadCoreInput, UpdateThreadFieldsInput,
    UpdateUsageMigrationStatusInput, UpdateWorkspaceFieldsInput,
};

fn describe(us: &[FieldUpdate]) -> Vec<String> {
    us.iter()
        .map(|u| {
            let v = match &u.value {
                SqlParam::Null => "NULL".to_string(),
                SqlParam::Integer(i) => i.to_string(),
                SqlParam::Text(t) => format!("'{}'", t),
            };
            if u.default_now {
                format!("{}=COALESCE({},now)", u.column, v)
            } else {
                format!("{}={}", u.column, v)
            }
        })
        .collect()
}

fn provider() -> UpdateProviderFieldsInput {
    UpdateProviderFieldsInput {
        id: "p1".to_string(),
        set_name: None,
        name: None,
        set_type: None,
        kind: None,
        set_api_key: None,
        api_key: None,
        set_models: None,
        models: None,
        set_base_url: None,
        base_url: None,
        set_api_version: None,
        api_version: None,
        set_enabled: None,
        enabled: None,
        set_is_response_api: None,
        is_response_api: None,
        set_acp_command: None,
        acp_command: None,
        set_acp_args: None,
        acp_args: None,
        set_acp_mcp_server_ids: None,
        acp_mcp_server_ids: None,
        set_acp_auth_method_id: None,
        acp_auth_method_id: None,
        set_acp_api_provider_id: None,
        acp_api_provider_id: None,
        set_acp_model_mapping: None,
        acp_model_mapping: None,
        set_use_max_completion_tokens: None,
        use_max_completion_tokens: None,
        set_api_format: None,
        api_format: None,
        set_available_models: None,
        available_models: None,
        set_copilot_account_id: None,
        copilot_account_id: None,
        set_updated_at: None,
        updated_at: None,
    }
}

#[test]
fn provider_edit_sets_only_flagged_columns_in_order() {
    let input = UpdateProviderFieldsInput {
        set_api_key: Some(true),
        api_key: Some("sk".to_string()),
        set_name: Some(false),
        name: Some("ignored".to_string()),
        set_enabled: Some(true),
        enabled: Some(false),
        set_type: Some(true),
        kind: Some("custom".to_string()),
        set_base_url: Some(true),
        set_updated_at: Some(true),
        ..provider()
    };
    assert_eq!(
        describe(&provider_field_updates(input)),
        vec!["type='custom'", "api_key='sk'", "base_url=NULL", "enabled=0", "updated_at=COALESCE(NULL,now)"]
    );
    assert!(provider_field_updates(provider()).is_empty());
}

#[test]
fn thread_edits_and_core_updates() {
    let input = UpdateThreadFieldsInput {
        id: "t".to_string(),
        set_title: Some(true),
        title: Some("After".to_string()),
        set_model: Some(true),
        model: Some("google:gemini-2.5-pro".to_string()),
        set_workspace_id: None,
        workspace_id: None,
        set_artifact_workspace_id: None,
        artifact_workspace_id: None,
        set_enable_artifacts: Some(true),
        enable_artifacts: Some(true),
        set_parent_thread_id: None,
        parent_thread_id: None,
        set_metadata: None,
        metadata: None,
        set_is_generating: None,
        is_generating: None,
        set_reasoning_effort: None,
        reasoning_effort: None,
        set_updated_at: Some(true),
        updated_at: Some("2026-01-01T00:00:10.000Z".to_string()),
    };
    assert_eq!(
        describe(&thread_field_updates(input)),
        vec![
            "title='After'",
            "model='google:gemini-2.5-pro'",
            "enable_artifacts=1",
            "updated_at=COALESCE('2026-01-01T00:00:10.000Z',now)"
        ]
    );
    let core = UpdateThreadCoreInput {
        id: "t".to_string(),
        metadata: Some("{\"activePath\":[\"m1\"]}".to_string()),
        is_generating: Some(true),
        reasoning_effort: None,
        updated_at: None,
    };
    assert_eq!(
        describe(&thread_core_updates(core)),
        vec!["metadata='{\"activePath\":[\"m1\"]}'", "is_generating=1", "updated_at=COALESCE(NULL,now)"]
    );
}

#[test]
fn workspace_and_usage_status_updates() {
    let input = UpdateWorkspaceFieldsInput {
        id: "w".to_string(),
        set_path: None,
        path: None,
        set_name: None,
        name: None,
        set_is_temporary: None,
        is_temporary: None,
        set_show_in_list: Some(true),
        show_in_list: Some(true),
        set_is_worktree: None,
        is_worktree: None,
        set_parent_workspace_id: None,
        parent_workspace_id: None,
        set_worktree_branch: None,
        worktree_branch: None,
        set_auto_worktree: None,
        auto_worktree: None,
        set_pr_number: Some(true),
        pr_number: Some(42),
        set_pr_url: None,
        pr_url: None,
        set_pr_state: None,
        pr_state: None,
        set_pr_base_branch: None,
        pr_base_branch: None,
        set_updated_at: None,
        updated_at: None,
    };
    assert_eq!(describe(&workspace_field_updates(input)), vec!["show_in_list=1", "pr_number=42"]);
    let status = UpdateUsageMigrationStatusInput {
        status: Some("running".to_string()),
        total_count: None,
        migrated_count: Some(10),
        last_migrated_id: None,
        started_at: None,
        completed_at: None,
        error_message: Some("boom".to_string()),
    };
    assert_eq!(
        describe(&usage_migration_updates(status)),
        vec!["status='running'", "migrated_count=10", "error_message='boom'"]
    );
}

#[test]
fn each_update_is_one_statement_on_the_row() {
    let u = FieldUpdate { column: "title", value: SqlParam::Null, default_now: false };
    assert_eq!(field_update_sql("chat_threads", &u), "UPDATE chat_threads SET title = ?2 WHERE id = ?1");
    let u = FieldUpdate { column: "updated_at", value: SqlParam::Null, default_now: true };
    assert_eq!(
        field_update_sql("providers", &u),
        "UPDATE providers SET updated_at = COALESCE(?2, strftime('%Y-%m-%dT%H:%M:%fZ', 'now')) WHERE id = ?1"
    );
}

#[test]
fn oauth_merge_takes_over_present_token_columns() {
    let source = McpOauthTokenRecord {
        id: "t1".to_string(),
        server_id: "old".to_string(),
        authorization_server_url: Some("https://auth".to_string()),
        resource_url: None,
        client_id: Some("cid".to_string()),
        client_secret: None,
        client_id_issued_at: None,
        client_secret_expires_at: None,
        access_token: Some("acc".to_string()),
        refresh_token: None,
        token_type: Some("Bearer".to_string()),
        expires_at: Some(1700),
        scope: None,
        code_verifier: None,
        last_refresh_at: None,
        last_error_at: Some("e".to_string()),
        last_error: Some("boom".to_string()),
        created_at: "c".to_string(),
        updated_at: "u".to_string(),
    };
    assert_eq!(
        describe(&oauth_merge_updates(&source)),
        vec![
            "access_token='acc'",
            "token_type='Bearer'",
            "expires_at=1700",
            "client_id='cid'",
            "last_error=NULL",
            "last_error_at=NULL",
            "updated_at=COALESCE(NULL,now)",
        ]
    );
}
