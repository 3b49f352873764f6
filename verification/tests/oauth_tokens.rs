use gula_db_core::field_updates::SqlParam;
use gula_db_core::json::{Json, Member};
use gula_db_core::oauth::{
    json_to_sql_value, oauth_assignments, oauth_insert_statement, oauth_key_to_column,
    oauth_migration, oauth_patch_statement, oauth_payload_members, oauth_save_statement,
    oauth_update_statement, OauthMigration, OauthPayloadError,
};

fn p(x: &SqlParam) -> String {
    match x {
        SqlParam::Null => "NULL".to_string(),
        SqlParam::Integer(i) => i.to_string(),
        SqlParam::Text(t) => format!("'{}'", t),
    }
}

fn ps(xs: &[SqlParam]) -> Vec<String> {
    xs.iter().map(p).collect()
}

fn member(k: &str, v: Json) -> Member {
    Member { key: k.to_string(), value: v }
}

const NOW: &str = "strftime('%Y-%m-%dT%H:%M:%fZ', 'now')";

#[test]
fn payload_keys_map_to_columns() {
    assert_eq!(oauth_key_to_column("accessToken"), Some("access_token"));
    assert_eq!(oauth_key_to_column("clientSecretExpiresAt"), Some("client_secret_expires_at"));
    assert_eq!(oauth_key_to_column("lastError"), Some("last_error"));
    assert_eq!(oauth_key_to_column("scope"), Some("scope"));
    assert_eq!(oauth_key_to_column("access_token"), None);
    assert_eq!(oauth_key_to_column("serverId"), None);
}

#[test]
fn payload_values_become_sql_values() {
    assert_eq!(p(&json_to_sql_value(&Json::Null).ok().unwrap()), "NULL");
    assert_eq!(p(&json_to_sql_value(&Json::Str("t".to_string())).ok().unwrap()), "'t'");
    assert_eq!(p(&json_to_sql_value(&Json::Int(-5)).ok().unwrap()), "-5");
    assert_eq!(p(&json_to_sql_value(&Json::Bool(true)).ok().unwrap()), "1");
    assert_eq!(p(&json_to_sql_value(&Json::Bool(false)).ok().unwrap()), "0");
    assert!(matches!(json_to_sql_value(&Json::Float("1.5".to_string())), Err(OauthPayloadError::NumberNotI64)));
    assert!(matches!(json_to_sql_value(&Json::UInt(u64::MAX)), Err(OauthPayloadError::NumberNotI64)));
    assert!(matches!(json_to_sql_value(&Json::Array(Vec::new())), Err(OauthPayloadError::UnsupportedValue)));
    assert!(matches!(json_to_sql_value(&Json::Object(Vec::new())), Err(OauthPayloadError::UnsupportedValue)));
}

#[test]
fn payload_must_be_an_object() {
    assert!(matches!(oauth_payload_members(None), Err(OauthPayloadError::InvalidJson)));
    assert!(matches!(oauth_payload_members(Some(Json::Array(Vec::new()))), Err(OauthPayloadError::NotAnObject)));
    assert_eq!(oauth_payload_members(Some(Json::Object(vec![member("scope", Json::Null)]))).ok().unwrap().len(), 1);
    assert_eq!(OauthPayloadError::NotAnObject.message(), "oauth payload must be a JSON object");
    assert_eq!(OauthPayloadError::NumberNotI64.message(), "numeric oauth payload value must be i64");
    assert_eq!(
        OauthPayloadError::UnsupportedValue.message(),
        "oauth payload value must be string/number/bool/null"
    );
    assert_eq!(OauthPayloadError::InvalidJson.message(), "invalid oauth payload JSON: ");
}

#[test]
fn assignments_keep_payload_order_and_skip_unknown_keys() {
    let payload = vec![
        member("accessToken", Json::Str("tok".to_string())),
        member("unknownKey", Json::Array(Vec::new())),
        member("expiresAt", Json::Int(100)),
    ];
    let a = oauth_assignments(&payload).ok().unwrap();
    let cols: Vec<&str> = a.iter().map(|(c, _)| *c).collect();
    assert_eq!(cols, vec!["access_token", "expires_at"]);
    assert_eq!(p(&a[1].1), "100");
}

#[test]
fn the_first_refused_value_refuses_the_payload() {
    let payload = vec![
        member("scope", Json::Str("s".to_string())),
        member("expiresAt", Json::Float("1.25".to_string())),
        member("accessToken", Json::Object(Vec::new())),
    ];
    assert!(matches!(oauth_assignments(&payload), Err(OauthPayloadError::NumberNotI64)));
}

#[test]
fn update_statement_sets_each_column_then_the_time() {
    let a = vec![
        ("access_token", SqlParam::Text("tok".to_string())),
        ("expires_at", SqlParam::Integer(100)),
    ];
    let st = oauth_update_statement(a, "srv".to_string());
    assert_eq!(
        st.sql,
        format!("UPDATE mcp_oauth_tokens SET access_token = ?, expires_at = ?, updated_at = {} WHERE server_id = ?", NOW)
    );
    assert_eq!(ps(&st.params), vec!["'tok'", "100", "'srv'"]);
}

#[test]
fn update_statement_with_no_columns_only_stamps_the_time() {
    let st = oauth_update_statement(Vec::new(), "srv".to_string());
    assert_eq!(st.sql, format!("UPDATE mcp_oauth_tokens SET updated_at = {} WHERE server_id = ?", NOW));
    assert_eq!(ps(&st.params), vec!["'srv'"]);
}

#[test]
fn insert_statement_lists_fixed_columns_first() {
    let a = vec![("refresh_token", SqlParam::Null)];
    let st = oauth_insert_statement(a, "srv".to_string(), "tok-1".to_string());
    assert_eq!(
        st.sql,
        format!(
            "INSERT INTO mcp_oauth_tokens (id, server_id, created_at, updated_at, refresh_token) VALUES (?, ?, {}, {}, ?)",
            NOW, NOW
        )
    );
    assert_eq!(ps(&st.params), vec!["'tok-1'", "'srv'", "NULL"]);
}

#[test]
fn patch_statement_refuses_invalid_json() {
    assert!(matches!(oauth_patch_statement(None, true, "srv".to_string()), Err(OauthPayloadError::InvalidJson)));
    assert!(matches!(oauth_patch_statement(None, false, "srv".to_string()), Err(OauthPayloadError::InvalidJson)));
    assert!(matches!(
        oauth_patch_statement(Some(Json::Object(Vec::new())), false, "srv".to_string()),
        Ok(None)
    ));
    let st = oauth_patch_statement(Some(Json::Object(Vec::new())), true, "srv".to_string()).ok().unwrap().unwrap();
    assert_eq!(ps(&st.params), vec!["'srv'"]);
    let doc = Some(Json::Object(vec![member("tokenType", Json::Str("Bearer".to_string()))]));
    let st = oauth_patch_statement(doc, true, "srv".to_string()).ok().unwrap().unwrap();
    assert!(st.sql.starts_with("UPDATE mcp_oauth_tokens SET token_type = ?, updated_at"));
    assert_eq!(ps(&st.params), vec!["'Bearer'", "'srv'"]);
    assert!(matches!(
        oauth_patch_statement(Some(Json::Str("x".to_string())), true, "srv".to_string()),
        Err(OauthPayloadError::NotAnObject)
    ));
}

#[test]
fn migration_moves_merges_or_does_nothing() {
    assert!(matches!(oauth_migration(false, true), OauthMigration::NothingToMove));
    assert!(matches!(oauth_migration(false, false), OauthMigration::NothingToMove));
    assert!(matches!(oauth_migration(true, true), OauthMigration::MergeIntoTarget));
    assert!(matches!(oauth_migration(true, false), OauthMigration::Reassign));
}

#[test]
fn save_statement_updates_or_inserts_and_refuses_bad_payloads() {
    let doc = || Some(Json::Object(vec![member("accessToken", Json::Str("tok".to_string()))]));
    let up = oauth_save_statement(doc(), true, "srv".to_string(), "new".to_string()).ok().unwrap();
    assert!(up.sql.starts_with("UPDATE mcp_oauth_tokens SET access_token = ?, updated_at"));
    assert_eq!(ps(&up.params), vec!["'tok'", "'srv'"]);
    let ins = oauth_save_statement(doc(), false, "srv".to_string(), "new".to_string()).ok().unwrap();
    assert!(ins.sql.starts_with("INSERT INTO mcp_oauth_tokens (id, server_id, created_at, updated_at, access_token)"));
    assert_eq!(ps(&ins.params), vec!["'new'", "'srv'", "'tok'"]);
    let float = Some(Json::Object(vec![member("expiresAt", Json::Float("1.5".to_string()))]));
    assert!(matches!(
        oauth_save_statement(float, false, "srv".to_string(), "new".to_string()),
        Err(OauthPayloadError::NumberNotI64)
    ));
    assert!(matches!(
        oauth_save_statement(None, true, "srv".to_string(), "new".to_string()),
        Err(OauthPayloadError::InvalidJson)
    ));
}
