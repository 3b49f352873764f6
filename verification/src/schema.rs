//! Schema versions, the decisions the post-schema migrations take, and the
//! migration status report.
use vstd::prelude::*;
use crate::json::{obj_insert, object_insert, Json, JsonV, Member};
use crate::text::{contains_text, contains_v, parse_i64, parse_int_v};

verus! {

/// The schema version that `ensure_schema` brings the store to.
pub const SCHEMA_VERSION: i64 = 2;

/// The version that the post-schema migrations bring the store to.
pub const POST_MIGRATIONS_VERSION: i64 = 3;

/// The names under which the post-schema migrations record that they ran.
pub fn post_migration_names() -> (r: Vec<&'static str>)
    ensures
        r@ == seq![
            "mcp_oauth_tokens_remove_fk_v1",
            "duplicate_predefined_providers_v1",
            "provider_available_models_v1",
            "provider_models_to_ids_v1",
            "capabilities_to_capability_overrides_v1",
        ],
{
    vec![
        "mcp_oauth_tokens_remove_fk_v1",
        "duplicate_predefined_providers_v1",
        "provider_available_models_v1",
        "provider_models_to_ids_v1",
        "capabilities_to_capability_overrides_v1",
    ]
}

/// What inserting a provider of an unknown type told about the providers
/// table.
pub enum ProbeOutcome {
    /// The insert went through: the table takes any type.
    Accepted,
    /// A CHECK constraint refused it: the table is rebuilt without one.
    RebuildWithoutCheck,
    /// Any other failure, which the migrations report.
    Failed,
}

/// Judges the probe insert from its error text (`None` when it succeeded).
pub fn providers_probe_outcome(probe_error: Option<&str>) -> (r: ProbeOutcome)
    ensures
        match probe_error {
            None => r is Accepted,
            Some(e) => if contains_v(e@, "CHECK constraint failed"@) {
                r is RebuildWithoutCheck
            } else {
                r is Failed
            },
        },
{
    match probe_error {
        None => ProbeOutcome::Accepted,
        Some(e) => if contains_text(e, "CHECK constraint failed") {
            ProbeOutcome::RebuildWithoutCheck
        } else {
            ProbeOutcome::Failed
        },
    }
}

/// Whether the OAuth token table still has a foreign key and is rebuilt:
/// its schema text (none when the table is missing) mentions `REFERENCES`.
pub fn oauth_tokens_need_rebuild(table_sql: Option<&str>) -> (r: bool)
    ensures
        r == match table_sql {
            Some(sql) => contains_v(sql@, "REFERENCES"@),
            None => false,
        },
{
    match table_sql {
        Some(sql) => contains_text(sql, "REFERENCES"),
        None => false,
    }
}

/// The number a schema metadata value holds, when it holds one.
pub fn meta_number(raw: Option<&str>) -> (r: Option<i64>)
    ensures
        match raw {
            None => r is None,
            Some(t) => match parse_int_v(t@) {
                Some(v) => if i64::MIN <= v <= i64::MAX {
                    r == Some(v as i64)
                } else {
                    r is None
                },
                None => r is None,
            },
        },
{
    match raw {
        Some(t) => parse_i64(t),
        None => None,
    }
}

/// Which post-schema migrations have run.
pub struct MigrationsRun {
    pub oauth_tokens_remove_fk: bool,
    pub duplicate_predefined_providers: bool,
    pub provider_available_models: bool,
    pub provider_models_to_ids: bool,
    pub capability_overrides: bool,
}

pub open spec fn version_pair_v(current: Option<i64>, target: i64) -> JsonV {
    let c: int = match current {
        Some(v) => v as int,
        None => 0,
    };
    JsonV::Object(
        obj_insert(obj_insert(Seq::empty(), "current"@, JsonV::Int(c)), "target"@, JsonV::Int(target as int)),
    )
}

pub open spec fn migrations_run_v(ran: MigrationsRun) -> JsonV {
    let m1 = obj_insert(Seq::empty(), "mcp_oauth_tokens_remove_fk_v1"@, JsonV::Bool(ran.oauth_tokens_remove_fk));
    let m2 = obj_insert(m1, "duplicate_predefined_providers_v1"@, JsonV::Bool(ran.duplicate_predefined_providers));
    let m3 = obj_insert(m2, "provider_available_models_v1"@, JsonV::Bool(ran.provider_available_models));
    let m4 = obj_insert(m3, "provider_models_to_ids_v1"@, JsonV::Bool(ran.provider_models_to_ids));
    JsonV::Object(obj_insert(m4, "capabilities_to_capability_overrides_v1"@, JsonV::Bool(ran.capability_overrides)))
}

/// The migration status report.
pub open spec fn status_payload_v(
    schema_version: Option<i64>,
    post_version: Option<i64>,
    type_constraint_removed: Option<i64>,
    ran: MigrationsRun,
) -> JsonV {
    let m1 = obj_insert(Seq::empty(), "schemaVersion"@, version_pair_v(schema_version, SCHEMA_VERSION));
    let m2 = obj_insert(m1, "postMigrationsVersion"@, version_pair_v(post_version, POST_MIGRATIONS_VERSION));
    let m3 = obj_insert(m2, "migrations"@, migrations_run_v(ran));
    JsonV::Object(
        obj_insert(m3, "providersTypeConstraintRemoved"@, JsonV::Bool(type_constraint_removed == Some(1i64))),
    )
}

fn version_pair(current: Option<i64>, target: i64) -> (r: Json)
    ensures
        r.vw() == version_pair_v(current, target),
{
    let c = match current {
        Some(v) => v,
        None => 0,
    };
    let mut ms: Vec<Member> = Vec::new();
    object_insert(&mut ms, "current".to_owned(), Json::Int(c));
    object_insert(&mut ms, "target".to_owned(), Json::Int(target));
    Json::Object(ms)
}

/// The report of `get_schema_migration_status`: the stored versions (0 when
/// missing) against their targets, which migrations have run, and whether the
/// providers type constraint was removed (its flag is 1).
pub fn migration_status_payload(
    schema_version: Option<i64>,
    post_version: Option<i64>,
    type_constraint_removed: Option<i64>,
    ran: MigrationsRun,
) -> (r: Json)
    ensures
        r.vw() == status_payload_v(schema_version, post_version, type_constraint_removed, ran),
{
    let mut flags: Vec<Member> = Vec::new();
    object_insert(&mut flags, "mcp_oauth_tokens_remove_fk_v1".to_owned(), Json::Bool(ran.oauth_tokens_remove_fk));
    object_insert(&mut flags, "duplicate_predefined_providers_v1".to_owned(), Json::Bool(ran.duplicate_predefined_providers));
    object_insert(&mut flags, "provider_available_models_v1".to_owned(), Json::Bool(ran.provider_available_models));
    object_insert(&mut flags, "provider_models_to_ids_v1".to_owned(), Json::Bool(ran.provider_models_to_ids));
    object_insert(&mut flags, "capabilities_to_capability_overrides_v1".to_owned(), Json::Bool(ran.capability_overrides));
    let removed = match type_constraint_removed {
        Some(v) => v == 1,
        None => false,
    };
    let mut ms: Vec<Member> = Vec::new();
    object_insert(&mut ms, "schemaVersion".to_owned(), version_pair(schema_version, SCHEMA_VERSION));
    object_insert(&mut ms, "postMigrationsVersion".to_owned(), version_pair(post_version, POST_MIGRATIONS_VERSION));
    object_insert(&mut ms, "migrations".to_owned(), Json::Object(flags));
    object_insert(&mut ms, "providersTypeConstraintRemoved".to_owned(), Json::Bool(removed));
    Json::Object(ms)
}

/// The post-schema migrations still to run, in the order they run: those not
/// recorded as run.
pub open spec fn pending_v(ran: MigrationsRun) -> Seq<&'static str> {
    (if ran.oauth_tokens_remove_fk { Seq::empty() } else { seq!["mcp_oauth_tokens_remove_fk_v1"] })
        + (if ran.duplicate_predefined_providers { Seq::empty() } else { seq!["duplicate_predefined_providers_v1"] })
        + (if ran.provider_available_models { Seq::empty() } else { seq!["provider_available_models_v1"] })
        + (if ran.provider_models_to_ids { Seq::empty() } else { seq!["provider_models_to_ids_v1"] })
        + (if ran.capability_overrides { Seq::empty() } else { seq!["capabilities_to_capability_overrides_v1"] })
}

/// The post-schema migrations still to run.
pub fn pending_post_migrations(ran: &MigrationsRun) -> (r: Vec<&'static str>)
    ensures
        r@ == pending_v(*ran),
{
    let mut out: Vec<&'static str> = Vec::new();
    if !ran.oauth_tokens_remove_fk {
        out.push("mcp_oauth_tokens_remove_fk_v1");
    }
    if !ran.duplicate_predefined_providers {
        out.push("duplicate_predefined_providers_v1");
    }
    if !ran.provider_available_models {
        out.push("provider_available_models_v1");
    }
    if !ran.provider_models_to_ids {
        out.push("provider_models_to_ids_v1");
    }
    if !ran.capability_overrides {
        out.push("capabilities_to_capability_overrides_v1");
    }
    assert(out@ =~= pending_v(*ran));
    out
}

/// Each post-schema migration runs once: a migration marked as run is never
/// pending again, and nothing is pending exactly when all are marked.
pub proof fn law_post_migrations_run_once(ran: MigrationsRun)
    ensures
        (pending_v(ran).len() == 0) == (ran.oauth_tokens_remove_fk && ran.duplicate_predefined_providers
            && ran.provider_available_models && ran.provider_models_to_ids && ran.capability_overrides),
        ran.oauth_tokens_remove_fk ==> !pending_v(ran).contains("mcp_oauth_tokens_remove_fk_v1"),
        ran.duplicate_predefined_providers ==> !pending_v(ran).contains("duplicate_predefined_providers_v1"),
        ran.provider_available_models ==> !pending_v(ran).contains("provider_available_models_v1"),
        ran.provider_models_to_ids ==> !pending_v(ran).contains("provider_models_to_ids_v1"),
        ran.capability_overrides ==> !pending_v(ran).contains("capabilities_to_capability_overrides_v1"),
{
    reveal_strlit("mcp_oauth_tokens_remove_fk_v1");
    reveal_strlit("duplicate_predefined_providers_v1");
    reveal_strlit("provider_available_models_v1");
    reveal_strlit("provider_models_to_ids_v1");
    reveal_strlit("capabilities_to_capability_overrides_v1");
    let p = pending_v(ran);
    assert forall|i: int| 0 <= i < p.len() implies p[i]@.len() > 0 by {}
    if ran.oauth_tokens_remove_fk {
        assert forall|i: int| 0 <= i < p.len() implies p[i] != "mcp_oauth_tokens_remove_fk_v1" by {
            assert(p[i]@ != "mcp_oauth_tokens_remove_fk_v1"@);
        }
    }
    if ran.duplicate_predefined_providers {
        assert forall|i: int| 0 <= i < p.len() implies p[i] != "duplicate_predefined_providers_v1" by {
            assert(p[i]@ != "duplicate_predefined_providers_v1"@);
        }
    }
    if ran.provider_available_models {
        assert forall|i: int| 0 <= i < p.len() implies p[i] != "provider_available_models_v1" by {
            assert(p[i]@ != "provider_available_models_v1"@);
        }
    }
    if ran.provider_models_to_ids {
        assert forall|i: int| 0 <= i < p.len() implies p[i] != "provider_models_to_ids_v1" by {
            assert(p[i]@ != "provider_models_to_ids_v1"@);
        }
    }
    if ran.capability_overrides {
        assert forall|i: int| 0 <= i < p.len() implies p[i] != "capabilities_to_capability_overrides_v1" by {
            assert(p[i]@ != "capabilities_to_capability_overrides_v1"@);
        }
    }
}

/// The schema metadata the post-schema migrations record when they end: the
/// removal of the providers type constraint when it was removed now, then
/// their version.
pub open spec fn post_migration_metadata_v(type_constraint_removed_now: bool) -> Seq<(&'static str, i64)> {
    if type_constraint_removed_now {
        seq![("providers_type_constraint_removed", 1i64), ("post_migrations_version", POST_MIGRATIONS_VERSION)]
    } else {
        seq![("post_migrations_version", POST_MIGRATIONS_VERSION)]
    }
}

/// The schema metadata the post-schema migrations record when they end.
pub fn post_migration_metadata(type_constraint_removed_now: bool) -> (r: Vec<(&'static str, i64)>)
    ensures
        r@ == post_migration_metadata_v(type_constraint_removed_now),
{
    let mut out: Vec<(&'static str, i64)> = Vec::new();
    if type_constraint_removed_now {
        out.push(("providers_type_constraint_removed", 1));
    }
    out.push(("post_migrations_version", POST_MIGRATIONS_VERSION));
    assert(out@ =~= post_migration_metadata_v(type_constraint_removed_now));
    out
}

/// Which post-schema migrations the recorded names say have run.
pub open spec fn runs_recorded_v(done: Set<Seq<char>>) -> MigrationsRun {
    MigrationsRun {
        oauth_tokens_remove_fk: done.contains("mcp_oauth_tokens_remove_fk_v1"@),
        duplicate_predefined_providers: done.contains("duplicate_predefined_providers_v1"@),
        provider_available_models: done.contains("provider_available_models_v1"@),
        provider_models_to_ids: done.contains("provider_models_to_ids_v1"@),
        capability_overrides: done.contains("capabilities_to_capability_overrides_v1"@),
    }
}

/// The recorded names after each of `names` is recorded as run.
pub open spec fn record_runs_v(done: Set<Seq<char>>, names: Seq<&'static str>) -> Set<Seq<char>>
    decreases names.len(),
{
    if names.len() == 0 {
        done
    } else {
        record_runs_v(done, names.drop_last()).insert(names.last()@)
    }
}

/// The schema metadata after `entries` are written, each key to its value.
pub open spec fn write_meta_v(meta: Map<Seq<char>, i64>, entries: Seq<(&'static str, i64)>) -> Map<Seq<char>, i64>
    decreases entries.len(),
{
    if entries.len() == 0 {
        meta
    } else {
        write_meta_v(meta, entries.drop_last()).insert(entries.last().0@, entries.last().1)
    }
}

/// The value the schema metadata holds under `key`, if any.
pub open spec fn meta_value(meta: Map<Seq<char>, i64>, key: Seq<char>) -> Option<i64> {
    if meta.dom().contains(key) {
        Some(meta[key])
    } else {
        None
    }
}

/// What one run of the post-schema migrations leaves recorded, from the
/// recorded names and metadata before it: every pending migration recorded
/// as run, and the metadata written at its end.
pub open spec fn post_run_record_v(done: Set<Seq<char>>, meta: Map<Seq<char>, i64>, rebuilt: bool) -> (Set<Seq<char>>, Map<Seq<char>, i64>) {
    (
        record_runs_v(done, pending_v(runs_recorded_v(done))),
        write_meta_v(meta, post_migration_metadata_v(rebuilt)),
    )
}

proof fn lemma_migration_names()
    ensures
        "mcp_oauth_tokens_remove_fk_v1"@.len() == 29,
        "duplicate_predefined_providers_v1"@.len() == 33,
        "provider_available_models_v1"@.len() == 28,
        "provider_models_to_ids_v1"@.len() == 25,
        "capabilities_to_capability_overrides_v1"@.len() == 39,
        "providers_type_constraint_removed"@.len() == 33,
        "post_migrations_version"@.len() == 23,
{
    reveal_strlit("mcp_oauth_tokens_remove_fk_v1");
    reveal_strlit("duplicate_predefined_providers_v1");
    reveal_strlit("provider_available_models_v1");
    reveal_strlit("provider_models_to_ids_v1");
    reveal_strlit("capabilities_to_capability_overrides_v1");
    reveal_strlit("providers_type_constraint_removed");
    reveal_strlit("post_migrations_version");
}

proof fn lemma_record_step(done: Set<Seq<char>>, a: Seq<&'static str>, s: Seq<&'static str>)
    requires
        s.len() <= 1,
    ensures
        record_runs_v(done, a + s) == if s.len() == 0 {
            record_runs_v(done, a)
        } else {
            record_runs_v(done, a).insert(s[0]@)
        },
{
    if s.len() == 0 {
        assert(a + s =~= a);
    } else {
        assert((a + s).drop_last() =~= a);
        assert((a + s).last() == s[0]);
    }
}

/// Running the post-schema migrations a second time changes nothing: the
/// first run records every pending migration as run, so the second finds
/// none pending and touches no provider; and the metadata it writes is what
/// the first run left, so the recorded names, the metadata and the status
/// report stay as they were. The second run's probe rebuilds the providers
/// table only if the first one did (a rebuilt table takes any type).
pub proof fn law_post_migrations_rerun(
    done: Set<Seq<char>>,
    meta: Map<Seq<char>, i64>,
    schema_version: Option<i64>,
    rebuilt_first: bool,
    rebuilt_second: bool,
)
    requires
        rebuilt_second ==> rebuilt_first,
    ensures
        ({
            let first = post_run_record_v(done, meta, rebuilt_first);
            let second = post_run_record_v(first.0, first.1, rebuilt_second);
            &&& pending_v(runs_recorded_v(first.0)).len() == 0
            &&& second == first
            &&& status_payload_v(
                schema_version,
                meta_value(second.1, "post_migrations_version"@),
                meta_value(second.1, "providers_type_constraint_removed"@),
                runs_recorded_v(second.0),
            ) == status_payload_v(
                schema_version,
                meta_value(first.1, "post_migrations_version"@),
                meta_value(first.1, "providers_type_constraint_removed"@),
                runs_recorded_v(first.0),
            )
        }),
{
    lemma_migration_names();
    let ran = runs_recorded_v(done);
    let n1 = "mcp_oauth_tokens_remove_fk_v1";
    let n2 = "duplicate_predefined_providers_v1";
    let n3 = "provider_available_models_v1";
    let n4 = "provider_models_to_ids_v1";
    let n5 = "capabilities_to_capability_overrides_v1";
    let s1 = if ran.oauth_tokens_remove_fk { Seq::<&'static str>::empty() } else { seq![n1] };
    let s2 = if ran.duplicate_predefined_providers { Seq::<&'static str>::empty() } else { seq![n2] };
    let s3 = if ran.provider_available_models { Seq::<&'static str>::empty() } else { seq![n3] };
    let s4 = if ran.provider_models_to_ids { Seq::<&'static str>::empty() } else { seq![n4] };
    let s5 = if ran.capability_overrides { Seq::<&'static str>::empty() } else { seq![n5] };
    let q1 = s1;
    let q2 = q1 + s2;
    let q3 = q2 + s3;
    let q4 = q3 + s4;
    let q5 = q4 + s5;
    assert(q1 =~= Seq::<&'static str>::empty() + s1);
    lemma_record_step(done, Seq::empty(), s1);
    lemma_record_step(done, q1, s2);
    lemma_record_step(done, q2, s3);
    lemma_record_step(done, q3, s4);
    lemma_record_step(done, q4, s5);
    assert(q5 == pending_v(ran));
    let done1 = record_runs_v(done, pending_v(ran));
    assert(done1.contains(n1@));
    assert(done1.contains(n2@));
    assert(done1.contains(n3@));
    assert(done1.contains(n4@));
    assert(done1.contains(n5@));
    let ran1 = runs_recorded_v(done1);
    assert(pending_v(ran1) =~= Seq::<&'static str>::empty());
    assert(record_runs_v(done1, pending_v(ran1)) == done1);
    let meta1 = write_meta_v(meta, post_migration_metadata_v(rebuilt_first));
    let meta2 = write_meta_v(meta1, post_migration_metadata_v(rebuilt_second));
    let e1 = post_migration_metadata_v(rebuilt_first);
    let e2 = post_migration_metadata_v(rebuilt_second);
    if rebuilt_first {
        assert(e1.drop_last() =~= seq![("providers_type_constraint_removed", 1i64)]);
        assert(e1.drop_last().drop_last() =~= Seq::<(&'static str, i64)>::empty());
    } else {
        assert(e1.drop_last() =~= Seq::<(&'static str, i64)>::empty());
    }
    if rebuilt_second {
        assert(e2.drop_last() =~= seq![("providers_type_constraint_removed", 1i64)]);
        assert(e2.drop_last().drop_last() =~= Seq::<(&'static str, i64)>::empty());
    } else {
        assert(e2.drop_last() =~= Seq::<(&'static str, i64)>::empty());
    }
    reveal_with_fuel(write_meta_v, 3);
    assert(meta1.dom().contains("post_migrations_version"@) && meta1["post_migrations_version"@] == POST_MIGRATIONS_VERSION);
    if rebuilt_second {
        assert(meta1.dom().contains("providers_type_constraint_removed"@) && meta1["providers_type_constraint_removed"@] == 1);
        let m = meta1.insert("providers_type_constraint_removed"@, 1i64);
        assert(m =~= meta1);
        assert(m.insert("post_migrations_version"@, POST_MIGRATIONS_VERSION) =~= meta1);
    } else {
        assert(meta1.insert("post_migrations_version"@, POST_MIGRATIONS_VERSION) =~= meta1);
    }
    assert(meta2 =~= meta1);
}
/// The tables of the store, each created when missing.
pub const SCHEMA_TABLES_SQL: &'static str = r#"
CREATE TABLE IF NOT EXISTS chat_threads (
    id TEXT PRIMARY KEY,
    title TEXT NOT NULL,
    model TEXT,
    is_generating BOOLEAN DEFAULT FALSE,
    reasoning_effort TEXT DEFAULT 'medium',
    metadata TEXT NOT NULL,
    created_at TEXT NOT NULL,
    updated_at TEXT NOT NULL
);

CREATE TABLE IF NOT EXISTS chat_messages (
    id TEXT PRIMARY KEY,
    thread_id TEXT NOT NULL,
    parent_id TEXT,
    slot_id TEXT,
    depth INTEGER NOT NULL DEFAULT 0,
    parent_tool_call_id TEXT,
    message TEXT NOT NULL,
    timestamp TEXT NOT NULL,
    metadata TEXT NOT NULL DEFAULT '{}',
    created_at TEXT NOT NULL,
    updated_at TEXT NOT NULL,
    FOREIGN KEY (thread_id) REFERENCES chat_threads(id) ON DELETE CASCADE
);

CREATE TABLE IF NOT EXISTS app_settings (
    id TEXT PRIMARY KEY DEFAULT 'default',
    settings_data TEXT NOT NULL,
    created_at TEXT NOT NULL,
    updated_at TEXT NOT NULL
);

CREATE TABLE IF NOT EXISTS providers (
    id TEXT PRIMARY KEY,
    name TEXT NOT NULL,
    type TEXT NOT NULL,
    api_key TEXT NOT NULL,
    models TEXT NOT NULL,
    base_url TEXT,
    api_version TEXT,
    enabled BOOLEAN NOT NULL DEFAULT 1,
    created_at TEXT NOT NULL,
    updated_at TEXT NOT NULL
);

CREATE TABLE IF NOT EXISTS model_capabilities_cache (
    id TEXT PRIMARY KEY,
    capabilities TEXT NOT NULL,
    fetched_at TEXT NOT NULL,
    created_at TEXT NOT NULL,
    updated_at TEXT NOT NULL
);

CREATE TABLE IF NOT EXISTS provider_models_cache (
    id TEXT PRIMARY KEY,
    provider_id TEXT NOT NULL,
    models TEXT NOT NULL,
    fetched_at TEXT NOT NULL,
    created_at TEXT NOT NULL,
    updated_at TEXT NOT NULL
);

CREATE TABLE IF NOT EXISTS thread_diff_stats_cache (
    id TEXT PRIMARY KEY,
    thread_updated_at TEXT NOT NULL,
    additions INTEGER NOT NULL DEFAULT 0,
    deletions INTEGER NOT NULL DEFAULT 0,
    files_changed INTEGER NOT NULL DEFAULT 0,
    created_at TEXT NOT NULL,
    updated_at TEXT NOT NULL
);

CREATE TABLE IF NOT EXISTS prompt_apps (
    id TEXT PRIMARY KEY,
    name TEXT NOT NULL,
    description TEXT,
    icon TEXT,
    prompt_template TEXT NOT NULL,
    placeholders TEXT NOT NULL DEFAULT '[]',
    model TEXT,
    enabled INTEGER NOT NULL DEFAULT 1,
    shortcut TEXT,
    sort_order INTEGER NOT NULL DEFAULT 0,
    created_at TEXT NOT NULL,
    updated_at TEXT NOT NULL
);

CREATE TABLE IF NOT EXISTS prompt_app_executions (
    id TEXT PRIMARY KEY,
    prompt_app_id TEXT NOT NULL,
    thread_id TEXT,
    input_values TEXT NOT NULL,
    generated_prompt TEXT NOT NULL,
    attachment_count INTEGER NOT NULL DEFAULT 0,
    created_at TEXT NOT NULL,
    FOREIGN KEY (prompt_app_id) REFERENCES prompt_apps(id) ON DELETE CASCADE,
    FOREIGN KEY (thread_id) REFERENCES chat_threads(id) ON DELETE SET NULL
);

CREATE TABLE IF NOT EXISTS gallery_images (
    id TEXT PRIMARY KEY,
    message_id TEXT NOT NULL,
    thread_id TEXT NOT NULL,
    thread_title TEXT NOT NULL,
    part_index INTEGER NOT NULL,
    media_type TEXT NOT NULL,
    filename TEXT,
    width INTEGER,
    height INTEGER,
    aspect_ratio REAL,
    file_path TEXT,
    created_at TEXT NOT NULL,
    FOREIGN KEY (message_id) REFERENCES chat_messages(id) ON DELETE CASCADE
);

CREATE TABLE IF NOT EXISTS mcp_servers (
    id TEXT PRIMARY KEY,
    registry_id TEXT,
    name TEXT NOT NULL,
    description TEXT,
    config TEXT NOT NULL,
    enabled INTEGER NOT NULL DEFAULT 1,
    status TEXT NOT NULL DEFAULT 'disconnected',
    last_error TEXT,
    installed_at TEXT NOT NULL,
    updated_at TEXT NOT NULL
);

CREATE TABLE IF NOT EXISTS mcp_oauth_tokens (
    id TEXT PRIMARY KEY,
    server_id TEXT NOT NULL,
    authorization_server_url TEXT,
    resource_url TEXT,
    client_id TEXT,
    client_secret TEXT,
    client_id_issued_at INTEGER,
    client_secret_expires_at INTEGER,
    access_token TEXT,
    refresh_token TEXT,
    token_type TEXT,
    expires_at INTEGER,
    scope TEXT,
    code_verifier TEXT,
    last_refresh_at TEXT,
    last_error_at TEXT,
    last_error TEXT,
    created_at TEXT NOT NULL,
    updated_at TEXT NOT NULL
);

CREATE TABLE IF NOT EXISTS workspaces (
    id TEXT PRIMARY KEY,
    path TEXT NOT NULL,
    name TEXT NOT NULL,
    is_temporary INTEGER NOT NULL DEFAULT 0,
    show_in_list INTEGER NOT NULL DEFAULT 1,
    is_worktree INTEGER NOT NULL DEFAULT 0,
    parent_workspace_id TEXT,
    worktree_branch TEXT,
    auto_worktree INTEGER NOT NULL DEFAULT 0,
    pr_number INTEGER,
    pr_url TEXT,
    pr_state TEXT,
    pr_base_branch TEXT,
    created_at TEXT NOT NULL,
    updated_at TEXT NOT NULL
);

CREATE TABLE IF NOT EXISTS prompts (
    id TEXT PRIMARY KEY,
    name TEXT NOT NULL UNIQUE,
    content TEXT NOT NULL,
    sort_order INTEGER NOT NULL DEFAULT 0,
    created_at TEXT NOT NULL,
    updated_at TEXT NOT NULL
);

CREATE TABLE IF NOT EXISTS skills (
    id TEXT PRIMARY KEY,
    path TEXT NOT NULL,
    enabled INTEGER NOT NULL DEFAULT 1,
    sort_order INTEGER NOT NULL DEFAULT 0,
    updated_at TEXT NOT NULL
);

CREATE TABLE IF NOT EXISTS plugins (
    id TEXT PRIMARY KEY,
    name TEXT NOT NULL,
    version TEXT NOT NULL,
    description TEXT NOT NULL,
    author TEXT NOT NULL,
    icon TEXT,
    source TEXT NOT NULL,
    source_path TEXT NOT NULL,
    install_url TEXT,
    manifest TEXT NOT NULL,
    enabled INTEGER NOT NULL DEFAULT 1,
    settings TEXT NOT NULL DEFAULT '{}',
    installed_at TEXT NOT NULL,
    updated_at TEXT NOT NULL
);

CREATE TABLE IF NOT EXISTS plugin_permissions (
    id TEXT PRIMARY KEY,
    plugin_id TEXT NOT NULL REFERENCES plugins(id) ON DELETE CASCADE,
    permission TEXT NOT NULL,
    status TEXT NOT NULL DEFAULT 'pending',
    granted_at TEXT,
    created_at TEXT NOT NULL,
    updated_at TEXT NOT NULL,
    UNIQUE(plugin_id, permission)
);

CREATE TABLE IF NOT EXISTS custom_themes (
    id TEXT PRIMARY KEY,
    name TEXT NOT NULL UNIQUE,
    display_name TEXT NOT NULL,
    type TEXT NOT NULL CHECK(type IN ('dark', 'light')),
    base_30 TEXT NOT NULL,
    base_16 TEXT NOT NULL,
    based_on TEXT,
    created_at TEXT NOT NULL,
    updated_at TEXT NOT NULL
);

CREATE TABLE IF NOT EXISTS thread_labels (
    id TEXT PRIMARY KEY,
    name TEXT NOT NULL,
    color TEXT NOT NULL,
    sort_order INTEGER NOT NULL DEFAULT 0,
    created_at TEXT NOT NULL,
    updated_at TEXT NOT NULL
);

CREATE TABLE IF NOT EXISTS channel_mappings (
    id TEXT PRIMARY KEY,
    platform TEXT NOT NULL,
    external_chat_id TEXT NOT NULL,
    external_user_id TEXT NOT NULL,
    thread_id TEXT NOT NULL REFERENCES chat_threads(id) ON DELETE CASCADE,
    is_active INTEGER DEFAULT 1,
    created_at TEXT NOT NULL,
    updated_at TEXT NOT NULL
);

CREATE TABLE IF NOT EXISTS migrations (
    name TEXT PRIMARY KEY,
    executed_at TEXT NOT NULL
);

CREATE TABLE IF NOT EXISTS schema_metadata (
    key TEXT PRIMARY KEY,
    value TEXT NOT NULL
);

CREATE TABLE IF NOT EXISTS usage_records (
    id TEXT PRIMARY KEY,
    message_id TEXT NOT NULL,
    thread_id TEXT NOT NULL,
    model TEXT,
    provider_id TEXT,
    date TEXT NOT NULL,
    input_tokens INTEGER DEFAULT 0,
    output_tokens INTEGER DEFAULT 0,
    cached_input_tokens INTEGER DEFAULT 0,
    cache_write_input_tokens INTEGER DEFAULT 0,
    reasoning_tokens INTEGER DEFAULT 0,
    total_tokens INTEGER DEFAULT 0,
    timestamp TEXT NOT NULL,
    created_at TEXT NOT NULL,
    FOREIGN KEY (message_id) REFERENCES chat_messages(id) ON DELETE CASCADE,
    FOREIGN KEY (thread_id) REFERENCES chat_threads(id) ON DELETE CASCADE
);

CREATE TABLE IF NOT EXISTS usage_migration_status (
    id INTEGER PRIMARY KEY CHECK (id = 1),
    status TEXT NOT NULL DEFAULT 'pending',
    total_count INTEGER DEFAULT 0,
    migrated_count INTEGER DEFAULT 0,
    last_migrated_id TEXT,
    started_at TEXT,
    completed_at TEXT,
    error_message TEXT
);

CREATE TABLE IF NOT EXISTS preview_servers (
    id TEXT PRIMARY KEY,
    workspace_id TEXT NOT NULL REFERENCES workspaces(id) ON DELETE CASCADE,
    port INTEGER NOT NULL,
    project_type TEXT NOT NULL,
    command TEXT NOT NULL,
    pid INTEGER,
    status TEXT NOT NULL DEFAULT 'stopped',
    last_error TEXT,
    created_at TEXT NOT NULL,
    updated_at TEXT NOT NULL
);
"#;

/// The indexes of the store, each created when missing.
pub const SCHEMA_INDEXES: [&'static str; 40] = [
    "CREATE INDEX IF NOT EXISTS idx_messages_thread_id ON chat_messages(thread_id)",
    "CREATE INDEX IF NOT EXISTS idx_messages_timestamp ON chat_messages(timestamp)",
    "CREATE INDEX IF NOT EXISTS idx_messages_version_info ON chat_messages(thread_id, timestamp, id, slot_id, created_at)",
    "CREATE INDEX IF NOT EXISTS idx_messages_parent_id ON chat_messages(parent_id)",
    "CREATE INDEX IF NOT EXISTS idx_messages_slot_id ON chat_messages(slot_id)",
    "CREATE INDEX IF NOT EXISTS idx_messages_depth ON chat_messages(depth)",
    "CREATE INDEX IF NOT EXISTS idx_threads_updated_at ON chat_threads(updated_at)",
    "CREATE INDEX IF NOT EXISTS idx_threads_prompt_app_id ON chat_threads(prompt_app_id)",
    "CREATE INDEX IF NOT EXISTS idx_threads_workspace_id ON chat_threads(workspace_id)",
    "CREATE INDEX IF NOT EXISTS idx_threads_artifact_workspace_id ON chat_threads(artifact_workspace_id)",
    "CREATE INDEX IF NOT EXISTS idx_providers_type ON providers(type)",
    "CREATE INDEX IF NOT EXISTS idx_providers_enabled ON providers(enabled)",
    "CREATE INDEX IF NOT EXISTS idx_provider_models_cache_provider_id ON provider_models_cache(provider_id)",
    "CREATE INDEX IF NOT EXISTS idx_prompt_apps_enabled ON prompt_apps(enabled)",
    "CREATE INDEX IF NOT EXISTS idx_prompt_apps_sort_order ON prompt_apps(sort_order)",
    "CREATE INDEX IF NOT EXISTS idx_prompt_app_executions_prompt_app_id ON prompt_app_executions(prompt_app_id)",
    "CREATE INDEX IF NOT EXISTS idx_prompt_app_executions_thread_id ON prompt_app_executions(thread_id)",
    "CREATE INDEX IF NOT EXISTS idx_prompt_app_executions_created_at ON prompt_app_executions(created_at)",
    "CREATE INDEX IF NOT EXISTS idx_gallery_created_at ON gallery_images(created_at DESC)",
    "CREATE INDEX IF NOT EXISTS idx_gallery_message_id ON gallery_images(message_id)",
    "CREATE INDEX IF NOT EXISTS idx_mcp_servers_enabled ON mcp_servers(enabled)",
    "CREATE INDEX IF NOT EXISTS idx_mcp_servers_registry_id ON mcp_servers(registry_id)",
    "CREATE INDEX IF NOT EXISTS idx_mcp_oauth_tokens_server_id ON mcp_oauth_tokens(server_id)",
    "CREATE INDEX IF NOT EXISTS idx_workspaces_is_temporary ON workspaces(is_temporary)",
    "CREATE INDEX IF NOT EXISTS idx_workspaces_show_in_list ON workspaces(show_in_list)",
    "CREATE INDEX IF NOT EXISTS idx_prompts_sort_order ON prompts(sort_order)",
    "CREATE INDEX IF NOT EXISTS idx_prompts_name ON prompts(name)",
    "CREATE INDEX IF NOT EXISTS idx_skills_enabled ON skills(enabled)",
    "CREATE INDEX IF NOT EXISTS idx_skills_path ON skills(path)",
    "CREATE INDEX IF NOT EXISTS idx_plugins_enabled ON plugins(enabled)",
    "CREATE INDEX IF NOT EXISTS idx_plugins_source ON plugins(source)",
    "CREATE INDEX IF NOT EXISTS idx_plugin_permissions_plugin_id ON plugin_permissions(plugin_id)",
    "CREATE INDEX IF NOT EXISTS idx_custom_themes_name ON custom_themes(name)",
    "CREATE INDEX IF NOT EXISTS idx_custom_themes_type ON custom_themes(type)",
    "CREATE INDEX IF NOT EXISTS idx_usage_records_date ON usage_records(date)",
    "CREATE INDEX IF NOT EXISTS idx_usage_records_model_date ON usage_records(model, date)",
    "CREATE INDEX IF NOT EXISTS idx_usage_records_provider_date ON usage_records(provider_id, date)",
    "CREATE INDEX IF NOT EXISTS idx_usage_records_message_id ON usage_records(message_id)",
    "CREATE INDEX IF NOT EXISTS idx_usage_records_thread_id ON usage_records(thread_id)",
    "CREATE INDEX IF NOT EXISTS idx_preview_servers_workspace_id ON preview_servers(workspace_id)",
];

/// The columns added to tables of earlier versions of the store, each added
/// when missing.
pub const SCHEMA_COLUMN_ADDITIONS: [&'static str; 52] = [
    "ALTER TABLE gallery_images ADD COLUMN thread_title TEXT NOT NULL DEFAULT ''",
    "ALTER TABLE gallery_images ADD COLUMN width INTEGER",
    "ALTER TABLE gallery_images ADD COLUMN height INTEGER",
    "ALTER TABLE gallery_images ADD COLUMN aspect_ratio REAL",
    "ALTER TABLE gallery_images ADD COLUMN file_path TEXT",
    "ALTER TABLE chat_messages ADD COLUMN parent_id TEXT",
    "ALTER TABLE chat_messages ADD COLUMN slot_id TEXT",
    "ALTER TABLE chat_messages ADD COLUMN depth INTEGER NOT NULL DEFAULT 0",
    "ALTER TABLE chat_messages ADD COLUMN parent_tool_call_id TEXT",
    "ALTER TABLE chat_threads ADD COLUMN reasoning_effort TEXT DEFAULT 'medium'",
    "ALTER TABLE chat_threads ADD COLUMN prompt_app_id TEXT REFERENCES prompt_apps(id) ON DELETE SET NULL",
    "ALTER TABLE prompt_apps ADD COLUMN tools TEXT",
    "ALTER TABLE prompt_apps ADD COLUMN reasoning_effort TEXT",
    "ALTER TABLE prompt_apps ADD COLUMN expects_image_result INTEGER NOT NULL DEFAULT 0",
    "ALTER TABLE prompt_apps ADD COLUMN is_incognito INTEGER NOT NULL DEFAULT 0",
    "ALTER TABLE prompt_apps ADD COLUMN shortcut TEXT",
    "ALTER TABLE prompt_apps ADD COLUMN window_width INTEGER",
    "ALTER TABLE prompt_apps ADD COLUMN window_height INTEGER",
    "ALTER TABLE prompt_apps ADD COLUMN font_size INTEGER",
    "ALTER TABLE chat_threads ADD COLUMN tools TEXT",
    "ALTER TABLE chat_threads ADD COLUMN is_favorited INTEGER DEFAULT 0",
    "ALTER TABLE chat_threads ADD COLUMN is_incognito INTEGER DEFAULT 0",
    "ALTER TABLE chat_threads ADD COLUMN is_favorite_pinned INTEGER DEFAULT 0",
    "ALTER TABLE chat_threads ADD COLUMN favorite_pinned_order INTEGER",
    "ALTER TABLE chat_threads ADD COLUMN enable_artifacts INTEGER DEFAULT 0",
    "ALTER TABLE chat_threads ADD COLUMN workspace_id TEXT REFERENCES workspaces(id) ON DELETE SET NULL",
    "ALTER TABLE chat_threads ADD COLUMN artifact_workspace_id TEXT REFERENCES workspaces(id) ON DELETE SET NULL",
    "ALTER TABLE chat_threads ADD COLUMN skill_ids TEXT",
    "ALTER TABLE chat_threads ADD COLUMN tools_compact_view INTEGER",
    "ALTER TABLE chat_threads ADD COLUMN parent_thread_id TEXT",
    "ALTER TABLE workspaces ADD COLUMN is_worktree INTEGER NOT NULL DEFAULT 0",
    "ALTER TABLE workspaces ADD COLUMN parent_workspace_id TEXT",
    "ALTER TABLE workspaces ADD COLUMN worktree_branch TEXT",
    "ALTER TABLE workspaces ADD COLUMN auto_worktree INTEGER NOT NULL DEFAULT 0",
    "ALTER TABLE workspaces ADD COLUMN pr_number INTEGER",
    "ALTER TABLE workspaces ADD COLUMN pr_url TEXT",
    "ALTER TABLE workspaces ADD COLUMN pr_state TEXT",
    "ALTER TABLE workspaces ADD COLUMN pr_base_branch TEXT",
    "ALTER TABLE providers ADD COLUMN api_version TEXT",
    "ALTER TABLE providers ADD COLUMN is_response_api INTEGER DEFAULT 0",
    "ALTER TABLE providers ADD COLUMN acp_command TEXT",
    "ALTER TABLE providers ADD COLUMN acp_args TEXT",
    "ALTER TABLE providers ADD COLUMN acp_mcp_server_ids TEXT",
    "ALTER TABLE providers ADD COLUMN acp_auth_method_id TEXT",
    "ALTER TABLE providers ADD COLUMN acp_api_provider_id TEXT",
    "ALTER TABLE providers ADD COLUMN acp_model_mapping TEXT",
    "ALTER TABLE providers ADD COLUMN use_max_completion_tokens INTEGER DEFAULT 0",
    "ALTER TABLE providers ADD COLUMN api_format TEXT",
    "ALTER TABLE providers ADD COLUMN copilot_account_id TEXT",
    "ALTER TABLE providers ADD COLUMN available_models TEXT NOT NULL DEFAULT '[]'",
    "ALTER TABLE plugins ADD COLUMN install_url TEXT",
    "ALTER TABLE usage_records ADD COLUMN cache_write_input_tokens INTEGER DEFAULT 0",
];

} // verus!
