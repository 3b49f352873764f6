//! The column updates an edit of a row makes: which columns change, in which
//! order, and to what.
use vstd::prelude::*;
use crate::text::clone_opt;
use crate::types::{
    McpOauthTokenRecord,
    UpdateCustomThemeInput, UpdateMcpServerFieldsInput, UpdatePromptAppFieldsInput,
    UpdatePromptFieldsInput, UpdateProviderFieldsInput, UpdateSkillStateFieldsInput,
    UpdateThreadCoreInput, UpdateThreadFieldsInput, UpdateThreadLabelFieldsInput,
    UpdateUsageMigrationStatusInput, UpdateWorkspaceFieldsInput,
};

verus! {

/// A value bound to a statement parameter.
pub enum SqlParam {
    Null,
    Integer(i64),
    Text(String),
}

/// One column set by an edit: `column = value`, or, with `default_now`,
/// `column = COALESCE(value, <now>)`.
pub struct FieldUpdate {
    pub column: &'static str,
    pub value: SqlParam,
    pub default_now: bool,
}

pub open spec fn text_param_v(s: Option<String>) -> SqlParam {
    match s {
        Some(t) => SqlParam::Text(t),
        None => SqlParam::Null,
    }
}

pub open spec fn bool_param_v(b: Option<bool>) -> SqlParam {
    match b {
        Some(true) => SqlParam::Integer(1),
        Some(false) => SqlParam::Integer(0),
        None => SqlParam::Null,
    }
}

pub open spec fn int_param_v(n: Option<i32>) -> SqlParam {
    match n {
        Some(x) => SqlParam::Integer(x as i64),
        None => SqlParam::Null,
    }
}

/// A text, or NULL.
pub fn text_param(s: Option<String>) -> (r: SqlParam)
    ensures
        r == text_param_v(s),
{
    match s {
        Some(t) => SqlParam::Text(t),
        None => SqlParam::Null,
    }
}

/// A flag as 1 or 0, or NULL.
pub fn bool_param(b: Option<bool>) -> (r: SqlParam)
    ensures
        r == bool_param_v(b),
{
    match b {
        Some(true) => SqlParam::Integer(1),
        Some(false) => SqlParam::Integer(0),
        None => SqlParam::Null,
    }
}

/// A number, or NULL.
pub fn int_param(n: Option<i32>) -> (r: SqlParam)
    ensures
        r == int_param_v(n),
{
    match n {
        Some(x) => SqlParam::Integer(x as i64),
        None => SqlParam::Null,
    }
}

pub open spec fn fu(column: &'static str, value: SqlParam) -> FieldUpdate {
    FieldUpdate { column, value, default_now: false }
}

/// The update, when its flag is set.
pub open spec fn set_if(flag: Option<bool>, u: FieldUpdate) -> Seq<FieldUpdate> {
    if flag == Some(true) {
        seq![u]
    } else {
        Seq::empty()
    }
}

/// The update, when there is a value.
pub open spec fn set_some<T>(v: Option<T>, u: FieldUpdate) -> Seq<FieldUpdate> {
    if v is Some {
        seq![u]
    } else {
        Seq::empty()
    }
}

fn push_if(out: &mut Vec<FieldUpdate>, flag: Option<bool>, u: FieldUpdate)
    ensures
        final(out)@ == old(out)@ + set_if(flag, u),
{
    if flag == Some(true) {
        out.push(u);
        assert(final(out)@ =~= old(out)@ + seq![u]);
    } else {
        assert(old(out)@ + Seq::<FieldUpdate>::empty() =~= old(out)@);
    }
}

fn push_when(out: &mut Vec<FieldUpdate>, present: bool, u: FieldUpdate)
    ensures
        final(out)@ == old(out)@ + if present {
            seq![u]
        } else {
            Seq::<FieldUpdate>::empty()
        },
{
    if present {
        out.push(u);
        assert(final(out)@ =~= old(out)@ + seq![u]);
    } else {
        assert(old(out)@ + Seq::<FieldUpdate>::empty() =~= old(out)@);
    }
}

/// The columns an edit of a thread sets: each column whose `set_` flag is
/// set, in declaration order, then `updated_at` (now when no time is given).
pub open spec fn thread_updates_v(input: UpdateThreadFieldsInput) -> Seq<FieldUpdate> {
    Seq::empty()
        + set_if(input.set_title, fu("title", text_param_v(input.title)))
        + set_if(input.set_model, fu("model", text_param_v(input.model)))
        + set_if(input.set_workspace_id, fu("workspace_id", text_param_v(input.workspace_id)))
        + set_if(input.set_artifact_workspace_id, fu("artifact_workspace_id", text_param_v(input.artifact_workspace_id)))
        + set_if(input.set_enable_artifacts, fu("enable_artifacts", bool_param_v(input.enable_artifacts)))
        + set_if(input.set_parent_thread_id, fu("parent_thread_id", text_param_v(input.parent_thread_id)))
        + set_if(input.set_metadata, fu("metadata", text_param_v(input.metadata)))
        + set_if(input.set_is_generating, fu("is_generating", bool_param_v(input.is_generating)))
        + set_if(input.set_reasoning_effort, fu("reasoning_effort", text_param_v(input.reasoning_effort)))
        + set_if(input.set_updated_at, FieldUpdate { column: "updated_at", value: text_param_v(input.updated_at), default_now: true })
}

/// The columns an edit of a thread sets.
pub fn thread_field_updates(input: UpdateThreadFieldsInput) -> (r: Vec<FieldUpdate>)
    ensures
        r@ == thread_updates_v(input),
{
    let mut out: Vec<FieldUpdate> = Vec::new();
    assert(out@ =~= Seq::<FieldUpdate>::empty());
    push_if(&mut out, input.set_title, FieldUpdate { column: "title", value: text_param(input.title), default_now: false });
    push_if(&mut out, input.set_model, FieldUpdate { column: "model", value: text_param(input.model), default_now: false });
    push_if(&mut out, input.set_workspace_id, FieldUpdate { column: "workspace_id", value: text_param(input.workspace_id), default_now: false });
    push_if(&mut out, input.set_artifact_workspace_id, FieldUpdate { column: "artifact_workspace_id", value: text_param(input.artifact_workspace_id), default_now: false });
    push_if(&mut out, input.set_enable_artifacts, FieldUpdate { column: "enable_artifacts", value: bool_param(input.enable_artifacts), default_now: false });
    push_if(&mut out, input.set_parent_thread_id, FieldUpdate { column: "parent_thread_id", value: text_param(input.parent_thread_id), default_now: false });
    push_if(&mut out, input.set_metadata, FieldUpdate { column: "metadata", value: text_param(input.metadata), default_now: false });
    push_if(&mut out, input.set_is_generating, FieldUpdate { column: "is_generating", value: bool_param(input.is_generating), default_now: false });
    push_if(&mut out, input.set_reasoning_effort, FieldUpdate { column: "reasoning_effort", value: text_param(input.reasoning_effort), default_now: false });
    push_if(&mut out, input.set_updated_at, FieldUpdate { column: "updated_at", value: text_param(input.updated_at), default_now: true });
    out
}

/// The columns an edit of an MCP server sets: each column whose `set_` flag is
/// set, in declaration order, then `updated_at` (now when no time is given).
pub open spec fn mcp_server_updates_v(input: UpdateMcpServerFieldsInput) -> Seq<FieldUpdate> {
    Seq::empty()
        + set_if(input.set_registry_id, fu("registry_id", text_param_v(input.registry_id)))
        + set_if(input.set_name, fu("name", text_param_v(input.name)))
        + set_if(input.set_description, fu("description", text_param_v(input.description)))
        + set_if(input.set_config, fu("config", text_param_v(input.config)))
        + set_if(input.set_enabled, fu("enabled", bool_param_v(input.enabled)))
        + set_if(input.set_status, fu("status", text_param_v(input.status)))
        + set_if(input.set_last_error, fu("last_error", text_param_v(input.last_error)))
        + set_if(input.set_installed_at, fu("installed_at", text_param_v(input.installed_at)))
        + set_if(input.set_updated_at, FieldUpdate { column: "updated_at", value: text_param_v(input.updated_at), default_now: true })
}

/// The columns an edit of an MCP server sets.
pub fn mcp_server_field_updates(input: UpdateMcpServerFieldsInput) -> (r: Vec<FieldUpdate>)
    ensures
        r@ == mcp_server_updates_v(input),
{
    let mut out: Vec<FieldUpdate> = Vec::new();
    assert(out@ =~= Seq::<FieldUpdate>::empty());
    push_if(&mut out, input.set_registry_id, FieldUpdate { column: "registry_id", value: text_param(input.registry_id), default_now: false });
    push_if(&mut out, input.set_name, FieldUpdate { column: "name", value: text_param(input.name), default_now: false });
    push_if(&mut out, input.set_description, FieldUpdate { column: "description", value: text_param(input.description), default_now: false });
    push_if(&mut out, input.set_config, FieldUpdate { column: "config", value: text_param(input.config), default_now: false });
    push_if(&mut out, input.set_enabled, FieldUpdate { column: "enabled", value: bool_param(input.enabled), default_now: false });
    push_if(&mut out, input.set_status, FieldUpdate { column: "status", value: text_param(input.status), default_now: false });
    push_if(&mut out, input.set_last_error, FieldUpdate { column: "last_error", value: text_param(input.last_error), default_now: false });
    push_if(&mut out, input.set_installed_at, FieldUpdate { column: "installed_at", value: text_param(input.installed_at), default_now: false });
    push_if(&mut out, input.set_updated_at, FieldUpdate { column: "updated_at", value: text_param(input.updated_at), default_now: true });
    out
}

/// The columns an edit of a workspace sets: each column whose `set_` flag is
/// set, in declaration order, then `updated_at` (now when no time is given).
pub open spec fn workspace_updates_v(input: UpdateWorkspaceFieldsInput) -> Seq<FieldUpdate> {
    Seq::empty()
        + set_if(input.set_path, fu("path", text_param_v(input.path)))
        + set_if(input.set_name, fu("name", text_param_v(input.name)))
        + set_if(input.set_is_temporary, fu("is_temporary", bool_param_v(input.is_temporary)))
        + set_if(input.set_show_in_list, fu("show_in_list", bool_param_v(input.show_in_list)))
        + set_if(input.set_is_worktree, fu("is_worktree", bool_param_v(input.is_worktree)))
        + set_if(input.set_parent_workspace_id, fu("parent_workspace_id", text_param_v(input.parent_workspace_id)))
        + set_if(input.set_worktree_branch, fu("worktree_branch", text_param_v(input.worktree_branch)))
        + set_if(input.set_auto_worktree, fu("auto_worktree", bool_param_v(input.auto_worktree)))
        + set_if(input.set_pr_number, fu("pr_number", int_param_v(input.pr_number)))
        + set_if(input.set_pr_url, fu("pr_url", text_param_v(input.pr_url)))
        + set_if(input.set_pr_state, fu("pr_state", text_param_v(input.pr_state)))
        + set_if(input.set_pr_base_branch, fu("pr_base_branch", text_param_v(input.pr_base_branch)))
        + set_if(input.set_updated_at, FieldUpdate { column: "updated_at", value: text_param_v(input.updated_at), default_now: true })
}

/// The columns an edit of a workspace sets.
pub fn workspace_field_updates(input: UpdateWorkspaceFieldsInput) -> (r: Vec<FieldUpdate>)
    ensures
        r@ == workspace_updates_v(input),
{
    let mut out: Vec<FieldUpdate> = Vec::new();
    assert(out@ =~= Seq::<FieldUpdate>::empty());
    push_if(&mut out, input.set_path, FieldUpdate { column: "path", value: text_param(input.path), default_now: false });
    push_if(&mut out, input.set_name, FieldUpdate { column: "name", value: text_param(input.name), default_now: false });
    push_if(&mut out, input.set_is_temporary, FieldUpdate { column: "is_temporary", value: bool_param(input.is_temporary), default_now: false });
    push_if(&mut out, input.set_show_in_list, FieldUpdate { column: "show_in_list", value: bool_param(input.show_in_list), default_now: false });
    push_if(&mut out, input.set_is_worktree, FieldUpdate { column: "is_worktree", value: bool_param(input.is_worktree), default_now: false });
    push_if(&mut out, input.set_parent_workspace_id, FieldUpdate { column: "parent_workspace_id", value: text_param(input.parent_workspace_id), default_now: false });
    push_if(&mut out, input.set_worktree_branch, FieldUpdate { column: "worktree_branch", value: text_param(input.worktree_branch), default_now: false });
    push_if(&mut out, input.set_auto_worktree, FieldUpdate { column: "auto_worktree", value: bool_param(input.auto_worktree), default_now: false });
    push_if(&mut out, input.set_pr_number, FieldUpdate { column: "pr_number", value: int_param(input.pr_number), default_now: false });
    push_if(&mut out, input.set_pr_url, FieldUpdate { column: "pr_url", value: text_param(input.pr_url), default_now: false });
    push_if(&mut out, input.set_pr_state, FieldUpdate { column: "pr_state", value: text_param(input.pr_state), default_now: false });
    push_if(&mut out, input.set_pr_base_branch, FieldUpdate { column: "pr_base_branch", value: text_param(input.pr_base_branch), default_now: false });
    push_if(&mut out, input.set_updated_at, FieldUpdate { column: "updated_at", value: text_param(input.updated_at), default_now: true });
    out
}

/// The columns an edit of a prompt sets: each column whose `set_` flag is
/// set, in declaration order, then `updated_at` (now when no time is given).
pub open spec fn prompt_updates_v(input: UpdatePromptFieldsInput) -> Seq<FieldUpdate> {
    Seq::empty()
        + set_if(input.set_name, fu("name", text_param_v(input.name)))
        + set_if(input.set_content, fu("content", text_param_v(input.content)))
        + set_if(input.set_sort_order, fu("sort_order", int_param_v(input.sort_order)))
        + set_if(input.set_updated_at, FieldUpdate { column: "updated_at", value: text_param_v(input.updated_at), default_now: true })
}

/// The columns an edit of a prompt sets.
pub fn prompt_field_updates(input: UpdatePromptFieldsInput) -> (r: Vec<FieldUpdate>)
    ensures
        r@ == prompt_updates_v(input),
{
    let mut out: Vec<FieldUpdate> = Vec::new();
    assert(out@ =~= Seq::<FieldUpdate>::empty());
    push_if(&mut out, input.set_name, FieldUpdate { column: "name", value: text_param(input.name), default_now: false });
    push_if(&mut out, input.set_content, FieldUpdate { column: "content", value: text_param(input.content), default_now: false });
    push_if(&mut out, input.set_sort_order, FieldUpdate { column: "sort_order", value: int_param(input.sort_order), default_now: false });
    push_if(&mut out, input.set_updated_at, FieldUpdate { column: "updated_at", value: text_param(input.updated_at), default_now: true });
    out
}

/// The columns an edit of a thread label sets: each column whose `set_` flag is
/// set, in declaration order, then `updated_at` (now when no time is given).
pub open spec fn thread_label_updates_v(input: UpdateThreadLabelFieldsInput) -> Seq<FieldUpdate> {
    Seq::empty()
        + set_if(input.set_name, fu("name", text_param_v(input.name)))
        + set_if(input.set_color, fu("color", text_param_v(input.color)))
        + set_if(input.set_sort_order, fu("sort_order", int_param_v(input.sort_order)))
        + set_if(input.set_updated_at, FieldUpdate { column: "updated_at", value: text_param_v(input.updated_at), default_now: true })
}

/// The columns an edit of a thread label sets.
pub fn thread_label_field_updates(input: UpdateThreadLabelFieldsInput) -> (r: Vec<FieldUpdate>)
    ensures
        r@ == thread_label_updates_v(input),
{
    let mut out: Vec<FieldUpdate> = Vec::new();
    assert(out@ =~= Seq::<FieldUpdate>::empty());
    push_if(&mut out, input.set_name, FieldUpdate { column: "name", value: text_param(input.name), default_now: false });
    push_if(&mut out, input.set_color, FieldUpdate { column: "color", value: text_param(input.color), default_now: false });
    push_if(&mut out, input.set_sort_order, FieldUpdate { column: "sort_order", value: int_param(input.sort_order), default_now: false });
    push_if(&mut out, input.set_updated_at, FieldUpdate { column: "updated_at", value: text_param(input.updated_at), default_now: true });
    out
}

/// The columns an edit of a skill sets: each column whose `set_` flag is
/// set, in declaration order, then `updated_at` (now when no time is given).
pub open spec fn skill_state_updates_v(input: UpdateSkillStateFieldsInput) -> Seq<FieldUpdate> {
    Seq::empty()
        + set_if(input.set_path, fu("path", text_param_v(input.path)))
        + set_if(input.set_enabled, fu("enabled", bool_param_v(input.enabled)))
        + set_if(input.set_sort_order, fu("sort_order", int_param_v(input.sort_order)))
        + set_if(input.set_updated_at, FieldUpdate { column: "updated_at", value: text_param_v(input.updated_at), default_now: true })
}

/// The columns an edit of a skill sets.
pub fn skill_state_field_updates(input: UpdateSkillStateFieldsInput) -> (r: Vec<FieldUpdate>)
    ensures
        r@ == skill_state_updates_v(input),
{
    let mut out: Vec<FieldUpdate> = Vec::new();
    assert(out@ =~= Seq::<FieldUpdate>::empty());
    push_if(&mut out, input.set_path, FieldUpdate { column: "path", value: text_param(input.path), default_now: false });
    push_if(&mut out, input.set_enabled, FieldUpdate { column: "enabled", value: bool_param(input.enabled), default_now: false });
    push_if(&mut out, input.set_sort_order, FieldUpdate { column: "sort_order", value: int_param(input.sort_order), default_now: false });
    push_if(&mut out, input.set_updated_at, FieldUpdate { column: "updated_at", value: text_param(input.updated_at), default_now: true });
    out
}

/// The columns an edit of a prompt app sets: each column whose `set_` flag is
/// set, in declaration order, then `updated_at` (now when no time is given).
pub open spec fn prompt_app_updates_v(input: UpdatePromptAppFieldsInput) -> Seq<FieldUpdate> {
    Seq::empty()
        + set_if(input.set_name, fu("name", text_param_v(input.name)))
        + set_if(input.set_description, fu("description", text_param_v(input.description)))
        + set_if(input.set_icon, fu("icon", text_param_v(input.icon)))
        + set_if(input.set_prompt_template, fu("prompt_template", text_param_v(input.prompt_template)))
        + set_if(input.set_placeholders, fu("placeholders", text_param_v(input.placeholders)))
        + set_if(input.set_model, fu("model", text_param_v(input.model)))
        + set_if(input.set_tools, fu("tools", text_param_v(input.tools)))
        + set_if(input.set_reasoning_effort, fu("reasoning_effort", text_param_v(input.reasoning_effort)))
        + set_if(input.set_expects_image_result, fu("expects_image_result", bool_param_v(input.expects_image_result)))
        + set_if(input.set_is_incognito, fu("is_incognito", bool_param_v(input.is_incognito)))
        + set_if(input.set_enabled, fu("enabled", bool_param_v(input.enabled)))
        + set_if(input.set_shortcut, fu("shortcut", text_param_v(input.shortcut)))
        + set_if(input.set_window_width, fu("window_width", int_param_v(input.window_width)))
        + set_if(input.set_window_height, fu("window_height", int_param_v(input.window_height)))
        + set_if(input.set_font_size, fu("font_size", int_param_v(input.font_size)))
        + set_if(input.set_updated_at, FieldUpdate { column: "updated_at", value: text_param_v(input.updated_at), default_now: true })
}

/// The columns an edit of a prompt app sets.
pub fn prompt_app_field_updates(input: UpdatePromptAppFieldsInput) -> (r: Vec<FieldUpdate>)
    ensures
        r@ == prompt_app_updates_v(input),
{
    let mut out: Vec<FieldUpdate> = Vec::new();
    assert(out@ =~= Seq::<FieldUpdate>::empty());
    push_if(&mut out, input.set_name, FieldUpdate { column: "name", value: text_param(input.name), default_now: false });
    push_if(&mut out, input.set_description, FieldUpdate { column: "description", value: text_param(input.description), default_now: false });
    push_if(&mut out, input.set_icon, FieldUpdate { column: "icon", value: text_param(input.icon), default_now: false });
    push_if(&mut out, input.set_prompt_template, FieldUpdate { column: "prompt_template", value: text_param(input.prompt_template), default_now: false });
    push_if(&mut out, input.set_placeholders, FieldUpdate { column: "placeholders", value: text_param(input.placeholders), default_now: false });
    push_if(&mut out, input.set_model, FieldUpdate { column: "model", value: text_param(input.model), default_now: false });
    push_if(&mut out, input.set_tools, FieldUpdate { column: "tools", value: text_param(input.tools), default_now: false });
    push_if(&mut out, input.set_reasoning_effort, FieldUpdate { column: "reasoning_effort", value: text_param(input.reasoning_effort), default_now: false });
    push_if(&mut out, input.set_expects_image_result, FieldUpdate { column: "expects_image_result", value: bool_param(input.expects_image_result), default_now: false });
    push_if(&mut out, input.set_is_incognito, FieldUpdate { column: "is_incognito", value: bool_param(input.is_incognito), default_now: false });
    push_if(&mut out, input.set_enabled, FieldUpdate { column: "enabled", value: bool_param(input.enabled), default_now: false });
    push_if(&mut out, input.set_shortcut, FieldUpdate { column: "shortcut", value: text_param(input.shortcut), default_now: false });
    push_if(&mut out, input.set_window_width, FieldUpdate { column: "window_width", value: int_param(input.window_width), default_now: false });
    push_if(&mut out, input.set_window_height, FieldUpdate { column: "window_height", value: int_param(input.window_height), default_now: false });
    push_if(&mut out, input.set_font_size, FieldUpdate { column: "font_size", value: int_param(input.font_size), default_now: false });
    push_if(&mut out, input.set_updated_at, FieldUpdate { column: "updated_at", value: text_param(input.updated_at), default_now: true });
    out
}

/// The columns an edit of a provider sets: each column whose `set_` flag is
/// set, in declaration order, then `updated_at` (now when no time is given).
pub open spec fn provider_updates_v(input: UpdateProviderFieldsInput) -> Seq<FieldUpdate> {
    Seq::empty()
        + set_if(input.set_name, fu("name", text_param_v(input.name)))
        + set_if(input.set_type, fu("type", text_param_v(input.kind)))
        + set_if(input.set_api_key, fu("api_key", text_param_v(input.api_key)))
        + set_if(input.set_models, fu("models", text_param_v(input.models)))
        + set_if(input.set_base_url, fu("base_url", text_param_v(input.base_url)))
        + set_if(input.set_api_version, fu("api_version", text_param_v(input.api_version)))
        + set_if(input.set_enabled, fu("enabled", bool_param_v(input.enabled)))
        + set_if(input.set_is_response_api, fu("is_response_api", bool_param_v(input.is_response_api)))
        + set_if(input.set_acp_command, fu("acp_command", text_param_v(input.acp_command)))
        + set_if(input.set_acp_args, fu("acp_args", text_param_v(input.acp_args)))
        + set_if(input.set_acp_mcp_server_ids, fu("acp_mcp_server_ids", text_param_v(input.acp_mcp_server_ids)))
        + set_if(input.set_acp_auth_method_id, fu("acp_auth_method_id", text_param_v(input.acp_auth_method_id)))
        + set_if(input.set_acp_api_provider_id, fu("acp_api_provider_id", text_param_v(input.acp_api_provider_id)))
        + set_if(input.set_acp_model_mapping, fu("acp_model_mapping", text_param_v(input.acp_model_mapping)))
        + set_if(input.set_use_max_completion_tokens, fu("use_max_completion_tokens", bool_param_v(input.use_max_completion_tokens)))
        + set_if(input.set_api_format, fu("api_format", text_param_v(input.api_format)))
        + set_if(input.set_available_models, fu("available_models", text_param_v(input.available_models)))
        + set_if(input.set_copilot_account_id, fu("copilot_account_id", text_param_v(input.copilot_account_id)))
        + set_if(input.set_updated_at, FieldUpdate { column: "updated_at", value: text_param_v(input.updated_at), default_now: true })
}

/// The columns an edit of a provider sets.
pub fn provider_field_updates(input: UpdateProviderFieldsInput) -> (r: Vec<FieldUpdate>)
    ensures
        r@ == provider_updates_v(input),
{
    let mut out: Vec<FieldUpdate> = Vec::new();
    assert(out@ =~= Seq::<FieldUpdate>::empty());
    push_if(&mut out, input.set_name, FieldUpdate { column: "name", value: text_param(input.name), default_now: false });
    push_if(&mut out, input.set_type, FieldUpdate { column: "type", value: text_param(input.kind), default_now: false });
    push_if(&mut out, input.set_api_key, FieldUpdate { column: "api_key", value: text_param(input.api_key), default_now: false });
    push_if(&mut out, input.set_models, FieldUpdate { column: "models", value: text_param(input.models), default_now: false });
    push_if(&mut out, input.set_base_url, FieldUpdate { column: "base_url", value: text_param(input.base_url), default_now: false });
    push_if(&mut out, input.set_api_version, FieldUpdate { column: "api_version", value: text_param(input.api_version), default_now: false });
    push_if(&mut out, input.set_enabled, FieldUpdate { column: "enabled", value: bool_param(input.enabled), default_now: false });
    push_if(&mut out, input.set_is_response_api, FieldUpdate { column: "is_response_api", value: bool_param(input.is_response_api), default_now: false });
    push_if(&mut out, input.set_acp_command, FieldUpdate { column: "acp_command", value: text_param(input.acp_command), default_now: false });
    push_if(&mut out, input.set_acp_args, FieldUpdate { column: "acp_args", value: text_param(input.acp_args), default_now: false });
    push_if(&mut out, input.set_acp_mcp_server_ids, FieldUpdate { column: "acp_mcp_server_ids", value: text_param(input.acp_mcp_server_ids), default_now: false });
    push_if(&mut out, input.set_acp_auth_method_id, FieldUpdate { column: "acp_auth_method_id", value: text_param(input.acp_auth_method_id), default_now: false });
    push_if(&mut out, input.set_acp_api_provider_id, FieldUpdate { column: "acp_api_provider_id", value: text_param(input.acp_api_provider_id), default_now: false });
    push_if(&mut out, input.set_acp_model_mapping, FieldUpdate { column: "acp_model_mapping", value: text_param(input.acp_model_mapping), default_now: false });
    push_if(&mut out, input.set_use_max_completion_tokens, FieldUpdate { column: "use_max_completion_tokens", value: bool_param(input.use_max_completion_tokens), default_now: false });
    push_if(&mut out, input.set_api_format, FieldUpdate { column: "api_format", value: text_param(input.api_format), default_now: false });
    push_if(&mut out, input.set_available_models, FieldUpdate { column: "available_models", value: text_param(input.available_models), default_now: false });
    push_if(&mut out, input.set_copilot_account_id, FieldUpdate { column: "copilot_account_id", value: text_param(input.copilot_account_id), default_now: false });
    push_if(&mut out, input.set_updated_at, FieldUpdate { column: "updated_at", value: text_param(input.updated_at), default_now: true });
    out
}

/// The columns an update of a thread's core state sets: metadata, the
/// generating flag and the reasoning effort when given, then always
/// `updated_at` (now when no time is given).
pub open spec fn thread_core_updates_v(input: UpdateThreadCoreInput) -> Seq<FieldUpdate> {
    Seq::empty()
        + set_some(input.metadata, fu("metadata", text_param_v(input.metadata)))
        + set_some(input.is_generating, fu("is_generating", bool_param_v(input.is_generating)))
        + set_some(input.reasoning_effort, fu("reasoning_effort", text_param_v(input.reasoning_effort)))
        + seq![FieldUpdate { column: "updated_at", value: text_param_v(input.updated_at), default_now: true }]
}

/// The columns an update of a thread's core state sets.
pub fn thread_core_updates(input: UpdateThreadCoreInput) -> (r: Vec<FieldUpdate>)
    ensures
        r@ == thread_core_updates_v(input),
{
    let mut out: Vec<FieldUpdate> = Vec::new();
    assert(out@ =~= Seq::<FieldUpdate>::empty());
    let has_metadata = input.metadata.is_some();
    push_when(&mut out, has_metadata, FieldUpdate { column: "metadata", value: text_param(input.metadata), default_now: false });
    let has_generating = input.is_generating.is_some();
    push_when(&mut out, has_generating, FieldUpdate { column: "is_generating", value: bool_param(input.is_generating), default_now: false });
    let has_effort = input.reasoning_effort.is_some();
    push_when(&mut out, has_effort, FieldUpdate { column: "reasoning_effort", value: text_param(input.reasoning_effort), default_now: false });
    out.push(FieldUpdate { column: "updated_at", value: text_param(input.updated_at), default_now: true });
    out
}

/// The columns an edit of a custom theme sets: each of display name, type
/// and both palettes that is given, the base theme when given, then always
/// `updated_at` (now when no time is given).
pub open spec fn custom_theme_updates_v(input: UpdateCustomThemeInput) -> Seq<FieldUpdate> {
    Seq::empty()
        + set_some(input.display_name, fu("display_name", text_param_v(input.display_name)))
        + set_some(input.kind, fu("type", text_param_v(input.kind)))
        + set_some(input.base_30, fu("base_30", text_param_v(input.base_30)))
        + set_some(input.base_16, fu("base_16", text_param_v(input.base_16)))
        + set_some(input.based_on, fu("based_on", text_param_v(input.based_on)))
        + seq![FieldUpdate { column: "updated_at", value: text_param_v(input.updated_at), default_now: true }]
}

/// The columns an edit of a custom theme sets.
pub fn custom_theme_updates(input: UpdateCustomThemeInput) -> (r: Vec<FieldUpdate>)
    ensures
        r@ == custom_theme_updates_v(input),
{
    let mut out: Vec<FieldUpdate> = Vec::new();
    assert(out@ =~= Seq::<FieldUpdate>::empty());
    let p = input.display_name.is_some();
    push_when(&mut out, p, FieldUpdate { column: "display_name", value: text_param(input.display_name), default_now: false });
    let p = input.kind.is_some();
    push_when(&mut out, p, FieldUpdate { column: "type", value: text_param(input.kind), default_now: false });
    let p = input.base_30.is_some();
    push_when(&mut out, p, FieldUpdate { column: "base_30", value: text_param(input.base_30), default_now: false });
    let p = input.base_16.is_some();
    push_when(&mut out, p, FieldUpdate { column: "base_16", value: text_param(input.base_16), default_now: false });
    let p = input.based_on.is_some();
    push_when(&mut out, p, FieldUpdate { column: "based_on", value: text_param(input.based_on), default_now: false });
    out.push(FieldUpdate { column: "updated_at", value: text_param(input.updated_at), default_now: true });
    out
}

/// The columns an update of the usage migration status sets: each field
/// that is given.
pub open spec fn usage_migration_updates_v(input: UpdateUsageMigrationStatusInput) -> Seq<FieldUpdate> {
    Seq::empty()
        + set_some(input.status, fu("status", text_param_v(input.status)))
        + set_some(input.total_count, fu("total_count", int_param_v(input.total_count)))
        + set_some(input.migrated_count, fu("migrated_count", int_param_v(input.migrated_count)))
        + set_some(input.last_migrated_id, fu("last_migrated_id", text_param_v(input.last_migrated_id)))
        + set_some(input.started_at, fu("started_at", text_param_v(input.started_at)))
        + set_some(input.completed_at, fu("completed_at", text_param_v(input.completed_at)))
        + set_some(input.error_message, fu("error_message", text_param_v(input.error_message)))
}

/// The columns an update of the usage migration status sets.
pub fn usage_migration_updates(input: UpdateUsageMigrationStatusInput) -> (r: Vec<FieldUpdate>)
    ensures
        r@ == usage_migration_updates_v(input),
{
    let mut out: Vec<FieldUpdate> = Vec::new();
    assert(out@ =~= Seq::<FieldUpdate>::empty());
    let p = input.status.is_some();
    push_when(&mut out, p, FieldUpdate { column: "status", value: text_param(input.status), default_now: false });
    let p = input.total_count.is_some();
    push_when(&mut out, p, FieldUpdate { column: "total_count", value: int_param(input.total_count), default_now: false });
    let p = input.migrated_count.is_some();
    push_when(&mut out, p, FieldUpdate { column: "migrated_count", value: int_param(input.migrated_count), default_now: false });
    let p = input.last_migrated_id.is_some();
    push_when(&mut out, p, FieldUpdate { column: "last_migrated_id", value: text_param(input.last_migrated_id), default_now: false });
    let p = input.started_at.is_some();
    push_when(&mut out, p, FieldUpdate { column: "started_at", value: text_param(input.started_at), default_now: false });
    let p = input.completed_at.is_some();
    push_when(&mut out, p, FieldUpdate { column: "completed_at", value: text_param(input.completed_at), default_now: false });
    let p = input.error_message.is_some();
    push_when(&mut out, p, FieldUpdate { column: "error_message", value: text_param(input.error_message), default_now: false });
    out
}

/// A 64-bit number, or NULL.
pub open spec fn i64_param_v(n: Option<i64>) -> SqlParam {
    match n {
        Some(x) => SqlParam::Integer(x),
        None => SqlParam::Null,
    }
}

/// The columns a server's token takes over when the token of another server
/// is merged into it: each of access token, refresh token, token type,
/// expiry, scope, client id and client secret that the merged token holds;
/// the last error and its time cleared; then `updated_at` now.
pub open spec fn oauth_merge_updates_v(source: McpOauthTokenRecord) -> Seq<FieldUpdate> {
    Seq::empty()
        + set_some(source.access_token, fu("access_token", text_param_v(source.access_token)))
        + set_some(source.refresh_token, fu("refresh_token", text_param_v(source.refresh_token)))
        + set_some(source.token_type, fu("token_type", text_param_v(source.token_type)))
        + set_some(source.expires_at, fu("expires_at", i64_param_v(source.expires_at)))
        + set_some(source.scope, fu("scope", text_param_v(source.scope)))
        + set_some(source.client_id, fu("client_id", text_param_v(source.client_id)))
        + set_some(source.client_secret, fu("client_secret", text_param_v(source.client_secret)))
        + seq![fu("last_error", SqlParam::Null)]
        + seq![fu("last_error_at", SqlParam::Null)]
        + seq![FieldUpdate { column: "updated_at", value: SqlParam::Null, default_now: true }]
}

/// The columns a server's token takes over from a merged token.
pub fn oauth_merge_updates(source: &McpOauthTokenRecord) -> (r: Vec<FieldUpdate>)
    ensures
        r@ == oauth_merge_updates_v(*source),
{
    let mut out: Vec<FieldUpdate> = Vec::new();
    assert(out@ =~= Seq::<FieldUpdate>::empty());
    let p = source.access_token.is_some();
    push_when(&mut out, p, FieldUpdate { column: "access_token", value: text_param(clone_opt(&source.access_token)), default_now: false });
    let p = source.refresh_token.is_some();
    push_when(&mut out, p, FieldUpdate { column: "refresh_token", value: text_param(clone_opt(&source.refresh_token)), default_now: false });
    let p = source.token_type.is_some();
    push_when(&mut out, p, FieldUpdate { column: "token_type", value: text_param(clone_opt(&source.token_type)), default_now: false });
    let p = source.expires_at.is_some();
    let expiry = match source.expires_at {
        Some(x) => SqlParam::Integer(x),
        None => SqlParam::Null,
    };
    push_when(&mut out, p, FieldUpdate { column: "expires_at", value: expiry, default_now: false });
    let p = source.scope.is_some();
    push_when(&mut out, p, FieldUpdate { column: "scope", value: text_param(clone_opt(&source.scope)), default_now: false });
    let p = source.client_id.is_some();
    push_when(&mut out, p, FieldUpdate { column: "client_id", value: text_param(clone_opt(&source.client_id)), default_now: false });
    let p = source.client_secret.is_some();
    push_when(&mut out, p, FieldUpdate { column: "client_secret", value: text_param(clone_opt(&source.client_secret)), default_now: false });
    out.push(FieldUpdate { column: "last_error", value: SqlParam::Null, default_now: false });
    out.push(FieldUpdate { column: "last_error_at", value: SqlParam::Null, default_now: false });
    out.push(FieldUpdate { column: "updated_at", value: SqlParam::Null, default_now: true });
    out
}

/// The first step of an edit, given whether the row to edit was found: a
/// missing row gets no statement, and the edit answers none; a found row
/// gets the edit's plan.
pub fn edit_step(found: bool, plan: Vec<FieldUpdate>) -> (r: Option<Vec<FieldUpdate>>)
    ensures
        !found ==> r is None,
        found ==> (r matches Some(p) && p@ == plan@),
{
    if found {
        Some(plan)
    } else {
        None
    }
}

/// The statement that applies one column update to the row `?1` of `table`,
/// the value bound as `?2`.
pub open spec fn field_update_sql_v(table: Seq<char>, u: FieldUpdate) -> Seq<char> {
    "UPDATE "@ + table + " SET "@ + u.column@ + (if u.default_now {
        " = COALESCE(?2, strftime('%Y-%m-%dT%H:%M:%fZ', 'now'))"@
    } else {
        " = ?2"@
    }) + " WHERE id = ?1"@
}

/// The statement that applies one column update to a row of `table`.
pub fn field_update_sql(table: &str, u: &FieldUpdate) -> (r: String)
    ensures
        r@ == field_update_sql_v(table@, *u),
{
    let head = "UPDATE ".to_owned().concat(table).concat(" SET ").concat(u.column);
    let set = if u.default_now {
        head.concat(" = COALESCE(?2, strftime('%Y-%m-%dT%H:%M:%fZ', 'now'))")
    } else {
        head.concat(" = ?2")
    };
    set.concat(" WHERE id = ?1")
}

/// The value a row holds in column `c`, if it has that column.
pub open spec fn row_get(row: Map<Seq<char>, SqlParam>, c: Seq<char>) -> Option<SqlParam> {
    if row.dom().contains(c) {
        Some(row[c])
    } else {
        None
    }
}

/// What one update writes: its value, or the time `now` where the update
/// defaults to now and carries no value.
pub open spec fn cell_v(u: FieldUpdate, now: SqlParam) -> SqlParam {
    if u.default_now && u.value is Null {
        now
    } else {
        u.value
    }
}

/// A row after the updates of a plan are applied to it one after another,
/// `now` being the time the store stamps.
pub open spec fn apply_plan_v(row: Map<Seq<char>, SqlParam>, plan: Seq<FieldUpdate>, now: SqlParam) -> Map<Seq<char>, SqlParam>
    decreases plan.len(),
{
    if plan.len() == 0 {
        row
    } else {
        apply_plan_v(row, plan.drop_last(), now).insert(plan.last().column@, cell_v(plan.last(), now))
    }
}

/// A column after an edit: the new value when the edit sets the column, the
/// value it held otherwise.
pub open spec fn edited(set: bool, new: SqlParam, old: Option<SqlParam>) -> Option<SqlParam> {
    if set {
        Some(new)
    } else {
        old
    }
}

/// The time an edit stamps: the given time, or `now` when none is given.
pub open spec fn stamp_v(t: Option<String>, now: SqlParam) -> SqlParam {
    match t {
        Some(s) => SqlParam::Text(s),
        None => now,
    }
}

/// A row with column `k` set to `v` when `set` holds.
#[verifier::opaque]
pub open spec fn put_if(row: Map<Seq<char>, SqlParam>, set: bool, k: Seq<char>, v: SqlParam) -> Map<Seq<char>, SqlParam> {
    if set {
        row.insert(k, v)
    } else {
        row
    }
}

proof fn lemma_put_read()
    ensures
        forall|row: Map<Seq<char>, SqlParam>, set: bool, k: Seq<char>, v: SqlParam, c: Seq<char>|
            #[trigger] row_get(put_if(row, set, k, v), c) == if k == c {
                edited(set, v, row_get(row, c))
            } else {
                row_get(row, c)
            },
{
    reveal(put_if);
}

proof fn lemma_apply_one(row: Map<Seq<char>, SqlParam>, a: Seq<FieldUpdate>, u: FieldUpdate, now: SqlParam)
    ensures
        apply_plan_v(row, a + seq![u], now) == put_if(apply_plan_v(row, a, now), true, u.column@, cell_v(u, now)),
{
    reveal(put_if);
    assert((a + seq![u]).drop_last() =~= a);
    assert((a + seq![u]).last() == u);
}

proof fn lemma_apply_set_if(row: Map<Seq<char>, SqlParam>, a: Seq<FieldUpdate>, flag: Option<bool>, u: FieldUpdate, now: SqlParam)
    ensures
        apply_plan_v(row, a + set_if(flag, u), now)
            == put_if(apply_plan_v(row, a, now), flag == Some(true), u.column@, cell_v(u, now)),
{
    reveal(put_if);
    if flag == Some(true) {
        lemma_apply_one(row, a, u, now);
        reveal(put_if);
    } else {
        assert(a + set_if(flag, u) =~= a);
    }
}

proof fn lemma_apply_set_some<T>(row: Map<Seq<char>, SqlParam>, a: Seq<FieldUpdate>, v: Option<T>, u: FieldUpdate, now: SqlParam)
    ensures
        apply_plan_v(row, a + set_some(v, u), now)
            == put_if(apply_plan_v(row, a, now), v is Some, u.column@, cell_v(u, now)),
{
    reveal(put_if);
    if v is Some {
        lemma_apply_one(row, a, u, now);
        reveal(put_if);
    } else {
        assert(a + set_some(v, u) =~= a);
    }
}

/// Whether `c` is one of the columns an edit of a thread can set.
pub open spec fn thread_edit_column(c: Seq<char>) -> bool {
    c == "title"@
        || c == "model"@
        || c == "workspace_id"@
        || c == "artifact_workspace_id"@
        || c == "enable_artifacts"@
        || c == "parent_thread_id"@
        || c == "metadata"@
        || c == "is_generating"@
        || c == "reasoning_effort"@
        || c == "updated_at"@
}

proof fn lemma_thread_plan_row(row: Map<Seq<char>, SqlParam>, input: UpdateThreadFieldsInput, now: SqlParam)
    ensures
        apply_plan_v(row, thread_updates_v(input), now) == put_if(put_if(put_if(put_if(put_if(put_if(put_if(put_if(put_if(put_if(row, input.set_title == Some(true), "title"@, text_param_v(input.title)), input.set_model == Some(true), "model"@, text_param_v(input.model)), input.set_workspace_id == Some(true), "workspace_id"@, text_param_v(input.workspace_id)), input.set_artifact_workspace_id == Some(true), "artifact_workspace_id"@, text_param_v(input.artifact_workspace_id)), input.set_enable_artifacts == Some(true), "enable_artifacts"@, bool_param_v(input.enable_artifacts)), input.set_parent_thread_id == Some(true), "parent_thread_id"@, text_param_v(input.parent_thread_id)), input.set_metadata == Some(true), "metadata"@, text_param_v(input.metadata)), input.set_is_generating == Some(true), "is_generating"@, bool_param_v(input.is_generating)), input.set_reasoning_effort == Some(true), "reasoning_effort"@, text_param_v(input.reasoning_effort)), input.set_updated_at == Some(true), "updated_at"@, stamp_v(input.updated_at, now)),
{
    let p0 = Seq::<FieldUpdate>::empty();
    let p1 = p0 + set_if(input.set_title, fu("title", text_param_v(input.title)));
    lemma_apply_set_if(row, p0, input.set_title, fu("title", text_param_v(input.title)), now);
    let p2 = p1 + set_if(input.set_model, fu("model", text_param_v(input.model)));
    lemma_apply_set_if(row, p1, input.set_model, fu("model", text_param_v(input.model)), now);
    let p3 = p2 + set_if(input.set_workspace_id, fu("workspace_id", text_param_v(input.workspace_id)));
    lemma_apply_set_if(row, p2, input.set_workspace_id, fu("workspace_id", text_param_v(input.workspace_id)), now);
    let p4 = p3 + set_if(input.set_artifact_workspace_id, fu("artifact_workspace_id", text_param_v(input.artifact_workspace_id)));
    lemma_apply_set_if(row, p3, input.set_artifact_workspace_id, fu("artifact_workspace_id", text_param_v(input.artifact_workspace_id)), now);
    let p5 = p4 + set_if(input.set_enable_artifacts, fu("enable_artifacts", bool_param_v(input.enable_artifacts)));
    lemma_apply_set_if(row, p4, input.set_enable_artifacts, fu("enable_artifacts", bool_param_v(input.enable_artifacts)), now);
    let p6 = p5 + set_if(input.set_parent_thread_id, fu("parent_thread_id", text_param_v(input.parent_thread_id)));
    lemma_apply_set_if(row, p5, input.set_parent_thread_id, fu("parent_thread_id", text_param_v(input.parent_thread_id)), now);
    let p7 = p6 + set_if(input.set_metadata, fu("metadata", text_param_v(input.metadata)));
    lemma_apply_set_if(row, p6, input.set_metadata, fu("metadata", text_param_v(input.metadata)), now);
    let p8 = p7 + set_if(input.set_is_generating, fu("is_generating", bool_param_v(input.is_generating)));
    lemma_apply_set_if(row, p7, input.set_is_generating, fu("is_generating", bool_param_v(input.is_generating)), now);
    let p9 = p8 + set_if(input.set_reasoning_effort, fu("reasoning_effort", text_param_v(input.reasoning_effort)));
    lemma_apply_set_if(row, p8, input.set_reasoning_effort, fu("reasoning_effort", text_param_v(input.reasoning_effort)), now);
    let p10 = p9 + set_if(input.set_updated_at, FieldUpdate { column: "updated_at", value: text_param_v(input.updated_at), default_now: true });
    lemma_apply_set_if(row, p9, input.set_updated_at, FieldUpdate { column: "updated_at", value: text_param_v(input.updated_at), default_now: true }, now);
    assert(p10 == thread_updates_v(input));
}

/// Applying the plan of an edit of a thread to its row changes exactly the
/// columns the edit sets: each takes its new value (`updated_at` the given
/// time, or `now`), and every other column keeps the value it held.
pub proof fn law_thread_edit_row(row: Map<Seq<char>, SqlParam>, input: UpdateThreadFieldsInput, now: SqlParam)
    ensures
        ({ let after = apply_plan_v(row, thread_updates_v(input), now);
            &&& row_get(after, "title"@) == edited(input.set_title == Some(true), text_param_v(input.title), row_get(row, "title"@))
            &&& row_get(after, "model"@) == edited(input.set_model == Some(true), text_param_v(input.model), row_get(row, "model"@))
            &&& row_get(after, "workspace_id"@) == edited(input.set_workspace_id == Some(true), text_param_v(input.workspace_id), row_get(row, "workspace_id"@))
            &&& row_get(after, "artifact_workspace_id"@) == edited(input.set_artifact_workspace_id == Some(true), text_param_v(input.artifact_workspace_id), row_get(row, "artifact_workspace_id"@))
            &&& row_get(after, "enable_artifacts"@) == edited(input.set_enable_artifacts == Some(true), bool_param_v(input.enable_artifacts), row_get(row, "enable_artifacts"@))
            &&& row_get(after, "parent_thread_id"@) == edited(input.set_parent_thread_id == Some(true), text_param_v(input.parent_thread_id), row_get(row, "parent_thread_id"@))
            &&& row_get(after, "metadata"@) == edited(input.set_metadata == Some(true), text_param_v(input.metadata), row_get(row, "metadata"@))
            &&& row_get(after, "is_generating"@) == edited(input.set_is_generating == Some(true), bool_param_v(input.is_generating), row_get(row, "is_generating"@))
            &&& row_get(after, "reasoning_effort"@) == edited(input.set_reasoning_effort == Some(true), text_param_v(input.reasoning_effort), row_get(row, "reasoning_effort"@))
            &&& row_get(after, "updated_at"@) == edited(input.set_updated_at == Some(true), stamp_v(input.updated_at, now), row_get(row, "updated_at"@))
            &&& forall|c: Seq<char>| !thread_edit_column(c) ==> #[trigger] row_get(after, c) == row_get(row, c)
        }),
{
    lemma_put_read();
    reveal_strlit("title");
    reveal_strlit("model");
    reveal_strlit("workspace_id");
    reveal_strlit("artifact_workspace_id");
    reveal_strlit("enable_artifacts");
    reveal_strlit("parent_thread_id");
    reveal_strlit("metadata");
    reveal_strlit("is_generating");
    reveal_strlit("reasoning_effort");
    reveal_strlit("updated_at");
    assert("title"@.len() == 5);
    assert("model"@.len() == 5);
    assert("workspace_id"@.len() == 12);
    assert("artifact_workspace_id"@.len() == 21);
    assert("enable_artifacts"@.len() == 16);
    assert("parent_thread_id"@.len() == 16);
    assert("metadata"@.len() == 8);
    assert("is_generating"@.len() == 13);
    assert("reasoning_effort"@.len() == 16);
    assert("updated_at"@.len() == 10);
    assert("title"@[0] == 't');
    assert("model"@[0] == 'm');
    assert("enable_artifacts"@[0] == 'e');
    assert("parent_thread_id"@[0] == 'p');
    assert("reasoning_effort"@[0] == 'r');
    lemma_thread_plan_row(row, input, now);
}

/// Whether `c` is one of the columns an edit of an MCP server can set.
pub open spec fn mcp_server_edit_column(c: Seq<char>) -> bool {
    c == "registry_id"@
        || c == "name"@
        || c == "description"@
        || c == "config"@
        || c == "enabled"@
        || c == "status"@
        || c == "last_error"@
        || c == "installed_at"@
        || c == "updated_at"@
}

proof fn lemma_mcp_server_plan_row(row: Map<Seq<char>, SqlParam>, input: UpdateMcpServerFieldsInput, now: SqlParam)
    ensures
        apply_plan_v(row, mcp_server_updates_v(input), now) == put_if(put_if(put_if(put_if(put_if(put_if(put_if(put_if(put_if(row, input.set_registry_id == Some(true), "registry_id"@, text_param_v(input.registry_id)), input.set_name == Some(true), "name"@, text_param_v(input.name)), input.set_description == Some(true), "description"@, text_param_v(input.description)), input.set_config == Some(true), "config"@, text_param_v(input.config)), input.set_enabled == Some(true), "enabled"@, bool_param_v(input.enabled)), input.set_status == Some(true), "status"@, text_param_v(input.status)), input.set_last_error == Some(true), "last_error"@, text_param_v(input.last_error)), input.set_installed_at == Some(true), "installed_at"@, text_param_v(input.installed_at)), input.set_updated_at == Some(true), "updated_at"@, stamp_v(input.updated_at, now)),
{
    let p0 = Seq::<FieldUpdate>::empty();
    let p1 = p0 + set_if(input.set_registry_id, fu("registry_id", text_param_v(input.registry_id)));
    lemma_apply_set_if(row, p0, input.set_registry_id, fu("registry_id", text_param_v(input.registry_id)), now);
    let p2 = p1 + set_if(input.set_name, fu("name", text_param_v(input.name)));
    lemma_apply_set_if(row, p1, input.set_name, fu("name", text_param_v(input.name)), now);
    let p3 = p2 + set_if(input.set_description, fu("description", text_param_v(input.description)));
    lemma_apply_set_if(row, p2, input.set_description, fu("description", text_param_v(input.description)), now);
    let p4 = p3 + set_if(input.set_config, fu("config", text_param_v(input.config)));
    lemma_apply_set_if(row, p3, input.set_config, fu("config", text_param_v(input.config)), now);
    let p5 = p4 + set_if(input.set_enabled, fu("enabled", bool_param_v(input.enabled)));
    lemma_apply_set_if(row, p4, input.set_enabled, fu("enabled", bool_param_v(input.enabled)), now);
    let p6 = p5 + set_if(input.set_status, fu("status", text_param_v(input.status)));
    lemma_apply_set_if(row, p5, input.set_status, fu("status", text_param_v(input.status)), now);
    let p7 = p6 + set_if(input.set_last_error, fu("last_error", text_param_v(input.last_error)));
    lemma_apply_set_if(row, p6, input.set_last_error, fu("last_error", text_param_v(input.last_error)), now);
    let p8 = p7 + set_if(input.set_installed_at, fu("installed_at", text_param_v(input.installed_at)));
    lemma_apply_set_if(row, p7, input.set_installed_at, fu("installed_at", text_param_v(input.installed_at)), now);
    let p9 = p8 + set_if(input.set_updated_at, FieldUpdate { column: "updated_at", value: text_param_v(input.updated_at), default_now: true });
    lemma_apply_set_if(row, p8, input.set_updated_at, FieldUpdate { column: "updated_at", value: text_param_v(input.updated_at), default_now: true }, now);
    assert(p9 == mcp_server_updates_v(input));
}

/// Applying the plan of an edit of an MCP server to its row changes exactly the
/// columns the edit sets: each takes its new value (`updated_at` the given
/// time, or `now`), and every other column keeps the value it held.
pub proof fn law_mcp_server_edit_row(row: Map<Seq<char>, SqlParam>, input: UpdateMcpServerFieldsInput, now: SqlParam)
    ensures
        ({ let after = apply_plan_v(row, mcp_server_updates_v(input), now);
            &&& row_get(after, "registry_id"@) == edited(input.set_registry_id == Some(true), text_param_v(input.registry_id), row_get(row, "registry_id"@))
            &&& row_get(after, "name"@) == edited(input.set_name == Some(true), text_param_v(input.name), row_get(row, "name"@))
            &&& row_get(after, "description"@) == edited(input.set_description == Some(true), text_param_v(input.description), row_get(row, "description"@))
            &&& row_get(after, "config"@) == edited(input.set_config == Some(true), text_param_v(input.config), row_get(row, "config"@))
            &&& row_get(after, "enabled"@) == edited(input.set_enabled == Some(true), bool_param_v(input.enabled), row_get(row, "enabled"@))
            &&& row_get(after, "status"@) == edited(input.set_status == Some(true), text_param_v(input.status), row_get(row, "status"@))
            &&& row_get(after, "last_error"@) == edited(input.set_last_error == Some(true), text_param_v(input.last_error), row_get(row, "last_error"@))
            &&& row_get(after, "installed_at"@) == edited(input.set_installed_at == Some(true), text_param_v(input.installed_at), row_get(row, "installed_at"@))
            &&& row_get(after, "updated_at"@) == edited(input.set_updated_at == Some(true), stamp_v(input.updated_at, now), row_get(row, "updated_at"@))
            &&& forall|c: Seq<char>| !mcp_server_edit_column(c) ==> #[trigger] row_get(after, c) == row_get(row, c)
        }),
{
    lemma_put_read();
    reveal_strlit("registry_id");
    reveal_strlit("name");
    reveal_strlit("description");
    reveal_strlit("config");
    reveal_strlit("enabled");
    reveal_strlit("status");
    reveal_strlit("last_error");
    reveal_strlit("installed_at");
    reveal_strlit("updated_at");
    assert("registry_id"@.len() == 11);
    assert("name"@.len() == 4);
    assert("description"@.len() == 11);
    assert("config"@.len() == 6);
    assert("enabled"@.len() == 7);
    assert("status"@.len() == 6);
    assert("last_error"@.len() == 10);
    assert("installed_at"@.len() == 12);
    assert("updated_at"@.len() == 10);
    assert("registry_id"@[0] == 'r');
    assert("description"@[0] == 'd');
    assert("config"@[0] == 'c');
    assert("status"@[0] == 's');
    assert("last_error"@[0] == 'l');
    assert("updated_at"@[0] == 'u');
    lemma_mcp_server_plan_row(row, input, now);
}

/// Whether `c` is one of the columns an edit of a workspace can set.
pub open spec fn workspace_edit_column(c: Seq<char>) -> bool {
    c == "path"@
        || c == "name"@
        || c == "is_temporary"@
        || c == "show_in_list"@
        || c == "is_worktree"@
        || c == "parent_workspace_id"@
        || c == "worktree_branch"@
        || c == "auto_worktree"@
        || c == "pr_number"@
        || c == "pr_url"@
        || c == "pr_state"@
        || c == "pr_base_branch"@
        || c == "updated_at"@
}

proof fn lemma_workspace_plan_row(row: Map<Seq<char>, SqlParam>, input: UpdateWorkspaceFieldsInput, now: SqlParam)
    ensures
        apply_plan_v(row, workspace_updates_v(input), now) == put_if(put_if(put_if(put_if(put_if(put_if(put_if(put_if(put_if(put_if(put_if(put_if(put_if(row, input.set_path == Some(true), "path"@, text_param_v(input.path)), input.set_name == Some(true), "name"@, text_param_v(input.name)), input.set_is_temporary == Some(true), "is_temporary"@, bool_param_v(input.is_temporary)), input.set_show_in_list == Some(true), "show_in_list"@, bool_param_v(input.show_in_list)), input.set_is_worktree == Some(true), "is_worktree"@, bool_param_v(input.is_worktree)), input.set_parent_workspace_id == Some(true), "parent_workspace_id"@, text_param_v(input.parent_workspace_id)), input.set_worktree_branch == Some(true), "worktree_branch"@, text_param_v(input.worktree_branch)), input.set_auto_worktree == Some(true), "auto_worktree"@, bool_param_v(input.auto_worktree)), input.set_pr_number == Some(true), "pr_number"@, int_param_v(input.pr_number)), input.set_pr_url == Some(true), "pr_url"@, text_param_v(input.pr_url)), input.set_pr_state == Some(true), "pr_state"@, text_param_v(input.pr_state)), input.set_pr_base_branch == Some(true), "pr_base_branch"@, text_param_v(input.pr_base_branch)), input.set_updated_at == Some(true), "updated_at"@, stamp_v(input.updated_at, now)),
{
    let p0 = Seq::<FieldUpdate>::empty();
    let p1 = p0 + set_if(input.set_path, fu("path", text_param_v(input.path)));
    lemma_apply_set_if(row, p0, input.set_path, fu("path", text_param_v(input.path)), now);
    let p2 = p1 + set_if(input.set_name, fu("name", text_param_v(input.name)));
    lemma_apply_set_if(row, p1, input.set_name, fu("name", text_param_v(input.name)), now);
    let p3 = p2 + set_if(input.set_is_temporary, fu("is_temporary", bool_param_v(input.is_temporary)));
    lemma_apply_set_if(row, p2, input.set_is_temporary, fu("is_temporary", bool_param_v(input.is_temporary)), now);
    let p4 = p3 + set_if(input.set_show_in_list, fu("show_in_list", bool_param_v(input.show_in_list)));
    lemma_apply_set_if(row, p3, input.set_show_in_list, fu("show_in_list", bool_param_v(input.show_in_list)), now);
    let p5 = p4 + set_if(input.set_is_worktree, fu("is_worktree", bool_param_v(input.is_worktree)));
    lemma_apply_set_if(row, p4, input.set_is_worktree, fu("is_worktree", bool_param_v(input.is_worktree)), now);
    let p6 = p5 + set_if(input.set_parent_workspace_id, fu("parent_workspace_id", text_param_v(input.parent_workspace_id)));
    lemma_apply_set_if(row, p5, input.set_parent_workspace_id, fu("parent_workspace_id", text_param_v(input.parent_workspace_id)), now);
    let p7 = p6 + set_if(input.set_worktree_branch, fu("worktree_branch", text_param_v(input.worktree_branch)));
    lemma_apply_set_if(row, p6, input.set_worktree_branch, fu("worktree_branch", text_param_v(input.worktree_branch)), now);
    let p8 = p7 + set_if(input.set_auto_worktree, fu("auto_worktree", bool_param_v(input.auto_worktree)));
    lemma_apply_set_if(row, p7, input.set_auto_worktree, fu("auto_worktree", bool_param_v(input.auto_worktree)), now);
    let p9 = p8 + set_if(input.set_pr_number, fu("pr_number", int_param_v(input.pr_number)));
    lemma_apply_set_if(row, p8, input.set_pr_number, fu("pr_number", int_param_v(input.pr_number)), now);
    let p10 = p9 + set_if(input.set_pr_url, fu("pr_url", text_param_v(input.pr_url)));
    lemma_apply_set_if(row, p9, input.set_pr_url, fu("pr_url", text_param_v(input.pr_url)), now);
    let p11 = p10 + set_if(input.set_pr_state, fu("pr_state", text_param_v(input.pr_state)));
    lemma_apply_set_if(row, p10, input.set_pr_state, fu("pr_state", text_param_v(input.pr_state)), now);
    let p12 = p11 + set_if(input.set_pr_base_branch, fu("pr_base_branch", text_param_v(input.pr_base_branch)));
    lemma_apply_set_if(row, p11, input.set_pr_base_branch, fu("pr_base_branch", text_param_v(input.pr_base_branch)), now);
    let p13 = p12 + set_if(input.set_updated_at, FieldUpdate { column: "updated_at", value: text_param_v(input.updated_at), default_now: true });
    lemma_apply_set_if(row, p12, input.set_updated_at, FieldUpdate { column: "updated_at", value: text_param_v(input.updated_at), default_now: true }, now);
    assert(p13 == workspace_updates_v(input));
}

/// Applying the plan of an edit of a workspace to its row changes exactly the
/// columns the edit sets: each takes its new value (`updated_at` the given
/// time, or `now`), and every other column keeps the value it held.
pub proof fn law_workspace_edit_row(row: Map<Seq<char>, SqlParam>, input: UpdateWorkspaceFieldsInput, now: SqlParam)
    ensures
        ({ let after = apply_plan_v(row, workspace_updates_v(input), now);
            &&& row_get(after, "path"@) == edited(input.set_path == Some(true), text_param_v(input.path), row_get(row, "path"@))
            &&& row_get(after, "name"@) == edited(input.set_name == Some(true), text_param_v(input.name), row_get(row, "name"@))
            &&& row_get(after, "is_temporary"@) == edited(input.set_is_temporary == Some(true), bool_param_v(input.is_temporary), row_get(row, "is_temporary"@))
            &&& row_get(after, "show_in_list"@) == edited(input.set_show_in_list == Some(true), bool_param_v(input.show_in_list), row_get(row, "show_in_list"@))
            &&& row_get(after, "is_worktree"@) == edited(input.set_is_worktree == Some(true), bool_param_v(input.is_worktree), row_get(row, "is_worktree"@))
            &&& row_get(after, "parent_workspace_id"@) == edited(input.set_parent_workspace_id == Some(true), text_param_v(input.parent_workspace_id), row_get(row, "parent_workspace_id"@))
            &&& row_get(after, "worktree_branch"@) == edited(input.set_worktree_branch == Some(true), text_param_v(input.worktree_branch), row_get(row, "worktree_branch"@))
            &&& row_get(after, "auto_worktree"@) == edited(input.set_auto_worktree == Some(true), bool_param_v(input.auto_worktree), row_get(row, "auto_worktree"@))
            &&& row_get(after, "pr_number"@) == edited(input.set_pr_number == Some(true), int_param_v(input.pr_number), row_get(row, "pr_number"@))
            &&& row_get(after, "pr_url"@) == edited(input.set_pr_url == Some(true), text_param_v(input.pr_url), row_get(row, "pr_url"@))
            &&& row_get(after, "pr_state"@) == edited(input.set_pr_state == Some(true), text_param_v(input.pr_state), row_get(row, "pr_state"@))
            &&& row_get(after, "pr_base_branch"@) == edited(input.set_pr_base_branch == Some(true), text_param_v(input.pr_base_branch), row_get(row, "pr_base_branch"@))
            &&& row_get(after, "updated_at"@) == edited(input.set_updated_at == Some(true), stamp_v(input.updated_at, now), row_get(row, "updated_at"@))
            &&& forall|c: Seq<char>| !workspace_edit_column(c) ==> #[trigger] row_get(after, c) == row_get(row, c)
        }),
{
    lemma_put_read();
    reveal_strlit("path");
    reveal_strlit("name");
    reveal_strlit("is_temporary");
    reveal_strlit("show_in_list");
    reveal_strlit("is_worktree");
    reveal_strlit("parent_workspace_id");
    reveal_strlit("worktree_branch");
    reveal_strlit("auto_worktree");
    reveal_strlit("pr_number");
    reveal_strlit("pr_url");
    reveal_strlit("pr_state");
    reveal_strlit("pr_base_branch");
    reveal_strlit("updated_at");
    assert("path"@.len() == 4);
    assert("name"@.len() == 4);
    assert("is_temporary"@.len() == 12);
    assert("show_in_list"@.len() == 12);
    assert("is_worktree"@.len() == 11);
    assert("parent_workspace_id"@.len() == 19);
    assert("worktree_branch"@.len() == 15);
    assert("auto_worktree"@.len() == 13);
    assert("pr_number"@.len() == 9);
    assert("pr_url"@.len() == 6);
    assert("pr_state"@.len() == 8);
    assert("pr_base_branch"@.len() == 14);
    assert("updated_at"@.len() == 10);
    assert("path"@[0] == 'p');
    assert("name"@[0] == 'n');
    assert("is_temporary"@[0] == 'i');
    assert("show_in_list"@[0] == 's');
    lemma_workspace_plan_row(row, input, now);
}

/// Whether `c` is one of the columns an edit of a prompt can set.
pub open spec fn prompt_edit_column(c: Seq<char>) -> bool {
    c == "name"@
        || c == "content"@
        || c == "sort_order"@
        || c == "updated_at"@
}

proof fn lemma_prompt_plan_row(row: Map<Seq<char>, SqlParam>, input: UpdatePromptFieldsInput, now: SqlParam)
    ensures
        apply_plan_v(row, prompt_updates_v(input), now) == put_if(put_if(put_if(put_if(row, input.set_name == Some(true), "name"@, text_param_v(input.name)), input.set_content == Some(true), "content"@, text_param_v(input.content)), input.set_sort_order == Some(true), "sort_order"@, int_param_v(input.sort_order)), input.set_updated_at == Some(true), "updated_at"@, stamp_v(input.updated_at, now)),
{
    let p0 = Seq::<FieldUpdate>::empty();
    let p1 = p0 + set_if(input.set_name, fu("name", text_param_v(input.name)));
    lemma_apply_set_if(row, p0, input.set_name, fu("name", text_param_v(input.name)), now);
    let p2 = p1 + set_if(input.set_content, fu("content", text_param_v(input.content)));
    lemma_apply_set_if(row, p1, input.set_content, fu("content", text_param_v(input.content)), now);
    let p3 = p2 + set_if(input.set_sort_order, fu("sort_order", int_param_v(input.sort_order)));
    lemma_apply_set_if(row, p2, input.set_sort_order, fu("sort_order", int_param_v(input.sort_order)), now);
    let p4 = p3 + set_if(input.set_updated_at, FieldUpdate { column: "updated_at", value: text_param_v(input.updated_at), default_now: true });
    lemma_apply_set_if(row, p3, input.set_updated_at, FieldUpdate { column: "updated_at", value: text_param_v(input.updated_at), default_now: true }, now);
    assert(p4 == prompt_updates_v(input));
}

/// Applying the plan of an edit of a prompt to its row changes exactly the
/// columns the edit sets: each takes its new value (`updated_at` the given
/// time, or `now`), and every other column keeps the value it held.
pub proof fn law_prompt_edit_row(row: Map<Seq<char>, SqlParam>, input: UpdatePromptFieldsInput, now: SqlParam)
    ensures
        ({ let after = apply_plan_v(row, prompt_updates_v(input), now);
            &&& row_get(after, "name"@) == edited(input.set_name == Some(true), text_param_v(input.name), row_get(row, "name"@))
            &&& row_get(after, "content"@) == edited(input.set_content == Some(true), text_param_v(input.content), row_get(row, "content"@))
            &&& row_get(after, "sort_order"@) == edited(input.set_sort_order == Some(true), int_param_v(input.sort_order), row_get(row, "sort_order"@))
            &&& row_get(after, "updated_at"@) == edited(input.set_updated_at == Some(true), stamp_v(input.updated_at, now), row_get(row, "updated_at"@))
            &&& forall|c: Seq<char>| !prompt_edit_column(c) ==> #[trigger] row_get(after, c) == row_get(row, c)
        }),
{
    lemma_put_read();
    reveal_strlit("name");
    reveal_strlit("content");
    reveal_strlit("sort_order");
    reveal_strlit("updated_at");
    assert("name"@.len() == 4);
    assert("content"@.len() == 7);
    assert("sort_order"@.len() == 10);
    assert("updated_at"@.len() == 10);
    assert("sort_order"@[0] == 's');
    assert("updated_at"@[0] == 'u');
    lemma_prompt_plan_row(row, input, now);
}

/// Whether `c` is one of the columns an edit of a thread label can set.
pub open spec fn thread_label_edit_column(c: Seq<char>) -> bool {
    c == "name"@
        || c == "color"@
        || c == "sort_order"@
        || c == "updated_at"@
}

proof fn lemma_thread_label_plan_row(row: Map<Seq<char>, SqlParam>, input: UpdateThreadLabelFieldsInput, now: SqlParam)
    ensures
        apply_plan_v(row, thread_label_updates_v(input), now) == put_if(put_if(put_if(put_if(row, input.set_name == Some(true), "name"@, text_param_v(input.name)), input.set_color == Some(true), "color"@, text_param_v(input.color)), input.set_sort_order == Some(true), "sort_order"@, int_param_v(input.sort_order)), input.set_updated_at == Some(true), "updated_at"@, stamp_v(input.updated_at, now)),
{
    let p0 = Seq::<FieldUpdate>::empty();
    let p1 = p0 + set_if(input.set_name, fu("name", text_param_v(input.name)));
    lemma_apply_set_if(row, p0, input.set_name, fu("name", text_param_v(input.name)), now);
    let p2 = p1 + set_if(input.set_color, fu("color", text_param_v(input.color)));
    lemma_apply_set_if(row, p1, input.set_color, fu("color", text_param_v(input.color)), now);
    let p3 = p2 + set_if(input.set_sort_order, fu("sort_order", int_param_v(input.sort_order)));
    lemma_apply_set_if(row, p2, input.set_sort_order, fu("sort_order", int_param_v(input.sort_order)), now);
    let p4 = p3 + set_if(input.set_updated_at, FieldUpdate { column: "updated_at", value: text_param_v(input.updated_at), default_now: true });
    lemma_apply_set_if(row, p3, input.set_updated_at, FieldUpdate { column: "updated_at", value: text_param_v(input.updated_at), default_now: true }, now);
    assert(p4 == thread_label_updates_v(input));
}

/// Applying the plan of an edit of a thread label to its row changes exactly the
/// columns the edit sets: each takes its new value (`updated_at` the given
/// time, or `now`), and every other column keeps the value it held.
pub proof fn law_thread_label_edit_row(row: Map<Seq<char>, SqlParam>, input: UpdateThreadLabelFieldsInput, now: SqlParam)
    ensures
        ({ let after = apply_plan_v(row, thread_label_updates_v(input), now);
            &&& row_get(after, "name"@) == edited(input.set_name == Some(true), text_param_v(input.name), row_get(row, "name"@))
            &&& row_get(after, "color"@) == edited(input.set_color == Some(true), text_param_v(input.color), row_get(row, "color"@))
            &&& row_get(after, "sort_order"@) == edited(input.set_sort_order == Some(true), int_param_v(input.sort_order), row_get(row, "sort_order"@))
            &&& row_get(after, "updated_at"@) == edited(input.set_updated_at == Some(true), stamp_v(input.updated_at, now), row_get(row, "updated_at"@))
            &&& forall|c: Seq<char>| !thread_label_edit_column(c) ==> #[trigger] row_get(after, c) == row_get(row, c)
        }),
{
    lemma_put_read();
    reveal_strlit("name");
    reveal_strlit("color");
    reveal_strlit("sort_order");
    reveal_strlit("updated_at");
    assert("name"@.len() == 4);
    assert("color"@.len() == 5);
    assert("sort_order"@.len() == 10);
    assert("updated_at"@.len() == 10);
    assert("sort_order"@[0] == 's');
    assert("updated_at"@[0] == 'u');
    lemma_thread_label_plan_row(row, input, now);
}

/// Whether `c` is one of the columns an edit of a skill can set.
pub open spec fn skill_state_edit_column(c: Seq<char>) -> bool {
    c == "path"@
        || c == "enabled"@
        || c == "sort_order"@
        || c == "updated_at"@
}

proof fn lemma_skill_state_plan_row(row: Map<Seq<char>, SqlParam>, input: UpdateSkillStateFieldsInput, now: SqlParam)
    ensures
        apply_plan_v(row, skill_state_updates_v(input), now) == put_if(put_if(put_if(put_if(row, input.set_path == Some(true), "path"@, text_param_v(input.path)), input.set_enabled == Some(true), "enabled"@, bool_param_v(input.enabled)), input.set_sort_order == Some(true), "sort_order"@, int_param_v(input.sort_order)), input.set_updated_at == Some(true), "updated_at"@, stamp_v(input.updated_at, now)),
{
    let p0 = Seq::<FieldUpdate>::empty();
    let p1 = p0 + set_if(input.set_path, fu("path", text_param_v(input.path)));
    lemma_apply_set_if(row, p0, input.set_path, fu("path", text_param_v(input.path)), now);
    let p2 = p1 + set_if(input.set_enabled, fu("enabled", bool_param_v(input.enabled)));
    lemma_apply_set_if(row, p1, input.set_enabled, fu("enabled", bool_param_v(input.enabled)), now);
    let p3 = p2 + set_if(input.set_sort_order, fu("sort_order", int_param_v(input.sort_order)));
    lemma_apply_set_if(row, p2, input.set_sort_order, fu("sort_order", int_param_v(input.sort_order)), now);
    let p4 = p3 + set_if(input.set_updated_at, FieldUpdate { column: "updated_at", value: text_param_v(input.updated_at), default_now: true });
    lemma_apply_set_if(row, p3, input.set_updated_at, FieldUpdate { column: "updated_at", value: text_param_v(input.updated_at), default_now: true }, now);
    assert(p4 == skill_state_updates_v(input));
}

/// Applying the plan of an edit of a skill to its row changes exactly the
/// columns the edit sets: each takes its new value (`updated_at` the given
/// time, or `now`), and every other column keeps the value it held.
pub proof fn law_skill_state_edit_row(row: Map<Seq<char>, SqlParam>, input: UpdateSkillStateFieldsInput, now: SqlParam)
    ensures
        ({ let after = apply_plan_v(row, skill_state_updates_v(input), now);
            &&& row_get(after, "path"@) == edited(input.set_path == Some(true), text_param_v(input.path), row_get(row, "path"@))
            &&& row_get(after, "enabled"@) == edited(input.set_enabled == Some(true), bool_param_v(input.enabled), row_get(row, "enabled"@))
            &&& row_get(after, "sort_order"@) == edited(input.set_sort_order == Some(true), int_param_v(input.sort_order), row_get(row, "sort_order"@))
            &&& row_get(after, "updated_at"@) == edited(input.set_updated_at == Some(true), stamp_v(input.updated_at, now), row_get(row, "updated_at"@))
            &&& forall|c: Seq<char>| !skill_state_edit_column(c) ==> #[trigger] row_get(after, c) == row_get(row, c)
        }),
{
    lemma_put_read();
    reveal_strlit("path");
    reveal_strlit("enabled");
    reveal_strlit("sort_order");
    reveal_strlit("updated_at");
    assert("path"@.len() == 4);
    assert("enabled"@.len() == 7);
    assert("sort_order"@.len() == 10);
    assert("updated_at"@.len() == 10);
    assert("sort_order"@[0] == 's');
    assert("updated_at"@[0] == 'u');
    lemma_skill_state_plan_row(row, input, now);
}

/// Whether `c` is one of the columns an edit of a prompt app can set.
pub open spec fn prompt_app_edit_column(c: Seq<char>) -> bool {
    c == "name"@
        || c == "description"@
        || c == "icon"@
        || c == "prompt_template"@
        || c == "placeholders"@
        || c == "model"@
        || c == "tools"@
        || c == "reasoning_effort"@
        || c == "expects_image_result"@
        || c == "is_incognito"@
        || c == "enabled"@
        || c == "shortcut"@
        || c == "window_width"@
        || c == "window_height"@
        || c == "font_size"@
        || c == "updated_at"@
}

proof fn lemma_prompt_app_plan_row(row: Map<Seq<char>, SqlParam>, input: UpdatePromptAppFieldsInput, now: SqlParam)
    ensures
        apply_plan_v(row, prompt_app_updates_v(input), now) == put_if(put_if(put_if(put_if(put_if(put_if(put_if(put_if(put_if(put_if(put_if(put_if(put_if(put_if(put_if(put_if(row, input.set_name == Some(true), "name"@, text_param_v(input.name)), input.set_description == Some(true), "description"@, text_param_v(input.description)), input.set_icon == Some(true), "icon"@, text_param_v(input.icon)), input.set_prompt_template == Some(true), "prompt_template"@, text_param_v(input.prompt_template)), input.set_placeholders == Some(true), "placeholders"@, text_param_v(input.placeholders)), input.set_model == Some(true), "model"@, text_param_v(input.model)), input.set_tools == Some(true), "tools"@, text_param_v(input.tools)), input.set_reasoning_effort == Some(true), "reasoning_effort"@, text_param_v(input.reasoning_effort)), input.set_expects_image_result == Some(true), "expects_image_result"@, bool_param_v(input.expects_image_result)), input.set_is_incognito == Some(true), "is_incognito"@, bool_param_v(input.is_incognito)), input.set_enabled == Some(true), "enabled"@, bool_param_v(input.enabled)), input.set_shortcut == Some(true), "shortcut"@, text_param_v(input.shortcut)), input.set_window_width == Some(true), "window_width"@, int_param_v(input.window_width)), input.set_window_height == Some(true), "window_height"@, int_param_v(input.window_height)), input.set_font_size == Some(true), "font_size"@, int_param_v(input.font_size)), input.set_updated_at == Some(true), "updated_at"@, stamp_v(input.updated_at, now)),
{
    let p0 = Seq::<FieldUpdate>::empty();
    let p1 = p0 + set_if(input.set_name, fu("name", text_param_v(input.name)));
    lemma_apply_set_if(row, p0, input.set_name, fu("name", text_param_v(input.name)), now);
    let p2 = p1 + set_if(input.set_description, fu("description", text_param_v(input.description)));
    lemma_apply_set_if(row, p1, input.set_description, fu("description", text_param_v(input.description)), now);
    let p3 = p2 + set_if(input.set_icon, fu("icon", text_param_v(input.icon)));
    lemma_apply_set_if(row, p2, input.set_icon, fu("icon", text_param_v(input.icon)), now);
    let p4 = p3 + set_if(input.set_prompt_template, fu("prompt_template", text_param_v(input.prompt_template)));
    lemma_apply_set_if(row, p3, input.set_prompt_template, fu("prompt_template", text_param_v(input.prompt_template)), now);
    let p5 = p4 + set_if(input.set_placeholders, fu("placeholders", text_param_v(input.placeholders)));
    lemma_apply_set_if(row, p4, input.set_placeholders, fu("placeholders", text_param_v(input.placeholders)), now);
    let p6 = p5 + set_if(input.set_model, fu("model", text_param_v(input.model)));
    lemma_apply_set_if(row, p5, input.set_model, fu("model", text_param_v(input.model)), now);
    let p7 = p6 + set_if(input.set_tools, fu("tools", text_param_v(input.tools)));
    lemma_apply_set_if(row, p6, input.set_tools, fu("tools", text_param_v(input.tools)), now);
    let p8 = p7 + set_if(input.set_reasoning_effort, fu("reasoning_effort", text_param_v(input.reasoning_effort)));
    lemma_apply_set_if(row, p7, input.set_reasoning_effort, fu("reasoning_effort", text_param_v(input.reasoning_effort)), now);
    let p9 = p8 + set_if(input.set_expects_image_result, fu("expects_image_result", bool_param_v(input.expects_image_result)));
    lemma_apply_set_if(row, p8, input.set_expects_image_result, fu("expects_image_result", bool_param_v(input.expects_image_result)), now);
    let p10 = p9 + set_if(input.set_is_incognito, fu("is_incognito", bool_param_v(input.is_incognito)));
    lemma_apply_set_if(row, p9, input.set_is_incognito, fu("is_incognito", bool_param_v(input.is_incognito)), now);
    let p11 = p10 + set_if(input.set_enabled, fu("enabled", bool_param_v(input.enabled)));
    lemma_apply_set_if(row, p10, input.set_enabled, fu("enabled", bool_param_v(input.enabled)), now);
    let p12 = p11 + set_if(input.set_shortcut, fu("shortcut", text_param_v(input.shortcut)));
    lemma_apply_set_if(row, p11, input.set_shortcut, fu("shortcut", text_param_v(input.shortcut)), now);
    let p13 = p12 + set_if(input.set_window_width, fu("window_width", int_param_v(input.window_width)));
    lemma_apply_set_if(row, p12, input.set_window_width, fu("window_width", int_param_v(input.window_width)), now);
    let p14 = p13 + set_if(input.set_window_height, fu("window_height", int_param_v(input.window_height)));
    lemma_apply_set_if(row, p13, input.set_window_height, fu("window_height", int_param_v(input.window_height)), now);
    let p15 = p14 + set_if(input.set_font_size, fu("font_size", int_param_v(input.font_size)));
    lemma_apply_set_if(row, p14, input.set_font_size, fu("font_size", int_param_v(input.font_size)), now);
    let p16 = p15 + set_if(input.set_updated_at, FieldUpdate { column: "updated_at", value: text_param_v(input.updated_at), default_now: true });
    lemma_apply_set_if(row, p15, input.set_updated_at, FieldUpdate { column: "updated_at", value: text_param_v(input.updated_at), default_now: true }, now);
    assert(p16 == prompt_app_updates_v(input));
}

/// Applying the plan of an edit of a prompt app to its row changes exactly the
/// columns the edit sets: each takes its new value (`updated_at` the given
/// time, or `now`), and every other column keeps the value it held.
pub proof fn law_prompt_app_edit_row(row: Map<Seq<char>, SqlParam>, input: UpdatePromptAppFieldsInput, now: SqlParam)
    ensures
        ({ let after = apply_plan_v(row, prompt_app_updates_v(input), now);
            &&& row_get(after, "name"@) == edited(input.set_name == Some(true), text_param_v(input.name), row_get(row, "name"@))
            &&& row_get(after, "description"@) == edited(input.set_description == Some(true), text_param_v(input.description), row_get(row, "description"@))
            &&& row_get(after, "icon"@) == edited(input.set_icon == Some(true), text_param_v(input.icon), row_get(row, "icon"@))
            &&& row_get(after, "prompt_template"@) == edited(input.set_prompt_template == Some(true), text_param_v(input.prompt_template), row_get(row, "prompt_template"@))
            &&& row_get(after, "placeholders"@) == edited(input.set_placeholders == Some(true), text_param_v(input.placeholders), row_get(row, "placeholders"@))
            &&& row_get(after, "model"@) == edited(input.set_model == Some(true), text_param_v(input.model), row_get(row, "model"@))
            &&& row_get(after, "tools"@) == edited(input.set_tools == Some(true), text_param_v(input.tools), row_get(row, "tools"@))
            &&& row_get(after, "reasoning_effort"@) == edited(input.set_reasoning_effort == Some(true), text_param_v(input.reasoning_effort), row_get(row, "reasoning_effort"@))
            &&& row_get(after, "expects_image_result"@) == edited(input.set_expects_image_result == Some(true), bool_param_v(input.expects_image_result), row_get(row, "expects_image_result"@))
            &&& row_get(after, "is_incognito"@) == edited(input.set_is_incognito == Some(true), bool_param_v(input.is_incognito), row_get(row, "is_incognito"@))
            &&& row_get(after, "enabled"@) == edited(input.set_enabled == Some(true), bool_param_v(input.enabled), row_get(row, "enabled"@))
            &&& row_get(after, "shortcut"@) == edited(input.set_shortcut == Some(true), text_param_v(input.shortcut), row_get(row, "shortcut"@))
            &&& row_get(after, "window_width"@) == edited(input.set_window_width == Some(true), int_param_v(input.window_width), row_get(row, "window_width"@))
            &&& row_get(after, "window_height"@) == edited(input.set_window_height == Some(true), int_param_v(input.window_height), row_get(row, "window_height"@))
            &&& row_get(after, "font_size"@) == edited(input.set_font_size == Some(true), int_param_v(input.font_size), row_get(row, "font_size"@))
            &&& row_get(after, "updated_at"@) == edited(input.set_updated_at == Some(true), stamp_v(input.updated_at, now), row_get(row, "updated_at"@))
            &&& forall|c: Seq<char>| !prompt_app_edit_column(c) ==> #[trigger] row_get(after, c) == row_get(row, c)
        }),
{
    lemma_put_read();
    reveal_strlit("name");
    reveal_strlit("description");
    reveal_strlit("icon");
    reveal_strlit("prompt_template");
    reveal_strlit("placeholders");
    reveal_strlit("model");
    reveal_strlit("tools");
    reveal_strlit("reasoning_effort");
    reveal_strlit("expects_image_result");
    reveal_strlit("is_incognito");
    reveal_strlit("enabled");
    reveal_strlit("shortcut");
    reveal_strlit("window_width");
    reveal_strlit("window_height");
    reveal_strlit("font_size");
    reveal_strlit("updated_at");
    assert("name"@.len() == 4);
    assert("description"@.len() == 11);
    assert("icon"@.len() == 4);
    assert("prompt_template"@.len() == 15);
    assert("placeholders"@.len() == 12);
    assert("model"@.len() == 5);
    assert("tools"@.len() == 5);
    assert("reasoning_effort"@.len() == 16);
    assert("expects_image_result"@.len() == 20);
    assert("is_incognito"@.len() == 12);
    assert("enabled"@.len() == 7);
    assert("shortcut"@.len() == 8);
    assert("window_width"@.len() == 12);
    assert("window_height"@.len() == 13);
    assert("font_size"@.len() == 9);
    assert("updated_at"@.len() == 10);
    assert("name"@[0] == 'n');
    assert("icon"@[0] == 'i');
    assert("placeholders"@[0] == 'p');
    assert("is_incognito"@[0] == 'i');
    assert("window_width"@[0] == 'w');
    assert("model"@[0] == 'm');
    assert("tools"@[0] == 't');
    lemma_prompt_app_plan_row(row, input, now);
}

/// Whether `c` is one of the columns an edit of a provider can set.
pub open spec fn provider_edit_column(c: Seq<char>) -> bool {
    c == "name"@
        || c == "type"@
        || c == "api_key"@
        || c == "models"@
        || c == "base_url"@
        || c == "api_version"@
        || c == "enabled"@
        || c == "is_response_api"@
        || c == "acp_command"@
        || c == "acp_args"@
        || c == "acp_mcp_server_ids"@
        || c == "acp_auth_method_id"@
        || c == "acp_api_provider_id"@
        || c == "acp_model_mapping"@
        || c == "use_max_completion_tokens"@
        || c == "api_format"@
        || c == "available_models"@
        || c == "copilot_account_id"@
        || c == "updated_at"@
}

proof fn lemma_provider_plan_row(row: Map<Seq<char>, SqlParam>, input: UpdateProviderFieldsInput, now: SqlParam)
    ensures
        apply_plan_v(row, provider_updates_v(input), now) == put_if(put_if(put_if(put_if(put_if(put_if(put_if(put_if(put_if(put_if(put_if(put_if(put_if(put_if(put_if(put_if(put_if(put_if(put_if(row, input.set_name == Some(true), "name"@, text_param_v(input.name)), input.set_type == Some(true), "type"@, text_param_v(input.kind)), input.set_api_key == Some(true), "api_key"@, text_param_v(input.api_key)), input.set_models == Some(true), "models"@, text_param_v(input.models)), input.set_base_url == Some(true), "base_url"@, text_param_v(input.base_url)), input.set_api_version == Some(true), "api_version"@, text_param_v(input.api_version)), input.set_enabled == Some(true), "enabled"@, bool_param_v(input.enabled)), input.set_is_response_api == Some(true), "is_response_api"@, bool_param_v(input.is_response_api)), input.set_acp_command == Some(true), "acp_command"@, text_param_v(input.acp_command)), input.set_acp_args == Some(true), "acp_args"@, text_param_v(input.acp_args)), input.set_acp_mcp_server_ids == Some(true), "acp_mcp_server_ids"@, text_param_v(input.acp_mcp_server_ids)), input.set_acp_auth_method_id == Some(true), "acp_auth_method_id"@, text_param_v(input.acp_auth_method_id)), input.set_acp_api_provider_id == Some(true), "acp_api_provider_id"@, text_param_v(input.acp_api_provider_id)), input.set_acp_model_mapping == Some(true), "acp_model_mapping"@, text_param_v(input.acp_model_mapping)), input.set_use_max_completion_tokens == Some(true), "use_max_completion_tokens"@, bool_param_v(input.use_max_completion_tokens)), input.set_api_format == Some(true), "api_format"@, text_param_v(input.api_format)), input.set_available_models == Some(true), "available_models"@, text_param_v(input.available_models)), input.set_copilot_account_id == Some(true), "copilot_account_id"@, text_param_v(input.copilot_account_id)), input.set_updated_at == Some(true), "updated_at"@, stamp_v(input.updated_at, now)),
{
    let p0 = Seq::<FieldUpdate>::empty();
    let p1 = p0 + set_if(input.set_name, fu("name", text_param_v(input.name)));
    lemma_apply_set_if(row, p0, input.set_name, fu("name", text_param_v(input.name)), now);
    let p2 = p1 + set_if(input.set_type, fu("type", text_param_v(input.kind)));
    lemma_apply_set_if(row, p1, input.set_type, fu("type", text_param_v(input.kind)), now);
    let p3 = p2 + set_if(input.set_api_key, fu("api_key", text_param_v(input.api_key)));
    lemma_apply_set_if(row, p2, input.set_api_key, fu("api_key", text_param_v(input.api_key)), now);
    let p4 = p3 + set_if(input.set_models, fu("models", text_param_v(input.models)));
    lemma_apply_set_if(row, p3, input.set_models, fu("models", text_param_v(input.models)), now);
    let p5 = p4 + set_if(input.set_base_url, fu("base_url", text_param_v(input.base_url)));
    lemma_apply_set_if(row, p4, input.set_base_url, fu("base_url", text_param_v(input.base_url)), now);
    let p6 = p5 + set_if(input.set_api_version, fu("api_version", text_param_v(input.api_version)));
    lemma_apply_set_if(row, p5, input.set_api_version, fu("api_version", text_param_v(input.api_version)), now);
    let p7 = p6 + set_if(input.set_enabled, fu("enabled", bool_param_v(input.enabled)));
    lemma_apply_set_if(row, p6, input.set_enabled, fu("enabled", bool_param_v(input.enabled)), now);
    let p8 = p7 + set_if(input.set_is_response_api, fu("is_response_api", bool_param_v(input.is_response_api)));
    lemma_apply_set_if(row, p7, input.set_is_response_api, fu("is_response_api", bool_param_v(input.is_response_api)), now);
    let p9 = p8 + set_if(input.set_acp_command, fu("acp_command", text_param_v(input.acp_command)));
    lemma_apply_set_if(row, p8, input.set_acp_command, fu("acp_command", text_param_v(input.acp_command)), now);
    let p10 = p9 + set_if(input.set_acp_args, fu("acp_args", text_param_v(input.acp_args)));
    lemma_apply_set_if(row, p9, input.set_acp_args, fu("acp_args", text_param_v(input.acp_args)), now);
    let p11 = p10 + set_if(input.set_acp_mcp_server_ids, fu("acp_mcp_server_ids", text_param_v(input.acp_mcp_server_ids)));
    lemma_apply_set_if(row, p10, input.set_acp_mcp_server_ids, fu("acp_mcp_server_ids", text_param_v(input.acp_mcp_server_ids)), now);
    let p12 = p11 + set_if(input.set_acp_auth_method_id, fu("acp_auth_method_id", text_param_v(input.acp_auth_method_id)));
    lemma_apply_set_if(row, p11, input.set_acp_auth_method_id, fu("acp_auth_method_id", text_param_v(input.acp_auth_method_id)), now);
    let p13 = p12 + set_if(input.set_acp_api_provider_id, fu("acp_api_provider_id", text_param_v(input.acp_api_provider_id)));
    lemma_apply_set_if(row, p12, input.set_acp_api_provider_id, fu("acp_api_provider_id", text_param_v(input.acp_api_provider_id)), now);
    let p14 = p13 + set_if(input.set_acp_model_mapping, fu("acp_model_mapping", text_param_v(input.acp_model_mapping)));
    lemma_apply_set_if(row, p13, input.set_acp_model_mapping, fu("acp_model_mapping", text_param_v(input.acp_model_mapping)), now);
    let p15 = p14 + set_if(input.set_use_max_completion_tokens, fu("use_max_completion_tokens", bool_param_v(input.use_max_completion_tokens)));
    lemma_apply_set_if(row, p14, input.set_use_max_completion_tokens, fu("use_max_completion_tokens", bool_param_v(input.use_max_completion_tokens)), now);
    let p16 = p15 + set_if(input.set_api_format, fu("api_format", text_param_v(input.api_format)));
    lemma_apply_set_if(row, p15, input.set_api_format, fu("api_format", text_param_v(input.api_format)), now);
    let p17 = p16 + set_if(input.set_available_models, fu("available_models", text_param_v(input.available_models)));
    lemma_apply_set_if(row, p16, input.set_available_models, fu("available_models", text_param_v(input.available_models)), now);
    let p18 = p17 + set_if(input.set_copilot_account_id, fu("copilot_account_id", text_param_v(input.copilot_account_id)));
    lemma_apply_set_if(row, p17, input.set_copilot_account_id, fu("copilot_account_id", text_param_v(input.copilot_account_id)), now);
    let p19 = p18 + set_if(input.set_updated_at, FieldUpdate { column: "updated_at", value: text_param_v(input.updated_at), default_now: true });
    lemma_apply_set_if(row, p18, input.set_updated_at, FieldUpdate { column: "updated_at", value: text_param_v(input.updated_at), default_now: true }, now);
    assert(p19 == provider_updates_v(input));
}

/// Applying the plan of an edit of a provider to its row changes exactly the
/// columns the edit sets: each takes its new value (`updated_at` the given
/// time, or `now`), and every other column keeps the value it held.
pub proof fn law_provider_edit_row(row: Map<Seq<char>, SqlParam>, input: UpdateProviderFieldsInput, now: SqlParam)
    ensures
        ({ let after = apply_plan_v(row, provider_updates_v(input), now);
            &&& row_get(after, "name"@) == edited(input.set_name == Some(true), text_param_v(input.name), row_get(row, "name"@))
            &&& row_get(after, "type"@) == edited(input.set_type == Some(true), text_param_v(input.kind), row_get(row, "type"@))
            &&& row_get(after, "api_key"@) == edited(input.set_api_key == Some(true), text_param_v(input.api_key), row_get(row, "api_key"@))
            &&& row_get(after, "models"@) == edited(input.set_models == Some(true), text_param_v(input.models), row_get(row, "models"@))
            &&& row_get(after, "base_url"@) == edited(input.set_base_url == Some(true), text_param_v(input.base_url), row_get(row, "base_url"@))
            &&& row_get(after, "api_version"@) == edited(input.set_api_version == Some(true), text_param_v(input.api_version), row_get(row, "api_version"@))
            &&& row_get(after, "enabled"@) == edited(input.set_enabled == Some(true), bool_param_v(input.enabled), row_get(row, "enabled"@))
            &&& row_get(after, "is_response_api"@) == edited(input.set_is_response_api == Some(true), bool_param_v(input.is_response_api), row_get(row, "is_response_api"@))
            &&& row_get(after, "acp_command"@) == edited(input.set_acp_command == Some(true), text_param_v(input.acp_command), row_get(row, "acp_command"@))
            &&& row_get(after, "acp_args"@) == edited(input.set_acp_args == Some(true), text_param_v(input.acp_args), row_get(row, "acp_args"@))
            &&& row_get(after, "acp_mcp_server_ids"@) == edited(input.set_acp_mcp_server_ids == Some(true), text_param_v(input.acp_mcp_server_ids), row_get(row, "acp_mcp_server_ids"@))
            &&& row_get(after, "acp_auth_method_id"@) == edited(input.set_acp_auth_method_id == Some(true), text_param_v(input.acp_auth_method_id), row_get(row, "acp_auth_method_id"@))
            &&& row_get(after, "acp_api_provider_id"@) == edited(input.set_acp_api_provider_id == Some(true), text_param_v(input.acp_api_provider_id), row_get(row, "acp_api_provider_id"@))
            &&& row_get(after, "acp_model_mapping"@) == edited(input.set_acp_model_mapping == Some(true), text_param_v(input.acp_model_mapping), row_get(row, "acp_model_mapping"@))
            &&& row_get(after, "use_max_completion_tokens"@) == edited(input.set_use_max_completion_tokens == Some(true), bool_param_v(input.use_max_completion_tokens), row_get(row, "use_max_completion_tokens"@))
            &&& row_get(after, "api_format"@) == edited(input.set_api_format == Some(true), text_param_v(input.api_format), row_get(row, "api_format"@))
            &&& row_get(after, "available_models"@) == edited(input.set_available_models == Some(true), text_param_v(input.available_models), row_get(row, "available_models"@))
            &&& row_get(after, "copilot_account_id"@) == edited(input.set_copilot_account_id == Some(true), text_param_v(input.copilot_account_id), row_get(row, "copilot_account_id"@))
            &&& row_get(after, "updated_at"@) == edited(input.set_updated_at == Some(true), stamp_v(input.updated_at, now), row_get(row, "updated_at"@))
            &&& forall|c: Seq<char>| !provider_edit_column(c) ==> #[trigger] row_get(after, c) == row_get(row, c)
        }),
{
    lemma_put_read();
    reveal_strlit("name");
    reveal_strlit("type");
    reveal_strlit("api_key");
    reveal_strlit("models");
    reveal_strlit("base_url");
    reveal_strlit("api_version");
    reveal_strlit("enabled");
    reveal_strlit("is_response_api");
    reveal_strlit("acp_command");
    reveal_strlit("acp_args");
    reveal_strlit("acp_mcp_server_ids");
    reveal_strlit("acp_auth_method_id");
    reveal_strlit("acp_api_provider_id");
    reveal_strlit("acp_model_mapping");
    reveal_strlit("use_max_completion_tokens");
    reveal_strlit("api_format");
    reveal_strlit("available_models");
    reveal_strlit("copilot_account_id");
    reveal_strlit("updated_at");
    assert("name"@.len() == 4);
    assert("type"@.len() == 4);
    assert("api_key"@.len() == 7);
    assert("models"@.len() == 6);
    assert("base_url"@.len() == 8);
    assert("api_version"@.len() == 11);
    assert("enabled"@.len() == 7);
    assert("is_response_api"@.len() == 15);
    assert("acp_command"@.len() == 11);
    assert("acp_args"@.len() == 8);
    assert("acp_mcp_server_ids"@.len() == 18);
    assert("acp_auth_method_id"@.len() == 18);
    assert("acp_api_provider_id"@.len() == 19);
    assert("acp_model_mapping"@.len() == 17);
    assert("use_max_completion_tokens"@.len() == 25);
    assert("api_format"@.len() == 10);
    assert("available_models"@.len() == 16);
    assert("copilot_account_id"@.len() == 18);
    assert("updated_at"@.len() == 10);
    assert("name"@[0] == 'n');
    assert("type"@[0] == 't');
    assert("api_key"@[0] == 'a');
    assert("enabled"@[0] == 'e');
    assert("base_url"@[0] == 'b');
    assert("acp_args"@[0] == 'a');
    assert("api_version"@[1] == 'p');
    assert("acp_command"@[1] == 'c');
    assert("acp_mcp_server_ids"@[0] == 'a');
    assert("acp_mcp_server_ids"@[4] == 'm');
    assert("acp_auth_method_id"@[0] == 'a');
    assert("acp_auth_method_id"@[4] == 'a');
    assert("copilot_account_id"@[0] == 'c');
    assert("api_format"@[0] == 'a');
    assert("updated_at"@[0] == 'u');
    lemma_provider_plan_row(row, input, now);
}

/// Whether `c` is one of the columns an edit of the core state of a thread can set.
pub open spec fn thread_core_edit_column(c: Seq<char>) -> bool {
    c == "metadata"@
        || c == "is_generating"@
        || c == "reasoning_effort"@
        || c == "updated_at"@
}

proof fn lemma_thread_core_plan_row(row: Map<Seq<char>, SqlParam>, input: UpdateThreadCoreInput, now: SqlParam)
    ensures
        apply_plan_v(row, thread_core_updates_v(input), now) == put_if(put_if(put_if(put_if(row, input.metadata is Some, "metadata"@, text_param_v(input.metadata)), input.is_generating is Some, "is_generating"@, bool_param_v(input.is_generating)), input.reasoning_effort is Some, "reasoning_effort"@, text_param_v(input.reasoning_effort)), true, "updated_at"@, stamp_v(input.updated_at, now)),
{
    let p0 = Seq::<FieldUpdate>::empty();
    let p1 = p0 + set_some(input.metadata, fu("metadata", text_param_v(input.metadata)));
    lemma_apply_set_some(row, p0, input.metadata, fu("metadata", text_param_v(input.metadata)), now);
    let p2 = p1 + set_some(input.is_generating, fu("is_generating", bool_param_v(input.is_generating)));
    lemma_apply_set_some(row, p1, input.is_generating, fu("is_generating", bool_param_v(input.is_generating)), now);
    let p3 = p2 + set_some(input.reasoning_effort, fu("reasoning_effort", text_param_v(input.reasoning_effort)));
    lemma_apply_set_some(row, p2, input.reasoning_effort, fu("reasoning_effort", text_param_v(input.reasoning_effort)), now);
    let p4 = p3 + seq![FieldUpdate { column: "updated_at", value: text_param_v(input.updated_at), default_now: true }];
    lemma_apply_one(row, p3, FieldUpdate { column: "updated_at", value: text_param_v(input.updated_at), default_now: true }, now);
    assert(p4 == thread_core_updates_v(input));
}

/// Applying the plan of an edit of the core state of a thread to its row changes exactly the
/// columns the edit sets: each takes its new value (`updated_at` the given
/// time, or `now`), and every other column keeps the value it held.
pub proof fn law_thread_core_edit_row(row: Map<Seq<char>, SqlParam>, input: UpdateThreadCoreInput, now: SqlParam)
    ensures
        ({ let after = apply_plan_v(row, thread_core_updates_v(input), now);
            &&& row_get(after, "metadata"@) == edited(input.metadata is Some, text_param_v(input.metadata), row_get(row, "metadata"@))
            &&& row_get(after, "is_generating"@) == edited(input.is_generating is Some, bool_param_v(input.is_generating), row_get(row, "is_generating"@))
            &&& row_get(after, "reasoning_effort"@) == edited(input.reasoning_effort is Some, text_param_v(input.reasoning_effort), row_get(row, "reasoning_effort"@))
            &&& row_get(after, "updated_at"@) == Some(stamp_v(input.updated_at, now))
            &&& forall|c: Seq<char>| !thread_core_edit_column(c) ==> #[trigger] row_get(after, c) == row_get(row, c)
        }),
{
    lemma_put_read();
    reveal_strlit("metadata");
    reveal_strlit("is_generating");
    reveal_strlit("reasoning_effort");
    reveal_strlit("updated_at");
    assert("metadata"@.len() == 8);
    assert("is_generating"@.len() == 13);
    assert("reasoning_effort"@.len() == 16);
    assert("updated_at"@.len() == 10);
    lemma_thread_core_plan_row(row, input, now);
}

/// Whether `c` is one of the columns an edit of a custom theme can set.
pub open spec fn custom_theme_edit_column(c: Seq<char>) -> bool {
    c == "display_name"@
        || c == "type"@
        || c == "base_30"@
        || c == "base_16"@
        || c == "based_on"@
        || c == "updated_at"@
}

proof fn lemma_custom_theme_plan_row(row: Map<Seq<char>, SqlParam>, input: UpdateCustomThemeInput, now: SqlParam)
    ensures
        apply_plan_v(row, custom_theme_updates_v(input), now) == put_if(put_if(put_if(put_if(put_if(put_if(row, input.display_name is Some, "display_name"@, text_param_v(input.display_name)), input.kind is Some, "type"@, text_param_v(input.kind)), input.base_30 is Some, "base_30"@, text_param_v(input.base_30)), input.base_16 is Some, "base_16"@, text_param_v(input.base_16)), input.based_on is Some, "based_on"@, text_param_v(input.based_on)), true, "updated_at"@, stamp_v(input.updated_at, now)),
{
    let p0 = Seq::<FieldUpdate>::empty();
    let p1 = p0 + set_some(input.display_name, fu("display_name", text_param_v(input.display_name)));
    lemma_apply_set_some(row, p0, input.display_name, fu("display_name", text_param_v(input.display_name)), now);
    let p2 = p1 + set_some(input.kind, fu("type", text_param_v(input.kind)));
    lemma_apply_set_some(row, p1, input.kind, fu("type", text_param_v(input.kind)), now);
    let p3 = p2 + set_some(input.base_30, fu("base_30", text_param_v(input.base_30)));
    lemma_apply_set_some(row, p2, input.base_30, fu("base_30", text_param_v(input.base_30)), now);
    let p4 = p3 + set_some(input.base_16, fu("base_16", text_param_v(input.base_16)));
    lemma_apply_set_some(row, p3, input.base_16, fu("base_16", text_param_v(input.base_16)), now);
    let p5 = p4 + set_some(input.based_on, fu("based_on", text_param_v(input.based_on)));
    lemma_apply_set_some(row, p4, input.based_on, fu("based_on", text_param_v(input.based_on)), now);
    let p6 = p5 + seq![FieldUpdate { column: "updated_at", value: text_param_v(input.updated_at), default_now: true }];
    lemma_apply_one(row, p5, FieldUpdate { column: "updated_at", value: text_param_v(input.updated_at), default_now: true }, now);
    assert(p6 == custom_theme_updates_v(input));
}

/// Applying the plan of an edit of a custom theme to its row changes exactly the
/// columns the edit sets: each takes its new value (`updated_at` the given
/// time, or `now`), and every other column keeps the value it held.
pub proof fn law_custom_theme_edit_row(row: Map<Seq<char>, SqlParam>, input: UpdateCustomThemeInput, now: SqlParam)
    ensures
        ({ let after = apply_plan_v(row, custom_theme_updates_v(input), now);
            &&& row_get(after, "display_name"@) == edited(input.display_name is Some, text_param_v(input.display_name), row_get(row, "display_name"@))
            &&& row_get(after, "type"@) == edited(input.kind is Some, text_param_v(input.kind), row_get(row, "type"@))
            &&& row_get(after, "base_30"@) == edited(input.base_30 is Some, text_param_v(input.base_30), row_get(row, "base_30"@))
            &&& row_get(after, "base_16"@) == edited(input.base_16 is Some, text_param_v(input.base_16), row_get(row, "base_16"@))
            &&& row_get(after, "based_on"@) == edited(input.based_on is Some, text_param_v(input.based_on), row_get(row, "based_on"@))
            &&& row_get(after, "updated_at"@) == Some(stamp_v(input.updated_at, now))
            &&& forall|c: Seq<char>| !custom_theme_edit_column(c) ==> #[trigger] row_get(after, c) == row_get(row, c)
        }),
{
    lemma_put_read();
    reveal_strlit("display_name");
    reveal_strlit("type");
    reveal_strlit("base_30");
    reveal_strlit("base_16");
    reveal_strlit("based_on");
    reveal_strlit("updated_at");
    assert("display_name"@.len() == 12);
    assert("type"@.len() == 4);
    assert("base_30"@.len() == 7);
    assert("base_16"@.len() == 7);
    assert("based_on"@.len() == 8);
    assert("updated_at"@.len() == 10);
    assert("base_30"@[5] == '3');
    assert("base_16"@[5] == '1');
    lemma_custom_theme_plan_row(row, input, now);
}

/// Whether `c` is one of the columns an edit of the usage migration status can set.
pub open spec fn usage_migration_edit_column(c: Seq<char>) -> bool {
    c == "status"@
        || c == "total_count"@
        || c == "migrated_count"@
        || c == "last_migrated_id"@
        || c == "started_at"@
        || c == "completed_at"@
        || c == "error_message"@
}

proof fn lemma_usage_migration_plan_row(row: Map<Seq<char>, SqlParam>, input: UpdateUsageMigrationStatusInput, now: SqlParam)
    ensures
        apply_plan_v(row, usage_migration_updates_v(input), now) == put_if(put_if(put_if(put_if(put_if(put_if(put_if(row, input.status is Some, "status"@, text_param_v(input.status)), input.total_count is Some, "total_count"@, int_param_v(input.total_count)), input.migrated_count is Some, "migrated_count"@, int_param_v(input.migrated_count)), input.last_migrated_id is Some, "last_migrated_id"@, text_param_v(input.last_migrated_id)), input.started_at is Some, "started_at"@, text_param_v(input.started_at)), input.completed_at is Some, "completed_at"@, text_param_v(input.completed_at)), input.error_message is Some, "error_message"@, text_param_v(input.error_message)),
{
    let p0 = Seq::<FieldUpdate>::empty();
    let p1 = p0 + set_some(input.status, fu("status", text_param_v(input.status)));
    lemma_apply_set_some(row, p0, input.status, fu("status", text_param_v(input.status)), now);
    let p2 = p1 + set_some(input.total_count, fu("total_count", int_param_v(input.total_count)));
    lemma_apply_set_some(row, p1, input.total_count, fu("total_count", int_param_v(input.total_count)), now);
    let p3 = p2 + set_some(input.migrated_count, fu("migrated_count", int_param_v(input.migrated_count)));
    lemma_apply_set_some(row, p2, input.migrated_count, fu("migrated_count", int_param_v(input.migrated_count)), now);
    let p4 = p3 + set_some(input.last_migrated_id, fu("last_migrated_id", text_param_v(input.last_migrated_id)));
    lemma_apply_set_some(row, p3, input.last_migrated_id, fu("last_migrated_id", text_param_v(input.last_migrated_id)), now);
    let p5 = p4 + set_some(input.started_at, fu("started_at", text_param_v(input.started_at)));
    lemma_apply_set_some(row, p4, input.started_at, fu("started_at", text_param_v(input.started_at)), now);
    let p6 = p5 + set_some(input.completed_at, fu("completed_at", text_param_v(input.completed_at)));
    lemma_apply_set_some(row, p5, input.completed_at, fu("completed_at", text_param_v(input.completed_at)), now);
    let p7 = p6 + set_some(input.error_message, fu("error_message", text_param_v(input.error_message)));
    lemma_apply_set_some(row, p6, input.error_message, fu("error_message", text_param_v(input.error_message)), now);
    assert(p7 == usage_migration_updates_v(input));
}

/// Applying the plan of an edit of the usage migration status to its row changes exactly the
/// columns the edit sets: each takes its new value (`updated_at` the given
/// time, or `now`), and every other column keeps the value it held.
pub proof fn law_usage_migration_edit_row(row: Map<Seq<char>, SqlParam>, input: UpdateUsageMigrationStatusInput, now: SqlParam)
    ensures
        ({ let after = apply_plan_v(row, usage_migration_updates_v(input), now);
            &&& row_get(after, "status"@) == edited(input.status is Some, text_param_v(input.status), row_get(row, "status"@))
            &&& row_get(after, "total_count"@) == edited(input.total_count is Some, int_param_v(input.total_count), row_get(row, "total_count"@))
            &&& row_get(after, "migrated_count"@) == edited(input.migrated_count is Some, int_param_v(input.migrated_count), row_get(row, "migrated_count"@))
            &&& row_get(after, "last_migrated_id"@) == edited(input.last_migrated_id is Some, text_param_v(input.last_migrated_id), row_get(row, "last_migrated_id"@))
            &&& row_get(after, "started_at"@) == edited(input.started_at is Some, text_param_v(input.started_at), row_get(row, "started_at"@))
            &&& row_get(after, "completed_at"@) == edited(input.completed_at is Some, text_param_v(input.completed_at), row_get(row, "completed_at"@))
            &&& row_get(after, "error_message"@) == edited(input.error_message is Some, text_param_v(input.error_message), row_get(row, "error_message"@))
            &&& forall|c: Seq<char>| !usage_migration_edit_column(c) ==> #[trigger] row_get(after, c) == row_get(row, c)
        }),
{
    lemma_put_read();
    reveal_strlit("status");
    reveal_strlit("total_count");
    reveal_strlit("migrated_count");
    reveal_strlit("last_migrated_id");
    reveal_strlit("started_at");
    reveal_strlit("completed_at");
    reveal_strlit("error_message");
    assert("status"@.len() == 6);
    assert("total_count"@.len() == 11);
    assert("migrated_count"@.len() == 14);
    assert("last_migrated_id"@.len() == 16);
    assert("started_at"@.len() == 10);
    assert("completed_at"@.len() == 12);
    assert("error_message"@.len() == 13);
    lemma_usage_migration_plan_row(row, input, now);
}

/// Whether `c` is one of the columns an edit of a token that another is merged into can set.
pub open spec fn oauth_merge_edit_column(c: Seq<char>) -> bool {
    c == "access_token"@
        || c == "refresh_token"@
        || c == "token_type"@
        || c == "expires_at"@
        || c == "scope"@
        || c == "client_id"@
        || c == "client_secret"@
        || c == "last_error"@
        || c == "last_error_at"@
        || c == "updated_at"@
}

proof fn lemma_oauth_merge_plan_row(row: Map<Seq<char>, SqlParam>, input: McpOauthTokenRecord, now: SqlParam)
    ensures
        apply_plan_v(row, oauth_merge_updates_v(input), now) == put_if(put_if(put_if(put_if(put_if(put_if(put_if(put_if(put_if(put_if(row, input.access_token is Some, "access_token"@, text_param_v(input.access_token)), input.refresh_token is Some, "refresh_token"@, text_param_v(input.refresh_token)), input.token_type is Some, "token_type"@, text_param_v(input.token_type)), input.expires_at is Some, "expires_at"@, i64_param_v(input.expires_at)), input.scope is Some, "scope"@, text_param_v(input.scope)), input.client_id is Some, "client_id"@, text_param_v(input.client_id)), input.client_secret is Some, "client_secret"@, text_param_v(input.client_secret)), true, "last_error"@, SqlParam::Null), true, "last_error_at"@, SqlParam::Null), true, "updated_at"@, now),
{
    let p0 = Seq::<FieldUpdate>::empty();
    let p1 = p0 + set_some(input.access_token, fu("access_token", text_param_v(input.access_token)));
    lemma_apply_set_some(row, p0, input.access_token, fu("access_token", text_param_v(input.access_token)), now);
    let p2 = p1 + set_some(input.refresh_token, fu("refresh_token", text_param_v(input.refresh_token)));
    lemma_apply_set_some(row, p1, input.refresh_token, fu("refresh_token", text_param_v(input.refresh_token)), now);
    let p3 = p2 + set_some(input.token_type, fu("token_type", text_param_v(input.token_type)));
    lemma_apply_set_some(row, p2, input.token_type, fu("token_type", text_param_v(input.token_type)), now);
    let p4 = p3 + set_some(input.expires_at, fu("expires_at", i64_param_v(input.expires_at)));
    lemma_apply_set_some(row, p3, input.expires_at, fu("expires_at", i64_param_v(input.expires_at)), now);
    let p5 = p4 + set_some(input.scope, fu("scope", text_param_v(input.scope)));
    lemma_apply_set_some(row, p4, input.scope, fu("scope", text_param_v(input.scope)), now);
    let p6 = p5 + set_some(input.client_id, fu("client_id", text_param_v(input.client_id)));
    lemma_apply_set_some(row, p5, input.client_id, fu("client_id", text_param_v(input.client_id)), now);
    let p7 = p6 + set_some(input.client_secret, fu("client_secret", text_param_v(input.client_secret)));
    lemma_apply_set_some(row, p6, input.client_secret, fu("client_secret", text_param_v(input.client_secret)), now);
    let p8 = p7 + seq![fu("last_error", SqlParam::Null)];
    lemma_apply_one(row, p7, fu("last_error", SqlParam::Null), now);
    let p9 = p8 + seq![fu("last_error_at", SqlParam::Null)];
    lemma_apply_one(row, p8, fu("last_error_at", SqlParam::Null), now);
    let p10 = p9 + seq![FieldUpdate { column: "updated_at", value: SqlParam::Null, default_now: true }];
    lemma_apply_one(row, p9, FieldUpdate { column: "updated_at", value: SqlParam::Null, default_now: true }, now);
    assert(p10 == oauth_merge_updates_v(input));
}

/// Applying the plan of an edit of a token that another is merged into to its row changes exactly the
/// columns the edit sets: each takes its new value (`updated_at` the given
/// time, or `now`), and every other column keeps the value it held.
pub proof fn law_oauth_merge_edit_row(row: Map<Seq<char>, SqlParam>, input: McpOauthTokenRecord, now: SqlParam)
    ensures
        ({ let after = apply_plan_v(row, oauth_merge_updates_v(input), now);
            &&& row_get(after, "access_token"@) == edited(input.access_token is Some, text_param_v(input.access_token), row_get(row, "access_token"@))
            &&& row_get(after, "refresh_token"@) == edited(input.refresh_token is Some, text_param_v(input.refresh_token), row_get(row, "refresh_token"@))
            &&& row_get(after, "token_type"@) == edited(input.token_type is Some, text_param_v(input.token_type), row_get(row, "token_type"@))
            &&& row_get(after, "expires_at"@) == edited(input.expires_at is Some, i64_param_v(input.expires_at), row_get(row, "expires_at"@))
            &&& row_get(after, "scope"@) == edited(input.scope is Some, text_param_v(input.scope), row_get(row, "scope"@))
            &&& row_get(after, "client_id"@) == edited(input.client_id is Some, text_param_v(input.client_id), row_get(row, "client_id"@))
            &&& row_get(after, "client_secret"@) == edited(input.client_secret is Some, text_param_v(input.client_secret), row_get(row, "client_secret"@))
            &&& row_get(after, "last_error"@) == Some(SqlParam::Null)
            &&& row_get(after, "last_error_at"@) == Some(SqlParam::Null)
            &&& row_get(after, "updated_at"@) == Some(now)
            &&& forall|c: Seq<char>| !oauth_merge_edit_column(c) ==> #[trigger] row_get(after, c) == row_get(row, c)
        }),
{
    lemma_put_read();
    reveal_strlit("access_token");
    reveal_strlit("refresh_token");
    reveal_strlit("token_type");
    reveal_strlit("expires_at");
    reveal_strlit("scope");
    reveal_strlit("client_id");
    reveal_strlit("client_secret");
    reveal_strlit("last_error");
    reveal_strlit("last_error_at");
    reveal_strlit("updated_at");
    assert("access_token"@.len() == 12);
    assert("refresh_token"@.len() == 13);
    assert("token_type"@.len() == 10);
    assert("expires_at"@.len() == 10);
    assert("scope"@.len() == 5);
    assert("client_id"@.len() == 9);
    assert("client_secret"@.len() == 13);
    assert("last_error"@.len() == 10);
    assert("last_error_at"@.len() == 13);
    assert("updated_at"@.len() == 10);
    assert("refresh_token"@[0] == 'r');
    assert("client_secret"@[0] == 'c');
    assert("last_error_at"@[0] == 'l');
    assert("token_type"@[0] == 't');
    assert("expires_at"@[0] == 'e');
    assert("last_error"@[0] == 'l');
    assert("updated_at"@[0] == 'u');
    lemma_oauth_merge_plan_row(row, input, now);
}

} // verus!
