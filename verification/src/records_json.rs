//! Records as the JSON objects the client receives, keyed by field name.
use vstd::prelude::*;
use crate::json::{json_str, obj_insert, object_insert, Json, JsonV, Member};
use crate::types::{MessageRecord, ThreadRecord};

verus! {

pub open spec fn opt_text_v(s: Option<String>) -> JsonV {
    match s {
        Some(t) => JsonV::Str(t@),
        None => JsonV::Null,
    }
}

pub open spec fn opt_bool_v(b: Option<bool>) -> JsonV {
    match b {
        Some(x) => JsonV::Bool(x),
        None => JsonV::Null,
    }
}

pub open spec fn opt_int_v(n: Option<i32>) -> JsonV {
    match n {
        Some(x) => JsonV::Int(x as int),
        None => JsonV::Null,
    }
}

pub fn opt_text(s: &Option<String>) -> (r: Json)
    ensures
        r.vw() == opt_text_v(*s),
{
    match s {
        Some(t) => json_str(t.as_str()),
        None => Json::Null,
    }
}

pub fn opt_bool(b: Option<bool>) -> (r: Json)
    ensures
        r.vw() == opt_bool_v(b),
{
    match b {
        Some(x) => Json::Bool(x),
        None => Json::Null,
    }
}

pub fn opt_int(n: Option<i32>) -> (r: Json)
    ensures
        r.vw() == opt_int_v(n),
{
    match n {
        Some(x) => Json::Int(x as i64),
        None => Json::Null,
    }
}

/// A message record as a JSON object.
pub open spec fn message_json_v(m: MessageRecord) -> JsonV {
    let a = obj_insert(Seq::empty(), "id"@, JsonV::Str(m.id@));
    let b = obj_insert(a, "thread_id"@, JsonV::Str(m.thread_id@));
    let c = obj_insert(b, "parent_id"@, opt_text_v(m.parent_id));
    let d = obj_insert(c, "slot_id"@, opt_text_v(m.slot_id));
    let e = obj_insert(d, "depth"@, opt_int_v(m.depth));
    let f = obj_insert(e, "parent_tool_call_id"@, opt_text_v(m.parent_tool_call_id));
    let g = obj_insert(f, "message"@, JsonV::Str(m.message@));
    let h = obj_insert(g, "timestamp"@, JsonV::Str(m.timestamp@));
    let i = obj_insert(h, "metadata"@, JsonV::Str(m.metadata@));
    let j = obj_insert(i, "created_at"@, JsonV::Str(m.created_at@));
    JsonV::Object(obj_insert(j, "updated_at"@, JsonV::Str(m.updated_at@)))
}

/// A message record as a JSON object.
pub fn message_json(m: &MessageRecord) -> (r: Json)
    ensures
        r.vw() == message_json_v(*m),
{
    let mut ms: Vec<Member> = Vec::new();
    object_insert(&mut ms, "id".to_owned(), json_str(m.id.as_str()));
    object_insert(&mut ms, "thread_id".to_owned(), json_str(m.thread_id.as_str()));
    object_insert(&mut ms, "parent_id".to_owned(), opt_text(&m.parent_id));
    object_insert(&mut ms, "slot_id".to_owned(), opt_text(&m.slot_id));
    object_insert(&mut ms, "depth".to_owned(), opt_int(m.depth));
    object_insert(&mut ms, "parent_tool_call_id".to_owned(), opt_text(&m.parent_tool_call_id));
    object_insert(&mut ms, "message".to_owned(), json_str(m.message.as_str()));
    object_insert(&mut ms, "timestamp".to_owned(), json_str(m.timestamp.as_str()));
    object_insert(&mut ms, "metadata".to_owned(), json_str(m.metadata.as_str()));
    object_insert(&mut ms, "created_at".to_owned(), json_str(m.created_at.as_str()));
    object_insert(&mut ms, "updated_at".to_owned(), json_str(m.updated_at.as_str()));
    Json::Object(ms)
}

/// A thread record as a JSON object.
pub open spec fn thread_json_v(t: ThreadRecord) -> JsonV {
    let a = obj_insert(Seq::empty(), "id"@, JsonV::Str(t.id@));
    let b = obj_insert(a, "title"@, JsonV::Str(t.title@));
    let c = obj_insert(b, "model"@, opt_text_v(t.model));
    let d = obj_insert(c, "prompt_app_id"@, opt_text_v(t.prompt_app_id));
    let e = obj_insert(d, "tools"@, opt_text_v(t.tools));
    let f = obj_insert(e, "is_favorited"@, opt_bool_v(t.is_favorited));
    let g = obj_insert(f, "is_incognito"@, opt_bool_v(t.is_incognito));
    let h = obj_insert(g, "workspace_id"@, opt_text_v(t.workspace_id));
    let i = obj_insert(h, "artifact_workspace_id"@, opt_text_v(t.artifact_workspace_id));
    let j = obj_insert(i, "enable_artifacts"@, opt_bool_v(t.enable_artifacts));
    let k = obj_insert(j, "skill_ids"@, opt_text_v(t.skill_ids));
    let l = obj_insert(k, "tools_compact_view"@, opt_bool_v(t.tools_compact_view));
    let m = obj_insert(l, "parent_thread_id"@, opt_text_v(t.parent_thread_id));
    let n = obj_insert(m, "is_favorite_pinned"@, opt_bool_v(t.is_favorite_pinned));
    let o = obj_insert(n, "favorite_pinned_order"@, opt_int_v(t.favorite_pinned_order));
    let p = obj_insert(o, "is_generating"@, opt_bool_v(t.is_generating));
    let q = obj_insert(p, "reasoning_effort"@, opt_text_v(t.reasoning_effort));
    let r = obj_insert(q, "metadata"@, JsonV::Str(t.metadata@));
    let s = obj_insert(r, "created_at"@, JsonV::Str(t.created_at@));
    JsonV::Object(obj_insert(s, "updated_at"@, JsonV::Str(t.updated_at@)))
}

/// A thread record as a JSON object.
pub fn thread_json(t: &ThreadRecord) -> (r: Json)
    ensures
        r.vw() == thread_json_v(*t),
{
    let mut ms: Vec<Member> = Vec::new();
    object_insert(&mut ms, "id".to_owned(), json_str(t.id.as_str()));
    object_insert(&mut ms, "title".to_owned(), json_str(t.title.as_str()));
    object_insert(&mut ms, "model".to_owned(), opt_text(&t.model));
    object_insert(&mut ms, "prompt_app_id".to_owned(), opt_text(&t.prompt_app_id));
    object_insert(&mut ms, "tools".to_owned(), opt_text(&t.tools));
    object_insert(&mut ms, "is_favorited".to_owned(), opt_bool(t.is_favorited));
    object_insert(&mut ms, "is_incognito".to_owned(), opt_bool(t.is_incognito));
    object_insert(&mut ms, "workspace_id".to_owned(), opt_text(&t.workspace_id));
    object_insert(&mut ms, "artifact_workspace_id".to_owned(), opt_text(&t.artifact_workspace_id));
    object_insert(&mut ms, "enable_artifacts".to_owned(), opt_bool(t.enable_artifacts));
    object_insert(&mut ms, "skill_ids".to_owned(), opt_text(&t.skill_ids));
    object_insert(&mut ms, "tools_compact_view".to_owned(), opt_bool(t.tools_compact_view));
    object_insert(&mut ms, "parent_thread_id".to_owned(), opt_text(&t.parent_thread_id));
    object_insert(&mut ms, "is_favorite_pinned".to_owned(), opt_bool(t.is_favorite_pinned));
    object_insert(&mut ms, "favorite_pinned_order".to_owned(), opt_int(t.favorite_pinned_order));
    object_insert(&mut ms, "is_generating".to_owned(), opt_bool(t.is_generating));
    object_insert(&mut ms, "reasoning_effort".to_owned(), opt_text(&t.reasoning_effort));
    object_insert(&mut ms, "metadata".to_owned(), json_str(t.metadata.as_str()));
    object_insert(&mut ms, "created_at".to_owned(), json_str(t.created_at.as_str()));
    object_insert(&mut ms, "updated_at".to_owned(), json_str(t.updated_at.as_str()));
    Json::Object(ms)
}

pub open spec fn messages_json_v(ms: Seq<MessageRecord>) -> Seq<JsonV> {
    ms.map_values(|m: MessageRecord| message_json_v(m))
}

/// A list of message records as a JSON array.
pub fn messages_json(ms: &Vec<MessageRecord>) -> (r: Json)
    ensures
        r.vw() == JsonV::Array(messages_json_v(ms@)),
{
    let mut out: Vec<Json> = Vec::new();
    let mut i: usize = 0;
    while i < ms.len()
        invariant
            i <= ms@.len(),
            crate::json::items_vw(out@) == messages_json_v(ms@.take(i as int)),
        decreases ms@.len() - i,
    {
        let ghost prev = out@;
        let e = message_json(&ms[i]);
        out.push(e);
        proof {
            crate::json::lemma_items_vw_push(prev, e);
            assert(messages_json_v(ms@.take(i as int + 1)) =~= messages_json_v(ms@.take(i as int)).push(
                message_json_v(ms@[i as int]),
            ));
        }
        i = i + 1;
    }
    proof {
        assert(ms@.take(ms@.len() as int) =~= ms@);
    }
    Json::Array(out)
}

/// The payload of `get_thread_with_messages`: the thread and the messages on
/// its active path.
pub fn thread_with_messages_payload(thread: &ThreadRecord, messages: &Vec<MessageRecord>) -> (r:
    Json)
    ensures
        r.vw() == JsonV::Object(
            obj_insert(
                obj_insert(Seq::empty(), "thread"@, thread_json_v(*thread)),
                "messages"@,
                JsonV::Array(messages_json_v(messages@)),
            ),
        ),
{
    let mut ms: Vec<Member> = Vec::new();
    object_insert(&mut ms, "thread".to_owned(), thread_json(thread));
    object_insert(&mut ms, "messages".to_owned(), messages_json(messages));
    Json::Object(ms)
}

} // verus!
