//! A thread as the client shows it: the messages on its active path, each
//! with the version bookkeeping of its slot.
use vstd::prelude::*;
use crate::json::{
    law_insert_then_get,
    items_vw, lemma_items_vw, members_vw, obj_get, obj_insert, object_insert, object_members,
    object_members_v, opt_vw, Json, JsonV,
};
use crate::migrations::{id_array, id_array_v};
use crate::text::{str_eq, text_less, text_lt};
use crate::types::{MessageRecord, MessageVersionInfoRecord};

verus! {

/// The texts among the items of an array, in order.
pub open spec fn path_strings(items: Seq<JsonV>) -> Seq<Seq<char>>
    decreases items.len(),
{
    if items.len() == 0 {
        Seq::empty()
    } else {
        let p = path_strings(items.drop_last());
        match items.last() {
            JsonV::Str(s) => p.push(s),
            _ => p,
        }
    }
}

/// The active path a thread's metadata records: the string items of its
/// `activePath` array.
pub open spec fn active_path_v(meta: Seq<(Seq<char>, JsonV)>) -> Seq<Seq<char>> {
    match obj_get(meta, "activePath"@) {
        Some(JsonV::Array(items)) => path_strings(items),
        _ => Seq::empty(),
    }
}

pub open spec fn ids_v(messages: Seq<MessageRecord>) -> Seq<Seq<char>> {
    messages.map_values(|m: MessageRecord| m.id@)
}

pub open spec fn texts_v(s: Seq<String>) -> Seq<Seq<char>> {
    s.map_values(|t: String| t@)
}

/// The active path of a thread, and the metadata to store when the thread had
/// none: then every message, in order, is on the path.
pub struct ActivePath {
    pub ids: Vec<String>,
    pub new_metadata: Option<Json>,
}

/// Resolves the active path of a thread from its parsed metadata and its
/// messages in timestamp order.  A thread without a path gets all its
/// messages as its path, recorded under `activePath` in its metadata.
pub fn resolve_active_path(thread_metadata: Option<Json>, messages: &Vec<MessageRecord>) -> (r:
    ActivePath)
    ensures
        ({
            let meta = object_members_v(opt_vw(thread_metadata));
            let path = active_path_v(meta);
            if path.len() > 0 {
                texts_v(r.ids@) == path && r.new_metadata is None
            } else {
                texts_v(r.ids@) == ids_v(messages@) && opt_vw(r.new_metadata) == Some(
                    JsonV::Object(obj_insert(meta, "activePath"@, id_array_v(ids_v(messages@)))),
                )
            }
        }),
{
    let mut meta = object_members(thread_metadata);
    let ghost meta_v = members_vw(meta@);
    let mut ids: Vec<String> = Vec::new();
    match crate::json::find_member(&meta, "activePath") {
        Some(k) => {
            proof {
                crate::json::lemma_members_vw(meta@);
            }
            match &meta[k].value {
                Json::Array(items) => {
                    proof {
                        lemma_items_vw(items@);
                    }
                    let mut i: usize = 0;
                    while i < items.len()
                        invariant
                            i <= items@.len(),
                            items_vw(items@).len() == items@.len(),
                            forall|j: int| 0 <= j < items@.len() ==> #[trigger] items_vw(items@)[j] == items@[j].vw(),
                            texts_v(ids@) == path_strings(items_vw(items@).take(i as int)),
                        decreases items@.len() - i,
                    {
                        proof {
                            let iv = items_vw(items@);
                            assert(iv.take(i as int + 1).drop_last() =~= iv.take(i as int));
                            assert(iv.take(i as int + 1).last() == iv[i as int]);
                        }
                        let ghost prev = ids@;
                        match &items[i] {
                            Json::Str(s) => {
                                ids.push(s.clone());
                                proof {
                                    assert(texts_v(ids@) =~= texts_v(prev).push(s@));
                                }
                            },
                            _ => {},
                        }
                        i = i + 1;
                    }
                    proof {
                        assert(items_vw(items@).take(items@.len() as int) =~= items_vw(items@));
                    }
                },
                _ => {},
            }
        },
        None => {},
    }
    assert(texts_v(ids@) == active_path_v(meta_v));
    if ids.len() > 0 {
        return ActivePath { ids, new_metadata: None };
    }
    let mut all: Vec<String> = Vec::new();
    let mut i: usize = 0;
    while i < messages.len()
        invariant
            i <= messages@.len(),
            texts_v(all@) == ids_v(messages@.take(i as int)),
        decreases messages@.len() - i,
    {
        let ghost prev = all@;
        all.push(messages[i].id.clone());
        proof {
            assert(texts_v(all@) =~= texts_v(prev).push(messages@[i as int].id@));
            assert(ids_v(messages@.take(i as int + 1)) =~= ids_v(messages@.take(i as int)).push(
                messages@[i as int].id@,
            ));
        }
        i = i + 1;
    }
    proof {
        assert(messages@.take(messages@.len() as int) =~= messages@);
    }
    let mut copy: Vec<String> = Vec::new();
    let mut j: usize = 0;
    while j < all.len()
        invariant
            j <= all@.len(),
            copy@ == all@.take(j as int),
        decreases all@.len() - j,
    {
        copy.push(all[j].clone());
        proof {
            assert(all@.take(j as int + 1) =~= all@.take(j as int).push(all@[j as int]));
        }
        j = j + 1;
    }
    proof {
        assert(all@.take(all@.len() as int) =~= all@);
    }
    let path_doc = id_array(copy);
    object_insert(&mut meta, "activePath".to_owned(), path_doc);
    ActivePath { ids: all, new_metadata: Some(Json::Object(meta)) }
}

/// Index of the last message whose id is `id`, or -1.
pub open spec fn message_index(messages: Seq<MessageRecord>, id: Seq<char>) -> int
    decreases messages.len(),
{
    if messages.len() == 0 {
        -1
    } else if messages.last().id@ == id {
        messages.len() - 1
    } else {
        message_index(messages.drop_last(), id)
    }
}

proof fn lemma_message_index(messages: Seq<MessageRecord>, id: Seq<char>)
    ensures
        -1 <= message_index(messages, id) < messages.len(),
        message_index(messages, id) >= 0 ==> messages[message_index(messages, id)].id@ == id,
        forall|j: int| message_index(messages, id) < j < messages.len() ==> #[trigger] messages[j].id@ != id,
    decreases messages.len(),
{
    if messages.len() > 0 {
        lemma_message_index(messages.drop_last(), id);
        assert(forall|j: int| 0 <= j < messages.len() - 1 ==> messages.drop_last()[j] == messages[j]);
    }
}

/// The messages on the path, in path order; ids without a message are skipped.
pub open spec fn selected_v(path: Seq<Seq<char>>, messages: Seq<MessageRecord>) -> Seq<MessageRecord>
    decreases path.len(),
{
    if path.len() == 0 {
        Seq::empty()
    } else {
        let p = selected_v(path.drop_last(), messages);
        let i = message_index(messages, path.last());
        if i >= 0 {
            p.push(messages[i])
        } else {
            p
        }
    }
}

/// The message with id `id`, the last one listed when several are.
pub fn find_message(messages: &Vec<MessageRecord>, id: &str) -> (r: Option<usize>)
    ensures
        match r {
            Some(i) => i < messages@.len() && i as int == message_index(messages@, id@),
            None => message_index(messages@, id@) == -1,
        },
{
    proof {
        lemma_message_index(messages@, id@);
    }
    let mut i = messages.len();
    while i > 0
        invariant
            i <= messages@.len(),
            forall|j: int| i <= j < messages@.len() ==> #[trigger] messages@[j].id@ != id@,
            -1 <= message_index(messages@, id@) < messages@.len(),
            message_index(messages@, id@) >= 0 ==> messages@[message_index(messages@, id@)].id@ == id@,
            forall|j: int|
                message_index(messages@, id@) < j < messages@.len() ==> #[trigger] messages@[j].id@ != id@,
        decreases i,
    {
        if str_eq(messages[i - 1].id.as_str(), id) {
            return Some(i - 1);
        }
        i = i - 1;
    }
    None
}

/// The messages on the active path, in path order.
pub fn select_active_messages(path: &Vec<String>, messages: &Vec<MessageRecord>) -> (r: Vec<
    MessageRecord,
>)
    ensures
        r@ == selected_v(texts_v(path@), messages@),
{
    let mut out: Vec<MessageRecord> = Vec::new();
    let mut i: usize = 0;
    while i < path.len()
        invariant
            i <= path@.len(),
            out@ == selected_v(texts_v(path@).take(i as int), messages@),
        decreases path@.len() - i,
    {
        proof {
            let t = texts_v(path@);
            assert(t.take(i as int + 1).drop_last() =~= t.take(i as int));
            assert(t.take(i as int + 1).last() == path@[i as int]@);
        }
        match find_message(messages, path[i].as_str()) {
            Some(k) => {
                out.push(messages[k].duplicate());
            },
            None => {},
        }
        i = i + 1;
    }
    proof {
        assert(texts_v(path@).take(path@.len() as int) =~= texts_v(path@));
    }
    out
}

/// The key of a message's slot: its slot id, else its own id.
pub open spec fn slot_key_v(slot_id: Option<String>, id: String) -> Seq<char> {
    match slot_id {
        Some(s) => s@,
        None => id@,
    }
}

/// `s` with `x` put before the first entry created after it: a stable
/// insertion by creation time.
pub open spec fn insert_by_time(s: Seq<(Seq<char>, Seq<char>)>, x: (Seq<char>, Seq<char>)) -> Seq<
    (Seq<char>, Seq<char>),
>
    decreases s.len(),
{
    if s.len() == 0 {
        seq![x]
    } else if text_lt(x.1, s[0].1) {
        seq![x] + s
    } else {
        seq![s[0]] + insert_by_time(s.drop_first(), x)
    }
}

/// The versions of slot `k`: the (id, creation time) of every message of the
/// slot, stably sorted by creation time.
pub open spec fn slot_versions(info: Seq<MessageVersionInfoRecord>, k: Seq<char>) -> Seq<
    (Seq<char>, Seq<char>),
>
    decreases info.len(),
{
    if info.len() == 0 {
        Seq::empty()
    } else {
        let p = slot_versions(info.drop_last(), k);
        let v = info.last();
        if slot_key_v(v.slot_id, v.id) == k {
            insert_by_time(p, (v.id@, v.created_at@))
        } else {
            p
        }
    }
}

/// Index of the first version with id `id`, or -1.
pub open spec fn version_position(vs: Seq<(Seq<char>, Seq<char>)>, id: Seq<char>) -> int
    decreases vs.len(),
{
    if vs.len() == 0 {
        -1
    } else {
        let f = version_position(vs.drop_last(), id);
        if f >= 0 {
            f
        } else if vs.last().0 == id {
            vs.len() - 1
        } else {
            -1
        }
    }
}

/// The versions a message is counted among: those of its slot, or the
/// message alone when no version is listed for the slot.
pub open spec fn message_versions(m: MessageRecord, info: Seq<MessageVersionInfoRecord>) -> Seq<
    (Seq<char>, Seq<char>),
> {
    let vs = slot_versions(info, slot_key_v(m.slot_id, m.id));
    if vs.len() == 0 {
        seq![(m.id@, m.created_at@)]
    } else {
        vs
    }
}

/// The metadata of the message at position `index` of the shown list, with
/// its slot, depth, and place among the versions of its slot.
pub open spec fn enriched_metadata_v(
    m: MessageRecord,
    index: int,
    meta: Option<JsonV>,
    info: Seq<MessageVersionInfoRecord>,
) -> JsonV {
    let vs = message_versions(m, info);
    let p = version_position(vs, m.id@);
    let depth: int = match m.depth {
        Some(d) => d as int,
        None => (index as i32) as int,
    };
    let m0 = object_members_v(meta);
    let m1 = obj_insert(m0, "slotId"@, JsonV::Str(slot_key_v(m.slot_id, m.id)));
    let m2 = obj_insert(m1, "depth"@, JsonV::Int(depth));
    let vi: int = if p >= 0 {
        p
    } else {
        0
    };
    let m3 = obj_insert(m2, "versionIndex"@, JsonV::Int((vi as i64) as int));
    JsonV::Object(obj_insert(m3, "versionCount"@, JsonV::Int((vs.len() as i64) as int)))
}

proof fn lemma_insert_by_time(s: Seq<(Seq<char>, Seq<char>)>, x: (Seq<char>, Seq<char>), p: int)
    requires
        0 <= p <= s.len(),
        forall|j: int| 0 <= j < p ==> !text_lt(x.1, #[trigger] s[j].1),
        p < s.len() ==> text_lt(x.1, s[p].1),
    ensures
        insert_by_time(s, x) == s.take(p) + seq![x] + s.skip(p),
    decreases s.len(),
{
    if s.len() == 0 {
        assert(s.take(p) + seq![x] + s.skip(p) =~= seq![x]);
    } else if p == 0 {
        assert(s.take(0) + seq![x] + s.skip(0) =~= seq![x] + s);
    } else {
        assert(!text_lt(x.1, s[0].1));
        let t = s.drop_first();
        assert forall|j: int| 0 <= j < p - 1 implies !text_lt(x.1, #[trigger] t[j].1) by {
            assert(t[j] == s[j + 1]);
        }
        lemma_insert_by_time(t, x, p - 1);
        assert(seq![s[0]] + (t.take(p - 1) + seq![x] + t.skip(p - 1)) =~= s.take(p) + seq![x] + s.skip(p));
    }
}

/// Inserts `x` stably by creation time.
fn insert_version(vs: &mut Vec<(String, String)>, x: (String, String))
    ensures
        texts2(final(vs)@) == insert_by_time(texts2(old(vs)@), (x.0@, x.1@)),
{
    let mut p: usize = 0;
    while p < vs.len() && !text_less(x.1.as_str(), vs[p].1.as_str())
        invariant
            p <= vs@.len(),
            forall|j: int| 0 <= j < p ==> !text_lt(x.1@, #[trigger] texts2(vs@)[j].1),
        decreases vs@.len() - p,
    {
        p = p + 1;
    }
    let ghost before = texts2(vs@);
    proof {
        lemma_insert_by_time(before, (x.0@, x.1@), p as int);
    }
    vs.insert(p, x);
    proof {
        assert(texts2(vs@) =~= before.take(p as int) + seq![(x.0@, x.1@)] + before.skip(p as int));
    }
}

pub open spec fn texts2(s: Seq<(String, String)>) -> Seq<(Seq<char>, Seq<char>)> {
    s.map_values(|e: (String, String)| (e.0@, e.1@))
}

/// The versions of slot `key`.
fn versions_of_slot(info: &Vec<MessageVersionInfoRecord>, key: &str) -> (r: Vec<(String, String)>)
    ensures
        texts2(r@) == slot_versions(info@, key@),
{
    let mut out: Vec<(String, String)> = Vec::new();
    let mut i: usize = 0;
    while i < info.len()
        invariant
            i <= info@.len(),
            texts2(out@) == slot_versions(info@.take(i as int), key@),
        decreases info@.len() - i,
    {
        proof {
            assert(info@.take(i as int + 1).drop_last() =~= info@.take(i as int));
            assert(info@.take(i as int + 1).last() == info@[i as int]);
        }
        let v = &info[i];
        let k = match &v.slot_id {
            Some(s) => s.as_str(),
            None => v.id.as_str(),
        };
        if str_eq(k, key) {
            insert_version(&mut out, (v.id.clone(), v.created_at.clone()));
        }
        i = i + 1;
    }
    proof {
        assert(info@.take(info@.len() as int) =~= info@);
    }
    out
}

/// The metadata of each shown message with its version bookkeeping added:
/// `slotId` (its slot id, else its id), `depth` (its depth, else its place
/// in the list), `versionIndex` (its place among the versions of its slot
/// sorted by creation time, 0 when absent) and `versionCount`.  `metadata`
/// holds the parsed metadata of each message; a message whose metadata is not
/// an object starts from an empty one.
pub fn version_metadata(
    messages: &Vec<MessageRecord>,
    metadata: Vec<Option<Json>>,
    version_info: &Vec<MessageVersionInfoRecord>,
) -> (r: Vec<Json>)
    requires
        metadata@.len() == messages@.len(),
    ensures
        r@.len() == messages@.len(),
        forall|i: int|
            0 <= i < messages@.len() ==> #[trigger] r@[i].vw() == enriched_metadata_v(
                messages@[i],
                i,
                opt_vw(metadata@[i]),
                version_info@,
            ),
{
    let mut metadata = metadata;
    let ghost meta0 = metadata@;
    let mut out: Vec<Json> = Vec::new();
    let mut i: usize = 0;
    while i < messages.len()
        invariant
            i <= messages@.len(),
            out@.len() == i,
            metadata@.len() + i == messages@.len(),
            meta0.len() == messages@.len(),
            forall|j: int| 0 <= j < metadata@.len() ==> #[trigger] metadata@[j] == meta0[i + j],
            forall|j: int|
                0 <= j < i ==> #[trigger] out@[j].vw() == enriched_metadata_v(
                    messages@[j],
                    j,
                    opt_vw(meta0[j]),
                    version_info@,
                ),
        decreases messages@.len() - i,
    {
        let m = &messages[i];
        let doc = metadata.remove(0);
        let key = match &m.slot_id {
            Some(s) => s.clone(),
            None => m.id.clone(),
        };
        let mut vs = versions_of_slot(version_info, key.as_str());
        assert(key@ == slot_key_v(m.slot_id, m.id));
        if vs.len() == 0 {
            vs.push((m.id.clone(), m.created_at.clone()));
            proof {
                assert(texts2(vs@) =~= seq![(m.id@, m.created_at@)]);
            }
        }
        let mut p: usize = 0;
        let mut found = false;
        while p < vs.len()
            invariant_except_break
                !found,
            invariant
                p <= vs@.len(),
                forall|j: int| 0 <= j < p ==> #[trigger] texts2(vs@)[j].0 != m.id@,
            ensures
                found ==> p < vs@.len() && texts2(vs@)[p as int].0 == m.id@,
                !found ==> p == vs@.len(),
            decreases vs@.len() - p,
        {
            if str_eq(vs[p].0.as_str(), m.id.as_str()) {
                found = true;
                break;
            }
            p = p + 1;
        }
        proof {
            lemma_version_position(texts2(vs@), m.id@);
        }
        assert(texts2(vs@) == message_versions(*m, version_info@));
        assert(texts2(vs@).len() == vs@.len());
        let version_index: i64 = if found {
            p as i64
        } else {
            0
        };
        assert(version_index as int == ((if version_position(texts2(vs@), m.id@) >= 0 {
            version_position(texts2(vs@), m.id@)
        } else {
            0
        }) as i64) as int);
        let depth: i32 = match m.depth {
            Some(d) => d,
            None => i as i32,
        };
        let mut ms = object_members(doc);
        object_insert(&mut ms, "slotId".to_owned(), Json::Str(key));
        object_insert(&mut ms, "depth".to_owned(), Json::Int(depth as i64));
        object_insert(&mut ms, "versionIndex".to_owned(), Json::Int(version_index));
        object_insert(&mut ms, "versionCount".to_owned(), Json::Int(vs.len() as i64));
        out.push(Json::Object(ms));
        i = i + 1;
    }
    out
}

proof fn lemma_version_position(vs: Seq<(Seq<char>, Seq<char>)>, id: Seq<char>)
    ensures
        -1 <= version_position(vs, id) < vs.len(),
        version_position(vs, id) >= 0 ==> vs[version_position(vs, id)].0 == id,
        forall|j: int|
            0 <= j < vs.len() && (version_position(vs, id) < 0 || j < version_position(vs, id))
                ==> #[trigger] vs[j].0 != id,
    decreases vs.len(),
{
    if vs.len() > 0 {
        lemma_version_position(vs.drop_last(), id);
        assert(forall|j: int| 0 <= j < vs.len() - 1 ==> vs.drop_last()[j] == vs[j]);
    }
}

proof fn lemma_insert_by_time_keeps(s: Seq<(Seq<char>, Seq<char>)>, x: (Seq<char>, Seq<char>))
    ensures
        insert_by_time(s, x).len() == s.len() + 1,
        exists|u: int| 0 <= u < insert_by_time(s, x).len() && #[trigger] insert_by_time(s, x)[u] == x,
        forall|t: int| 0 <= t < s.len() ==> exists|u: int| 0 <= u < insert_by_time(s, x).len() && #[trigger] insert_by_time(s, x)[u] == #[trigger] s[t],
    decreases s.len(),
{
    let out = insert_by_time(s, x);
    if s.len() == 0 {
        assert(out[0] == x);
    } else if text_lt(x.1, s[0].1) {
        assert(out[0] == x);
        assert forall|t: int| 0 <= t < s.len() implies exists|u: int| 0 <= u < out.len() && #[trigger] out[u] == #[trigger] s[t] by {
            assert(out[t + 1] == s[t]);
        }
    } else {
        let rest = s.drop_first();
        lemma_insert_by_time_keeps(rest, x);
        let inner = insert_by_time(rest, x);
        assert(out == seq![s[0]] + inner);
        let u0 = choose|u: int| 0 <= u < inner.len() && #[trigger] inner[u] == x;
        assert(out[u0 + 1] == x);
        assert forall|t: int| 0 <= t < s.len() implies exists|u: int| 0 <= u < out.len() && #[trigger] out[u] == #[trigger] s[t] by {
            if t == 0 {
                assert(out[0] == s[0]);
            } else {
                assert(rest[t - 1] == s[t]);
                let u = choose|u: int| 0 <= u < inner.len() && #[trigger] inner[u] == #[trigger] rest[t - 1];
                assert(out[u + 1] == s[t]);
            }
        }
    }
}

proof fn lemma_slot_versions_list(info: Seq<MessageVersionInfoRecord>, k: Seq<char>, j: int)
    requires
        0 <= j < info.len(),
        slot_key_v(info[j].slot_id, info[j].id) == k,
    ensures
        exists|u: int| 0 <= u < slot_versions(info, k).len() && (#[trigger] slot_versions(info, k)[u]).0 == info[j].id@,
    decreases info.len(),
{
    let p = slot_versions(info.drop_last(), k);
    let v = info.last();
    if j == info.len() - 1 {
        lemma_insert_by_time_keeps(p, (v.id@, v.created_at@));
        let ins = insert_by_time(p, (v.id@, v.created_at@));
        assert(slot_versions(info, k) == ins);
        let u = choose|u: int| 0 <= u < ins.len() && #[trigger] ins[u] == (v.id@, v.created_at@);
        assert(ins[u].0 == info[j].id@);
    } else {
        assert(info.drop_last()[j] == info[j]);
        lemma_slot_versions_list(info.drop_last(), k, j);
        let u = choose|u: int| 0 <= u < p.len() && (#[trigger] p[u]).0 == info[j].id@;
        if slot_key_v(v.slot_id, v.id) == k {
            lemma_insert_by_time_keeps(p, (v.id@, v.created_at@));
            let ins = insert_by_time(p, (v.id@, v.created_at@));
            assert(slot_versions(info, k) == ins);
            let w = choose|w: int| 0 <= w < ins.len() && #[trigger] ins[w] == #[trigger] p[u];
            assert(slot_versions(info, k)[w].0 == info[j].id@);
        } else {
            assert(slot_versions(info, k) == p);
            assert(slot_versions(info, k)[u].0 == info[j].id@);
        }
    }
}

/// Every shown message is counted among at least one version, its version
/// index lies within its version count, and a message listed among its
/// slot's versions is found there.
pub proof fn law_version_index_within_count(m: MessageRecord, info: Seq<MessageVersionInfoRecord>)
    ensures
        message_versions(m, info).len() >= 1,
        version_position(message_versions(m, info), m.id@) < message_versions(m, info).len(),
        (exists|j: int| 0 <= j < info.len() && (#[trigger] info[j]).id@ == m.id@ && slot_key_v(info[j].slot_id, info[j].id)
            == slot_key_v(m.slot_id, m.id)) ==> version_position(message_versions(m, info), m.id@) >= 0,
{
    let k = slot_key_v(m.slot_id, m.id);
    let vs = message_versions(m, info);
    lemma_version_position(vs, m.id@);
    if vs.len() == 1 && slot_versions(info, k).len() == 0 {
        assert(vs[0].0 == m.id@);
    }
    if exists|j: int| 0 <= j < info.len() && (#[trigger] info[j]).id@ == m.id@ && slot_key_v(info[j].slot_id, info[j].id) == k {
        let j = choose|j: int| 0 <= j < info.len() && (#[trigger] info[j]).id@ == m.id@ && slot_key_v(info[j].slot_id, info[j].id) == k;
        lemma_slot_versions_list(info, k, j);
    }
}

/// The metadata of the message at position `index` of the shown list says
/// where it sits: `slotId` is its slot id, else its own id; `depth` is its
/// stored depth, else its position in the list; every other member of its
/// own metadata is kept.
pub proof fn law_enriched_slot_and_depth(
    m: MessageRecord,
    index: int,
    meta: Option<JsonV>,
    info: Seq<MessageVersionInfoRecord>,
    k: Seq<char>,
)
    requires
        0 <= index <= i32::MAX,
    ensures
        enriched_metadata_v(m, index, meta, info) matches JsonV::Object(ms) && {
            &&& obj_get(ms, "slotId"@) == Some(JsonV::Str(
                match m.slot_id {
                    Some(s) => s@,
                    None => m.id@,
                },
            ))
            &&& obj_get(ms, "depth"@) == Some(JsonV::Int(
                match m.depth {
                    Some(d) => d as int,
                    None => index,
                },
            ))
            &&& (k != "slotId"@ && k != "depth"@ && k != "versionIndex"@ && k != "versionCount"@) ==> obj_get(ms, k)
                == obj_get(
                match meta {
                    Some(JsonV::Object(own)) => own,
                    _ => Seq::empty(),
                },
                k,
            )
        },
{
    reveal_strlit("slotId");
    reveal_strlit("depth");
    reveal_strlit("versionIndex");
    reveal_strlit("versionCount");
    assert("slotId"@.len() == 6);
    assert("depth"@.len() == 5);
    assert("versionIndex"@.len() == 12);
    assert("versionCount"@.len() == 12);
    let vs = message_versions(m, info);
    let p = version_position(vs, m.id@);
    let dv: int = match m.depth {
        Some(d) => d as int,
        None => index,
    };
    let vi: int = if p >= 0 { p } else { 0 };
    let w0 = object_members_v(meta);
    let slot = JsonV::Str(slot_key_v(m.slot_id, m.id));
    let w1 = obj_insert(w0, "slotId"@, slot);
    let w2 = obj_insert(w1, "depth"@, JsonV::Int(dv));
    let w3 = obj_insert(w2, "versionIndex"@, JsonV::Int((vi as i64) as int));
    let cnt = JsonV::Int((vs.len() as i64) as int);
    let w4 = obj_insert(w3, "versionCount"@, cnt);
    assert(enriched_metadata_v(m, index, meta, info) == JsonV::Object(w4));
    law_insert_then_get(w0, "slotId"@, slot, k);
    law_insert_then_get(w1, "depth"@, JsonV::Int(dv), k);
    law_insert_then_get(w1, "depth"@, JsonV::Int(dv), "slotId"@);
    law_insert_then_get(w2, "versionIndex"@, JsonV::Int((vi as i64) as int), k);
    law_insert_then_get(w2, "versionIndex"@, JsonV::Int((vi as i64) as int), "slotId"@);
    law_insert_then_get(w2, "versionIndex"@, JsonV::Int((vi as i64) as int), "depth"@);
    law_insert_then_get(w3, "versionCount"@, cnt, k);
    law_insert_then_get(w3, "versionCount"@, cnt, "slotId"@);
    law_insert_then_get(w3, "versionCount"@, cnt, "depth"@);
}

} // verus!
