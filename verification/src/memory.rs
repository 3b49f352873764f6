//! Stored memories: how many there are by source and by thread, how many a
//! listing returns, and the JSON object a memory is handed out as.
use vstd::prelude::*;
use crate::json::{as_str, get, get_v, json_str, obj_insert, object_insert, opt_vw, str_v, Json, JsonV, Member};
use crate::records_json::{opt_text, opt_text_v};

verus! {

/// The source a memory's metadata names, or "unknown" when the metadata is
/// not JSON or names none as a string.
pub open spec fn memory_source_v(doc: Option<JsonV>) -> Seq<char> {
    match doc {
        Some(root) => match str_v(get_v(root, "source"@)) {
            Some(s) => s,
            None => "unknown"@,
        },
        None => "unknown"@,
    }
}

/// The source a memory's metadata names.
pub fn memory_source(doc: &Option<Json>) -> (r: String)
    ensures
        r@ == memory_source_v(opt_vw(*doc)),
{
    match doc {
        Some(root) => match as_str(get(root, "source")) {
            Some(s) => s.clone(),
            None => "unknown".to_owned(),
        },
        None => "unknown".to_owned(),
    }
}

/// How often each key occurs in `keys`, the keys in the order in which they
/// first occur.
pub open spec fn tally_v(keys: Seq<Seq<char>>) -> Seq<(Seq<char>, nat)>
    decreases keys.len(),
{
    if keys.len() == 0 {
        Seq::empty()
    } else {
        let t = tally_v(keys.drop_last());
        let k = keys.last();
        let i = tally_index(t, k);
        if i >= 0 {
            t.update(i, (k, t[i].1 + 1))
        } else {
            t.push((k, 1nat))
        }
    }
}

/// Position of the entry for `k` in a tally, or -1.
pub open spec fn tally_index(t: Seq<(Seq<char>, nat)>, k: Seq<char>) -> int
    decreases t.len(),
{
    if t.len() == 0 {
        -1
    } else if t.last().0 == k {
        t.len() - 1
    } else {
        tally_index(t.drop_last(), k)
    }
}

/// The number of times `k` occurs in `keys`.
pub open spec fn occurrences(keys: Seq<Seq<char>>, k: Seq<char>) -> nat
    decreases keys.len(),
{
    if keys.len() == 0 {
        0
    } else {
        occurrences(keys.drop_last(), k) + if keys.last() == k {
            1nat
        } else {
            0nat
        }
    }
}

/// The sum of the counts of a tally.
pub open spec fn tally_sum(t: Seq<(Seq<char>, nat)>) -> nat
    decreases t.len(),
{
    if t.len() == 0 {
        0
    } else {
        tally_sum(t.drop_last()) + t.last().1
    }
}

proof fn lemma_tally_index(t: Seq<(Seq<char>, nat)>, k: Seq<char>)
    ensures
        -1 <= tally_index(t, k) < t.len(),
        tally_index(t, k) >= 0 ==> t[tally_index(t, k)].0 == k,
        tally_index(t, k) < 0 ==> forall|j: int| 0 <= j < t.len() ==> #[trigger] t[j].0 != k,
    decreases t.len(),
{
    if t.len() > 0 && t.last().0 != k {
        lemma_tally_index(t.drop_last(), k);
        assert forall|j: int| 0 <= j < t.len() && tally_index(t, k) < 0 implies #[trigger] t[j].0 != k by {
            if j < t.len() - 1 {
                assert(t[j] == t.drop_last()[j]);
            }
        }
    }
}

/// Whether the keys of a tally are distinct.
pub open spec fn distinct_keys(t: Seq<(Seq<char>, nat)>) -> bool {
    forall|a: int, b: int| 0 <= a < b < t.len() ==> #[trigger] t[a].0 != #[trigger] t[b].0
}

proof fn lemma_tally_index_distinct(t: Seq<(Seq<char>, nat)>, k: Seq<char>, j: int)
    requires
        distinct_keys(t),
        0 <= j < t.len(),
        t[j].0 == k,
    ensures
        tally_index(t, k) == j,
    decreases t.len(),
{
    lemma_tally_index(t, k);
    if t.last().0 != k {
        assert(j < t.len() - 1);
        assert(t.drop_last()[j] == t[j]);
        assert(distinct_keys(t.drop_last())) by {
            assert forall|a: int, b: int| 0 <= a < b < t.drop_last().len() implies #[trigger] t.drop_last()[a].0
                != #[trigger] t.drop_last()[b].0 by {
                assert(t.drop_last()[a] == t[a]);
                assert(t.drop_last()[b] == t[b]);
            }
        }
        lemma_tally_index_distinct(t.drop_last(), k, j);
    } else if j != t.len() - 1 {
        assert(t[j].0 != t[t.len() - 1].0);
    }
}

proof fn lemma_tally_sum_update(t: Seq<(Seq<char>, nat)>, i: int, e: (Seq<char>, nat))
    requires
        0 <= i < t.len(),
    ensures
        tally_sum(t.update(i, e)) + t[i].1 == tally_sum(t) + e.1,
    decreases t.len(),
{
    if i == t.len() - 1 {
        assert(t.update(i, e).drop_last() =~= t.drop_last());
    } else {
        assert(t.update(i, e).drop_last() =~= t.drop_last().update(i, e));
        lemma_tally_sum_update(t.drop_last(), i, e);
    }
}

/// The laws of a tally: its keys are distinct, they are exactly the keys
/// that occur, each with the number of its occurrences, and the counts add
/// up to the number of keys counted.
pub proof fn lemma_tally(keys: Seq<Seq<char>>)
    ensures
        distinct_keys(tally_v(keys)),
        forall|j: int| 0 <= j < tally_v(keys).len() ==> #[trigger] tally_v(keys)[j].1 == occurrences(
            keys,
            tally_v(keys)[j].0,
        ),
        forall|j: int| 0 <= j < tally_v(keys).len() ==> occurrences(keys, #[trigger] tally_v(keys)[j].0) > 0,
        forall|k: Seq<char>| occurrences(keys, k) > 0 ==> tally_index(tally_v(keys), k) >= 0,
        tally_sum(tally_v(keys)) == keys.len(),
    decreases keys.len(),
{
    if keys.len() > 0 {
        let prev = keys.drop_last();
        lemma_tally(prev);
        let t = tally_v(prev);
        let k = keys.last();
        lemma_tally_index(t, k);
        let i = tally_index(t, k);
        let t2 = tally_v(keys);
        if i >= 0 {
            assert(t2 == t.update(i, (k, t[i].1 + 1)));
            lemma_tally_sum_update(t, i, (k, (t[i].1 + 1) as nat));
            assert forall|a: int, b: int| 0 <= a < b < t2.len() implies #[trigger] t2[a].0 != #[trigger] t2[b].0 by {
                assert(t[a].0 != t[b].0);
            }
            assert forall|k2: Seq<char>| occurrences(keys, k2) > 0 implies tally_index(t2, k2) >= 0 by {
                if k2 != k {
                    assert(occurrences(prev, k2) > 0);
                    lemma_tally_index(t, k2);
                    let j = tally_index(t, k2);
                    assert(t2[j].0 == k2);
                    lemma_tally_index_distinct(t2, k2, j);
                } else {
                    assert(t2[i].0 == k);
                    lemma_tally_index_distinct(t2, k, i);
                }
            }
        } else {
            assert(t2 == t.push((k, 1nat)));
            assert(t2.drop_last() =~= t);
            assert forall|a: int, b: int| 0 <= a < b < t2.len() implies #[trigger] t2[a].0 != #[trigger] t2[b].0 by {
                if b == t.len() {
                    assert(t[a].0 != k);
                } else {
                    assert(t[a].0 != t[b].0);
                }
            }
            assert forall|j: int| 0 <= j < t2.len() implies #[trigger] t2[j].1 == occurrences(keys, t2[j].0) by {
                if j < t.len() {
                    assert(t[j].0 != k);
                } else {
                    assert(occurrences(prev, k) == 0) by {
                        if occurrences(prev, k) > 0 {
                            assert(tally_index(t, k) >= 0);
                        }
                    }
                }
            }
            assert forall|k2: Seq<char>| occurrences(keys, k2) > 0 implies tally_index(t2, k2) >= 0 by {
                if k2 != k {
                    assert(occurrences(prev, k2) > 0);
                    lemma_tally_index(t, k2);
                    let j = tally_index(t, k2);
                    assert(t2[j].0 == k2);
                    lemma_tally_index_distinct(t2, k2, j);
                } else {
                    lemma_tally_index_distinct(t2, k, t.len() as int);
                }
            }
        }
    }
}

/// The view of a tally kept as texts and counts.
pub open spec fn counts_vw(c: Seq<(String, usize)>) -> Seq<(Seq<char>, nat)> {
    c.map_values(|e: (String, usize)| (e.0@, e.1 as nat))
}

fn find_key(c: &Vec<(String, usize)>, k: &str) -> (r: Option<usize>)
    ensures
        match r {
            Some(i) => i as int == tally_index(counts_vw(c@), k@),
            None => tally_index(counts_vw(c@), k@) == -1,
        },
{
    let ghost t = counts_vw(c@);
    proof {
        lemma_tally_index(t, k@);
    }
    let mut i = c.len();
    while i > 0
        invariant
            i <= c@.len(),
            t == counts_vw(c@),
            forall|j: int| i <= j < c@.len() ==> #[trigger] c@[j].0@ != k@,
            tally_index(t, k@) < i,
            -1 <= tally_index(t, k@),
            tally_index(t, k@) >= 0 ==> t[tally_index(t, k@)].0 == k@,
        decreases i,
    {
        if crate::text::str_eq(c[i - 1].0.as_str(), k) {
            proof {
                lemma_tally_index_upto(t, k@, i as int);
            }
            return Some(i - 1);
        }
        i = i - 1;
    }
    proof {
        if tally_index(t, k@) >= 0 {
            assert(c@[tally_index(t, k@)].0@ == k@);
        }
    }
    None
}

proof fn lemma_tally_index_upto(t: Seq<(Seq<char>, nat)>, k: Seq<char>, i: int)
    requires
        0 < i <= t.len(),
        t[i - 1].0 == k,
        forall|j: int| i <= j < t.len() ==> #[trigger] t[j].0 != k,
    ensures
        tally_index(t, k) == i - 1,
    decreases t.len(),
{
    if t.len() > i {
        assert(t.last().0 != k);
        assert forall|j: int| i <= j < t.drop_last().len() implies #[trigger] t.drop_last()[j].0 != k by {
            assert(t.drop_last()[j] == t[j]);
        }
        assert(t.drop_last()[i - 1] == t[i - 1]);
        lemma_tally_index_upto(t.drop_last(), k, i);
    }
}

/// How often each key occurs, in the order of first occurrence.
pub fn tally(keys: &Vec<String>) -> (r: Vec<(String, usize)>)
    ensures
        counts_vw(r@) == tally_v(keys@.map_values(|s: String| s@)),
{
    let ghost kv = keys@.map_values(|s: String| s@);
    let mut out: Vec<(String, usize)> = Vec::new();
    let mut i: usize = 0;
    while i < keys.len()
        invariant
            i <= keys@.len(),
            kv == keys@.map_values(|s: String| s@),
            counts_vw(out@) == tally_v(kv.take(i as int)),
            forall|j: int| 0 <= j < out@.len() ==> #[trigger] out@[j].1 <= i,
        decreases keys@.len() - i,
    {
        proof {
            assert(kv.take(i as int + 1).drop_last() =~= kv.take(i as int));
            assert(kv.take(i as int + 1).last() == keys@[i as int]@);
        }
        let ghost prev = out@;
        proof {
            lemma_tally_index(counts_vw(out@), keys@[i as int]@);
            assert(counts_vw(out@).len() == out@.len());
        }
        match find_key(&out, keys[i].as_str()) {
            Some(j) => {
                let c = out[j].1;
                let k = out[j].0.clone();
                out.set(j, (k, c + 1));
                proof {
                    assert(counts_vw(prev)[j as int].0 == keys@[i as int]@);
                    assert(counts_vw(out@) =~= counts_vw(prev).update(j as int, (keys@[i as int]@, (c + 1) as nat)));
                }
            },
            None => {
                out.push((keys[i].clone(), 1));
                proof {
                    assert(counts_vw(out@) =~= counts_vw(prev).push((keys@[i as int]@, 1nat)));
                }
            },
        }
        i = i + 1;
    }
    proof {
        assert(kv.take(keys@.len() as int) =~= kv);
    }
    out
}

/// A tally as a JSON object of counts.
pub open spec fn counts_object_v(t: Seq<(Seq<char>, nat)>) -> Seq<(Seq<char>, JsonV)>
    decreases t.len(),
{
    if t.len() == 0 {
        Seq::empty()
    } else {
        obj_insert(counts_object_v(t.drop_last()), t.last().0, JsonV::UInt(t.last().1 as int))
    }
}

fn counts_object(c: &Vec<(String, usize)>) -> (r: Json)
    ensures
        r.vw() == JsonV::Object(counts_object_v(counts_vw(c@))),
{
    let ghost t = counts_vw(c@);
    let mut ms: Vec<Member> = Vec::new();
    let mut i: usize = 0;
    while i < c.len()
        invariant
            i <= c@.len(),
            t == counts_vw(c@),
            crate::json::members_vw(ms@) == counts_object_v(t.take(i as int)),
        decreases c@.len() - i,
    {
        proof {
            assert(t.take(i as int + 1).drop_last() =~= t.take(i as int));
        }
        object_insert(&mut ms, c[i].0.clone(), Json::UInt(c[i].1 as u64));
        i = i + 1;
    }
    proof {
        assert(t.take(c@.len() as int) =~= t);
    }
    Json::Object(ms)
}

/// One stored memory as the statistics read it: its metadata (`None` when
/// not JSON) and its thread.
pub struct MemoryStatRow {
    pub metadata: Option<Json>,
    pub thread_id: Option<String>,
}

pub open spec fn sources_v(rows: Seq<MemoryStatRow>) -> Seq<Seq<char>> {
    rows.map_values(|r: MemoryStatRow| memory_source_v(opt_vw(r.metadata)))
}

/// The threads of the memories that have one, in order.
pub open spec fn threads_v(rows: Seq<MemoryStatRow>) -> Seq<Seq<char>>
    decreases rows.len(),
{
    if rows.len() == 0 {
        Seq::empty()
    } else {
        match rows.last().thread_id {
            Some(t) => threads_v(rows.drop_last()).push(t@),
            None => threads_v(rows.drop_last()),
        }
    }
}

/// The memory statistics: the number of memories, and how many there are by
/// source and by thread.
pub open spec fn memory_stats_v(rows: Seq<MemoryStatRow>) -> JsonV {
    let a = obj_insert(Seq::empty(), "total"@, JsonV::UInt(rows.len() as int));
    let b = obj_insert(a, "bySource"@, JsonV::Object(counts_object_v(tally_v(sources_v(rows)))));
    JsonV::Object(obj_insert(b, "byThread"@, JsonV::Object(counts_object_v(tally_v(threads_v(rows))))))
}

/// The memory statistics payload.
pub fn memory_stats(rows: &Vec<MemoryStatRow>) -> (r: Json)
    ensures
        r.vw() == memory_stats_v(rows@),
{
    let mut sources: Vec<String> = Vec::new();
    let mut threads: Vec<String> = Vec::new();
    let mut i: usize = 0;
    while i < rows.len()
        invariant
            i <= rows@.len(),
            sources@.map_values(|s: String| s@) == sources_v(rows@.take(i as int)),
            threads@.map_values(|s: String| s@) == threads_v(rows@.take(i as int)),
        decreases rows@.len() - i,
    {
        let ghost ps = sources@;
        let ghost pt = threads@;
        proof {
            assert(rows@.take(i as int + 1).drop_last() =~= rows@.take(i as int));
            assert(rows@.take(i as int + 1).last() == rows@[i as int]);
        }
        let s = memory_source(&rows[i].metadata);
        sources.push(s);
        proof {
            assert(sources@.map_values(|s: String| s@) =~= ps.map_values(|s: String| s@).push(
                memory_source_v(opt_vw(rows@[i as int].metadata)),
            ));
            assert(sources_v(rows@.take(i as int + 1)) =~= sources_v(rows@.take(i as int)).push(
                memory_source_v(opt_vw(rows@[i as int].metadata)),
            ));
        }
        match &rows[i].thread_id {
            Some(t) => {
                threads.push(t.clone());
                proof {
                    assert(threads@.map_values(|s: String| s@) =~= pt.map_values(|s: String| s@).push(t@));
                }
            },
            None => {},
        }
        i = i + 1;
    }
    proof {
        assert(rows@.take(rows@.len() as int) =~= rows@);
    }
    let by_source = tally(&sources);
    let by_thread = tally(&threads);
    let mut ms: Vec<Member> = Vec::new();
    object_insert(&mut ms, "total".to_owned(), Json::UInt(rows.len() as u64));
    object_insert(&mut ms, "bySource".to_owned(), counts_object(&by_source));
    object_insert(&mut ms, "byThread".to_owned(), counts_object(&by_thread));
    Json::Object(ms)
}

/// How many memories a listing returns: 100 unless given, kept within 1 to
/// 1000.
pub fn memory_list_limit(limit: Option<i32>) -> (r: i32)
    ensures
        r == match limit {
            Some(l) => if l < 1 {
                1i32
            } else if l > 1000 {
                1000i32
            } else {
                l
            },
            None => 100i32,
        },
{
    let l = match limit {
        Some(l) => l,
        None => 100,
    };
    if l < 1 {
        1
    } else if l > 1000 {
        1000
    } else {
        l
    }
}

/// One stored memory, its metadata parsed (`None` when not JSON).
pub struct MemoryRow {
    pub id: String,
    pub content: String,
    pub metadata: Option<Json>,
    pub thread_id: Option<String>,
    pub message_id: Option<String>,
    pub user_id: Option<String>,
    pub created_at: String,
    pub updated_at: String,
}

/// A memory as the JSON object the client receives: metadata that is not
/// JSON is handed out as an empty object.
pub open spec fn memory_json_v(m: MemoryRow) -> JsonV {
    let meta = match m.metadata {
        Some(d) => d.vw(),
        None => JsonV::Object(Seq::empty()),
    };
    let a = obj_insert(Seq::empty(), "id"@, JsonV::Str(m.id@));
    let b = obj_insert(a, "content"@, JsonV::Str(m.content@));
    let c = obj_insert(b, "metadata"@, meta);
    let d = obj_insert(c, "threadId"@, opt_text_v(m.thread_id));
    let e = obj_insert(d, "messageId"@, opt_text_v(m.message_id));
    let f = obj_insert(e, "userId"@, opt_text_v(m.user_id));
    let g = obj_insert(f, "createdAt"@, JsonV::Str(m.created_at@));
    JsonV::Object(obj_insert(g, "updatedAt"@, JsonV::Str(m.updated_at@)))
}

/// A memory as the JSON object the client receives.
pub fn memory_json(m: MemoryRow) -> (r: Json)
    ensures
        r.vw() == memory_json_v(m),
{
    let meta = match m.metadata {
        Some(d) => d,
        None => Json::Object(Vec::new()),
    };
    proof {
        assert(crate::json::members_vw(Seq::<Member>::empty()) =~= Seq::<(Seq<char>, JsonV)>::empty());
    }
    let mut ms: Vec<Member> = Vec::new();
    object_insert(&mut ms, "id".to_owned(), json_str(m.id.as_str()));
    object_insert(&mut ms, "content".to_owned(), json_str(m.content.as_str()));
    object_insert(&mut ms, "metadata".to_owned(), meta);
    object_insert(&mut ms, "threadId".to_owned(), opt_text(&m.thread_id));
    object_insert(&mut ms, "messageId".to_owned(), opt_text(&m.message_id));
    object_insert(&mut ms, "userId".to_owned(), opt_text(&m.user_id));
    object_insert(&mut ms, "createdAt".to_owned(), json_str(m.created_at.as_str()));
    object_insert(&mut ms, "updatedAt".to_owned(), json_str(m.updated_at.as_str()));
    Json::Object(ms)
}

/// The counts by source add up to the number of memories, and each source is
/// counted once, with the number of memories that name it.
pub proof fn law_memory_sources_add_up(rows: Seq<MemoryStatRow>)
    ensures
        tally_sum(tally_v(sources_v(rows))) == rows.len(),
        distinct_keys(tally_v(sources_v(rows))),
        forall|j: int| 0 <= j < tally_v(sources_v(rows)).len() ==> #[trigger] tally_v(sources_v(rows))[j].1
            == occurrences(sources_v(rows), tally_v(sources_v(rows))[j].0),
{
    lemma_tally(sources_v(rows));
}

} // verus!
