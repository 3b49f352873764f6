//! Token usage records: the row stored for a message's usage, the usage read
//! back out of message metadata, and the filter of the usage statistics.
use vstd::prelude::*;
use crate::json::{get, get_v, opt_ref_vw, opt_vw, Json, JsonV};
use crate::text::{before_first, before_first_v, head_before, head_before_v, join_texts, join_v, text_lt};
use crate::types::{GetUsageStatsInput, SaveUsageRecordInput, UsageMigrationBatchItem};

verus! {

/// The values of the usage row stored for one message.
pub struct UsageRow {
    pub id: String,
    pub message_id: String,
    pub thread_id: String,
    pub model: Option<String>,
    pub provider_id: Option<String>,
    pub date: String,
    pub input_tokens: i32,
    pub output_tokens: i32,
    pub cached_input_tokens: i32,
    pub cache_write_input_tokens: i32,
    pub reasoning_tokens: i32,
    pub total_tokens: i32,
    pub timestamp: String,
}

pub open spec fn opt_text_v(s: Option<String>) -> Option<Seq<char>> {
    match s {
        Some(t) => Some(t@),
        None => None,
    }
}

/// The provider of a model named `<provider>:<model>`: the text before its
/// first colon; none when the name has no colon or there is no model.
pub open spec fn provider_of_v(model: Option<Seq<char>>) -> Option<Seq<char>> {
    match model {
        Some(m) => before_first_v(m, ':'),
        None => None,
    }
}

pub open spec fn or_zero(v: Option<i32>) -> int {
    match v {
        Some(x) => x as int,
        None => 0,
    }
}

/// The total of a usage: the given total, else input plus output tokens.
pub open spec fn total_tokens_v(total: Option<i32>, input: Option<i32>, output: Option<i32>) -> int {
    match total {
        Some(t) => t as int,
        None => or_zero(input) + or_zero(output),
    }
}

/// Whether the total of a usage is an `i32`.
pub open spec fn total_fits(total: Option<i32>, input: Option<i32>, output: Option<i32>) -> bool {
    i32::MIN <= total_tokens_v(total, input, output) <= i32::MAX
}

fn or_zero_of(v: Option<i32>) -> (r: i32)
    ensures
        r as int == or_zero(v),
{
    match v {
        Some(x) => x,
        None => 0,
    }
}

/// The provider of a model named `<provider>:<model>`.
pub fn provider_of(model: &Option<String>) -> (r: Option<String>)
    ensures
        opt_text_v(r) == provider_of_v(opt_text_v(*model)),
{
    match model {
        Some(m) => before_first(m.as_str(), ':'),
        None => None,
    }
}

/// Whether `row` is the row stored for a usage with these fields: id
/// `usage_<message id>`, the provider taken from the model, the date taken
/// from the timestamp (the text before its first `T`), missing counts as 0,
/// and the total computed when it is missing.
pub open spec fn is_usage_row(
    row: UsageRow,
    message_id: Seq<char>,
    thread_id: Seq<char>,
    model: Option<Seq<char>>,
    timestamp: Seq<char>,
    input: Option<i32>,
    output: Option<i32>,
    cached: Option<i32>,
    cache_write: Option<i32>,
    reasoning: Option<i32>,
    total: Option<i32>,
) -> bool {
    &&& row.id@ == "usage_"@ + message_id
    &&& row.message_id@ == message_id
    &&& row.thread_id@ == thread_id
    &&& opt_text_v(row.model) == model
    &&& opt_text_v(row.provider_id) == provider_of_v(model)
    &&& row.date@ == head_before_v(timestamp, 'T')
    &&& row.input_tokens as int == or_zero(input)
    &&& row.output_tokens as int == or_zero(output)
    &&& row.cached_input_tokens as int == or_zero(cached)
    &&& row.cache_write_input_tokens as int == or_zero(cache_write)
    &&& row.reasoning_tokens as int == or_zero(reasoning)
    &&& row.total_tokens as int == total_tokens_v(total, input, output)
    &&& row.timestamp@ == timestamp
}

fn usage_row(
    message_id: String,
    thread_id: String,
    model: Option<String>,
    timestamp: String,
    input: Option<i32>,
    output: Option<i32>,
    cached: Option<i32>,
    cache_write: Option<i32>,
    reasoning: Option<i32>,
    total: Option<i32>,
) -> (r: UsageRow)
    requires
        total_fits(total, input, output),
    ensures
        is_usage_row(
            r,
            message_id@,
            thread_id@,
            opt_text_v(model),
            timestamp@,
            input,
            output,
            cached,
            cache_write,
            reasoning,
            total,
        ),
{
    let provider_id = provider_of(&model);
    let date = head_before(timestamp.as_str(), 'T');
    let total_tokens: i32 = match total {
        Some(t) => t,
        None => or_zero_of(input) + or_zero_of(output),
    };
    let id = "usage_".to_owned().concat(message_id.as_str());
    UsageRow {
        id,
        message_id,
        thread_id,
        model,
        provider_id,
        date,
        input_tokens: or_zero_of(input),
        output_tokens: or_zero_of(output),
        cached_input_tokens: or_zero_of(cached),
        cache_write_input_tokens: or_zero_of(cache_write),
        reasoning_tokens: or_zero_of(reasoning),
        total_tokens,
        timestamp,
    }
}

/// The row a saved usage record is stored as.
pub fn save_usage_row(input: SaveUsageRecordInput) -> (r: UsageRow)
    requires
        total_fits(input.total_tokens, input.input_tokens, input.output_tokens),
    ensures
        is_usage_row(
            r,
            input.message_id@,
            input.thread_id@,
            opt_text_v(input.model),
            input.timestamp@,
            input.input_tokens,
            input.output_tokens,
            input.cached_input_tokens,
            input.cache_write_input_tokens,
            input.reasoning_tokens,
            input.total_tokens,
        ),
{
    usage_row(
        input.message_id,
        input.thread_id,
        input.model,
        input.timestamp,
        input.input_tokens,
        input.output_tokens,
        input.cached_input_tokens,
        input.cache_write_input_tokens,
        input.reasoning_tokens,
        input.total_tokens,
    )
}

/// The row a migrated usage item is stored as.
pub fn batch_usage_row(item: UsageMigrationBatchItem) -> (r: UsageRow)
    requires
        total_fits(item.total_tokens, item.input_tokens, item.output_tokens),
    ensures
        is_usage_row(
            r,
            item.message_id@,
            item.thread_id@,
            opt_text_v(item.model),
            item.timestamp@,
            item.input_tokens,
            item.output_tokens,
            item.cached_input_tokens,
            item.cache_write_input_tokens,
            item.reasoning_tokens,
            item.total_tokens,
        ),
{
    usage_row(
        item.message_id,
        item.thread_id,
        item.model,
        item.timestamp,
        item.input_tokens,
        item.output_tokens,
        item.cached_input_tokens,
        item.cache_write_input_tokens,
        item.reasoning_tokens,
        item.total_tokens,
    )
}

/// `value.as_i64()`: an integer that is an `i64`.
pub open spec fn as_i64_v(v: Option<JsonV>) -> Option<int> {
    match v {
        Some(JsonV::Int(i)) => Some(i),
        Some(JsonV::UInt(u)) => if u <= i64::MAX {
            Some(u)
        } else {
            None
        },
        _ => None,
    }
}

/// A usage count in metadata: `usage.<key>` when it is an integer that is an
/// `i32`.
pub open spec fn usage_count_v(doc: Option<JsonV>, key: Seq<char>) -> Option<i32> {
    match doc {
        Some(root) => match get_v(root, "usage"@) {
            Some(u) => match as_i64_v(get_v(u, key)) {
                Some(n) => if i32::MIN <= n <= i32::MAX {
                    Some(n as i32)
                } else {
                    None
                },
                None => None,
            },
            None => None,
        },
        None => None,
    }
}

fn as_i64(v: Option<&Json>) -> (r: Option<i64>)
    ensures
        match r {
            Some(i) => as_i64_v(opt_ref_vw(v)) == Some(i as int),
            None => as_i64_v(opt_ref_vw(v)) is None,
        },
{
    match v {
        Some(Json::Int(i)) => Some(*i),
        Some(Json::UInt(u)) => if *u <= 0x7fff_ffff_ffff_ffffu64 {
            Some(*u as i64)
        } else {
            None
        },
        _ => None,
    }
}

/// The usage count stored under `usage.<key>` in message metadata (`None`
/// for metadata that is not JSON).
pub fn json_usage_i32(doc: &Option<Json>, key: &str) -> (r: Option<i32>)
    ensures
        r == usage_count_v(opt_vw(*doc), key@),
{
    let root = match doc {
        Some(root) => root,
        None => {
            return None;
        },
    };
    let usage = match get(root, "usage") {
        Some(u) => u,
        None => {
            return None;
        },
    };
    match as_i64(get(usage, key)) {
        Some(n) => if -2147483648i64 <= n && n <= 2147483647i64 {
            Some(n as i32)
        } else {
            None
        },
        None => None,
    }
}

/// The total a migrated message's metadata gives: its total, else the sum of
/// its input and output counts.
pub open spec fn metadata_total_v(doc: Option<JsonV>) -> int {
    match usage_count_v(doc, "totalTokens"@) {
        Some(t) => t as int,
        None => or_zero(usage_count_v(doc, "inputTokens"@)) + or_zero(
            usage_count_v(doc, "outputTokens"@),
        ),
    }
}

/// The usage item migrated for a message: its counts read from its metadata,
/// the total computed when the metadata gives none.
pub fn usage_batch_item(
    message_id: String,
    thread_id: String,
    model: Option<String>,
    timestamp: String,
    metadata: Option<Json>,
) -> (r: UsageMigrationBatchItem)
    requires
        i32::MIN <= metadata_total_v(opt_vw(metadata)) <= i32::MAX,
    ensures
        r.message_id == message_id,
        r.thread_id == thread_id,
        r.model == model,
        r.timestamp == timestamp,
        r.input_tokens == usage_count_v(opt_vw(metadata), "inputTokens"@),
        r.output_tokens == usage_count_v(opt_vw(metadata), "outputTokens"@),
        r.cached_input_tokens == usage_count_v(opt_vw(metadata), "cachedInputTokens"@),
        r.cache_write_input_tokens == usage_count_v(opt_vw(metadata), "cacheWriteInputTokens"@),
        r.reasoning_tokens == usage_count_v(opt_vw(metadata), "reasoningTokens"@),
        r.total_tokens matches Some(t) && t as int == metadata_total_v(opt_vw(metadata)),
{
    let input_tokens = json_usage_i32(&metadata, "inputTokens");
    let output_tokens = json_usage_i32(&metadata, "outputTokens");
    let cached_input_tokens = json_usage_i32(&metadata, "cachedInputTokens");
    let cache_write_input_tokens = json_usage_i32(&metadata, "cacheWriteInputTokens");
    let reasoning_tokens = json_usage_i32(&metadata, "reasoningTokens");
    let total_tokens = match json_usage_i32(&metadata, "totalTokens") {
        Some(t) => Some(t),
        None => Some(or_zero_of(input_tokens) + or_zero_of(output_tokens)),
    };
    UsageMigrationBatchItem {
        message_id,
        thread_id,
        model,
        timestamp,
        input_tokens,
        output_tokens,
        cached_input_tokens,
        cache_write_input_tokens,
        reasoning_tokens,
        total_tokens,
    }
}

/// The conditions of the statistics filter, in order, and their arguments: a
/// lower and an upper bound on the timestamp, the provider, and the model
/// (matched as the name after a provider prefix, or whole, so given twice).
pub open spec fn stats_conditions_v(input: Option<GetUsageStatsInput>) -> (Seq<Seq<char>>, Seq<Seq<char>>) {
    match input {
        None => (Seq::empty(), Seq::empty()),
        Some(f) => {
            let (c1, a1) = match f.from_date {
                Some(d) => (seq!["timestamp >= ?"@], seq![d@]),
                None => (Seq::empty(), Seq::empty()),
            };
            let (c2, a2) = match f.to_date {
                Some(d) => (seq!["timestamp <= ?"@], seq![d@]),
                None => (Seq::empty(), Seq::empty()),
            };
            let (c3, a3) = match f.provider_id {
                Some(p) => (seq!["provider_id = ?"@], seq![p@]),
                None => (Seq::empty(), Seq::empty()),
            };
            let (c4, a4) = match f.model_id {
                Some(m) => (seq!["(model LIKE '%:' || ? OR model = ?)"@], seq![m@, m@]),
                None => (Seq::empty(), Seq::empty()),
            };
            (c1 + c2 + c3 + c4, a1 + a2 + a3 + a4)
        },
    }
}

/// The head of the per-model, per-date statistics query.
pub open spec fn stats_head_v() -> Seq<char> {
    "SELECT COALESCE(model, 'unknown') as model, date, SUM(COALESCE(input_tokens, 0)) as inputTokens, SUM(COALESCE(output_tokens, 0)) as outputTokens, SUM(COALESCE(cached_input_tokens, 0)) as cachedTokens, SUM(COALESCE(cache_write_input_tokens, 0)) as cacheWriteTokens, SUM(COALESCE(reasoning_tokens, 0)) as reasoningTokens, SUM(COALESCE(total_tokens, 0)) as totalTokens, COUNT(*) as messageCount FROM usage_records"@
}

/// The per-model, per-date statistics query for a filter: the conditions,
/// when there are any, joined by `AND`.
pub open spec fn stats_sql_v(input: Option<GetUsageStatsInput>) -> Seq<char> {
    let conds = stats_conditions_v(input).0;
    stats_head_v() + (if conds.len() == 0 {
        Seq::empty()
    } else {
        " WHERE "@ + join_v(conds, " AND "@)
    }) + " GROUP BY model, date ORDER BY date ASC, model ASC"@
}

fn push_text(v: &mut Vec<String>, s: &str)
    ensures
        final(v)@.map_values(|p: String| p@) == old(v)@.map_values(|p: String| p@).push(s@),
{
    let ghost before = v@;
    v.push(s.to_owned());
    proof {
        assert(v@.map_values(|p: String| p@) =~= before.map_values(|p: String| p@).push(s@));
    }
}

/// The per-model, per-date statistics query for a filter, and its arguments.
pub fn usage_stats_query(input: &Option<GetUsageStatsInput>) -> (r: (String, Vec<String>))
    ensures
        r.0@ == stats_sql_v(*input),
        r.1@.map_values(|p: String| p@) == stats_conditions_v(*input).1,
{
    let mut conds: Vec<String> = Vec::new();
    let mut args: Vec<String> = Vec::new();
    proof {
        assert(conds@.map_values(|p: String| p@) =~= Seq::<Seq<char>>::empty());
        assert(args@.map_values(|p: String| p@) =~= Seq::<Seq<char>>::empty());
    }
    match input {
        Some(f) => {
            match &f.from_date {
                Some(d) => {
                    push_text(&mut conds, "timestamp >= ?");
                    push_text(&mut args, d.as_str());
                },
                None => {},
            }
            match &f.to_date {
                Some(d) => {
                    push_text(&mut conds, "timestamp <= ?");
                    push_text(&mut args, d.as_str());
                },
                None => {},
            }
            match &f.provider_id {
                Some(p) => {
                    push_text(&mut conds, "provider_id = ?");
                    push_text(&mut args, p.as_str());
                },
                None => {},
            }
            match &f.model_id {
                Some(m) => {
                    push_text(&mut conds, "(model LIKE '%:' || ? OR model = ?)");
                    push_text(&mut args, m.as_str());
                    push_text(&mut args, m.as_str());
                },
                None => {},
            }
            proof {
                let (c, a) = stats_conditions_v(*input);
                assert(conds@.map_values(|p: String| p@) =~= c);
                assert(args@.map_values(|p: String| p@) =~= a);
            }
        },
        None => {},
    }
    let mut sql = "SELECT COALESCE(model, 'unknown') as model, date, SUM(COALESCE(input_tokens, 0)) as inputTokens, SUM(COALESCE(output_tokens, 0)) as outputTokens, SUM(COALESCE(cached_input_tokens, 0)) as cachedTokens, SUM(COALESCE(cache_write_input_tokens, 0)) as cacheWriteTokens, SUM(COALESCE(reasoning_tokens, 0)) as reasoningTokens, SUM(COALESCE(total_tokens, 0)) as totalTokens, COUNT(*) as messageCount FROM usage_records".to_owned();
    if conds.len() > 0 {
        let joined = join_texts(&conds, " AND ");
        sql = sql.concat(" WHERE ").concat(joined.as_str());
    }
    sql = sql.concat(" GROUP BY model, date ORDER BY date ASC, model ASC");
    (sql, args)
}

/// `a` sorts at or before `b` as the store compares texts.
pub open spec fn text_le(a: Seq<char>, b: Seq<char>) -> bool {
    a == b || text_lt(a, b)
}

/// How many arguments a statistics condition binds.
pub open spec fn cond_arity(c: Seq<char>) -> int {
    if c == "(model LIKE '%:' || ? OR model = ?)"@ {
        2
    } else {
        1
    }
}

/// What a statistics condition means for a usage row (timestamp, provider,
/// model) with its arguments bound: the store's reading of the SQL text, a
/// NULL column matching nothing. `like(model, m)` says whether `model`
/// matches the pattern `'%:' || m`.
pub open spec fn cond_holds(
    c: Seq<char>,
    a: Seq<Seq<char>>,
    row: (Seq<char>, Option<Seq<char>>, Option<Seq<char>>),
    like: spec_fn(Seq<char>, Seq<char>) -> bool,
) -> bool {
    if c == "timestamp >= ?"@ {
        text_le(a[0], row.0)
    } else if c == "timestamp <= ?"@ {
        text_le(row.0, a[0])
    } else if c == "provider_id = ?"@ {
        row.1 == Some(a[0])
    } else if c == "(model LIKE '%:' || ? OR model = ?)"@ {
        row.2 matches Some(md) && (like(md, a[0]) || md == a[1])
    } else {
        false
    }
}

/// Whether a usage row passes all of `conds`, joined by AND, with `args`
/// bound to their placeholders in order.
pub open spec fn row_passes_v(
    conds: Seq<Seq<char>>,
    args: Seq<Seq<char>>,
    row: (Seq<char>, Option<Seq<char>>, Option<Seq<char>>),
    like: spec_fn(Seq<char>, Seq<char>) -> bool,
) -> bool
    decreases conds.len(),
{
    if conds.len() == 0 {
        args.len() == 0
    } else {
        let n = cond_arity(conds[0]);
        args.len() >= n && cond_holds(conds[0], args.take(n), row, like) && row_passes_v(
            conds.drop_first(),
            args.skip(n),
            row,
            like,
        )
    }
}

proof fn lemma_passes_front(
    c: Seq<Seq<char>>,
    a: Seq<Seq<char>>,
    rest: Seq<Seq<char>>,
    arest: Seq<Seq<char>>,
    row: (Seq<char>, Option<Seq<char>>, Option<Seq<char>>),
    like: spec_fn(Seq<char>, Seq<char>) -> bool,
)
    requires
        c.len() <= 1,
        c.len() == 0 ==> a.len() == 0,
        c.len() == 1 ==> a.len() == cond_arity(c[0]),
    ensures
        row_passes_v(c + rest, a + arest, row, like) == ((c.len() == 0 || cond_holds(c[0], a, row, like))
            && row_passes_v(rest, arest, row, like)),
{
    if c.len() == 0 {
        assert(c + rest =~= rest);
        assert(a + arest =~= arest);
    } else {
        let n = cond_arity(c[0]);
        assert((c + rest)[0] == c[0]);
        assert((c + rest).drop_first() =~= rest);
        assert((a + arest).take(n) =~= a);
        assert((a + arest).skip(n) =~= arest);
    }
}

/// The statistics filter means what its input says: a usage row is counted
/// exactly when its timestamp is at or after `from_date`, at or before
/// `to_date`, its provider is `provider_id`, and its model is `model_id` or
/// ends in `:` and `model_id`, each only where that filter is given.
pub proof fn law_usage_filter_meaning(
    input: Option<GetUsageStatsInput>,
    row: (Seq<char>, Option<Seq<char>>, Option<Seq<char>>),
    like: spec_fn(Seq<char>, Seq<char>) -> bool,
)
    ensures
        row_passes_v(stats_conditions_v(input).0, stats_conditions_v(input).1, row, like) == match input {
            None => true,
            Some(f) => {
                &&& (f.from_date matches Some(d) ==> text_le(d@, row.0))
                &&& (f.to_date matches Some(d) ==> text_le(row.0, d@))
                &&& (f.provider_id matches Some(p) ==> row.1 == Some(p@))
                &&& (f.model_id matches Some(m) ==> (row.2 matches Some(md) && (like(md, m@) || md == m@)))
            },
        },
{
    reveal_strlit("timestamp >= ?");
    reveal_strlit("timestamp <= ?");
    reveal_strlit("provider_id = ?");
    reveal_strlit("(model LIKE '%:' || ? OR model = ?)");
    assert("timestamp >= ?"@.len() == 14);
    assert("timestamp <= ?"@.len() == 14);
    assert("provider_id = ?"@.len() == 15);
    assert("(model LIKE '%:' || ? OR model = ?)"@.len() == 35);
    assert("timestamp >= ?"@[10] == '>');
    assert("timestamp <= ?"@[10] == '<');
    match input {
        None => {},
        Some(f) => {
            let (c1, a1) = match f.from_date {
                Some(from) => (seq!["timestamp >= ?"@], seq![from@]),
                None => (Seq::<Seq<char>>::empty(), Seq::<Seq<char>>::empty()),
            };
            let (c2, a2) = match f.to_date {
                Some(to) => (seq!["timestamp <= ?"@], seq![to@]),
                None => (Seq::<Seq<char>>::empty(), Seq::<Seq<char>>::empty()),
            };
            let (c3, a3) = match f.provider_id {
                Some(pid) => (seq!["provider_id = ?"@], seq![pid@]),
                None => (Seq::<Seq<char>>::empty(), Seq::<Seq<char>>::empty()),
            };
            let (c4, a4) = match f.model_id {
                Some(m) => (seq!["(model LIKE '%:' || ? OR model = ?)"@], seq![m@, m@]),
                None => (Seq::<Seq<char>>::empty(), Seq::<Seq<char>>::empty()),
            };
            assert(stats_conditions_v(input) == (c1 + c2 + c3 + c4, a1 + a2 + a3 + a4));
            assert(c1 + c2 + c3 + c4 =~= c1 + (c2 + (c3 + c4)));
            assert(a1 + a2 + a3 + a4 =~= a1 + (a2 + (a3 + a4)));
            let e: Seq<Seq<char>> = Seq::empty();
            assert(c4 + e =~= c4);
            assert(a4 + e =~= a4);
            lemma_passes_front(c4, a4, e, e, row, like);
            lemma_passes_front(c3, a3, c4, a4, row, like);
            lemma_passes_front(c2, a2, c3 + c4, a3 + a4, row, like);
            lemma_passes_front(c1, a1, c2 + (c3 + c4), a2 + (a3 + a4), row, like);
            match f.model_id {
                Some(m) => {
                    assert(seq![m@, m@][0] == m@);
                    assert(seq![m@, m@][1] == m@);
                },
                None => {},
            }
        },
    }
}

} // verus!
