//! Full-text and title search over threads: how hits are grouped by thread,
//! which messages are shown around them, and how threads are ranked.
use vstd::prelude::*;
use crate::json::{
    items_vw, json_str, law_insert_then_get, obj_get, obj_insert, object_insert, Json, JsonV, Member,
};
use crate::records_json::{messages_json, messages_json_v, opt_text, opt_text_v};
use crate::text::{str_eq, text_less, text_lt};
use crate::types::{MessageRecord, ThreadRecord};

verus! {

/// `v.clamp(lo, hi)`.
pub open spec fn clamp_v(v: int, lo: int, hi: int) -> int {
    if v < lo {
        lo
    } else if v > hi {
        hi
    } else {
        v
    }
}

pub open spec fn or_default(v: Option<i32>, d: int) -> int {
    match v {
        Some(x) => x as int,
        None => d,
    }
}

fn clamp_i32(v: i32, lo: i32, hi: i32) -> (r: i32)
    requires
        lo <= hi,
    ensures
        r as int == clamp_v(v as int, lo as int, hi as int),
{
    if v < lo {
        lo
    } else if v > hi {
        hi
    } else {
        v
    }
}

/// The row limit of a full-text search: 1000 by default, kept within 1..=2000.
pub fn fts_search_limit(limit: Option<i32>) -> (r: i32)
    ensures
        r as int == clamp_v(or_default(limit, 1000), 1, 2000),
{
    clamp_i32(
        match limit {
            Some(v) => v,
            None => 1000,
        },
        1,
        2000,
    )
}

/// The bounds of a thread search.
pub struct SearchLimits {
    /// How many threads are returned.
    pub limit: usize,
    /// How many messages are shown on each side of a hit.
    pub context: usize,
    /// How many messages are shown at most for one thread.
    pub max_per_thread: usize,
}

/// The bounds of a thread search: 20 threads by default, within 1..=50; a
/// context of 3 by default, within 0..=10; at most 50 messages a thread by
/// default, within 1..=200, but never fewer than one hit with its context.
pub fn search_limits(limit: Option<i32>, context_size: Option<i32>, max_messages: Option<i32>) -> (r:
    SearchLimits)
    ensures
        r.limit as int == clamp_v(or_default(limit, 20), 1, 50),
        r.context as int == clamp_v(or_default(context_size, 3), 0, 10),
        r.max_per_thread as int == ({
            let window = r.context * 2 + 1;
            let m = clamp_v(or_default(max_messages, 50), 1, 200);
            if window > m {
                window
            } else {
                m
            }
        }),
{
    let l = clamp_i32(
        match limit {
            Some(v) => v,
            None => 20,
        },
        1,
        50,
    ) as usize;
    let c = clamp_i32(
        match context_size {
            Some(v) => v,
            None => 3,
        },
        0,
        10,
    ) as usize;
    let window = c * 2 + 1;
    let m = clamp_i32(
        match max_messages {
            Some(v) => v,
            None => 50,
        },
        1,
        200,
    ) as usize;
    SearchLimits {
        limit: l,
        context: c,
        max_per_thread: if window > m {
            window
        } else {
            m
        },
    }
}

/// The lower-case form of a text, as `str::to_lowercase` gives it.
pub uninterp spec fn lowercase_v(s: Seq<char>) -> Seq<char>;

/// Calls `str::to_lowercase`, whose result is a function of the text alone
/// (the Unicode lower-case mapping); it is not spelled out here.
#[verifier::external_body]
fn to_lowercase(s: &str) -> (r: String)
    ensures
        r@ == lowercase_v(s@),
{
    s.to_lowercase()
}

/// The `LIKE` pattern that matches titles containing the query in any case:
/// the lower-cased query between two `%`.
pub fn title_like_pattern(title_query: &str) -> (r: String)
    ensures
        r@ == seq!['%'] + lowercase_v(title_query@) + seq!['%'],
{
    let lower = to_lowercase(title_query);
    let mut out = String::new();
    out.push('%');
    let out = out.concat(lower.as_str());
    let mut out = out;
    out.push('%');
    out
}

/// Groups of hits: a thread id with the distinct ids of its matched messages.
pub open spec fn group_index(groups: Seq<(Seq<char>, Seq<Seq<char>>)>, t: Seq<char>) -> int
    decreases groups.len(),
{
    if groups.len() == 0 {
        -1
    } else {
        let f = group_index(groups.drop_last(), t);
        if f >= 0 {
            f
        } else if groups.last().0 == t {
            groups.len() - 1
        } else {
            -1
        }
    }
}

/// Records one hit: a message hit of thread `t`, or a title hit (`None`).
pub open spec fn add_hit_v(
    groups: Seq<(Seq<char>, Seq<Seq<char>>)>,
    t: Seq<char>,
    m: Option<Seq<char>>,
) -> Seq<(Seq<char>, Seq<Seq<char>>)> {
    let i = group_index(groups, t);
    if i >= 0 {
        match m {
            Some(id) => if groups[i].1.contains(id) {
                groups
            } else {
                groups.update(i, (t, groups[i].1.push(id)))
            },
            None => groups,
        }
    } else {
        groups.push(
            (
                t,
                match m {
                    Some(id) => seq![id],
                    None => Seq::empty(),
                },
            ),
        )
    }
}

/// The groups after recording the hits in order.
pub open spec fn group_hits_v(hits: Seq<(Seq<char>, Option<Seq<char>>)>) -> Seq<
    (Seq<char>, Seq<Seq<char>>),
>
    decreases hits.len(),
{
    if hits.len() == 0 {
        Seq::empty()
    } else {
        let (t, m) = hits.last();
        add_hit_v(group_hits_v(hits.drop_last()), t, m)
    }
}

/// The hits of a search: every full-text hit, then every title hit.
pub open spec fn all_hits_v(fts_hits: Seq<(String, String)>, title_ids: Seq<String>) -> Seq<
    (Seq<char>, Option<Seq<char>>),
> {
    fts_hits.map_values(|h: (String, String)| (h.0@, Some(h.1@))) + title_ids.map_values(
        |t: String| (t@, None::<Seq<char>>),
    )
}

pub open spec fn groups_vw(g: Seq<(String, Vec<String>)>) -> Seq<(Seq<char>, Seq<Seq<char>>)> {
    g.map_values(|e: (String, Vec<String>)| (e.0@, e.1@.map_values(|s: String| s@)))
}

proof fn lemma_group_index(groups: Seq<(Seq<char>, Seq<Seq<char>>)>, t: Seq<char>)
    ensures
        -1 <= group_index(groups, t) < groups.len(),
        group_index(groups, t) >= 0 ==> groups[group_index(groups, t)].0 == t,
        forall|j: int|
            0 <= j < groups.len() && (group_index(groups, t) < 0 || j < group_index(groups, t))
                ==> #[trigger] groups[j].0 != t,
    decreases groups.len(),
{
    if groups.len() > 0 {
        lemma_group_index(groups.drop_last(), t);
        assert(forall|j: int| 0 <= j < groups.len() - 1 ==> groups.drop_last()[j] == groups[j]);
    }
}

fn contains_text_in(ids: &Vec<String>, id: &str) -> (r: bool)
    ensures
        r == ids@.map_values(|s: String| s@).contains(id@),
{
    let mut i: usize = 0;
    while i < ids.len()
        invariant
            i <= ids@.len(),
            forall|j: int| 0 <= j < i ==> ids@[j]@ != id@,
        decreases ids@.len() - i,
    {
        if str_eq(ids[i].as_str(), id) {
            assert(ids@.map_values(|s: String| s@)[i as int] == id@);
            return true;
        }
        i = i + 1;
    }
    proof {
        let v = ids@.map_values(|s: String| s@);
        assert forall|k: int| 0 <= k < v.len() implies v[k] != id@ by {
            assert(v[k] == ids@[k]@);
        }
    }
    false
}

fn add_hit(groups: &mut Vec<(String, Vec<String>)>, t: &str, m: Option<&str>)
    ensures
        groups_vw(final(groups)@) == add_hit_v(
            groups_vw(old(groups)@),
            t@,
            match m {
                Some(x) => Some(x@),
                None => None,
            },
        ),
{
    let ghost g0 = groups_vw(groups@);
    proof {
        lemma_group_index(g0, t@);
    }
    let mut i: usize = 0;
    while i < groups.len()
        invariant_except_break
            forall|j: int| 0 <= j < i ==> #[trigger] groups@[j].0@ != t@,
        invariant
            i <= groups@.len(),
            groups_vw(groups@) == g0,
        ensures
            i < groups@.len() ==> groups@[i as int].0@ == t@ && forall|j: int|
                0 <= j < i ==> #[trigger] groups@[j].0@ != t@,
            i >= groups@.len() ==> forall|j: int| 0 <= j < groups@.len() ==> #[trigger] groups@[j].0@ != t@,
        decreases groups@.len() - i,
    {
        if str_eq(groups[i].0.as_str(), t) {
            break;
        }
        i = i + 1;
    }
    if i < groups.len() {
        assert(i as int == group_index(g0, t@)) by {
            assert(g0[i as int].0 == t@);
            assert forall|j: int| 0 <= j < i implies g0[j].0 != t@ by {
                assert(g0[j].0 == groups@[j].0@);
            }
        }
        match m {
            Some(id) => {
                if !contains_text_in(&groups[i].1, id) {
                    let ghost before = groups@;
                    let mut entry = groups.remove(i);
                    entry.1.push(id.to_owned());
                    groups.insert(i, entry);
                    proof {
                        assert(groups@ =~= before.update(i as int, entry));
                        assert(entry.1@.map_values(|s: String| s@) =~= before[i as int].1@.map_values(
                            |s: String| s@,
                        ).push(id@));
                        assert(groups_vw(groups@) =~= g0.update(i as int, (t@, g0[i as int].1.push(id@))));
                    }
                }
            },
            None => {},
        }
    } else {
        assert(group_index(g0, t@) == -1) by {
            if group_index(g0, t@) >= 0 {
                let k = group_index(g0, t@);
                assert(g0[k].0 == groups@[k].0@);
            }
        }
        let ids: Vec<String> = match m {
            Some(id) => vec![id.to_owned()],
            None => Vec::new(),
        };
        let ghost before = groups@;
        let e = (t.to_owned(), ids);
        groups.push(e);
        proof {
            assert(ids@.map_values(|s: String| s@) =~= match m {
                Some(x) => seq![x@],
                None => Seq::<Seq<char>>::empty(),
            });
            assert(groups_vw(groups@) =~= g0.push((t@, ids@.map_values(|s: String| s@))));
        }
    }
}

/// Groups the hits of a search by thread, threads in order of their first
/// hit: `fts_hits` are (thread id, message id) pairs of full-text hits,
/// `title_ids` the threads whose title matched.  Each thread gets the
/// distinct ids of its matched messages.
pub fn group_hits(fts_hits: &Vec<(String, String)>, title_ids: &Vec<String>) -> (r: Vec<
    (String, Vec<String>),
>)
    ensures
        groups_vw(r@) == group_hits_v(all_hits_v(fts_hits@, title_ids@)),
{
    let ghost hits = all_hits_v(fts_hits@, title_ids@);
    let mut groups: Vec<(String, Vec<String>)> = Vec::new();
    assert(groups_vw(groups@) =~= group_hits_v(hits.take(0)));
    let mut i: usize = 0;
    while i < fts_hits.len()
        invariant
            i <= fts_hits@.len(),
            hits == all_hits_v(fts_hits@, title_ids@),
            groups_vw(groups@) == group_hits_v(hits.take(i as int)),
        decreases fts_hits@.len() - i,
    {
        proof {
            assert(hits.take(i as int + 1).drop_last() =~= hits.take(i as int));
            assert(hits[i as int] == (fts_hits@[i as int].0@, Some(fts_hits@[i as int].1@)));
        }
        add_hit(&mut groups, fts_hits[i].0.as_str(), Some(fts_hits[i].1.as_str()));
        i = i + 1;
    }
    let n = fts_hits.len();
    let mut j: usize = 0;
    while j < title_ids.len()
        invariant
            j <= title_ids@.len(),
            n == fts_hits@.len(),
            hits == all_hits_v(fts_hits@, title_ids@),
            hits.len() == n + title_ids@.len(),
            groups_vw(groups@) == group_hits_v(hits.take(n + j)),
        decreases title_ids@.len() - j,
    {
        proof {
            assert(hits.take(n + j + 1).drop_last() =~= hits.take(n + j));
            assert(hits[n + j] == (title_ids@[j as int]@, None::<Seq<char>>));
        }
        add_hit(&mut groups, title_ids[j].as_str(), None);
        j = j + 1;
    }
    proof {
        assert(hits.take(n + title_ids@.len()) =~= hits);
    }
    groups
}

/// A list of positions as integers.
pub open spec fn ints(s: Seq<usize>) -> Seq<int> {
    s.map_values(|u: usize| u as int)
}

/// The positions of the matched messages among a thread's messages.
pub open spec fn matched_positions_v(messages: Seq<MessageRecord>, matched: Seq<Seq<char>>) -> Seq<int>
    decreases messages.len(),
{
    if messages.len() == 0 {
        Seq::empty()
    } else {
        let p = matched_positions_v(messages.drop_last(), matched);
        if matched.contains(messages.last().id@) {
            p.push(messages.len() - 1)
        } else {
            p
        }
    }
}

proof fn lemma_matched_positions(messages: Seq<MessageRecord>, matched: Seq<Seq<char>>)
    ensures
        forall|k: int|
            0 <= k < matched_positions_v(messages, matched).len() ==> 0
                <= #[trigger] matched_positions_v(messages, matched)[k] < messages.len(),
    decreases messages.len(),
{
    if messages.len() > 0 {
        lemma_matched_positions(messages.drop_last(), matched);
        let p = matched_positions_v(messages.drop_last(), matched);
        let q = matched_positions_v(messages, matched);
        assert forall|k: int| 0 <= k < q.len() implies 0 <= #[trigger] q[k] < messages.len() by {
            if k < p.len() {
                assert(q[k] == p[k]);
            }
        }
    }
}

/// The positions, in order, of the messages whose id was matched.
pub fn matched_positions(messages: &Vec<MessageRecord>, matched: &Vec<String>) -> (r: Vec<usize>)
    ensures
        ints(r@) == matched_positions_v(
            messages@,
            matched@.map_values(|s: String| s@),
        ),
        forall|k: int| 0 <= k < r@.len() ==> #[trigger] r@[k] < messages@.len(),
{
    let ghost mv = matched@.map_values(|s: String| s@);
    let mut out: Vec<usize> = Vec::new();
    let mut i: usize = 0;
    while i < messages.len()
        invariant
            i <= messages@.len(),
            mv == matched@.map_values(|s: String| s@),
            ints(out@) == matched_positions_v(messages@.take(i as int), mv),
            forall|k: int| 0 <= k < out@.len() ==> #[trigger] out@[k] < i,
        decreases messages@.len() - i,
    {
        proof {
            assert(messages@.take(i as int + 1).drop_last() =~= messages@.take(i as int));
            assert(messages@.take(i as int + 1).last() == messages@[i as int]);
        }
        let ghost prev = out@;
        if contains_text_in(matched, messages[i].id.as_str()) {
            out.push(i);
            proof {
                assert(ints(out@) =~= ints(prev).push(
                    i as int,
                ));
            }
        }
        i = i + 1;
    }
    proof {
        assert(messages@.take(messages@.len() as int) =~= messages@);
    }
    out
}

/// The positions shown around a hit at `h`: `ctx` on each side, within the
/// `n` messages.
pub open spec fn window_v(h: int, n: int, ctx: int) -> Seq<int> {
    let start = if h - ctx > 0 {
        h - ctx
    } else {
        0
    };
    let end = if n - 1 < h + ctx {
        n - 1
    } else {
        h + ctx
    };
    Seq::new((end - start + 1) as nat, |k: int| start + k)
}

/// Every position considered, hit after hit.
pub open spec fn candidates_v(hits: Seq<int>, n: int, ctx: int) -> Seq<int>
    decreases hits.len(),
{
    if hits.len() == 0 {
        Seq::empty()
    } else {
        candidates_v(hits.drop_last(), n, ctx) + window_v(hits.last(), n, ctx)
    }
}

/// The positions picked from the candidates: picking stops once `m` are
/// picked.
pub open spec fn picked_v(c: Seq<int>, m: int) -> Set<int>
    decreases c.len(),
{
    if c.len() == 0 {
        Set::empty()
    } else {
        let s = picked_v(c.drop_last(), m);
        if s.len() >= m {
            s
        } else {
            s.insert(c.last())
        }
    }
}

/// The positions shown of a thread with `n` messages and hits at `hits`; a
/// thread without shown hits shows its first three messages.
pub open spec fn shown_positions_v(hits: Seq<int>, n: int, ctx: int, m: int) -> Set<int> {
    let p = picked_v(candidates_v(hits, n, ctx), m);
    if p.len() == 0 && n > 0 {
        Set::new(|i: int| 0 <= i < n && i < 3)
    } else {
        p
    }
}

/// The members of `s` below `n`, in increasing order.
pub open spec fn enum_positions(s: Set<int>, n: int) -> Seq<int>
    decreases n,
{
    if n <= 0 {
        Seq::empty()
    } else if s.contains(n - 1) {
        enum_positions(s, n - 1).push(n - 1)
    } else {
        enum_positions(s, n - 1)
    }
}

proof fn lemma_picked_finite(c: Seq<int>, m: int)
    ensures
        picked_v(c, m).finite(),
        forall|x: int| #[trigger] picked_v(c, m).contains(x) ==> c.contains(x),
    decreases c.len(),
{
    if c.len() > 0 {
        lemma_picked_finite(c.drop_last(), m);
        assert forall|x: int| #[trigger] picked_v(c, m).contains(x) implies c.contains(x) by {
            if picked_v(c.drop_last(), m).contains(x) {
                let k = choose|k: int| 0 <= k < c.drop_last().len() && c.drop_last()[k] == x;
                assert(c[k] == x);
            } else {
                assert(c[c.len() - 1] == x);
            }
        }
    }
}

proof fn lemma_picked_full(c1: Seq<int>, c2: Seq<int>, m: int)
    requires
        picked_v(c1, m).len() >= m,
    ensures
        picked_v(c1 + c2, m) == picked_v(c1, m),
    decreases c2.len(),
{
    if c2.len() == 0 {
        assert(c1 + c2 =~= c1);
    } else {
        lemma_picked_full(c1, c2.drop_last(), m);
        assert((c1 + c2).drop_last() =~= c1 + c2.drop_last());
    }
}

/// The positions of the messages shown for one thread, in increasing order:
/// the windows around its hits, hit after hit, until `max_per_thread`
/// positions are picked; the first three messages when none is picked.
pub fn shown_positions(n: usize, hits: &Vec<usize>, context: usize, max_per_thread: usize) -> (r: Vec<
    usize,
>)
    requires
        forall|k: int| 0 <= k < hits@.len() ==> #[trigger] hits@[k] < n,
        context <= 10,
    ensures
        ints(r@) == enum_positions(
            shown_positions_v(ints(hits@), n as int, context as int, max_per_thread as int),
            n as int,
        ),
{
    let ghost hv = ints(hits@);
    let ghost m = max_per_thread as int;
    // every candidate position, hit after hit
    let mut cands: Vec<usize> = Vec::new();
    let mut hi: usize = 0;
    while hi < hits.len()
        invariant
            hi <= hits@.len(),
            hv == ints(hits@),
            forall|k: int| 0 <= k < hits@.len() ==> #[trigger] hits@[k] < n,
            context <= 10,
            ints(cands@) == candidates_v(hv.take(hi as int), n as int, context as int),
            forall|k: int| 0 <= k < cands@.len() ==> #[trigger] cands@[k] < n,
        decreases hits@.len() - hi,
    {
        let h = hits[hi];
        let start = if h > context {
            h - context
        } else {
            0
        };
        let end = if n - 1 - h < context {
            n - 1
        } else {
            h + context
        };
        let ghost before = ints(cands@);
        let ghost w = window_v(h as int, n as int, context as int);
        proof {
            assert(hv.take(hi as int + 1).drop_last() =~= hv.take(hi as int));
            assert(hv.take(hi as int + 1).last() == h as int);
        }
        let mut x = start;
        while x <= end
            invariant
                start <= x <= end + 1,
                start <= h <= end,
                end < n,
                w == window_v(h as int, n as int, context as int),
                w.len() == end - start + 1,
                forall|k: int| 0 <= k < w.len() ==> #[trigger] w[k] == start + k,
                ints(cands@) == before + w.take(x - start),
                forall|k: int| 0 <= k < cands@.len() ==> #[trigger] cands@[k] < n,
            decreases end + 1 - x,
        {
            let ghost prev = cands@;
            cands.push(x);
            proof {
                assert(w.take(x - start + 1) =~= w.take(x - start).push(x as int));
                assert(ints(cands@) =~= ints(prev).push(
                    x as int,
                ));
            }
            x = x + 1;
        }
        proof {
            assert(w.take(end + 1 - start) =~= w);
        }
        hi = hi + 1;
    }
    proof {
        assert(hv.take(hits@.len() as int) =~= hv);
    }
    let ghost cv = ints(cands@);
    // pick until `max_per_thread` positions are picked
    let mut marks: Vec<bool> = Vec::new();
    let mut z: usize = 0;
    while z < n
        invariant
            z <= n,
            marks@.len() == z,
            forall|k: int| 0 <= k < z ==> !#[trigger] marks@[k],
        decreases n - z,
    {
        marks.push(false);
        z = z + 1;
    }
    let mut count: usize = 0;
    let mut k: usize = 0;
    proof {
        assert(cv.take(0) =~= Seq::<int>::empty());
    }
    proof {
        assert(cv.take(cands@.len() as int) =~= cv);
    }
    while k < cands.len()
        invariant
            k <= cands@.len(),
            cv.take(cands@.len() as int) == cv,
            cv == ints(cands@),
            forall|j: int| 0 <= j < cands@.len() ==> #[trigger] cands@[j] < n,
            marks@.len() == n,
            m == max_per_thread as int,
            picked_v(cv.take(k as int), m).finite(),
            count as int == picked_v(cv.take(k as int), m).len(),
            count <= k,
            forall|j: int| 0 <= j < n ==> (#[trigger] marks@[j] <==> picked_v(cv.take(k as int), m).contains(j)),
            forall|y: int| picked_v(cv.take(k as int), m).contains(y) ==> 0 <= y < n,
        ensures
            picked_v(cv, m).finite(),
            count as int == picked_v(cv, m).len(),
            marks@.len() == n,
            forall|j: int| 0 <= j < n ==> (#[trigger] marks@[j] <==> picked_v(cv, m).contains(j)),
            forall|y: int| picked_v(cv, m).contains(y) ==> 0 <= y < n,
        decreases cands@.len() - k,
    {
        if count >= max_per_thread {
            proof {
                lemma_picked_full(cv.take(k as int), cv.skip(k as int), m);
                assert(cv.take(k as int) + cv.skip(k as int) =~= cv);
            }
            break;
        }
        let x = cands[k];
        let ghost cur = picked_v(cv.take(k as int), m);
        proof {
            assert(cv.take(k as int + 1).drop_last() =~= cv.take(k as int));
            assert(cv.take(k as int + 1).last() == x as int);
            assert(picked_v(cv.take(k as int + 1), m) == cur.insert(x as int));
        }
        if !marks[x] {
            marks.set(x, true);
            count = count + 1;
        }
        k = k + 1;
        proof {
            if k == cands@.len() {
                assert(cv.take(k as int) =~= cv);
            }
        }
    }
    proof {
        if cands@.len() == 0 {
            assert(cv.take(0) =~= cv);
        }
    }
    let ghost picked = picked_v(cv, m);
    if count == 0 && n > 0 {
        let lim = if n < 3 {
            n
        } else {
            3
        };
        let mut j: usize = 0;
        while j < lim
            invariant
                j <= lim,
                lim <= n,
                marks@.len() == n,
                forall|t: int| 0 <= t < n ==> (#[trigger] marks@[t] <==> (t < j || picked.contains(t))),
            decreases lim - j,
        {
            marks.set(j, true);
            j = j + 1;
        }
        proof {
            assert(picked.len() == 0);
            assert forall|t: int| !picked.contains(t) by {
                if picked.contains(t) {
                    vstd::set_lib::lemma_set_empty_equivalency_len(picked);
                }
            }
        }
    }
    let ghost shown = shown_positions_v(hv, n as int, context as int, m);
    assert(forall|t: int| 0 <= t < n ==> (#[trigger] marks@[t] <==> shown.contains(t)));
    assert(forall|t: int| shown.contains(t) ==> 0 <= t < n);
    let mut out: Vec<usize> = Vec::new();
    let mut i: usize = 0;
    while i < n
        invariant
            i <= n,
            marks@.len() == n,
            forall|t: int| 0 <= t < n ==> (#[trigger] marks@[t] <==> shown.contains(t)),
            ints(out@) == enum_positions(shown, i as int),
        decreases n - i,
    {
        let ghost prev = out@;
        if marks[i] {
            out.push(i);
            proof {
                assert(ints(out@) =~= ints(prev).push(i as int));
            }
        }
        i = i + 1;
    }
    out
}

/// The messages at the given positions, in order.
pub open spec fn at_positions(messages: Seq<MessageRecord>, ps: Seq<int>) -> Seq<MessageRecord> {
    ps.map_values(|p: int| messages[p])
}

/// A count as a JSON number.
pub open spec fn count_v(n: int) -> JsonV {
    if n <= i64::MAX {
        JsonV::Int(n)
    } else {
        JsonV::UInt(n)
    }
}

/// A count as a JSON number.
pub fn json_count(n: usize) -> (r: Json)
    ensures
        r.vw() == count_v(n as int),
{
    if (n as u64) <= 9223372036854775807u64 {
        Json::Int(n as i64)
    } else {
        Json::UInt(n as u64)
    }
}

/// One thread found by a search, with what it is ranked by.
pub struct ThreadSearchHit {
    pub match_count: usize,
    pub updated_at: String,
    pub payload: Json,
}

/// The result object of one thread.
pub open spec fn search_payload_v(t: ThreadRecord, shown: Seq<MessageRecord>, count: int) -> JsonV {
    let a = obj_insert(Seq::empty(), "id"@, JsonV::Str(t.id@));
    let b = obj_insert(a, "title"@, JsonV::Str(t.title@));
    let c = obj_insert(b, "model"@, opt_text_v(t.model));
    let d = obj_insert(
        c,
        "isGenerating"@,
        JsonV::Bool(
            match t.is_generating {
                Some(g) => g,
                None => false,
            },
        ),
    );
    let e = obj_insert(d, "createdAt"@, JsonV::Str(t.created_at@));
    let f = obj_insert(e, "updatedAt"@, JsonV::Str(t.updated_at@));
    let g = obj_insert(f, "matchCount"@, count_v(count));
    JsonV::Object(obj_insert(g, "messages"@, JsonV::Array(messages_json_v(shown))))
}

/// The number of distinct matched messages, 1 for a title-only match.
pub open spec fn match_count_v(matched: Seq<String>) -> int {
    if matched.len() == 0 {
        1
    } else {
        matched.len() as int
    }
}

/// The result of one thread of a search, given its messages in timestamp
/// order and the distinct ids of its matched messages; nothing for a thread
/// with neither messages nor matches.
pub fn thread_search_hit(
    thread: &ThreadRecord,
    messages: &Vec<MessageRecord>,
    matched: &Vec<String>,
    limits: &SearchLimits,
) -> (r: Option<ThreadSearchHit>)
    requires
        limits.context <= 10,
    ensures
        messages@.len() == 0 && matched@.len() == 0 ==> r is None,
        !(messages@.len() == 0 && matched@.len() == 0) ==> (r matches Some(h) && h.match_count
            == match_count_v(matched@) && h.updated_at@ == thread.updated_at@ && h.payload.vw()
            == search_payload_v(
            *thread,
            at_positions(
                messages@,
                enum_positions(
                    shown_positions_v(
                        matched_positions_v(messages@, matched@.map_values(|s: String| s@)),
                        messages@.len() as int,
                        limits.context as int,
                        limits.max_per_thread as int,
                    ),
                    messages@.len() as int,
                ),
            ),
            match_count_v(matched@),
        )),
{
    if messages.len() == 0 && matched.len() == 0 {
        return None;
    }
    let hits = matched_positions(messages, matched);
    let ps = shown_positions(messages.len(), &hits, limits.context, limits.max_per_thread);
    let ghost pv = ints(ps@);
    let mut shown: Vec<MessageRecord> = Vec::new();
    let mut i: usize = 0;
    proof {
        lemma_enum_positions_bound(
            shown_positions_v(ints(hits@), messages@.len() as int, limits.context as int, limits.max_per_thread as int),
            messages@.len() as int,
        );
    }
    while i < ps.len()
        invariant
            i <= ps@.len(),
            pv == ints(ps@),
            forall|k: int| 0 <= k < pv.len() ==> 0 <= #[trigger] pv[k] < messages@.len(),
            shown@ == at_positions(messages@, pv.take(i as int)),
        decreases ps@.len() - i,
    {
        assert(pv[i as int] == ps@[i as int] as int);
        shown.push(messages[ps[i]].duplicate());
        proof {
            assert(at_positions(messages@, pv.take(i as int + 1)) =~= at_positions(messages@, pv.take(i as int)).push(
                messages@[pv[i as int]],
            ));
        }
        i = i + 1;
    }
    proof {
        assert(pv.take(ps@.len() as int) =~= pv);
    }
    let count: usize = if matched.len() == 0 {
        1
    } else {
        matched.len()
    };
    let mut ms: Vec<Member> = Vec::new();
    object_insert(&mut ms, "id".to_owned(), json_str(thread.id.as_str()));
    object_insert(&mut ms, "title".to_owned(), json_str(thread.title.as_str()));
    object_insert(&mut ms, "model".to_owned(), opt_text(&thread.model));
    object_insert(
        &mut ms,
        "isGenerating".to_owned(),
        Json::Bool(
            match thread.is_generating {
                Some(g) => g,
                None => false,
            },
        ),
    );
    object_insert(&mut ms, "createdAt".to_owned(), json_str(thread.created_at.as_str()));
    object_insert(&mut ms, "updatedAt".to_owned(), json_str(thread.updated_at.as_str()));
    object_insert(&mut ms, "matchCount".to_owned(), json_count(count));
    object_insert(&mut ms, "messages".to_owned(), messages_json(&shown));
    Some(ThreadSearchHit { match_count: count, updated_at: thread.updated_at.clone(), payload: Json::Object(ms) })
}

proof fn lemma_enum_positions_bound(s: Set<int>, n: int)
    ensures
        forall|k: int|
            0 <= k < enum_positions(s, n).len() ==> 0 <= #[trigger] enum_positions(s, n)[k] < n,
    decreases n,
{
    if n > 0 {
        lemma_enum_positions_bound(s, n - 1);
        let p = enum_positions(s, n - 1);
        let q = enum_positions(s, n);
        assert forall|k: int| 0 <= k < q.len() implies 0 <= #[trigger] q[k] < n by {
            if k < p.len() {
                assert(q[k] == p[k]);
            }
        }
    }
}

/// Whether result `a` ranks before result `b`: more matches first, then the
/// more recently updated.
pub open spec fn ranks_before(a: (int, Seq<char>), b: (int, Seq<char>)) -> bool {
    a.0 > b.0 || (a.0 == b.0 && text_lt(b.1, a.1))
}

pub open spec fn rank_keys(hits: Seq<ThreadSearchHit>) -> Seq<(int, Seq<char>)> {
    hits.map_values(|h: ThreadSearchHit| (h.match_count as int, h.updated_at@))
}

pub open spec fn rank_payloads(hits: Seq<ThreadSearchHit>) -> Seq<JsonV> {
    hits.map_values(|h: ThreadSearchHit| h.payload.vw())
}

/// The results sorted by rank, stably: each result in turn goes before the
/// first one it ranks before.
pub open spec fn ranked_v(hits: Seq<ThreadSearchHit>) -> Seq<ThreadSearchHit>
    decreases hits.len(),
{
    if hits.len() == 0 {
        Seq::empty()
    } else {
        let s = ranked_v(hits.drop_last());
        let x = hits.last();
        let p = first_ranked_after(rank_keys(s), (x.match_count as int, x.updated_at@));
        s.insert(p, x)
    }
}

/// The first position whose entry `x` ranks before, or the length.
pub open spec fn first_ranked_after(s: Seq<(int, Seq<char>)>, x: (int, Seq<char>)) -> int
    decreases s.len(),
{
    if s.len() == 0 {
        0
    } else if ranks_before(x, s[0]) {
        0
    } else {
        1 + first_ranked_after(s.drop_first(), x)
    }
}

proof fn lemma_first_ranked_after_bound(s: Seq<(int, Seq<char>)>, x: (int, Seq<char>))
    ensures
        0 <= first_ranked_after(s, x) <= s.len(),
    decreases s.len(),
{
    if s.len() > 0 {
        lemma_first_ranked_after_bound(s.drop_first(), x);
    }
}

proof fn lemma_ranked_len(hits: Seq<ThreadSearchHit>)
    ensures
        ranked_v(hits).len() == hits.len(),
    decreases hits.len(),
{
    if hits.len() > 0 {
        lemma_ranked_len(hits.drop_last());
        let s = ranked_v(hits.drop_last());
        let x = hits.last();
        lemma_first_ranked_after_bound(rank_keys(s), (x.match_count as int, x.updated_at@));
    }
}

proof fn lemma_first_ranked_after(s: Seq<(int, Seq<char>)>, x: (int, Seq<char>), p: int)
    requires
        0 <= p <= s.len(),
        forall|j: int| 0 <= j < p ==> !ranks_before(x, #[trigger] s[j]),
        p < s.len() ==> ranks_before(x, s[p]),
    ensures
        first_ranked_after(s, x) == p,
    decreases p,
{
    if p > 0 {
        assert(!ranks_before(x, s[0]));
        let t = s.drop_first();
        assert forall|j: int| 0 <= j < p - 1 implies !ranks_before(x, #[trigger] t[j]) by {
            assert(t[j] == s[j + 1]);
        }
        lemma_first_ranked_after(t, x, p - 1);
    }
}

/// The result objects of a search, best ranked first, at most `limit` of
/// them: more matches first, then the most recently updated, the order of
/// the input kept between equals.
pub fn rank_search_hits(hits: Vec<ThreadSearchHit>, limit: usize) -> (r: Vec<Json>)
    ensures
        crate::json::items_vw(r@) == rank_payloads(ranked_v(hits@)).take(
            if limit < hits@.len() {
                limit as int
            } else {
                hits@.len() as int
            },
        ),
{
    let ghost h0 = hits@;
    let total = hits.len();
    let mut hits = hits;
    let mut sorted: Vec<ThreadSearchHit> = Vec::new();
    let mut taken: usize = 0;
    while hits.len() > 0
        invariant
            taken + hits@.len() == h0.len(),
            h0.len() == total,
            forall|j: int| 0 <= j < hits@.len() ==> #[trigger] hits@[j] == h0[taken + j],
            sorted@ == ranked_v(h0.take(taken as int)),
        decreases hits@.len(),
    {
        let x = hits.remove(0);
        assert(x == h0[taken as int]);
        let ghost sk = rank_keys(sorted@);
        let mut p: usize = 0;
        while p < sorted.len() && !(x.match_count > sorted[p].match_count || (x.match_count
            == sorted[p].match_count && text_less(sorted[p].updated_at.as_str(), x.updated_at.as_str())))
            invariant
                p <= sorted@.len(),
                sk == rank_keys(sorted@),
                forall|j: int|
                    0 <= j < p ==> !ranks_before((x.match_count as int, x.updated_at@), #[trigger] sk[j]),
            decreases sorted@.len() - p,
        {
            p = p + 1;
        }
        proof {
            lemma_first_ranked_after(sk, (x.match_count as int, x.updated_at@), p as int);
            assert(h0.take(taken as int + 1).drop_last() =~= h0.take(taken as int));
            assert(h0.take(taken as int + 1).last() == x);
        }
        sorted.insert(p, x);
        taken = taken + 1;
    }
    proof {
        assert(h0.take(h0.len() as int) =~= h0);
        lemma_ranked_len(h0);
    }
    let mut out: Vec<Json> = Vec::new();
    let ghost all = rank_payloads(sorted@);
    let mut i: usize = 0;
    let n = if limit < sorted.len() {
        limit
    } else {
        sorted.len()
    };
    while i < n
        invariant
            i <= n,
            n <= sorted@.len(),
            all == rank_payloads(sorted@),
            crate::json::items_vw(out@) == all.take(i as int),
        decreases n - i,
    {
        let ghost prev = out@;
        let e = crate::json::json_clone(&sorted[i].payload);
        out.push(e);
        proof {
            crate::json::lemma_items_vw_push(prev, e);
            assert(all.take(i as int + 1) =~= all.take(i as int).push(all[i as int]));
        }
        i = i + 1;
    }
    out
}

proof fn lemma_picked_len(c: Seq<int>, m: int)
    requires
        m >= 0,
    ensures
        picked_v(c, m).len() <= m,
    decreases c.len(),
{
    if c.len() > 0 {
        lemma_picked_len(c.drop_last(), m);
        lemma_picked_finite(c.drop_last(), m);
    }
}

proof fn lemma_candidates_in_range(hits: Seq<int>, n: int, ctx: int)
    requires
        ctx >= 0,
        forall|k: int| 0 <= k < hits.len() ==> 0 <= #[trigger] hits[k] < n,
    ensures
        forall|x: int| #[trigger] candidates_v(hits, n, ctx).contains(x) ==> 0 <= x < n,
    decreases hits.len(),
{
    if hits.len() > 0 {
        let prev = hits.drop_last();
        assert forall|k: int| 0 <= k < prev.len() implies 0 <= #[trigger] prev[k] < n by {
            assert(prev[k] == hits[k]);
        }
        lemma_candidates_in_range(prev, n, ctx);
        let a = candidates_v(prev, n, ctx);
        let w = window_v(hits.last(), n, ctx);
        assert forall|x: int| #[trigger] candidates_v(hits, n, ctx).contains(x) implies 0 <= x < n by {
            let c = candidates_v(hits, n, ctx);
            let i = choose|i: int| 0 <= i < c.len() && c[i] == x;
            if i < a.len() {
                assert(c[i] == a[i]);
                assert(a.contains(x));
            } else {
                assert(c[i] == w[i - a.len()]);
            }
        }
    }
}

/// The messages shown of a thread lie within the thread, and there are at
/// most `max_per_thread` of them, or the first three when no hit was shown.
pub proof fn law_shown_positions_bounded(hits: Seq<int>, n: int, ctx: int, m: int)
    requires
        ctx >= 0,
        m >= 0,
        forall|k: int| 0 <= k < hits.len() ==> 0 <= #[trigger] hits[k] < n,
    ensures
        shown_positions_v(hits, n, ctx, m).finite(),
        shown_positions_v(hits, n, ctx, m).len() <= m || shown_positions_v(hits, n, ctx, m).len() <= 3,
        forall|x: int| #[trigger] shown_positions_v(hits, n, ctx, m).contains(x) ==> 0 <= x < n,
{
    let c = candidates_v(hits, n, ctx);
    lemma_picked_finite(c, m);
    lemma_picked_len(c, m);
    lemma_candidates_in_range(hits, n, ctx);
    let p = picked_v(c, m);
    if p.len() == 0 && n > 0 {
        let fallback = Set::new(|i: int| 0 <= i < n && i < 3);
        vstd::set_lib::lemma_int_range(0, 3);
        assert(fallback.subset_of(vstd::set_lib::set_int_range(0, 3)));
        vstd::set_lib::lemma_len_subset(fallback, vstd::set_lib::set_int_range(0, 3));
    }
}

proof fn lemma_text_lt_asym(a: Seq<char>, b: Seq<char>)
    ensures
        !(text_lt(a, b) && text_lt(b, a)),
    decreases a.len(),
{
    if a.len() > 0 && b.len() > 0 && a[0] == b[0] {
        lemma_text_lt_asym(a.drop_first(), b.drop_first());
    }
}

proof fn lemma_text_lt_trans(a: Seq<char>, b: Seq<char>, c: Seq<char>)
    requires
        text_lt(a, b),
        text_lt(b, c),
    ensures
        text_lt(a, c),
    decreases a.len(),
{
    if a.len() > 0 && b.len() > 0 && c.len() > 0 && a[0] == b[0] && b[0] == c[0] {
        lemma_text_lt_trans(a.drop_first(), b.drop_first(), c.drop_first());
    }
}

proof fn lemma_ranks_before_order(a: (int, Seq<char>), b: (int, Seq<char>), c: (int, Seq<char>))
    ensures
        !(ranks_before(a, b) && ranks_before(b, a)),
        ranks_before(a, b) && ranks_before(b, c) ==> ranks_before(a, c),
{
    lemma_text_lt_asym(a.1, b.1);
    if ranks_before(a, b) && ranks_before(b, c) && a.0 == b.0 && b.0 == c.0 {
        lemma_text_lt_trans(c.1, b.1, a.1);
    }
}

/// Whether no result of `s` ranks before one listed ahead of it.
pub open spec fn rank_sorted(s: Seq<(int, Seq<char>)>) -> bool {
    forall|i: int, j: int| 0 <= i < j < s.len() ==> !ranks_before(#[trigger] s[j], #[trigger] s[i])
}

proof fn lemma_first_ranked_after_props(s: Seq<(int, Seq<char>)>, x: (int, Seq<char>))
    ensures
        forall|j: int| 0 <= j < first_ranked_after(s, x) ==> !ranks_before(x, #[trigger] s[j]),
        first_ranked_after(s, x) < s.len() ==> ranks_before(x, s[first_ranked_after(s, x)]),
    decreases s.len(),
{
    lemma_first_ranked_after_bound(s, x);
    if s.len() > 0 && !ranks_before(x, s[0]) {
        let t = s.drop_first();
        lemma_first_ranked_after_props(t, x);
        lemma_first_ranked_after_bound(t, x);
        assert forall|j: int| 0 <= j < first_ranked_after(s, x) implies !ranks_before(x, #[trigger] s[j]) by {
            if j > 0 {
                assert(s[j] == t[j - 1]);
            }
        }
        assert(first_ranked_after(s, x) == 1 + first_ranked_after(t, x));
        if first_ranked_after(s, x) < s.len() {
            assert(s[first_ranked_after(s, x)] == t[first_ranked_after(t, x)]);
        }
    }
}

/// Search results come out ranked: no result ranks before one listed ahead
/// of it (more matches first, then the more recently updated), and none is
/// lost or added.
pub proof fn law_search_results_ranked(hits: Seq<ThreadSearchHit>)
    ensures
        ranked_v(hits).len() == hits.len(),
        ranked_v(hits).to_multiset() == hits.to_multiset(),
        rank_sorted(rank_keys(ranked_v(hits))),
    decreases hits.len(),
{
    lemma_ranked_len(hits);
    if hits.len() == 0 {
        vstd::seq_lib::to_multiset_len(hits);
        vstd::seq_lib::to_multiset_len(ranked_v(hits));
        assert(ranked_v(hits).to_multiset() =~= hits.to_multiset());
    }
    if hits.len() > 0 {
        let prev = hits.drop_last();
        law_search_results_ranked(prev);
        let s = ranked_v(prev);
        let x = hits.last();
        let kx = (x.match_count as int, x.updated_at@);
        let ks = rank_keys(s);
        let p = first_ranked_after(ks, kx);
        lemma_first_ranked_after_props(ks, kx);
        lemma_first_ranked_after_bound(ks, kx);
        let out = s.insert(p, x);
        let ko = rank_keys(out);
        assert(ranked_v(hits) == out);
        vstd::seq_lib::to_multiset_insert(s, p, x);
        vstd::seq_lib::to_multiset_build(prev, x);
        assert(prev.push(x) =~= hits);
        assert forall|i: int, j: int| 0 <= i < j < ko.len() implies !ranks_before(#[trigger] ko[j], #[trigger] ko[i]) by {
            let ki = if i < p { ks[i] } else if i == p { kx } else { ks[i - 1] };
            let kj = if j < p { ks[j] } else if j == p { kx } else { ks[j - 1] };
            assert(ko[i] == ki);
            assert(ko[j] == kj);
            if i == p {
                // x against a later s[j-1], with j - 1 >= p
                lemma_ranks_before_order(ks[j - 1], kx, ks[p]);
                if j - 1 > p {
                    assert(!ranks_before(ks[j - 1], ks[p]));
                }
            } else if j == p {
                assert(!ranks_before(kx, ks[i]));
            } else {
                let a = if i < p { i } else { i - 1 };
                let b = if j < p { j } else { j - 1 };
                assert(a < b);
                assert(!ranks_before(ks[b], ks[a]));
            }
        }
    }
}

/// A found thread as ranked: its match count, its update time, and its
/// result object.
pub open spec fn hit_view(h: ThreadSearchHit) -> (int, Seq<char>, JsonV) {
    (h.match_count as int, h.updated_at@, h.payload.vw())
}

pub open spec fn view_keys(s: Seq<(int, Seq<char>, JsonV)>) -> Seq<(int, Seq<char>)> {
    s.map_values(|v: (int, Seq<char>, JsonV)| (v.0, v.1))
}

/// The found threads sorted by rank, stably, as `ranked_v` sorts them.
pub open spec fn ranked_views_v(hs: Seq<(int, Seq<char>, JsonV)>) -> Seq<(int, Seq<char>, JsonV)>
    decreases hs.len(),
{
    if hs.len() == 0 {
        Seq::empty()
    } else {
        let s = ranked_views_v(hs.drop_last());
        let x = hs.last();
        s.insert(first_ranked_after(view_keys(s), (x.0, x.1)), x)
    }
}

proof fn lemma_ranked_views(h: Seq<ThreadSearchHit>)
    ensures
        ranked_views_v(h.map_values(|x: ThreadSearchHit| hit_view(x))) == ranked_v(h).map_values(
            |x: ThreadSearchHit| hit_view(x),
        ),
    decreases h.len(),
{
    let f = |x: ThreadSearchHit| hit_view(x);
    if h.len() == 0 {
        assert(h.map_values(f) =~= Seq::<(int, Seq<char>, JsonV)>::empty());
        assert(ranked_v(h).map_values(f) =~= Seq::<(int, Seq<char>, JsonV)>::empty());
    } else {
        lemma_ranked_views(h.drop_last());
        assert(h.map_values(f).drop_last() =~= h.drop_last().map_values(f));
        let s = ranked_v(h.drop_last());
        let x = h.last();
        let sv = s.map_values(f);
        assert(view_keys(sv) =~= rank_keys(s));
        let p = first_ranked_after(rank_keys(s), (x.match_count as int, x.updated_at@));
        lemma_first_ranked_after_bound(rank_keys(s), (x.match_count as int, x.updated_at@));
        assert(s.insert(p, x).map_values(f) =~= sv.insert(p, f(x)));
    }
}

/// What the store holds of one thread a search found: its row, if it still
/// exists, and its messages in timestamp order.
pub struct FetchedThread {
    pub thread: Option<ThreadRecord>,
    pub messages: Vec<MessageRecord>,
}

/// The ranked view of one found thread, as `thread_search_hit` builds it.
pub open spec fn search_hit_v(
    t: ThreadRecord,
    messages: Seq<MessageRecord>,
    matched: Seq<String>,
    limits: SearchLimits,
) -> (int, Seq<char>, JsonV) {
    (
        match_count_v(matched),
        t.updated_at@,
        search_payload_v(
            t,
            at_positions(
                messages,
                enum_positions(
                    shown_positions_v(
                        matched_positions_v(messages, matched.map_values(|s: String| s@)),
                        messages.len() as int,
                        limits.context as int,
                        limits.max_per_thread as int,
                    ),
                    messages.len() as int,
                ),
            ),
            match_count_v(matched),
        ),
    )
}

/// The found threads, in the order of their groups: each group whose thread
/// still exists and has messages or matches.
pub open spec fn found_hits_v(
    groups: Seq<(String, Vec<String>)>,
    fetched: Seq<FetchedThread>,
    limits: SearchLimits,
) -> Seq<(int, Seq<char>, JsonV)>
    decreases groups.len(),
{
    if groups.len() == 0 || fetched.len() == 0 {
        Seq::empty()
    } else {
        let prev = found_hits_v(groups.drop_last(), fetched.drop_last(), limits);
        let g = groups.last();
        let ft = fetched.last();
        match ft.thread {
            Some(t) => if ft.messages@.len() == 0 && g.1@.len() == 0 {
                prev
            } else {
                prev.push(search_hit_v(t, ft.messages@, g.1@, limits))
            },
            None => prev,
        }
    }
}

/// The answer to a search: the result objects of the found threads, best
/// ranked first (more matches, then the more recently updated, the order of
/// the groups kept between equals), at most `limits.limit` of them.
pub open spec fn search_result_v(
    groups: Seq<(String, Vec<String>)>,
    fetched: Seq<FetchedThread>,
    limits: SearchLimits,
) -> JsonV {
    let found = found_hits_v(groups, fetched, limits);
    let n = if limits.limit < found.len() {
        limits.limit as int
    } else {
        found.len() as int
    };
    JsonV::Array(ranked_views_v(found).map_values(|v: (int, Seq<char>, JsonV)| v.2).take(n))
}

/// Answers a search from the grouped hits (as `group_hits` gives them) and
/// what the store holds of each group's thread, in the same order.
pub fn search_results(
    groups: &Vec<(String, Vec<String>)>,
    fetched: &Vec<FetchedThread>,
    limits: &SearchLimits,
) -> (r: Json)
    requires
        groups@.len() == fetched@.len(),
        limits.context <= 10,
    ensures
        r.vw() == search_result_v(groups@, fetched@, *limits),
{
    let mut results: Vec<ThreadSearchHit> = Vec::new();
    let mut i: usize = 0;
    let ghost f = |x: ThreadSearchHit| hit_view(x);
    while i < groups.len()
        invariant
            i <= groups@.len(),
            groups@.len() == fetched@.len(),
            limits.context <= 10,
            results@.map_values(|x: ThreadSearchHit| hit_view(x)) == found_hits_v(
                groups@.take(i as int),
                fetched@.take(i as int),
                *limits,
            ),
        decreases groups@.len() - i,
    {
        let ghost before = results@;
        assert(groups@.take(i as int + 1).drop_last() =~= groups@.take(i as int));
        assert(fetched@.take(i as int + 1).drop_last() =~= fetched@.take(i as int));
        let ft = &fetched[i];
        match &ft.thread {
            Some(t) => {
                let hit = thread_search_hit(t, &ft.messages, &groups[i].1, limits);
                match hit {
                    Some(h) => {
                        results.push(h);
                        assert(results@.map_values(|x: ThreadSearchHit| hit_view(x)) =~= before.map_values(|x: ThreadSearchHit| hit_view(x)).push(hit_view(h)));
                    },
                    None => {},
                }
            },
            None => {},
        }
        i = i + 1;
    }
    assert(groups@.take(groups@.len() as int) =~= groups@);
    assert(fetched@.take(fetched@.len() as int) =~= fetched@);
    let ghost hs = results@;
    let n = results.len();
    let ranked = rank_search_hits(results, limits.limit);
    proof {
        lemma_ranked_views(hs);
        lemma_ranked_len(hs);
        let rv = ranked_v(hs);
        let k = if limits.limit < hs.len() { limits.limit as int } else { hs.len() as int };
        assert(rank_payloads(rv).take(k) =~= rv.map_values(f).map_values(
            |v: (int, Seq<char>, JsonV)| v.2,
        ).take(k));
    }
    Json::Array(ranked)
}

proof fn lemma_found_hits_len(groups: Seq<(String, Vec<String>)>, fetched: Seq<FetchedThread>, limits: SearchLimits)
    ensures
        found_hits_v(groups, fetched, limits).len() <= groups.len(),
    decreases groups.len(),
{
    if groups.len() > 0 && fetched.len() > 0 {
        lemma_found_hits_len(groups.drop_last(), fetched.drop_last(), limits);
    }
}

proof fn lemma_ranked_views_len(hs: Seq<(int, Seq<char>, JsonV)>)
    ensures
        ranked_views_v(hs).len() == hs.len(),
    decreases hs.len(),
{
    if hs.len() > 0 {
        lemma_ranked_views_len(hs.drop_last());
        let s = ranked_views_v(hs.drop_last());
        let x = hs.last();
        lemma_first_ranked_after_bound(view_keys(s), (x.0, x.1));
    }
}

/// A search answers with at most `limit` threads and at most one per group
/// of hits; with no hits at all it answers with an empty array.
pub proof fn law_search_result_bounded(
    groups: Seq<(String, Vec<String>)>,
    fetched: Seq<FetchedThread>,
    limits: SearchLimits,
)
    ensures
        search_result_v(groups, fetched, limits) matches JsonV::Array(items) && items.len() <= limits.limit
            && items.len() <= groups.len(),
        groups.len() == 0 ==> search_result_v(groups, fetched, limits) == JsonV::Array(Seq::empty()),
{
    let found = found_hits_v(groups, fetched, limits);
    lemma_found_hits_len(groups, fetched, limits);
    lemma_ranked_views_len(found);
    if groups.len() == 0 {
        assert(ranked_views_v(found).map_values(|v: (int, Seq<char>, JsonV)| v.2).take(0) =~= Seq::<JsonV>::empty());
    }
}

/// The result object of a found thread carries the thread's own columns:
/// `id`, `title`, `model` (null when none), `isGenerating` (false when
/// unset), `createdAt` (its creation time) and `updatedAt` (its update
/// time); and `matchCount` is the count it was ranked by.
pub proof fn law_search_payload_columns(t: ThreadRecord, shown: Seq<MessageRecord>, count: int)
    ensures
        search_payload_v(t, shown, count) matches JsonV::Object(ms) && {
            &&& obj_get(ms, "id"@) == Some(JsonV::Str(t.id@))
            &&& obj_get(ms, "title"@) == Some(JsonV::Str(t.title@))
            &&& obj_get(ms, "createdAt"@) == Some(JsonV::Str(t.created_at@))
            &&& obj_get(ms, "updatedAt"@) == Some(JsonV::Str(t.updated_at@))
            &&& obj_get(ms, "matchCount"@) == Some(count_v(count))
            &&& obj_get(ms, "model"@) == Some(
                match t.model {
                    Some(md) => JsonV::Str(md@),
                    None => JsonV::Null,
                },
            )
            &&& obj_get(ms, "isGenerating"@) == Some(JsonV::Bool(t.is_generating == Some(true)))
        },
{
    reveal_strlit("id");
    reveal_strlit("title");
    reveal_strlit("model");
    reveal_strlit("isGenerating");
    reveal_strlit("createdAt");
    reveal_strlit("updatedAt");
    reveal_strlit("matchCount");
    reveal_strlit("messages");
    assert("id"@.len() == 2);
    assert("title"@.len() == 5);
    assert("model"@.len() == 5);
    assert("isGenerating"@.len() == 12);
    assert("createdAt"@.len() == 9);
    assert("updatedAt"@.len() == 9);
    assert("matchCount"@.len() == 10);
    assert("messages"@.len() == 8);
    assert("title"@[0] == 't');
    assert("model"@[0] == 'm');
    assert("createdAt"@[0] == 'c');
    assert("updatedAt"@[0] == 'u');
    let gen = JsonV::Bool(
        match t.is_generating {
            Some(s7) => s7,
            None => false,
        },
    );
    let s1 = obj_insert(Seq::empty(), "id"@, JsonV::Str(t.id@));
    let s2 = obj_insert(s1, "title"@, JsonV::Str(t.title@));
    let s3 = obj_insert(s2, "model"@, opt_text_v(t.model));
    let s4 = obj_insert(s3, "isGenerating"@, gen);
    let s5 = obj_insert(s4, "createdAt"@, JsonV::Str(t.created_at@));
    let s6 = obj_insert(s5, "updatedAt"@, JsonV::Str(t.updated_at@));
    let s7 = obj_insert(s6, "matchCount"@, count_v(count));
    let s8 = obj_insert(s7, "messages"@, JsonV::Array(messages_json_v(shown)));
    assert(search_payload_v(t, shown, count) == JsonV::Object(s8));
    let keys = seq!["id"@, "title"@, "model"@, "isGenerating"@, "createdAt"@, "updatedAt"@, "matchCount"@];
    law_insert_then_get(Seq::empty(), "id"@, JsonV::Str(t.id@), "id"@);
    law_insert_then_get(s1, "title"@, JsonV::Str(t.title@), "id"@);
    law_insert_then_get(s2, "model"@, opt_text_v(t.model), "id"@);
    law_insert_then_get(s2, "model"@, opt_text_v(t.model), "title"@);
    law_insert_then_get(s3, "isGenerating"@, gen, "id"@);
    law_insert_then_get(s3, "isGenerating"@, gen, "title"@);
    law_insert_then_get(s4, "createdAt"@, JsonV::Str(t.created_at@), "id"@);
    law_insert_then_get(s4, "createdAt"@, JsonV::Str(t.created_at@), "title"@);
    law_insert_then_get(s5, "updatedAt"@, JsonV::Str(t.updated_at@), "id"@);
    law_insert_then_get(s5, "updatedAt"@, JsonV::Str(t.updated_at@), "title"@);
    law_insert_then_get(s5, "updatedAt"@, JsonV::Str(t.updated_at@), "createdAt"@);
    law_insert_then_get(s2, "model"@, opt_text_v(t.model), "model"@);
    law_insert_then_get(s3, "isGenerating"@, gen, "model"@);
    law_insert_then_get(s3, "isGenerating"@, gen, "isGenerating"@);
    law_insert_then_get(s4, "createdAt"@, JsonV::Str(t.created_at@), "model"@);
    law_insert_then_get(s4, "createdAt"@, JsonV::Str(t.created_at@), "isGenerating"@);
    law_insert_then_get(s5, "updatedAt"@, JsonV::Str(t.updated_at@), "model"@);
    law_insert_then_get(s5, "updatedAt"@, JsonV::Str(t.updated_at@), "isGenerating"@);
    assert forall|i: int| 0 <= i < 6 implies obj_get(s7, #[trigger] keys[i]) == obj_get(s6, keys[i]) by {
        law_insert_then_get(s6, "matchCount"@, count_v(count), keys[i]);
    }
    law_insert_then_get(s6, "matchCount"@, count_v(count), "matchCount"@);
    assert forall|i: int| 0 <= i < 7 implies obj_get(s8, #[trigger] keys[i]) == obj_get(s7, keys[i]) by {
        law_insert_then_get(s7, "messages"@, JsonV::Array(messages_json_v(shown)), keys[i]);
    }
    assert(obj_get(s8, keys[0]) == obj_get(s8, "id"@));
    assert(obj_get(s8, keys[1]) == obj_get(s8, "title"@));
    assert(obj_get(s8, keys[2]) == obj_get(s8, "model"@));
    assert(obj_get(s8, keys[3]) == obj_get(s8, "isGenerating"@));
    assert(obj_get(s8, keys[4]) == obj_get(s8, "createdAt"@));
    assert(obj_get(s8, keys[5]) == obj_get(s8, "updatedAt"@));
    assert(obj_get(s8, keys[6]) == obj_get(s8, "matchCount"@));
}

} // verus!
