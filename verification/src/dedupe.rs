//! Folding duplicate rows of the predefined providers into one row under the
//! provider's stable id.
use vstd::prelude::*;
use crate::text::{clone_opt, str_eq};

verus! {

/// A provider row as the duplicate check reads it, in creation order.
pub struct DuplicateProviderRow {
    pub id: String,
    pub api_key: String,
    pub base_url: Option<String>,
    pub models: String,
    pub enabled: i64,
}

/// One step of folding duplicates, run against the store in order.
pub enum DedupeAction {
    /// Give the row with the stable id these credentials and models.
    CopyCredentials { api_key: String, base_url: Option<String>, models: String, enabled: i64 },
    /// Move the row `from` to the stable id.
    Rename { from: String },
    /// Delete the row `id`.
    Delete { id: String },
}

/// The predefined providers whose duplicates are folded, by stable id.
pub fn predefined_provider_ids() -> (r: Vec<&'static str>)
    ensures
        r@ == seq!["openai", "anthropic", "gemini", "openrouter"],
{
    vec!["openai", "anthropic", "gemini", "openrouter"]
}

pub open spec fn provider_type_v(stable_id: Seq<char>) -> Seq<char> {
    if stable_id == "gemini"@ {
        "google"@
    } else {
        stable_id
    }
}

/// The provider type that the rows of a predefined provider carry.
pub fn provider_type_for(stable_id: &str) -> (r: &str)
    ensures
        r@ == provider_type_v(stable_id@),
{
    if str_eq(stable_id, "gemini") {
        "google"
    } else {
        stable_id
    }
}

/// 1 when either flag is 1, else 0.
pub open spec fn merged_enabled_v(a: i64, b: i64) -> i64 {
    if a == 1 || b == 1 {
        1
    } else {
        0
    }
}

/// Index of the first row whose id is `id`, or -1.
pub open spec fn first_with_id(rows: Seq<DuplicateProviderRow>, id: Seq<char>) -> int
    decreases rows.len(),
{
    if rows.len() == 0 {
        -1
    } else {
        let f = first_with_id(rows.drop_last(), id);
        if f >= 0 {
            f
        } else if rows.last().id@ == id {
            rows.len() - 1
        } else {
            -1
        }
    }
}

/// Index of the first row with a non-empty api key, or -1.
pub open spec fn first_with_key(rows: Seq<DuplicateProviderRow>) -> int
    decreases rows.len(),
{
    if rows.len() == 0 {
        -1
    } else {
        let f = first_with_key(rows.drop_last());
        if f >= 0 {
            f
        } else if rows.last().api_key@.len() > 0 {
            rows.len() - 1
        } else {
            -1
        }
    }
}

/// The steps for the rows when a row with the stable id exists; its key and
/// flag are the ones read before any step ran.
pub open spec fn plan_with_canonical(
    rows: Seq<DuplicateProviderRow>,
    stable: Seq<char>,
    key: Seq<char>,
    enabled: i64,
) -> Seq<DedupeAction>
    decreases rows.len(),
{
    if rows.len() == 0 {
        Seq::empty()
    } else {
        let prev = plan_with_canonical(rows.drop_last(), stable, key, enabled);
        let r = rows.last();
        if r.id@ == stable {
            prev
        } else {
            let copy = if r.api_key@.len() > 0 && key.len() == 0 {
                seq![
                    DedupeAction::CopyCredentials {
                        api_key: r.api_key,
                        base_url: r.base_url,
                        models: r.models,
                        enabled: merged_enabled_v(enabled, r.enabled),
                    },
                ]
            } else {
                Seq::empty()
            };
            prev + copy + seq![DedupeAction::Delete { id: r.id }]
        }
    }
}

/// The steps for the rows after the preferred row was moved to the stable
/// id, with the key and flag that row holds as the steps run.
pub open spec fn plan_after_rename(
    rows: Seq<DuplicateProviderRow>,
    kept: Seq<char>,
    key: Seq<char>,
    enabled: i64,
) -> (Seq<DedupeAction>, Seq<char>, i64)
    decreases rows.len(),
{
    if rows.len() == 0 {
        (Seq::empty(), key, enabled)
    } else {
        let (prev, k, e) = plan_after_rename(rows.drop_last(), kept, key, enabled);
        let r = rows.last();
        if r.id@ == kept {
            (prev, k, e)
        } else if r.api_key@.len() > 0 && k.len() == 0 {
            let m = merged_enabled_v(e, r.enabled);
            (
                prev + seq![
                    DedupeAction::CopyCredentials {
                        api_key: r.api_key,
                        base_url: r.base_url,
                        models: r.models,
                        enabled: m,
                    },
                    DedupeAction::Delete { id: r.id },
                ],
                r.api_key@,
                m,
            )
        } else {
            (prev + seq![DedupeAction::Delete { id: r.id }], k, e)
        }
    }
}

/// The steps that fold the rows of one predefined provider.
pub open spec fn dedupe_plan(stable: Seq<char>, rows: Seq<DuplicateProviderRow>) -> Seq<DedupeAction> {
    if rows.len() <= 1 {
        Seq::empty()
    } else {
        let c = first_with_id(rows, stable);
        if c >= 0 {
            plan_with_canonical(rows, stable, rows[c].api_key@, rows[c].enabled)
        } else {
            let f = first_with_key(rows);
            let p = if f >= 0 {
                f
            } else {
                0
            };
            seq![DedupeAction::Rename { from: rows[p].id }] + plan_after_rename(
                rows,
                rows[p].id@,
                rows[p].api_key@,
                rows[p].enabled,
            ).0
        }
    }
}

proof fn lemma_first_with_id(rows: Seq<DuplicateProviderRow>, id: Seq<char>)
    ensures
        -1 <= first_with_id(rows, id) < rows.len(),
        first_with_id(rows, id) >= 0 ==> rows[first_with_id(rows, id)].id@ == id,
        forall|j: int|
            0 <= j < rows.len() && (first_with_id(rows, id) < 0 || j < first_with_id(rows, id))
                ==> #[trigger] rows[j].id@ != id,
    decreases rows.len(),
{
    if rows.len() > 0 {
        lemma_first_with_id(rows.drop_last(), id);
        assert(forall|j: int| 0 <= j < rows.len() - 1 ==> rows.drop_last()[j] == rows[j]);
    }
}

proof fn lemma_first_with_key(rows: Seq<DuplicateProviderRow>)
    ensures
        -1 <= first_with_key(rows) < rows.len(),
        first_with_key(rows) >= 0 ==> rows[first_with_key(rows)].api_key@.len() > 0,
        forall|j: int|
            0 <= j < rows.len() && (first_with_key(rows) < 0 || j < first_with_key(rows))
                ==> #[trigger] rows[j].api_key@.len() == 0,
    decreases rows.len(),
{
    if rows.len() > 0 {
        lemma_first_with_key(rows.drop_last());
        assert(forall|j: int| 0 <= j < rows.len() - 1 ==> rows.drop_last()[j] == rows[j]);
    }
}

fn merged_enabled(a: i64, b: i64) -> (r: i64)
    ensures
        r == merged_enabled_v(a, b),
{
    if a == 1 || b == 1 {
        1
    } else {
        0
    }
}

/// The steps that fold the duplicate rows of the predefined provider
/// `stable_id`, given its rows in creation order.  With a row already under
/// the stable id, the other rows are deleted, each first lending its
/// credentials when it has a key and the kept row had none.  Without one, the
/// first row with a key (or the first row) is moved to the stable id and the
/// others are deleted the same way.
pub fn plan_duplicate_providers(stable_id: &str, rows: &Vec<DuplicateProviderRow>) -> (r: Vec<
    DedupeAction,
>)
    ensures
        r@ == dedupe_plan(stable_id@, rows@),
{
    if rows.len() <= 1 {
        return Vec::new();
    }
    proof {
        lemma_first_with_id(rows@, stable_id@);
        lemma_first_with_key(rows@);
    }
    let mut c: usize = 0;
    let mut found = false;
    while c < rows.len()
        invariant_except_break
            !found,
        invariant
            c <= rows@.len(),
            forall|j: int| 0 <= j < c ==> #[trigger] rows@[j].id@ != stable_id@,
        ensures
            found ==> c < rows@.len() && rows@[c as int].id@ == stable_id@,
            !found ==> forall|j: int| 0 <= j < rows@.len() ==> #[trigger] rows@[j].id@ != stable_id@,
        decreases rows@.len() - c,
    {
        if str_eq(rows[c].id.as_str(), stable_id) {
            found = true;
            break;
        }
        c = c + 1;
    }
    let mut out: Vec<DedupeAction> = Vec::new();
    if found {
        assert(c as int == first_with_id(rows@, stable_id@));
        let key_empty = rows[c].api_key.as_str().is_empty();
        let c_enabled = rows[c].enabled;
        let ghost key = rows@[c as int].api_key@;
        let mut i: usize = 0;
        while i < rows.len()
            invariant
                i <= rows@.len(),
                key_empty == (key.len() == 0),
                out@ == plan_with_canonical(rows@.take(i as int), stable_id@, key, c_enabled),
            decreases rows@.len() - i,
        {
            proof {
                assert(rows@.take(i as int + 1).drop_last() =~= rows@.take(i as int));
                assert(rows@.take(i as int + 1).last() == rows@[i as int]);
            }
            let r = &rows[i];
            if !str_eq(r.id.as_str(), stable_id) {
                if !r.api_key.as_str().is_empty() && key_empty {
                    out.push(
                        DedupeAction::CopyCredentials {
                            api_key: r.api_key.clone(),
                            base_url: clone_opt(&r.base_url),
                            models: r.models.clone(),
                            enabled: merged_enabled(c_enabled, r.enabled),
                        },
                    );
                }
                out.push(DedupeAction::Delete { id: r.id.clone() });
            }
            i = i + 1;
        }
        proof {
            assert(rows@.take(rows@.len() as int) =~= rows@);
        }
        out
    } else {
        let mut p: usize = 0;
        let mut has_key = false;
        while p < rows.len()
            invariant_except_break
                !has_key,
            invariant
                p <= rows@.len(),
                forall|j: int| 0 <= j < p ==> #[trigger] rows@[j].api_key@.len() == 0,
            ensures
                has_key ==> p < rows@.len() && rows@[p as int].api_key@.len() > 0,
                !has_key ==> forall|j: int| 0 <= j < rows@.len() ==> #[trigger] rows@[j].api_key@.len() == 0,
            decreases rows@.len() - p,
        {
            if !rows[p].api_key.as_str().is_empty() {
                has_key = true;
                break;
            }
            p = p + 1;
        }
        if !has_key {
            p = 0;
        }
        assert(p as int == (if first_with_key(rows@) >= 0 { first_with_key(rows@) } else { 0 }));
        out.push(DedupeAction::Rename { from: rows[p].id.clone() });
        let mut key_empty = rows[p].api_key.as_str().is_empty();
        let mut state_enabled = rows[p].enabled;
        let ghost mut key = rows@[p as int].api_key@;
        let ghost kept = rows@[p as int].id@;
        let mut i: usize = 0;
        while i < rows.len()
            invariant
                i <= rows@.len(),
                p < rows@.len(),
                kept == rows@[p as int].id@,
                key_empty == (key.len() == 0),
                out@ == seq![DedupeAction::Rename { from: rows@[p as int].id }] + plan_after_rename(
                    rows@.take(i as int),
                    kept,
                    rows@[p as int].api_key@,
                    rows@[p as int].enabled,
                ).0,
                key == plan_after_rename(
                    rows@.take(i as int),
                    kept,
                    rows@[p as int].api_key@,
                    rows@[p as int].enabled,
                ).1,
                state_enabled == plan_after_rename(
                    rows@.take(i as int),
                    kept,
                    rows@[p as int].api_key@,
                    rows@[p as int].enabled,
                ).2,
            decreases rows@.len() - i,
        {
            proof {
                assert(rows@.take(i as int + 1).drop_last() =~= rows@.take(i as int));
                assert(rows@.take(i as int + 1).last() == rows@[i as int]);
            }
            let r = &rows[i];
            if !str_eq(r.id.as_str(), rows[p].id.as_str()) {
                if !r.api_key.as_str().is_empty() && key_empty {
                    let m = merged_enabled(state_enabled, r.enabled);
                    out.push(
                        DedupeAction::CopyCredentials {
                            api_key: r.api_key.clone(),
                            base_url: clone_opt(&r.base_url),
                            models: r.models.clone(),
                            enabled: m,
                        },
                    );
                    out.push(DedupeAction::Delete { id: r.id.clone() });
                    key_empty = false;
                    state_enabled = m;
                    proof {
                        key = r.api_key@;
                    }
                } else {
                    out.push(DedupeAction::Delete { id: r.id.clone() });
                }
            }
            i = i + 1;
        }
        proof {
            assert(rows@.take(rows@.len() as int) =~= rows@);
        }
        out
    }
}

/// Whether no step of `plan` deletes the row `kept`.
pub open spec fn spares(plan: Seq<DedupeAction>, kept: Seq<char>) -> bool {
    forall|i: int| 0 <= i < plan.len() ==> !(#[trigger] plan[i] matches DedupeAction::Delete { id } && id@ == kept)
}

/// Whether some step of `plan` deletes the row `id`.
pub open spec fn deletes(plan: Seq<DedupeAction>, id: String) -> bool {
    exists|i: int| 0 <= i < plan.len() && #[trigger] plan[i] == DedupeAction::Delete { id }
}

/// The id of the row that folding keeps: the row already under the stable
/// id, else the row moved to it.
pub open spec fn kept_row_id(stable: Seq<char>, rows: Seq<DuplicateProviderRow>) -> Seq<char> {
    if first_with_id(rows, stable) >= 0 {
        stable
    } else {
        let f = first_with_key(rows);
        rows[if f >= 0 { f } else { 0 }].id@
    }
}

proof fn lemma_plan_with_canonical(rows: Seq<DuplicateProviderRow>, stable: Seq<char>, key: Seq<char>, enabled: i64)
    ensures
        spares(plan_with_canonical(rows, stable, key, enabled), stable),
        forall|j: int| 0 <= j < rows.len() && rows[j].id@ != stable ==> deletes(
            plan_with_canonical(rows, stable, key, enabled),
            #[trigger] rows[j].id,
        ),
    decreases rows.len(),
{
    if rows.len() > 0 {
        let prev_rows = rows.drop_last();
        lemma_plan_with_canonical(prev_rows, stable, key, enabled);
        let prev = plan_with_canonical(prev_rows, stable, key, enabled);
        let plan = plan_with_canonical(rows, stable, key, enabled);
        let r = rows.last();
        if r.id@ != stable {
            assert(plan.take(prev.len() as int) =~= prev);
            assert(plan.last() == DedupeAction::Delete { id: r.id });
            assert forall|j: int| 0 <= j < rows.len() && rows[j].id@ != stable implies deletes(plan, #[trigger] rows[j].id) by {
                if j < rows.len() - 1 {
                    assert(rows[j] == prev_rows[j]);
                    let i = choose|i: int| 0 <= i < prev.len() && #[trigger] prev[i] == DedupeAction::Delete { id: prev_rows[j].id };
                    assert(plan[i] == prev[i]);
                } else {
                    assert(plan[plan.len() - 1] == DedupeAction::Delete { id: rows[j].id });
                }
            }
            assert forall|i: int| 0 <= i < plan.len() implies !(#[trigger] plan[i] matches DedupeAction::Delete { id } && id@ == stable) by {
                if i < prev.len() {
                    assert(plan[i] == prev[i]);
                }
            }
        } else {
            assert forall|j: int| 0 <= j < rows.len() && rows[j].id@ != stable implies deletes(plan, #[trigger] rows[j].id) by {
                assert(j < rows.len() - 1);
                assert(rows[j] == prev_rows[j]);
            }
        }
    }
}

proof fn lemma_plan_after_rename(rows: Seq<DuplicateProviderRow>, kept: Seq<char>, key: Seq<char>, enabled: i64)
    ensures
        spares(plan_after_rename(rows, kept, key, enabled).0, kept),
        forall|j: int| 0 <= j < rows.len() && rows[j].id@ != kept ==> deletes(
            plan_after_rename(rows, kept, key, enabled).0,
            #[trigger] rows[j].id,
        ),
    decreases rows.len(),
{
    if rows.len() > 0 {
        let prev_rows = rows.drop_last();
        lemma_plan_after_rename(prev_rows, kept, key, enabled);
        let prev = plan_after_rename(prev_rows, kept, key, enabled).0;
        let plan = plan_after_rename(rows, kept, key, enabled).0;
        let r = rows.last();
        if r.id@ != kept {
            assert(plan.take(prev.len() as int) =~= prev);
            assert(plan.last() == DedupeAction::Delete { id: r.id });
            assert forall|j: int| 0 <= j < rows.len() && rows[j].id@ != kept implies deletes(plan, #[trigger] rows[j].id) by {
                if j < rows.len() - 1 {
                    assert(rows[j] == prev_rows[j]);
                    let i = choose|i: int| 0 <= i < prev.len() && #[trigger] prev[i] == DedupeAction::Delete { id: prev_rows[j].id };
                    assert(plan[i] == prev[i]);
                } else {
                    assert(plan[plan.len() - 1] == DedupeAction::Delete { id: rows[j].id });
                }
            }
            assert forall|i: int| 0 <= i < plan.len() implies !(#[trigger] plan[i] matches DedupeAction::Delete { id } && id@ == kept) by {
                if i < prev.len() {
                    assert(plan[i] == prev[i]);
                }
            }
        } else {
            assert forall|j: int| 0 <= j < rows.len() && rows[j].id@ != kept implies deletes(plan, #[trigger] rows[j].id) by {
                assert(j < rows.len() - 1);
                assert(rows[j] == prev_rows[j]);
            }
        }
    }
}

/// Folding duplicates keeps exactly one row of a predefined provider: the
/// kept row is never deleted, and every other row is.
pub proof fn law_dedupe_keeps_one_row(stable: Seq<char>, rows: Seq<DuplicateProviderRow>)
    requires
        rows.len() > 1,
    ensures
        spares(dedupe_plan(stable, rows), kept_row_id(stable, rows)),
        forall|j: int| 0 <= j < rows.len() && rows[j].id@ != kept_row_id(stable, rows) ==> deletes(
            dedupe_plan(stable, rows),
            #[trigger] rows[j].id,
        ),
{
    lemma_first_with_id(rows, stable);
    lemma_first_with_key(rows);
    let c = first_with_id(rows, stable);
    if c >= 0 {
        lemma_plan_with_canonical(rows, stable, rows[c].api_key@, rows[c].enabled);
    } else {
        let f = first_with_key(rows);
        let p = if f >= 0 { f } else { 0 };
        let kept = rows[p].id@;
        lemma_plan_after_rename(rows, kept, rows[p].api_key@, rows[p].enabled);
        let tail = plan_after_rename(rows, kept, rows[p].api_key@, rows[p].enabled).0;
        let plan = dedupe_plan(stable, rows);
        assert(plan == seq![DedupeAction::Rename { from: rows[p].id }] + tail);
        assert forall|i: int| 0 <= i < plan.len() implies !(#[trigger] plan[i] matches DedupeAction::Delete { id } && id@ == kept) by {
            if i > 0 {
                assert(plan[i] == tail[i - 1]);
            }
        }
        assert forall|j: int| 0 <= j < rows.len() && rows[j].id@ != kept implies deletes(plan, #[trigger] rows[j].id) by {
            let i = choose|i: int| 0 <= i < tail.len() && #[trigger] tail[i] == DedupeAction::Delete { id: rows[j].id };
            assert(plan[i + 1] == tail[i]);
        }
    }
}

/// Whether step `s` gives the kept row the credentials of row `r`, with the
/// kept row enabled when it or `r` was enabled.
pub open spec fn copies_from(s: DedupeAction, r: DuplicateProviderRow, kept_enabled: i64) -> bool {
    &&& s is CopyCredentials
    &&& s->api_key == r.api_key
    &&& s->base_url == r.base_url
    &&& s->models == r.models
    &&& s->enabled == (if kept_enabled == 1 || r.enabled == 1 {
        1i64
    } else {
        0i64
    })
}

proof fn lemma_canonical_copies(rows: Seq<DuplicateProviderRow>, stable: Seq<char>, key: Seq<char>, en: i64)
    ensures
        forall|k: int|
            0 <= k < plan_with_canonical(rows, stable, key, en).len() && (
            #[trigger] plan_with_canonical(rows, stable, key, en)[k]) is CopyCredentials ==> exists|j: int|
                0 <= j < rows.len() && rows[j].id@ != stable && rows[j].api_key@.len() > 0 && copies_from(
                    plan_with_canonical(rows, stable, key, en)[k],
                    #[trigger] rows[j],
                    en,
                ),
    decreases rows.len(),
{
    if rows.len() > 0 {
        let init = rows.drop_last();
        lemma_canonical_copies(init, stable, key, en);
        let prev = plan_with_canonical(init, stable, key, en);
        let plan = plan_with_canonical(rows, stable, key, en);
        let r = rows.last();
        assert forall|k: int|
            0 <= k < plan.len() && (#[trigger] plan[k]) is CopyCredentials implies exists|j: int|
                0 <= j < rows.len() && rows[j].id@ != stable && rows[j].api_key@.len() > 0 && copies_from(
                    plan[k],
                    #[trigger] rows[j],
                    en,
                ) by {
            if r.id@ == stable {
                assert(plan == prev);
                let j = choose|j: int|
                    0 <= j < init.len() && init[j].id@ != stable && init[j].api_key@.len() > 0 && copies_from(
                        prev[k],
                        #[trigger] init[j],
                        en,
                    );
                assert(init[j] == rows[j]);
            } else if k < prev.len() {
                let copy = if r.api_key@.len() > 0 && key.len() == 0 {
                    seq![
                        DedupeAction::CopyCredentials {
                            api_key: r.api_key,
                            base_url: r.base_url,
                            models: r.models,
                            enabled: merged_enabled_v(en, r.enabled),
                        },
                    ]
                } else {
                    Seq::empty()
                };
                assert(plan == prev + copy + seq![DedupeAction::Delete { id: r.id }]);
                assert(plan[k] == prev[k]);
                let j = choose|j: int|
                    0 <= j < init.len() && init[j].id@ != stable && init[j].api_key@.len() > 0 && copies_from(
                        prev[k],
                        #[trigger] init[j],
                        en,
                    );
                assert(init[j] == rows[j]);
            } else {
                assert(rows[rows.len() - 1] == r);
                assert(copies_from(plan[k], rows[rows.len() - 1], en));
            }
        }
    }
}

/// When a row already holds the stable id, every credential copy comes from
/// another row that has a key, and leaves the kept row enabled exactly when
/// it or that row was enabled.
pub proof fn law_dedupe_copy_merges_enabled(stable: Seq<char>, rows: Seq<DuplicateProviderRow>, c: int)
    requires
        0 <= c < rows.len(),
        rows[c].id@ == stable,
        forall|j: int| 0 <= j < c ==> #[trigger] rows[j].id@ != stable,
    ensures
        forall|k: int|
            0 <= k < dedupe_plan(stable, rows).len() && (#[trigger] dedupe_plan(stable, rows)[k]) is CopyCredentials
                ==> exists|j: int|
                0 <= j < rows.len() && rows[j].id@ != stable && rows[j].api_key@.len() > 0 && copies_from(
                    dedupe_plan(stable, rows)[k],
                    #[trigger] rows[j],
                    rows[c].enabled,
                ),
{
    lemma_first_with_id(rows, stable);
    if rows.len() > 1 {
        assert(first_with_id(rows, stable) == c);
        lemma_canonical_copies(rows, stable, rows[c].api_key@, rows[c].enabled);
    }
}

proof fn lemma_rename_copies_nothing(rows: Seq<DuplicateProviderRow>, kept: Seq<char>, key: Seq<char>, en: i64)
    requires
        key.len() > 0 || forall|j: int| 0 <= j < rows.len() ==> #[trigger] rows[j].api_key@.len() == 0,
    ensures
        plan_after_rename(rows, kept, key, en).1 == key,
        forall|k: int|
            0 <= k < plan_after_rename(rows, kept, key, en).0.len() ==> !((#[trigger] plan_after_rename(
                rows,
                kept,
                key,
                en,
            ).0[k]) is CopyCredentials),
    decreases rows.len(),
{
    if rows.len() > 0 {
        let init = rows.drop_last();
        assert forall|j: int| 0 <= j < init.len() implies #[trigger] init[j] == rows[j] by {}
        lemma_rename_copies_nothing(init, kept, key, en);
        let r = rows.last();
        assert(r == rows[rows.len() - 1]);
        let prev = plan_after_rename(init, kept, key, en).0;
        let out = plan_after_rename(rows, kept, key, en).0;
        if r.id@ != kept {
            assert(out == prev + seq![DedupeAction::Delete { id: r.id }]);
            assert forall|k: int| 0 <= k < out.len() implies !((#[trigger] out[k]) is CopyCredentials) by {
                if k < prev.len() {
                    assert(out[k] == prev[k]);
                }
            }
        }
    }
}

/// When no row holds the stable id yet, the preferred row (the first with a
/// key, else the first) is moved there and no credentials are copied: either
/// it already has a key, or no row has one.
pub proof fn law_dedupe_rename_copies_nothing(stable: Seq<char>, rows: Seq<DuplicateProviderRow>)
    requires
        forall|j: int| 0 <= j < rows.len() ==> #[trigger] rows[j].id@ != stable,
    ensures
        forall|k: int|
            0 <= k < dedupe_plan(stable, rows).len() ==> !((#[trigger] dedupe_plan(stable, rows)[k]) is CopyCredentials),
{
    lemma_first_with_id(rows, stable);
    lemma_first_with_key(rows);
    if rows.len() > 1 {
        if first_with_id(rows, stable) >= 0 {
            assert(rows[first_with_id(rows, stable)].id@ == stable);
        }
        let f = first_with_key(rows);
        let p = if f >= 0 { f } else { 0 };
        lemma_rename_copies_nothing(rows, rows[p].id@, rows[p].api_key@, rows[p].enabled);
        let tail = plan_after_rename(rows, rows[p].id@, rows[p].api_key@, rows[p].enabled).0;
        let plan = dedupe_plan(stable, rows);
        assert(plan == seq![DedupeAction::Rename { from: rows[p].id }] + tail);
        assert forall|k: int| 0 <= k < plan.len() implies !((#[trigger] plan[k]) is CopyCredentials) by {
            if k > 0 {
                assert(plan[k] == tail[k - 1]);
            }
        }
    }
}

} // verus!
