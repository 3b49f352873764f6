//! The decisions behind the store's writes: row ids, sort orders, which
//! entries the full-text index holds, and which rows an upsert touches.
use vstd::prelude::*;
use crate::text::{join_texts, join_v, parse_i32, parse_int_v};
use crate::types::{AddMessageInput, FtsEntryInput, GetAllWorkspacesInput, SkillStateRecord};

verus! {

/// Whether `c` is white space as `char::is_whitespace` has it: the Unicode
/// `White_Space` property.
pub open spec fn is_space_v(c: char) -> bool {
    let u = c as u32;
    (0x9 <= u && u <= 0xd) || u == 0x20 || u == 0x85 || u == 0xa0 || u == 0x1680 || (0x2000 <= u
        && u <= 0x200a) || u == 0x2028 || u == 0x2029 || u == 0x202f || u == 0x205f || u == 0x3000
}

/// Whether `s.trim()` is empty: every character is white space.
pub open spec fn is_blank_v(s: Seq<char>) -> bool {
    forall|i: int| 0 <= i < s.len() ==> is_space_v(#[trigger] s[i])
}

fn is_space(c: char) -> (r: bool)
    ensures
        r == is_space_v(c),
{
    let u = c as u32;
    (0x9 <= u && u <= 0xd) || u == 0x20 || u == 0x85 || u == 0xa0 || u == 0x1680 || (0x2000 <= u
        && u <= 0x200a) || u == 0x2028 || u == 0x2029 || u == 0x202f || u == 0x205f || u == 0x3000
}

/// Whether a text is empty once trimmed.
pub fn is_blank(s: &str) -> (r: bool)
    ensures
        r == is_blank_v(s@),
{
    let cs = crate::text::chars_of(s);
    let mut i: usize = 0;
    while i < cs.len()
        invariant
            cs@ == s@,
            i <= cs@.len(),
            forall|j: int| 0 <= j < i ==> is_space_v(#[trigger] cs@[j]),
        decreases cs@.len() - i,
    {
        if !is_space(cs[i]) {
            return false;
        }
        i = i + 1;
    }
    true
}

/// The entries the rebuilt index holds: those whose content is not blank, in
/// order.
pub open spec fn indexable_v(entries: Seq<FtsEntryInput>) -> Seq<FtsEntryInput>
    decreases entries.len(),
{
    if entries.len() == 0 {
        Seq::empty()
    } else if is_blank_v(entries.last().content@) {
        indexable_v(entries.drop_last())
    } else {
        indexable_v(entries.drop_last()).push(entries.last())
    }
}

/// The entries a rebuild of the index inserts, and how many.
pub fn indexable_entries(entries: Vec<FtsEntryInput>) -> (r: (Vec<FtsEntryInput>, i32))
    requires
        indexable_v(entries@).len() <= i32::MAX,
    ensures
        r.0@ == indexable_v(entries@),
        r.1 as int == indexable_v(entries@).len(),
{
    let ghost e0 = entries@;
    let n: usize = entries.len();
    let mut out: Vec<FtsEntryInput> = Vec::new();
    let mut count: i32 = 0;
    let mut rest = entries;
    let mut k: usize = 0;
    while rest.len() > 0
        invariant
            k + rest@.len() == e0.len(),
            e0.len() == n,
            forall|j: int| 0 <= j < rest@.len() ==> #[trigger] rest@[j] == e0[k + j],
            out@ == indexable_v(e0.take(k as int)),
            count as int == out@.len(),
            indexable_v(e0).len() <= i32::MAX,
        decreases rest@.len(),
    {
        let e = rest.remove(0);
        proof {
            assert(e0.take(k as int + 1).drop_last() =~= e0.take(k as int));
            assert(e0.take(k as int + 1).last() == e);
            lemma_indexable_prefix(e0, k as int + 1);
        }
        if !is_blank(e.content.as_str()) {
            out.push(e);
            count = count + 1;
        }
        k = k + 1;
    }
    proof {
        assert(e0.take(e0.len() as int) =~= e0);
    }
    (out, count)
}

proof fn lemma_indexable_prefix(e: Seq<FtsEntryInput>, k: int)
    requires
        0 <= k <= e.len(),
    ensures
        indexable_v(e.take(k)).len() <= indexable_v(e).len(),
    decreases e.len() - k,
{
    if k < e.len() {
        lemma_indexable_prefix(e, k + 1);
        assert(e.take(k + 1).drop_last() =~= e.take(k));
    } else {
        assert(e.take(k) =~= e);
    }
}

/// Whether the content of a message is indexed.
pub fn content_indexable(content: &str) -> (r: bool)
    ensures
        r == !is_blank_v(content@),
{
    !is_blank(content)
}

/// The index version recorded in its metadata: the stored text read as an
/// `i32`, 0 when there is none or it does not read as one.
pub open spec fn fts_version_v(raw: Option<Seq<char>>) -> int {
    match raw {
        Some(t) => match parse_int_v(t) {
            Some(v) => if i32::MIN <= v <= i32::MAX {
                v
            } else {
                0
            },
            None => 0,
        },
        None => 0,
    }
}

/// The index version recorded in its metadata.
pub fn fts_version(raw: Option<&str>) -> (r: i32)
    ensures
        r as int == fts_version_v(
            match raw {
                Some(t) => Some(t@),
                None => None,
            },
        ),
{
    match raw {
        Some(t) => match parse_i32(t) {
            Some(v) => v,
            None => 0,
        },
        None => 0,
    }
}

/// The index version from which the index has its present layout.
pub const FTS_LAYOUT_VERSION: i32 = 6;

/// Whether an index of an older layout is dropped: it exists and its version
/// is older than the present layout.
pub fn fts_drop_old(present: bool, version: i32) -> (r: bool)
    ensures
        r == (present && version < FTS_LAYOUT_VERSION),
{
    present && version < FTS_LAYOUT_VERSION
}

/// Whether the index must be rebuilt: it is new, or of an older version, and
/// there are messages to index or its version is older.
pub fn fts_rebuild_needed(present: bool, dropped: bool, version: i32, message_count: i64) -> (r: bool)
    ensures
        r == ((!present || dropped || version < FTS_LAYOUT_VERSION) && (message_count > 0 || version
            < FTS_LAYOUT_VERSION)),
{
    let is_new_table = !present || dropped;
    (is_new_table || version < FTS_LAYOUT_VERSION) && (message_count > 0 || version
        < FTS_LAYOUT_VERSION)
}

/// The row id of a message: `<thread id>--<message id>`.
pub fn message_row_id(thread_id: &str, message_id: &str) -> (r: String)
    ensures
        r@ == thread_id@ + "--"@ + message_id@,
{
    thread_id.to_owned().concat("--").concat(message_id)
}

/// A text, or `default` when none is given.
pub fn text_or(v: Option<String>, default: &str) -> (r: String)
    ensures
        r@ == match v {
            Some(t) => t@,
            None => default@,
        },
{
    match v {
        Some(t) => t,
        None => default.to_owned(),
    }
}

/// The sort order of a new entry: the one given, else one past the largest
/// in use, else 0.
pub fn next_sort_order(given: Option<i32>, max_in_use: Option<i32>) -> (r: i32)
    requires
        given is None && max_in_use is Some ==> max_in_use->0 < i32::MAX,
    ensures
        r as int == match given {
            Some(g) => g as int,
            None => match max_in_use {
                Some(m) => m + 1,
                None => 0,
            },
        },
{
    match given {
        Some(g) => g,
        None => match max_in_use {
            Some(m) => m + 1,
            None => 0,
        },
    }
}

/// The sort order each id is given by a reordering: its position, as `i32`.
pub fn reorder_positions(ids: Vec<String>) -> (r: Vec<(String, i32)>)
    ensures
        r@.len() == ids@.len(),
        forall|i: int| 0 <= i < ids@.len() ==> (#[trigger] r@[i]).0 == ids@[i] && r@[i].1 == i as i32,
{
    let ghost i0 = ids@;
    let n: usize = ids.len();
    let mut out: Vec<(String, i32)> = Vec::new();
    let mut rest = ids;
    let mut k: usize = 0;
    while rest.len() > 0
        invariant
            k + rest@.len() == i0.len(),
            i0.len() == n,
            forall|j: int| 0 <= j < rest@.len() ==> #[trigger] rest@[j] == i0[k + j],
            out@.len() == k,
            forall|i: int| 0 <= i < k ==> (#[trigger] out@[i]).0 == i0[i] && out@[i].1 == i as i32,
        decreases rest@.len(),
    {
        let id = rest.remove(0);
        out.push((id, k as i32));
        k = k + 1;
    }
    out
}

/// The enabled flag and sort order an upsert gives an existing skill: those
/// given, else the skill's own (a skill with no flag counts as enabled).
pub fn skill_update_values(enabled: Option<bool>, sort_order: Option<i32>, old: &SkillStateRecord) -> (r: (bool, i32))
    ensures
        r.0 == match enabled {
            Some(e) => e,
            None => match old.enabled {
                Some(o) => o,
                None => true,
            },
        },
        r.1 == match sort_order {
            Some(s) => s,
            None => old.sort_order,
        },
{
    let e = match enabled {
        Some(e) => e,
        None => match old.enabled {
            Some(o) => o,
            None => true,
        },
    };
    let s = match sort_order {
        Some(s) => s,
        None => old.sort_order,
    };
    (e, s)
}

/// Why an upsert was refused.
pub enum WriteError {
    /// A new permission row needs an id and none was given.
    MissingPermissionId,
    /// A new channel mapping needs an id and none was given.
    MissingMappingId,
}

impl WriteError {
    /// The name of the parameter that was missing, as the error reports it.
    pub fn message(&self) -> (r: &'static str)
        ensures
            r@ == write_error_text_v(*self),
    {
        match self {
            WriteError::MissingPermissionId => "plugin permission id is required for insert",
            WriteError::MissingMappingId => "new_mapping_id",
        }
    }
}

pub open spec fn write_error_text_v(e: WriteError) -> Seq<char> {
    match e {
        WriteError::MissingPermissionId => "plugin permission id is required for insert"@,
        WriteError::MissingMappingId => "new_mapping_id"@,
    }
}

/// How a permission is written.
pub enum PermissionWrite {
    /// The existing row with this id is updated.
    Update(String),
    /// A new row with this id is inserted.
    Insert(String),
}

/// How a permission is written: over the row that already holds it, else as
/// a new row with the given id, which must then be present.
pub fn permission_write(existing_id: Option<String>, input_id: Option<String>) -> (r: Result<
    PermissionWrite,
    WriteError,
>)
    ensures
        match existing_id {
            Some(e) => r == Ok::<PermissionWrite, WriteError>(PermissionWrite::Update(e)),
            None => match input_id {
                Some(i) => r == Ok::<PermissionWrite, WriteError>(PermissionWrite::Insert(i)),
                None => r == Err::<PermissionWrite, WriteError>(WriteError::MissingPermissionId),
            },
        },
{
    match existing_id {
        Some(e) => Ok(PermissionWrite::Update(e)),
        None => match input_id {
            Some(i) => Ok(PermissionWrite::Insert(i)),
            None => Err(WriteError::MissingPermissionId),
        },
    }
}

/// The mapping a channel activation inserts: none when a mapping of the
/// thread was activated, else a new one with the given id, which must then be
/// present.
pub fn channel_mapping_to_insert(activated: usize, new_mapping_id: Option<String>) -> (r: Result<
    Option<String>,
    WriteError,
>)
    ensures
        activated > 0 ==> r == Ok::<Option<String>, WriteError>(None),
        activated == 0 ==> match new_mapping_id {
            Some(i) => r == Ok::<Option<String>, WriteError>(Some(i)),
            None => r == Err::<Option<String>, WriteError>(WriteError::MissingMappingId),
        },
{
    if activated > 0 {
        Ok(None)
    } else {
        match new_mapping_id {
            Some(i) => Ok(Some(i)),
            None => Err(WriteError::MissingMappingId),
        }
    }
}

/// The conditions of the workspace listing: worktrees, and temporary
/// workspaces hidden from the list, are left out unless asked for.
pub open spec fn workspace_conditions_v(input: Option<GetAllWorkspacesInput>) -> Seq<Seq<char>> {
    let (worktrees, hidden) = match input {
        Some(i) => (i.include_worktrees == Some(true), i.include_hidden_temporary == Some(true)),
        None => (false, false),
    };
    (if worktrees {
        Seq::empty()
    } else {
        seq!["(is_worktree = 0 OR is_worktree IS NULL)"@]
    }) + (if hidden {
        Seq::empty()
    } else {
        seq!["show_in_list = 1"@]
    })
}

/// What follows the select of the workspace listing: its conditions, when
/// there are any, then its order.
pub open spec fn workspace_suffix_v(input: Option<GetAllWorkspacesInput>) -> Seq<char> {
    let conds = workspace_conditions_v(input);
    (if conds.len() == 0 {
        Seq::empty()
    } else {
        " WHERE "@ + join_v(conds, " AND "@)
    }) + " ORDER BY created_at DESC"@
}

/// What follows the select of the workspace listing.
pub fn workspace_list_suffix(input: &Option<GetAllWorkspacesInput>) -> (r: String)
    ensures
        r@ == workspace_suffix_v(*input),
{
    let (worktrees, hidden) = match input {
        Some(i) => (
            match i.include_worktrees {
                Some(b) => b,
                None => false,
            },
            match i.include_hidden_temporary {
                Some(b) => b,
                None => false,
            },
        ),
        None => (false, false),
    };
    let mut conds: Vec<String> = Vec::new();
    if !worktrees {
        conds.push("(is_worktree = 0 OR is_worktree IS NULL)".to_owned());
    }
    if !hidden {
        conds.push("show_in_list = 1".to_owned());
    }
    proof {
        assert(conds@.map_values(|p: String| p@) =~= workspace_conditions_v(*input));
    }
    let mut out = String::new();
    if conds.len() > 0 {
        let joined = join_texts(&conds, " AND ");
        out = out.concat(" WHERE ").concat(joined.as_str());
    }
    out = out.concat(" ORDER BY created_at DESC");
    out
}

/// The list of `n` placeholders, `?, ?, …`, of an `IN (…)` clause.
pub open spec fn placeholders_v(n: nat) -> Seq<char> {
    join_v(Seq::new(n, |i: int| "?"@), ", "@)
}

/// The placeholders of an `IN (…)` clause for `n` values.
pub fn placeholders(n: usize) -> (r: String)
    ensures
        r@ == placeholders_v(n as nat),
{
    let mut marks: Vec<String> = Vec::new();
    let mut i: usize = 0;
    while i < n
        invariant
            i <= n,
            marks@.map_values(|p: String| p@) == Seq::new(i as nat, |j: int| "?"@),
        decreases n - i,
    {
        let ghost before = marks@;
        marks.push("?".to_owned());
        proof {
            assert(marks@.map_values(|p: String| p@) =~= before.map_values(|p: String| p@).push("?"@));
            assert(Seq::new(i as nat + 1, |j: int| "?"@) =~= Seq::new(i as nat, |j: int| "?"@).push("?"@));
        }
        i = i + 1;
    }
    join_texts(&marks, ", ")
}

/// The number of executions a listing is limited to: a positive limit, none
/// otherwise.
pub fn execution_limit(limit: Option<i32>) -> (r: Option<i32>)
    ensures
        r == match limit {
            Some(l) => if l > 0 {
                Some(l)
            } else {
                None::<i32>
            },
            None => None::<i32>,
        },
{
    match limit {
        Some(l) => if l > 0 {
            Some(l)
        } else {
            None
        },
        None => None,
    }
}

/// A new message row: `timestamp`, `created_at` and `updated_at` are `None`
/// where the store stamps the current time.
pub struct NewMessageRow {
    pub id: String,
    pub thread_id: String,
    pub parent_id: Option<String>,
    pub slot_id: String,
    pub depth: i32,
    pub parent_tool_call_id: Option<String>,
    pub message: String,
    pub timestamp: Option<String>,
    pub metadata: String,
    pub created_at: Option<String>,
    pub updated_at: Option<String>,
}

/// What adding a message writes.
pub enum MessageWrite {
    /// The row already exists: only its content is replaced.
    ReplaceContent { id: String, message: String },
    /// A new row is inserted, and the thread's update time is set to
    /// `thread_updated_at` (the current time when `None`).
    Insert { row: NewMessageRow, thread_updated_at: Option<String> },
}

/// What adding a message writes, given whether its row `<thread>--<id>`
/// exists: an existing row gets the new content and nothing else; a new row
/// takes its slot from the input or its own id, depth 0 and metadata `{}`
/// when none are given, and touches its thread.
pub fn message_write(existing: bool, input: AddMessageInput) -> (r: MessageWrite)
    ensures
        existing ==> (r matches MessageWrite::ReplaceContent { id, message } && id@ == input.thread_id@
            + "--"@ + input.message_id@ && message == input.message),
        !existing ==> (r matches MessageWrite::Insert { row, thread_updated_at } && {
            let rid = input.thread_id@ + "--"@ + input.message_id@;
            &&& row.id@ == rid
            &&& row.thread_id == input.thread_id
            &&& row.parent_id == input.parent_id
            &&& row.slot_id@ == match input.slot_id {
                Some(s) => s@,
                None => rid,
            }
            &&& row.depth == match input.depth {
                Some(d) => d,
                None => 0,
            }
            &&& row.parent_tool_call_id == input.parent_tool_call_id
            &&& row.message == input.message
            &&& row.timestamp == input.timestamp
            &&& row.metadata@ == match input.metadata {
                Some(m) => m@,
                None => "{}"@,
            }
            &&& row.created_at == input.created_at
            &&& row.updated_at == input.updated_at
            &&& thread_updated_at == input.updated_at
        }),
{
    let id = message_row_id(input.thread_id.as_str(), input.message_id.as_str());
    if existing {
        return MessageWrite::ReplaceContent { id, message: input.message };
    }
    let slot_id = match input.slot_id {
        Some(s) => s,
        None => id.clone(),
    };
    let depth: i32 = match input.depth {
        Some(d) => d,
        None => 0,
    };
    let metadata = text_or(input.metadata, "{}");
    let thread_updated_at = crate::text::clone_opt(&input.updated_at);
    MessageWrite::Insert {
        row: NewMessageRow {
            id,
            thread_id: input.thread_id,
            parent_id: input.parent_id,
            slot_id,
            depth,
            parent_tool_call_id: input.parent_tool_call_id,
            message: input.message,
            timestamp: input.timestamp,
            metadata,
            created_at: input.created_at,
            updated_at: input.updated_at,
        },
        thread_updated_at,
    }
}

} // verus!
