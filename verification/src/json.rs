//! JSON documents as plain values, and the object operations the store's
//! migrations and payloads are built from.
use vstd::prelude::*;
use crate::text::str_eq;

verus! {

/// A JSON document as the library reads and builds it.  Numbers that are
/// neither an `i64` nor a `u64` are carried as their decimal text.
pub enum Json {
    Null,
    Bool(bool),
    Int(i64),
    UInt(u64),
    Float(String),
    Str(String),
    Array(Vec<Json>),
    Object(Vec<Member>),
}

/// One `key: value` entry of a JSON object.
pub struct Member {
    pub key: String,
    pub value: Json,
}

/// The mathematical model of a JSON document.
pub enum JsonV {
    Null,
    Bool(bool),
    Int(int),
    UInt(int),
    Float(Seq<char>),
    Str(Seq<char>),
    Array(Seq<JsonV>),
    Object(Seq<(Seq<char>, JsonV)>),
}

impl Json {
    pub open spec fn vw(&self) -> JsonV
        decreases self,
    {
        match self {
            Json::Null => JsonV::Null,
            Json::Bool(b) => JsonV::Bool(*b),
            Json::Int(i) => JsonV::Int(*i as int),
            Json::UInt(u) => JsonV::UInt(*u as int),
            Json::Float(t) => JsonV::Float(t@),
            Json::Str(s) => JsonV::Str(s@),
            Json::Array(items) => JsonV::Array(items_vw(items@)),
            Json::Object(ms) => JsonV::Object(members_vw(ms@)),
        }
    }
}

pub open spec fn items_vw(s: Seq<Json>) -> Seq<JsonV>
    decreases s,
{
    if s.len() == 0 {
        Seq::empty()
    } else {
        items_vw(s.drop_last()).push(s.last().vw())
    }
}

pub open spec fn member_vw(m: Member) -> (Seq<char>, JsonV)
    decreases m,
{
    (m.key@, m.value.vw())
}

pub open spec fn members_vw(s: Seq<Member>) -> Seq<(Seq<char>, JsonV)>
    decreases s,
{
    if s.len() == 0 {
        Seq::empty()
    } else {
        members_vw(s.drop_last()).push(member_vw(s.last()))
    }
}

pub proof fn lemma_items_vw(s: Seq<Json>)
    ensures
        items_vw(s).len() == s.len(),
        forall|i: int| 0 <= i < s.len() ==> #[trigger] items_vw(s)[i] == s[i].vw(),
    decreases s.len(),
{
    if s.len() > 0 {
        lemma_items_vw(s.drop_last());
    }
}

pub proof fn lemma_members_vw(s: Seq<Member>)
    ensures
        members_vw(s).len() == s.len(),
        forall|i: int| 0 <= i < s.len() ==> #[trigger] members_vw(s)[i] == member_vw(s[i]),
    decreases s.len(),
{
    if s.len() > 0 {
        lemma_members_vw(s.drop_last());
    }
}

/// Index of the last member whose key is `k`, or -1.
pub open spec fn key_index(ms: Seq<(Seq<char>, JsonV)>, k: Seq<char>) -> int
    decreases ms.len(),
{
    if ms.len() == 0 {
        -1
    } else if ms.last().0 == k {
        ms.len() - 1
    } else {
        key_index(ms.drop_last(), k)
    }
}

pub proof fn lemma_key_index(ms: Seq<(Seq<char>, JsonV)>, k: Seq<char>)
    ensures
        -1 <= key_index(ms, k) < ms.len(),
        key_index(ms, k) >= 0 ==> ms[key_index(ms, k)].0 == k,
        forall|j: int| key_index(ms, k) < j < ms.len() ==> #[trigger] ms[j].0 != k,
    decreases ms.len(),
{
    if ms.len() > 0 {
        lemma_key_index(ms.drop_last(), k);
        assert(forall|j: int| 0 <= j < ms.len() - 1 ==> ms.drop_last()[j] == ms[j]);
    }
}

/// The value stored under `k` in an object's members.
pub open spec fn obj_get(ms: Seq<(Seq<char>, JsonV)>, k: Seq<char>) -> Option<JsonV> {
    let i = key_index(ms, k);
    if i >= 0 {
        Some(ms[i].1)
    } else {
        None
    }
}

/// The members after storing `v` under `k`: an existing entry is replaced in
/// place, a new one goes last.
pub open spec fn obj_insert(ms: Seq<(Seq<char>, JsonV)>, k: Seq<char>, v: JsonV) -> Seq<
    (Seq<char>, JsonV),
> {
    let i = key_index(ms, k);
    if i >= 0 {
        ms.update(i, (k, v))
    } else {
        ms.push((k, v))
    }
}

/// The members after removing the entry stored under `k`, if any.
pub open spec fn obj_remove(ms: Seq<(Seq<char>, JsonV)>, k: Seq<char>) -> Seq<
    (Seq<char>, JsonV),
> {
    let i = key_index(ms, k);
    if i >= 0 {
        ms.remove(i)
    } else {
        ms
    }
}

/// `value.get(key)`: a member of an object, nothing for any other value.
pub open spec fn get_v(v: JsonV, k: Seq<char>) -> Option<JsonV> {
    match v {
        JsonV::Object(ms) => obj_get(ms, k),
        _ => None,
    }
}

/// The text of a string value.
pub open spec fn str_v(v: Option<JsonV>) -> Option<Seq<char>> {
    match v {
        Some(JsonV::Str(s)) => Some(s),
        _ => None,
    }
}

/// The items of a document that is an array, none otherwise.
pub open spec fn array_items_v(doc: Option<JsonV>) -> Seq<JsonV> {
    match doc {
        Some(JsonV::Array(items)) => items,
        _ => Seq::empty(),
    }
}

/// The members of a document that is an object, none otherwise.
pub open spec fn object_members_v(doc: Option<JsonV>) -> Seq<(Seq<char>, JsonV)> {
    match doc {
        Some(JsonV::Object(ms)) => ms,
        _ => Seq::empty(),
    }
}

pub open spec fn opt_vw(doc: Option<Json>) -> Option<JsonV> {
    match doc {
        Some(d) => Some(d.vw()),
        None => None,
    }
}

pub open spec fn opt_ref_vw(doc: Option<&Json>) -> Option<JsonV> {
    match doc {
        Some(d) => Some(d.vw()),
        None => None,
    }
}

pub proof fn lemma_members_vw_push(s: Seq<Member>, m: Member)
    ensures
        members_vw(s.push(m)) == members_vw(s).push(member_vw(m)),
{
    assert(s.push(m).drop_last() =~= s);
}

pub proof fn lemma_items_vw_push(s: Seq<Json>, v: Json)
    ensures
        items_vw(s.push(v)) == items_vw(s).push(v.vw()),
{
    assert(s.push(v).drop_last() =~= s);
}

/// Position of the member stored under `key`.
pub fn find_member(ms: &Vec<Member>, key: &str) -> (r: Option<usize>)
    ensures
        match r {
            Some(i) => i < ms@.len() && i as int == key_index(members_vw(ms@), key@),
            None => key_index(members_vw(ms@), key@) == -1,
        },
{
    proof {
        lemma_members_vw(ms@);
        lemma_key_index(members_vw(ms@), key@);
    }
    let mut i = ms.len();
    while i > 0
        invariant
            i <= ms@.len(),
            members_vw(ms@).len() == ms@.len(),
            forall|j: int| 0 <= j < ms@.len() ==> #[trigger] members_vw(ms@)[j] == member_vw(ms@[j]),
            forall|j: int| i <= j < ms@.len() ==> #[trigger] ms@[j].key@ != key@,
            -1 <= key_index(members_vw(ms@), key@) < ms@.len(),
            key_index(members_vw(ms@), key@) >= 0 ==> members_vw(ms@)[key_index(members_vw(ms@), key@)].0 == key@,
            forall|j: int|
                key_index(members_vw(ms@), key@) < j < ms@.len() ==> #[trigger] members_vw(ms@)[j].0 != key@,
        decreases i,
    {
        if str_eq(ms[i - 1].key.as_str(), key) {
            assert(members_vw(ms@)[i - 1].0 == key@);
            return Some(i - 1);
        }
        i = i - 1;
    }
    None
}

/// Stores `value` under `key`, replacing an existing entry in place.
pub fn object_insert(ms: &mut Vec<Member>, key: String, value: Json)
    ensures
        members_vw(final(ms)@) == obj_insert(members_vw(old(ms)@), key@, value.vw()),
{
    let ghost k = key@;
    let ghost vv = value.vw();
    proof {
        lemma_members_vw(ms@);
    }
    match find_member(ms, key.as_str()) {
        Some(i) => {
            let ghost before = ms@;
            let m = Member { key, value };
            ms.set(i, m);
            proof {
                lemma_members_vw(ms@);
                assert(members_vw(ms@) =~= members_vw(before).update(i as int, (k, vv)));
            }
        },
        None => {
            let ghost before = ms@;
            let m = Member { key, value };
            ms.push(m);
            proof {
                lemma_members_vw_push(before, m);
            }
        },
    }
}

/// Removes the entry stored under `key`, handing back its value.
pub fn object_remove(ms: &mut Vec<Member>, key: &str) -> (r: Option<Json>)
    ensures
        members_vw(final(ms)@) == obj_remove(members_vw(old(ms)@), key@),
        opt_vw(r) == obj_get(members_vw(old(ms)@), key@),
{
    proof {
        lemma_members_vw(ms@);
    }
    match find_member(ms, key) {
        Some(i) => {
            let ghost before = ms@;
            let m = ms.remove(i);
            proof {
                lemma_members_vw(ms@);
                assert(members_vw(ms@) =~= members_vw(before).remove(i as int));
            }
            Some(m.value)
        },
        None => None,
    }
}

/// The items of a document that is an array; none for any other document.
pub fn array_items(doc: Option<Json>) -> (r: Vec<Json>)
    ensures
        items_vw(r@) == array_items_v(opt_vw(doc)),
{
    match doc {
        Some(Json::Array(items)) => items,
        _ => Vec::new(),
    }
}

/// The members of a document that is an object; none for any other document.
pub fn object_members(doc: Option<Json>) -> (r: Vec<Member>)
    ensures
        members_vw(r@) == object_members_v(opt_vw(doc)),
{
    match doc {
        Some(Json::Object(ms)) => ms,
        _ => Vec::new(),
    }
}

/// A string value holding the characters of `s`.
pub fn json_str(s: &str) -> (r: Json)
    ensures
        r.vw() == JsonV::Str(s@),
{
    Json::Str(s.to_owned())
}

/// `value.get(key)`.
pub fn get<'a>(v: &'a Json, key: &str) -> (r: Option<&'a Json>)
    ensures
        opt_ref_vw(r) == get_v(v.vw(), key@),
{
    match v {
        Json::Object(ms) => {
            match find_member(ms, key) {
                Some(i) => {
                    proof {
                        lemma_members_vw(ms@);
                    }
                    Some(&ms[i].value)
                },
                None => None,
            }
        },
        _ => None,
    }
}

/// `value.as_str()`.
pub fn as_str(v: Option<&Json>) -> (r: Option<&String>)
    ensures
        match r {
            Some(s) => str_v(opt_ref_vw(v)) == Some(s@),
            None => str_v(opt_ref_vw(v)) is None,
        },
{
    match v {
        Some(Json::Str(s)) => Some(s),
        _ => None,
    }
}

/// A copy of a document.
pub fn json_clone(v: &Json) -> (r: Json)
    ensures
        r.vw() == v.vw(),
    decreases v,
{
    match v {
        Json::Null => Json::Null,
        Json::Bool(b) => Json::Bool(*b),
        Json::Int(i) => Json::Int(*i),
        Json::UInt(u) => Json::UInt(*u),
        Json::Float(t) => Json::Float(t.clone()),
        Json::Str(s) => Json::Str(s.clone()),
        Json::Array(items) => {
            let mut out: Vec<Json> = Vec::new();
            let mut i: usize = 0;
            while i < items.len()
                invariant
                    i <= items@.len(),
                    *v == Json::Array(*items),
                    items_vw(out@) == items_vw(items@.take(i as int)),
                decreases items@.len() - i,
            {
                let ghost prev = out@;
                proof {
                    assert(decreases_to!(*v => v->Array_0));
                    assert(decreases_to!(*items => items@));
                    assert(decreases_to!(items@ => items@[i as int]));
                }
                let c = json_clone(&items[i]);
                out.push(c);
                proof {
                    assert(out@.drop_last() =~= prev);
                    assert(items@.take(i as int + 1).drop_last() =~= items@.take(i as int));
                    assert(items@.take(i as int + 1).last() == items@[i as int]);
                }
                i = i + 1;
            }
            proof {
                assert(items@.take(items@.len() as int) =~= items@);
            }
            Json::Array(out)
        },
        Json::Object(ms) => {
            let mut out: Vec<Member> = Vec::new();
            let mut i: usize = 0;
            while i < ms.len()
                invariant
                    i <= ms@.len(),
                    *v == Json::Object(*ms),
                    members_vw(out@) == members_vw(ms@.take(i as int)),
                decreases ms@.len() - i,
            {
                let ghost prev = out@;
                proof {
                    assert(decreases_to!(*v => v->Object_0));
                    assert(decreases_to!(*ms => ms@));
                    assert(decreases_to!(ms@ => ms@[i as int]));
                    assert(decreases_to!(ms@[i as int] => ms@[i as int].value));
                }
                let c = json_clone(&ms[i].value);
                let k = ms[i].key.clone();
                let m = Member { key: k, value: c };
                assert(member_vw(m) == member_vw(ms@[i as int]));
                out.push(m);
                proof {
                    assert(out@.drop_last() =~= prev);
                    assert(ms@.take(i as int + 1).drop_last() =~= ms@.take(i as int));
                    assert(ms@.take(i as int + 1).last() == ms@[i as int]);
                }
                i = i + 1;
            }
            proof {
                assert(ms@.take(ms@.len() as int) =~= ms@);
            }
            Json::Object(out)
        },
    }
}

proof fn lemma_key_index_at(ms: Seq<(Seq<char>, JsonV)>, k: Seq<char>, j: int)
    requires
        0 <= j < ms.len(),
        ms[j].0 == k,
        forall|l: int| j < l < ms.len() ==> #[trigger] ms[l].0 != k,
    ensures
        key_index(ms, k) == j,
    decreases ms.len(),
{
    if j < ms.len() - 1 {
        assert(ms.last().0 != k);
        assert(ms.drop_last()[j] == ms[j]);
        assert forall|l: int| j < l < ms.drop_last().len() implies #[trigger] ms.drop_last()[l].0 != k by {
            assert(ms.drop_last()[l] == ms[l]);
        }
        lemma_key_index_at(ms.drop_last(), k, j);
    }
}

proof fn lemma_key_index_absent(ms: Seq<(Seq<char>, JsonV)>, k: Seq<char>)
    requires
        forall|l: int| 0 <= l < ms.len() ==> #[trigger] ms[l].0 != k,
    ensures
        key_index(ms, k) == -1,
    decreases ms.len(),
{
    if ms.len() > 0 {
        assert(ms.last().0 != k);
        assert forall|l: int| 0 <= l < ms.drop_last().len() implies #[trigger] ms.drop_last()[l].0 != k by {
            assert(ms.drop_last()[l] == ms[l]);
        }
        lemma_key_index_absent(ms.drop_last(), k);
    }
}

/// Whether no two members of an object share a key, as in every object that
/// parsing produces.
pub open spec fn distinct_member_keys(ms: Seq<(Seq<char>, JsonV)>) -> bool {
    forall|a: int, b: int| 0 <= a < b < ms.len() ==> #[trigger] ms[a].0 != #[trigger] ms[b].0
}

/// Reading a key just stored gives the stored value; reading any other key
/// gives what it gave before.
pub proof fn law_insert_then_get(ms: Seq<(Seq<char>, JsonV)>, k: Seq<char>, v: JsonV, k2: Seq<char>)
    ensures
        obj_get(obj_insert(ms, k, v), k) == Some(v),
        k2 != k ==> obj_get(obj_insert(ms, k, v), k2) == obj_get(ms, k2),
{
    lemma_key_index(ms, k);
    lemma_key_index(ms, k2);
    let i = key_index(ms, k);
    let out = obj_insert(ms, k, v);
    if i >= 0 {
        lemma_key_index_at(out, k, i);
        if k2 != k {
            let i2 = key_index(ms, k2);
            if i2 >= 0 {
                assert forall|l: int| i2 < l < out.len() implies #[trigger] out[l].0 != k2 by {
                    if l != i {
                        assert(out[l] == ms[l]);
                    }
                }
                lemma_key_index_at(out, k2, i2);
            } else {
                assert forall|l: int| 0 <= l < out.len() implies #[trigger] out[l].0 != k2 by {
                    if l != i {
                        assert(out[l] == ms[l]);
                    }
                }
                lemma_key_index_absent(out, k2);
            }
        }
    } else {
        lemma_key_index_at(out, k, ms.len() as int);
        if k2 != k {
            let i2 = key_index(ms, k2);
            if i2 >= 0 {
                assert forall|l: int| i2 < l < out.len() implies #[trigger] out[l].0 != k2 by {
                    if l < ms.len() {
                        assert(out[l] == ms[l]);
                    }
                }
                lemma_key_index_at(out, k2, i2);
            } else {
                assert forall|l: int| 0 <= l < out.len() implies #[trigger] out[l].0 != k2 by {
                    if l < ms.len() {
                        assert(out[l] == ms[l]);
                    }
                }
                lemma_key_index_absent(out, k2);
            }
        }
    }
}

/// In an object whose keys are distinct, a removed key reads as absent, and
/// the keys stay distinct.
pub proof fn law_remove_then_get(ms: Seq<(Seq<char>, JsonV)>, k: Seq<char>)
    requires
        distinct_member_keys(ms),
    ensures
        obj_get(obj_remove(ms, k), k) is None,
        distinct_member_keys(obj_remove(ms, k)),
{
    lemma_key_index(ms, k);
    let i = key_index(ms, k);
    let out = obj_remove(ms, k);
    if i >= 0 {
        assert forall|l: int| 0 <= l < out.len() implies #[trigger] out[l].0 != k by {
            if l < i {
                assert(out[l] == ms[l]);
                assert(ms[l].0 != ms[i].0);
            } else {
                assert(out[l] == ms[l + 1]);
            }
        }
        lemma_key_index_absent(out, k);
        assert forall|a: int, b: int| 0 <= a < b < out.len() implies #[trigger] out[a].0 != #[trigger] out[b].0 by {
            let a2 = if a < i { a } else { a + 1 };
            let b2 = if b < i { b } else { b + 1 };
            assert(out[a] == ms[a2]);
            assert(out[b] == ms[b2]);
            assert(ms[a2].0 != ms[b2].0);
        }
    } else {
        assert forall|l: int| 0 <= l < ms.len() implies #[trigger] ms[l].0 != k by {
            if ms[l].0 == k {
                assert(i >= l);
            }
        }
        lemma_key_index_absent(ms, k);
    }
}

/// Storing a key keeps the keys of an object distinct.
pub proof fn law_insert_keeps_keys_distinct(ms: Seq<(Seq<char>, JsonV)>, k: Seq<char>, v: JsonV)
    requires
        distinct_member_keys(ms),
    ensures
        distinct_member_keys(obj_insert(ms, k, v)),
{
    lemma_key_index(ms, k);
    let i = key_index(ms, k);
    let out = obj_insert(ms, k, v);
    if i >= 0 {
        assert forall|a: int, b: int| 0 <= a < b < out.len() implies #[trigger] out[a].0 != #[trigger] out[b].0 by {
            assert(out[a].0 == ms[a].0);
            assert(out[b].0 == ms[b].0);
        }
    } else {
        assert forall|a: int, b: int| 0 <= a < b < out.len() implies #[trigger] out[a].0 != #[trigger] out[b].0 by {
            if b == ms.len() {
                assert(out[a] == ms[a]);
                if ms[a].0 == k {
                    assert(i >= a);
                }
            } else {
                assert(out[a] == ms[a]);
                assert(out[b] == ms[b]);
            }
        }
    }
}

} // verus!
