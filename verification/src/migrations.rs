//! The data migrations that rewrite a provider's model lists.
//!
//! A provider row keeps two JSON documents: `models`, the models the user
//! enabled, and `available_models`, the catalogue the user picks from.  The
//! functions here take those documents already parsed and give back the
//! documents to store, or nothing where the row stays as it is.
use vstd::prelude::*;
use crate::json::{
    array_items, array_items_v, as_str, distinct_member_keys, get, get_v, items_vw, json_clone,
    json_str, law_insert_then_get, law_remove_then_get, lemma_items_vw, lemma_items_vw_push,
    obj_get, obj_insert, obj_remove, object_insert, object_remove, opt_vw, str_v, Json, JsonV,
    Member,
};
use crate::text::str_eq;

verus! {

/// The `id` text of a catalogue entry.
pub open spec fn item_id_v(item: JsonV) -> Option<Seq<char>> {
    str_v(get_v(item, "id"@))
}

/// Whether some catalogue entry carries the id `id`.
pub open spec fn has_item_id(items: Seq<JsonV>, id: Seq<char>) -> bool {
    exists|i: int| 0 <= i < items.len() && item_id_v(#[trigger] items[i]) == Some(id)
}

/// `s`, or the empty text when there is none.
pub open spec fn text_or_empty(s: Option<Seq<char>>) -> Seq<char> {
    match s {
        Some(t) => t,
        None => Seq::empty(),
    }
}

/// The catalogue entry that marks a model as added by hand.
pub open spec fn manual_entry_v(id: Seq<char>, name: Seq<char>, caps: Option<JsonV>) -> JsonV {
    let base = obj_insert(obj_insert(Seq::empty(), "id"@, JsonV::Str(id)), "name"@, JsonV::Str(name));
    let with_caps = match caps {
        Some(c) => obj_insert(base, "capabilityOverrides"@, c),
        None => base,
    };
    JsonV::Object(obj_insert(with_caps, "isManual"@, JsonV::Bool(true)))
}

/// For the first catalogue migration: the id and the catalogue entry that an
/// enabled model stands for, if it stands for one.
pub open spec fn enabled_entry_v1(model: JsonV) -> Option<(Seq<char>, JsonV)> {
    match model {
        JsonV::Str(id) => Some((id, manual_entry_v(id, id, None))),
        JsonV::Object(ms) => {
            let id = text_or_empty(str_v(obj_get(ms, "id"@)));
            if id.len() == 0 {
                None
            } else {
                let name = match str_v(obj_get(ms, "name"@)) {
                    Some(n) => n,
                    None => id,
                };
                let caps = match obj_get(ms, "capabilityOverrides"@) {
                    Some(c) => Some(c),
                    None => obj_get(ms, "capabilities"@),
                };
                Some((id, manual_entry_v(id, name, caps)))
            }
        },
        _ => None,
    }
}

/// Adds the entry of one enabled model unless its id is already listed.
pub open spec fn add_entry_step(
    acc: Seq<JsonV>,
    entry: Option<(Seq<char>, JsonV)>,
) -> Seq<JsonV> {
    match entry {
        Some((id, e)) => if has_item_id(acc, id) {
            acc
        } else {
            acc.push(e)
        },
        None => acc,
    }
}

/// The catalogue after the first migration has gone through `models` in order.
pub open spec fn merge_v1(models: Seq<JsonV>, base: Seq<JsonV>) -> Seq<JsonV>
    decreases models.len(),
{
    if models.len() == 0 {
        base
    } else {
        add_entry_step(merge_v1(models.drop_last(), base), enabled_entry_v1(models.last()))
    }
}

/// The catalogue the first migration starts from: the stored one, or, when it
/// is empty and a cached model list exists, the cached list.
pub open spec fn base_catalogue_v(available: Option<JsonV>, cached: Option<Option<JsonV>>) -> Seq<
    JsonV,
> {
    let stored = array_items_v(available);
    if stored.len() == 0 {
        match cached {
            Some(c) => array_items_v(c),
            None => stored,
        }
    } else {
        stored
    }
}

pub open spec fn cached_vw(cached: Option<Option<Json>>) -> Option<Option<JsonV>> {
    match cached {
        Some(c) => Some(opt_vw(c)),
        None => None,
    }
}

/// Whether the id of some entry of `items` is `id`.
pub fn contains_item_id(items: &Vec<Json>, id: &str) -> (r: bool)
    ensures
        r == has_item_id(items_vw(items@), id@),
{
    proof {
        lemma_items_vw(items@);
    }
    let mut i: usize = 0;
    while i < items.len()
        invariant
            i <= items@.len(),
            items_vw(items@).len() == items@.len(),
            forall|j: int| 0 <= j < items@.len() ==> #[trigger] items_vw(items@)[j] == items@[j].vw(),
            forall|j: int| 0 <= j < i ==> item_id_v(#[trigger] items_vw(items@)[j]) != Some(id@),
        decreases items@.len() - i,
    {
        let found = match as_str(get(&items[i], "id")) {
            Some(s) => str_eq(s.as_str(), id),
            None => false,
        };
        if found {
            assert(item_id_v(items_vw(items@)[i as int]) == Some(id@));
            return true;
        }
        i = i + 1;
    }
    false
}

/// The catalogue entry for a model added by hand.
pub fn manual_entry(id: &str, name: &str, caps: Option<Json>) -> (r: Json)
    ensures
        r.vw() == manual_entry_v(id@, name@, opt_vw(caps)),
{
    let mut ms: Vec<Member> = Vec::new();
    object_insert(&mut ms, "id".to_owned(), json_str(id));
    object_insert(&mut ms, "name".to_owned(), json_str(name));
    match caps {
        Some(c) => object_insert(&mut ms, "capabilityOverrides".to_owned(), c),
        None => {},
    }
    object_insert(&mut ms, "isManual".to_owned(), Json::Bool(true));
    Json::Object(ms)
}

/// The id and catalogue entry an enabled model stands for in the first
/// migration.
pub fn enabled_model_entry_v1(model: &Json) -> (r: Option<(String, Json)>)
    ensures
        match r {
            Some((id, e)) => enabled_entry_v1(model.vw()) == Some((id@, e.vw())),
            None => enabled_entry_v1(model.vw()) is None,
        },
{
    match model {
        Json::Str(id) => {
            let e = manual_entry(id.as_str(), id.as_str(), None);
            Some((id.clone(), e))
        },
        Json::Object(_) => {
            let id = match as_str(get(model, "id")) {
                Some(s) => s.clone(),
                None => String::new(),
            };
            if id.as_str().is_empty() {
                return None;
            }
            let name = match as_str(get(model, "name")) {
                Some(n) => n.clone(),
                None => id.clone(),
            };
            let caps = match get(model, "capabilityOverrides") {
                Some(c) => Some(json_clone(c)),
                None => match get(model, "capabilities") {
                    Some(c) => Some(json_clone(c)),
                    None => None,
                },
            };
            let e = manual_entry(id.as_str(), name.as_str(), caps);
            Some((id, e))
        },
        _ => None,
    }
}

/// Whether the first migration has to read the cached model list: it does so
/// only for a provider whose stored catalogue is empty.
pub fn needs_cached_models(available: &Option<Json>) -> (r: bool)
    ensures
        r == (array_items_v(opt_vw(*available)).len() == 0),
{
    match available {
        Some(Json::Array(items)) => {
            proof {
                lemma_items_vw(items@);
            }
            items.len() == 0
        },
        _ => true,
    }
}

/// The first catalogue migration for one provider.  `cached` is the latest
/// cached model list of the provider, read only when `needs_cached_models`
/// says so (`Some(None)` is a cached list that is not valid JSON).  The result
/// is the catalogue to store, or nothing where the row keeps its value.
pub fn migrate_available_models(
    models: Option<Json>,
    available: Option<Json>,
    cached: Option<Option<Json>>,
) -> (r: Option<Json>)
    ensures
        ({
            let merged = merge_v1(
                array_items_v(opt_vw(models)),
                base_catalogue_v(opt_vw(available), cached_vw(cached)),
            );
            match r {
                Some(doc) => merged.len() > 0 && doc.vw() == JsonV::Array(merged),
                None => merged.len() == 0,
            }
        }),
{
    let ghost cached_v = cached_vw(cached);
    let ghost base_v = base_catalogue_v(opt_vw(available), cached_v);
    let enabled = array_items(models);
    let mut acc = array_items(available);
    if acc.len() == 0 {
        proof {
            lemma_items_vw(acc@);
        }
        match cached {
            Some(c) => {
                acc = array_items(c);
            },
            None => {},
        }
    } else {
        proof {
            lemma_items_vw(acc@);
        }
    }
    assert(items_vw(acc@) == base_v);
    let ghost models_v = items_vw(enabled@);
    proof {
        lemma_items_vw(enabled@);
    }
    let mut i: usize = 0;
    while i < enabled.len()
        invariant
            i <= enabled@.len(),
            models_v == items_vw(enabled@),
            models_v.len() == enabled@.len(),
            forall|j: int| 0 <= j < enabled@.len() ==> #[trigger] models_v[j] == enabled@[j].vw(),
            items_vw(acc@) == merge_v1(models_v.take(i as int), base_v),
        decreases enabled@.len() - i,
    {
        let entry = enabled_model_entry_v1(&enabled[i]);
        proof {
            assert(models_v.take(i as int + 1).drop_last() =~= models_v.take(i as int));
            assert(models_v.take(i as int + 1).last() == models_v[i as int]);
        }
        match entry {
            Some((id, e)) => {
                if !contains_item_id(&acc, id.as_str()) {
                    let ghost prev = acc@;
                    acc.push(e);
                    proof {
                        lemma_items_vw_push(prev, e);
                    }
                }
            },
            None => {},
        }
        i = i + 1;
    }
    proof {
        assert(models_v.take(enabled@.len() as int) =~= models_v);
        lemma_items_vw(acc@);
    }
    if acc.len() > 0 {
        Some(Json::Array(acc))
    } else {
        None
    }
}

/// The catalogue entry the second migration's first pass builds for an enabled
/// model with id `id`.
pub open spec fn ids_entry_v(id: Seq<char>, model: JsonV) -> JsonV {
    let m0 = obj_insert(obj_insert(Seq::empty(), "id"@, JsonV::Str(id)), "name"@, JsonV::Str(id));
    let m1 = match model {
        JsonV::Object(ms) => {
            let a = match str_v(obj_get(ms, "name"@)) {
                Some(n) => obj_insert(m0, "name"@, JsonV::Str(n)),
                None => m0,
            };
            let b = match obj_get(ms, "capabilities"@) {
                Some(c) => obj_insert(a, "capabilityOverrides"@, c),
                None => a,
            };
            match obj_get(ms, "providerOptions"@) {
                Some(p) => obj_insert(b, "providerOptions"@, p),
                None => b,
            }
        },
        _ => m0,
    };
    JsonV::Object(obj_insert(m1, "isManual"@, JsonV::Bool(true)))
}

/// The id and entry an enabled model stands for in the second migration's
/// first pass.
pub open spec fn enabled_entry_ids(model: JsonV) -> Option<(Seq<char>, JsonV)> {
    let id = match model {
        JsonV::Str(s) => s,
        JsonV::Object(ms) => text_or_empty(str_v(obj_get(ms, "id"@))),
        _ => Seq::empty(),
    };
    if id.len() == 0 {
        None
    } else {
        Some((id, ids_entry_v(id, model)))
    }
}

/// The catalogue after the second migration's first pass.
pub open spec fn merge_ids(models: Seq<JsonV>, base: Seq<JsonV>) -> Seq<JsonV>
    decreases models.len(),
{
    if models.len() == 0 {
        base
    } else {
        add_entry_step(merge_ids(models.drop_last(), base), enabled_entry_ids(models.last()))
    }
}

/// The entry an enabled model object with id `id` adds in the second pass.
pub open spec fn object_entry_v(id: Seq<char>, ms: Seq<(Seq<char>, JsonV)>) -> JsonV {
    let name = match str_v(obj_get(ms, "name"@)) {
        Some(n) => n,
        None => id,
    };
    let m0 = obj_insert(obj_insert(Seq::empty(), "id"@, JsonV::Str(id)), "name"@, JsonV::Str(name));
    let m1 = match obj_get(ms, "capabilities"@) {
        Some(c) => obj_insert(m0, "capabilityOverrides"@, c),
        None => m0,
    };
    let m2 = match obj_get(ms, "providerOptions"@) {
        Some(p) => obj_insert(m1, "providerOptions"@, p),
        None => m1,
    };
    JsonV::Object(obj_insert(m2, "isManual"@, JsonV::Bool(true)))
}

/// The model ids the second pass lists, and the catalogue it builds.
pub open spec fn ids_pass(models: Seq<JsonV>, base: Seq<JsonV>) -> (Seq<Seq<char>>, Seq<JsonV>)
    decreases models.len(),
{
    if models.len() == 0 {
        (Seq::empty(), base)
    } else {
        let (ids, acc) = ids_pass(models.drop_last(), base);
        match models.last() {
            JsonV::Str(id) => (ids.push(id), acc),
            JsonV::Object(ms) => match str_v(obj_get(ms, "id"@)) {
                Some(id) => (
                    ids.push(id),
                    if has_item_id(acc, id) {
                        acc
                    } else {
                        acc.push(object_entry_v(id, ms))
                    },
                ),
                None => (ids, acc),
            },
            _ => (ids, acc),
        }
    }
}

/// A list of ids as a JSON array of strings.
pub open spec fn id_array_v(ids: Seq<Seq<char>>) -> JsonV {
    JsonV::Array(ids.map_values(|id: Seq<char>| JsonV::Str(id)))
}

/// Whether the second pass rewrites a provider: its enabled list is a
/// non-empty list whose first item is not a string.
pub open spec fn ids_pass_applies(models: Seq<JsonV>) -> bool {
    models.len() > 0 && !(models[0] is Str)
}

/// A catalogue entry with its `capabilities` renamed `capabilityOverrides`.
pub open spec fn renamed_caps_v(item: JsonV) -> JsonV {
    match item {
        JsonV::Object(ms) => match obj_get(ms, "capabilities"@) {
            Some(c) => JsonV::Object(
                obj_insert(obj_remove(ms, "capabilities"@), "capabilityOverrides"@, c),
            ),
            None => item,
        },
        _ => item,
    }
}

/// Whether a catalogue entry is an object that holds `capabilities`.
pub open spec fn has_caps_v(item: JsonV) -> bool {
    match item {
        JsonV::Object(ms) => obj_get(ms, "capabilities"@) is Some,
        _ => false,
    }
}

/// The entry the second migration's first pass builds for an enabled model.
pub fn enabled_model_entry_ids(model: &Json) -> (r: Option<(String, Json)>)
    ensures
        match r {
            Some((id, e)) => enabled_entry_ids(model.vw()) == Some((id@, e.vw())),
            None => enabled_entry_ids(model.vw()) is None,
        },
{
    let id = match model {
        Json::Str(s) => s.clone(),
        Json::Object(_) => match as_str(get(model, "id")) {
            Some(s) => s.clone(),
            None => String::new(),
        },
        _ => String::new(),
    };
    if id.as_str().is_empty() {
        return None;
    }
    let mut ms: Vec<Member> = Vec::new();
    object_insert(&mut ms, "id".to_owned(), json_str(id.as_str()));
    object_insert(&mut ms, "name".to_owned(), json_str(id.as_str()));
    match model {
        Json::Object(_) => {
            match as_str(get(model, "name")) {
                Some(n) => object_insert(&mut ms, "name".to_owned(), json_str(n.as_str())),
                None => {},
            }
            match get(model, "capabilities") {
                Some(c) => object_insert(&mut ms, "capabilityOverrides".to_owned(), json_clone(c)),
                None => {},
            }
            match get(model, "providerOptions") {
                Some(p) => object_insert(&mut ms, "providerOptions".to_owned(), json_clone(p)),
                None => {},
            }
        },
        _ => {},
    }
    object_insert(&mut ms, "isManual".to_owned(), Json::Bool(true));
    Some((id, Json::Object(ms)))
}

/// The second migration's first pass for one provider: every enabled model
/// whose id the catalogue lacks is added to it.  The result is the catalogue
/// to store, or nothing where no entry was added.
pub fn migrate_enabled_into_catalogue(
    models: Option<Json>,
    available: Option<Json>,
    cached: Option<Option<Json>>,
) -> (r: Option<Json>)
    ensures
        ({
            let base = base_catalogue_v(opt_vw(available), cached_vw(cached));
            let merged = merge_ids(array_items_v(opt_vw(models)), base);
            match r {
                Some(doc) => merged.len() > base.len() && doc.vw() == JsonV::Array(merged),
                None => merged.len() == base.len(),
            }
        }),
{
    let ghost base_v = base_catalogue_v(opt_vw(available), cached_vw(cached));
    let enabled = array_items(models);
    let mut acc = array_items(available);
    proof {
        lemma_items_vw(acc@);
    }
    if acc.len() == 0 {
        match cached {
            Some(c) => {
                acc = array_items(c);
            },
            None => {},
        }
    }
    assert(items_vw(acc@) == base_v);
    proof {
        lemma_items_vw(acc@);
    }
    let base_len = acc.len();
    let ghost models_v = items_vw(enabled@);
    proof {
        lemma_items_vw(enabled@);
    }
    let mut i: usize = 0;
    while i < enabled.len()
        invariant
            i <= enabled@.len(),
            models_v == items_vw(enabled@),
            models_v.len() == enabled@.len(),
            forall|j: int| 0 <= j < enabled@.len() ==> #[trigger] models_v[j] == enabled@[j].vw(),
            items_vw(acc@) == merge_ids(models_v.take(i as int), base_v),
            base_len == base_v.len(),
            base_len <= acc@.len(),
            items_vw(acc@).len() == acc@.len(),
        decreases enabled@.len() - i,
    {
        let entry = enabled_model_entry_ids(&enabled[i]);
        proof {
            assert(models_v.take(i as int + 1).drop_last() =~= models_v.take(i as int));
            assert(models_v.take(i as int + 1).last() == models_v[i as int]);
        }
        match entry {
            Some((id, e)) => {
                if !contains_item_id(&acc, id.as_str()) {
                    let ghost prev = acc@;
                    acc.push(e);
                    proof {
                        lemma_items_vw_push(prev, e);
                    }
                }
            },
            None => {},
        }
        i = i + 1;
    }
    proof {
        assert(models_v.take(enabled@.len() as int) =~= models_v);
    }
    if acc.len() > base_len {
        Some(Json::Array(acc))
    } else {
        None
    }
}

/// A list of ids as a JSON array of strings.
pub fn id_array(ids: Vec<String>) -> (r: Json)
    ensures
        r.vw() == id_array_v(ids@.map_values(|s: String| s@)),
{
    let mut out: Vec<Json> = Vec::new();
    let mut i: usize = 0;
    while i < ids.len()
        invariant
            i <= ids@.len(),
            items_vw(out@) == ids@.take(i as int).map_values(|s: String| s@).map_values(
                |id: Seq<char>| JsonV::Str(id),
            ),
        decreases ids@.len() - i,
    {
        let ghost prev = out@;
        let e = json_str(ids[i].as_str());
        out.push(e);
        proof {
            lemma_items_vw_push(prev, e);
            assert(ids@.take(i as int + 1).map_values(|s: String| s@).map_values(
                |id: Seq<char>| JsonV::Str(id),
            ) =~= ids@.take(i as int).map_values(|s: String| s@).map_values(
                |id: Seq<char>| JsonV::Str(id),
            ).push(JsonV::Str(ids@[i as int]@)));
        }
        i = i + 1;
    }
    proof {
        assert(ids@.take(ids@.len() as int) =~= ids@);
    }
    Json::Array(out)
}

/// The second migration's second pass for one provider: an enabled list made
/// of objects becomes a list of ids, and the objects whose id the catalogue
/// lacks are added to it.  The result is nothing where the provider is left
/// as it is; otherwise the enabled list to store, with the catalogue to store
/// where entries were added.
pub fn migrate_models_to_ids(models: Option<Json>, available: Option<Json>) -> (r: Option<
    (Json, Option<Json>),
>)
    ensures
        ({
            let ms = array_items_v(opt_vw(models));
            let base = array_items_v(opt_vw(available));
            let (ids, acc) = ids_pass(ms, base);
            match r {
                None => !ids_pass_applies(ms),
                Some((m, a)) => ids_pass_applies(ms) && m.vw() == id_array_v(ids) && match a {
                    Some(doc) => acc.len() > base.len() && doc.vw() == JsonV::Array(acc),
                    None => acc.len() == base.len(),
                },
            }
        }),
{
    let enabled = array_items(models);
    let ghost models_v = items_vw(enabled@);
    proof {
        lemma_items_vw(enabled@);
    }
    if enabled.len() == 0 {
        return None;
    }
    match &enabled[0] {
        Json::Str(_) => {
            return None;
        },
        _ => {},
    }
    let mut acc = array_items(available);
    let ghost base_v = items_vw(acc@);
    proof {
        lemma_items_vw(acc@);
    }
    let base_len = acc.len();
    let mut ids: Vec<String> = Vec::new();
    let mut i: usize = 0;
    while i < enabled.len()
        invariant
            i <= enabled@.len(),
            models_v == items_vw(enabled@),
            models_v.len() == enabled@.len(),
            forall|j: int| 0 <= j < enabled@.len() ==> #[trigger] models_v[j] == enabled@[j].vw(),
            ids@.map_values(|s: String| s@) == ids_pass(models_v.take(i as int), base_v).0,
            items_vw(acc@) == ids_pass(models_v.take(i as int), base_v).1,
            base_len == base_v.len(),
            base_len <= acc@.len(),
            items_vw(acc@).len() == acc@.len(),
        decreases enabled@.len() - i,
    {
        proof {
            assert(models_v.take(i as int + 1).drop_last() =~= models_v.take(i as int));
            assert(models_v.take(i as int + 1).last() == models_v[i as int]);
        }
        let ghost prev_ids = ids@;
        match &enabled[i] {
            Json::Str(id) => {
                ids.push(id.clone());
                proof {
                    assert(ids@.map_values(|s: String| s@) =~= prev_ids.map_values(|s: String| s@).push(id@));
                }
            },
            Json::Object(members) => {
                match as_str(get(&enabled[i], "id")) {
                    Some(id) => {
                        let id = id.clone();
                        ids.push(id.clone());
                        proof {
                            assert(ids@.map_values(|s: String| s@) =~= prev_ids.map_values(|s: String| s@).push(id@));
                        }
                        if !contains_item_id(&acc, id.as_str()) {
                            let e = object_entry(&enabled[i], id.as_str());
                            let ghost prev = acc@;
                            acc.push(e);
                            proof {
                                lemma_items_vw_push(prev, e);
                            }
                        }
                    },
                    None => {},
                }
            },
            _ => {},
        }
        i = i + 1;
    }
    proof {
        assert(models_v.take(enabled@.len() as int) =~= models_v);
    }
    let m = id_array(ids);
    if acc.len() > base_len {
        Some((m, Some(Json::Array(acc))))
    } else {
        Some((m, None))
    }
}

/// The entry an enabled model object adds in the second pass.
pub fn object_entry(model: &Json, id: &str) -> (r: Json)
    requires
        model.vw() is Object,
    ensures
        r.vw() == object_entry_v(id@, model.vw()->Object_0),
{
    let name = match as_str(get(model, "name")) {
        Some(n) => n.clone(),
        None => id.to_owned(),
    };
    let mut ms: Vec<Member> = Vec::new();
    object_insert(&mut ms, "id".to_owned(), json_str(id));
    object_insert(&mut ms, "name".to_owned(), json_str(name.as_str()));
    match get(model, "capabilities") {
        Some(c) => object_insert(&mut ms, "capabilityOverrides".to_owned(), json_clone(c)),
        None => {},
    }
    match get(model, "providerOptions") {
        Some(p) => object_insert(&mut ms, "providerOptions".to_owned(), json_clone(p)),
        None => {},
    }
    object_insert(&mut ms, "isManual".to_owned(), Json::Bool(true));
    Json::Object(ms)
}

/// The third migration for one provider: every catalogue entry that holds
/// `capabilities` has it renamed `capabilityOverrides`.  The result is the
/// catalogue to store, or nothing where no entry held `capabilities`.
pub fn migrate_capability_overrides(available: Option<Json>) -> (r: Option<Json>)
    ensures
        ({
            let items = array_items_v(opt_vw(available));
            match r {
                Some(doc) => (exists|i: int| 0 <= i < items.len() && has_caps_v(#[trigger] items[i]))
                    && doc.vw() == JsonV::Array(items.map_values(|x: JsonV| renamed_caps_v(x))),
                None => forall|i: int| 0 <= i < items.len() ==> !has_caps_v(#[trigger] items[i]),
            }
        }),
{
    let mut items = array_items(available);
    let ghost items_v = items_vw(items@);
    proof {
        lemma_items_vw(items@);
    }
    let mut out: Vec<Json> = Vec::new();
    let mut changed = false;
    while items.len() > 0
        invariant
            items_v.len() == out@.len() + items@.len(),
            items_vw(out@) == items_v.take(out@.len() as int).map_values(|x: JsonV| renamed_caps_v(x)),
            forall|j: int| 0 <= j < items@.len() ==> #[trigger] items@[j].vw() == items_v[out@.len() + j],
            changed == exists|i: int| 0 <= i < out@.len() && has_caps_v(#[trigger] items_v[i]),
        decreases items@.len(),
    {
        let item = items.remove(0);
        let k = out.len();
        assert(item.vw() == items_v[k as int]);
        let fixed = match item {
            Json::Object(mut ms) => {
                let ghost ms0 = ms@;
                match object_remove(&mut ms, "capabilities") {
                    Some(c) => {
                        object_insert(&mut ms, "capabilityOverrides".to_owned(), c);
                        changed = true;
                    },
                    None => {},
                }
                Json::Object(ms)
            },
            other => other,
        };
        assert(fixed.vw() == renamed_caps_v(items_v[k as int]));
        let ghost prev = out@;
        out.push(fixed);
        proof {
            lemma_items_vw_push(prev, fixed);
            assert(items_v.take(k as int + 1).map_values(|x: JsonV| renamed_caps_v(x)) =~= items_v.take(
                k as int,
            ).map_values(|x: JsonV| renamed_caps_v(x)).push(renamed_caps_v(items_v[k as int])));
        }
    }
    proof {
        assert(items_v.take(out@.len() as int) =~= items_v);
    }
    if changed {
        Some(Json::Array(out))
    } else {
        None
    }
}

/// The id an enabled model stands for, when it stands for one.
pub open spec fn entry_id_v(entry: Option<(Seq<char>, JsonV)>) -> Seq<char> {
    match entry {
        Some((id, _)) => id,
        None => Seq::empty(),
    }
}

proof fn lemma_entry_keys()
    ensures
        "name"@ != "id"@,
        "capabilityOverrides"@ != "id"@,
        "providerOptions"@ != "id"@,
        "isManual"@ != "id"@,
        "capabilities"@ != "capabilityOverrides"@,
{
    reveal_strlit("id");
    reveal_strlit("name");
    reveal_strlit("capabilityOverrides");
    reveal_strlit("providerOptions");
    reveal_strlit("isManual");
    reveal_strlit("capabilities");
    assert("id"@.len() == 2);
    assert("name"@.len() == 4);
    assert("capabilityOverrides"@.len() == 19);
    assert("providerOptions"@.len() == 15);
    assert("isManual"@.len() == 8);
    assert("capabilities"@.len() == 12);
}

proof fn lemma_manual_entry_id(id: Seq<char>, name: Seq<char>, caps: Option<JsonV>)
    ensures
        item_id_v(manual_entry_v(id, name, caps)) == Some(id),
{
    let m0 = obj_insert(Seq::empty(), "id"@, JsonV::Str(id));
    law_insert_then_get(Seq::empty(), "id"@, JsonV::Str(id), "name"@);
    let base = obj_insert(m0, "name"@, JsonV::Str(name));
    law_insert_then_get(m0, "name"@, JsonV::Str(name), "id"@);
    let with_caps = match caps {
        Some(c) => obj_insert(base, "capabilityOverrides"@, c),
        None => base,
    };
    match caps {
        Some(c) => {
            law_insert_then_get(base, "capabilityOverrides"@, c, "id"@);
        },
        None => {},
    }
    law_insert_then_get(with_caps, "isManual"@, JsonV::Bool(true), "id"@);
    lemma_entry_keys();
}

proof fn lemma_ids_entry_id(id: Seq<char>, model: JsonV)
    ensures
        item_id_v(ids_entry_v(id, model)) == Some(id),
{
    lemma_entry_keys();
    let m00 = obj_insert(Seq::empty(), "id"@, JsonV::Str(id));
    law_insert_then_get(Seq::empty(), "id"@, JsonV::Str(id), "name"@);
    let m0 = obj_insert(m00, "name"@, JsonV::Str(id));
    law_insert_then_get(m00, "name"@, JsonV::Str(id), "id"@);
    match model {
        JsonV::Object(ms) => {
            let a = match str_v(obj_get(ms, "name"@)) {
                Some(n) => obj_insert(m0, "name"@, JsonV::Str(n)),
                None => m0,
            };
            match str_v(obj_get(ms, "name"@)) {
                Some(n) => {
                    law_insert_then_get(m0, "name"@, JsonV::Str(n), "id"@);
                },
                None => {},
            }
            let b = match obj_get(ms, "capabilities"@) {
                Some(c) => obj_insert(a, "capabilityOverrides"@, c),
                None => a,
            };
            match obj_get(ms, "capabilities"@) {
                Some(c) => {
                    law_insert_then_get(a, "capabilityOverrides"@, c, "id"@);
                },
                None => {},
            }
            let m1 = match obj_get(ms, "providerOptions"@) {
                Some(p) => obj_insert(b, "providerOptions"@, p),
                None => b,
            };
            match obj_get(ms, "providerOptions"@) {
                Some(p) => {
                    law_insert_then_get(b, "providerOptions"@, p, "id"@);
                },
                None => {},
            }
            law_insert_then_get(m1, "isManual"@, JsonV::Bool(true), "id"@);
        },
        _ => {
            law_insert_then_get(m0, "isManual"@, JsonV::Bool(true), "id"@);
        },
    }
}

proof fn lemma_step(acc: Seq<JsonV>, entry: Option<(Seq<char>, JsonV)>)
    ensures
        add_entry_step(acc, entry).len() >= acc.len(),
        forall|i: int| 0 <= i < acc.len() ==> #[trigger] add_entry_step(acc, entry)[i] == acc[i],
        forall|id: Seq<char>| has_item_id(acc, id) ==> has_item_id(add_entry_step(acc, entry), id),
        entry matches Some((id, e)) ==> (item_id_v(e) == Some(id) ==> has_item_id(add_entry_step(acc, entry), id)),
{
    let out = add_entry_step(acc, entry);
    assert forall|id: Seq<char>| has_item_id(acc, id) implies has_item_id(out, id) by {
        let i = choose|i: int| 0 <= i < acc.len() && item_id_v(#[trigger] acc[i]) == Some(id);
        assert(out[i] == acc[i]);
    }
    match entry {
        Some((id, e)) => {
            if !has_item_id(acc, id) && item_id_v(e) == Some(id) {
                assert(out[acc.len() as int] == e);
            }
        },
        None => {},
    }
}

/// The first catalogue migration keeps the catalogue it starts from: its
/// entries stay first, in order, and are not changed.
pub proof fn law_catalogue_merge_keeps_entries(models: Seq<JsonV>, base: Seq<JsonV>)
    ensures
        merge_v1(models, base).len() >= base.len(),
        merge_v1(models, base).take(base.len() as int) == base,
    decreases models.len(),
{
    if models.len() > 0 {
        law_catalogue_merge_keeps_entries(models.drop_last(), base);
        let prev = merge_v1(models.drop_last(), base);
        lemma_step(prev, enabled_entry_v1(models.last()));
        assert(merge_v1(models, base).take(base.len() as int) =~= base);
    } else {
        assert(base.take(base.len() as int) =~= base);
    }
}

/// After the first catalogue migration, every model the user enabled is in
/// the catalogue under its id.
pub proof fn law_catalogue_merge_lists_enabled(models: Seq<JsonV>, base: Seq<JsonV>)
    ensures
        forall|j: int| 0 <= j < models.len() && #[trigger] enabled_entry_v1(models[j]) is Some ==> has_item_id(
            merge_v1(models, base),
            entry_id_v(enabled_entry_v1(models[j])),
        ),
    decreases models.len(),
{
    if models.len() > 0 {
        let prev_models = models.drop_last();
        law_catalogue_merge_lists_enabled(prev_models, base);
        let prev = merge_v1(prev_models, base);
        let entry = enabled_entry_v1(models.last());
        lemma_step(prev, entry);
        match entry {
            Some((id, e)) => {
                match models.last() {
                    JsonV::Str(s) => {
                        lemma_manual_entry_id(s, s, None);
                    },
                    JsonV::Object(ms) => {
                        let name = match str_v(obj_get(ms, "name"@)) {
                            Some(n) => n,
                            None => id,
                        };
                        let caps = match obj_get(ms, "capabilityOverrides"@) {
                            Some(c) => Some(c),
                            None => obj_get(ms, "capabilities"@),
                        };
                        lemma_manual_entry_id(id, name, caps);
                    },
                    _ => {},
                }
            },
            None => {},
        }
        assert forall|j: int| 0 <= j < models.len() && #[trigger] enabled_entry_v1(models[j]) is Some implies has_item_id(
            merge_v1(models, base),
            entry_id_v(enabled_entry_v1(models[j])),
        ) by {
            if j < models.len() - 1 {
                assert(models[j] == prev_models[j]);
            }
        }
    }
}

proof fn lemma_merge_v1_stable(models: Seq<JsonV>, cat: Seq<JsonV>, k: int)
    requires
        0 <= k <= models.len(),
        forall|j: int| 0 <= j < models.len() && #[trigger] enabled_entry_v1(models[j]) is Some ==> has_item_id(
            cat,
            entry_id_v(enabled_entry_v1(models[j])),
        ),
    ensures
        merge_v1(models.take(k), cat) == cat,
    decreases k,
{
    if k > 0 {
        lemma_merge_v1_stable(models, cat, k - 1);
        assert(models.take(k).drop_last() =~= models.take(k - 1));
        assert(models.take(k).last() == models[k - 1]);
    }
}

/// Running the first catalogue migration again over its own result changes
/// nothing.
pub proof fn law_catalogue_merge_idempotent(models: Seq<JsonV>, base: Seq<JsonV>)
    ensures
        merge_v1(models, merge_v1(models, base)) == merge_v1(models, base),
{
    law_catalogue_merge_lists_enabled(models, base);
    lemma_merge_v1_stable(models, merge_v1(models, base), models.len() as int);
    assert(models.take(models.len() as int) =~= models);
}

/// After the second migration's first pass, every enabled model with an id is
/// in the catalogue under it.
pub proof fn law_ids_merge_lists_enabled(models: Seq<JsonV>, base: Seq<JsonV>)
    ensures
        forall|j: int| 0 <= j < models.len() && #[trigger] enabled_entry_ids(models[j]) is Some ==> has_item_id(
            merge_ids(models, base),
            entry_id_v(enabled_entry_ids(models[j])),
        ),
    decreases models.len(),
{
    if models.len() > 0 {
        let prev_models = models.drop_last();
        law_ids_merge_lists_enabled(prev_models, base);
        let prev = merge_ids(prev_models, base);
        let entry = enabled_entry_ids(models.last());
        lemma_step(prev, entry);
        match entry {
            Some((id, e)) => {
                lemma_ids_entry_id(id, models.last());
            },
            None => {},
        }
        assert forall|j: int| 0 <= j < models.len() && #[trigger] enabled_entry_ids(models[j]) is Some implies has_item_id(
            merge_ids(models, base),
            entry_id_v(enabled_entry_ids(models[j])),
        ) by {
            if j < models.len() - 1 {
                assert(models[j] == prev_models[j]);
            }
        }
    }
}

proof fn lemma_merge_ids_stable(models: Seq<JsonV>, cat: Seq<JsonV>, k: int)
    requires
        0 <= k <= models.len(),
        forall|j: int| 0 <= j < models.len() && #[trigger] enabled_entry_ids(models[j]) is Some ==> has_item_id(
            cat,
            entry_id_v(enabled_entry_ids(models[j])),
        ),
    ensures
        merge_ids(models.take(k), cat) == cat,
    decreases k,
{
    if k > 0 {
        lemma_merge_ids_stable(models, cat, k - 1);
        assert(models.take(k).drop_last() =~= models.take(k - 1));
        assert(models.take(k).last() == models[k - 1]);
    }
}

/// Running the second migration's first pass again over its own result
/// changes nothing.
pub proof fn law_ids_merge_idempotent(models: Seq<JsonV>, base: Seq<JsonV>)
    ensures
        merge_ids(models, merge_ids(models, base)) == merge_ids(models, base),
{
    law_ids_merge_lists_enabled(models, base);
    lemma_merge_ids_stable(models, merge_ids(models, base), models.len() as int);
    assert(models.take(models.len() as int) =~= models);
}

/// After the third migration no catalogue entry holds `capabilities`: what an
/// entry held there it now holds as `capabilityOverrides`, for entries whose
/// keys are distinct, as parsed entries' are.
pub proof fn law_rename_moves_capabilities(item: JsonV)
    requires
        item matches JsonV::Object(ms) ==> distinct_member_keys(ms),
    ensures
        !has_caps_v(renamed_caps_v(item)),
        item matches JsonV::Object(ms) ==> (obj_get(ms, "capabilities"@) is Some ==> (renamed_caps_v(item)
            matches JsonV::Object(out) && obj_get(out, "capabilityOverrides"@) == obj_get(ms, "capabilities"@))),
{
    lemma_entry_keys();
    match item {
        JsonV::Object(ms) => match obj_get(ms, "capabilities"@) {
            Some(c) => {
                let removed = obj_remove(ms, "capabilities"@);
                law_remove_then_get(ms, "capabilities"@);
                law_insert_then_get(removed, "capabilityOverrides"@, c, "capabilities"@);
            },
            None => {},
        },
        _ => {},
    }
}

/// The catalogue entry the first migration adds for an enabled model object
/// with an id is listed under that id and named by the object's own `name`
/// text when it has one, by its id otherwise; a plain text model is both id
/// and name.
pub proof fn law_enabled_entry_named(model: JsonV)
    ensures
        match model {
            JsonV::Str(s) => enabled_entry_v1(model) matches Some((id, e)) && id == s && get_v(e, "id"@) == Some(
                JsonV::Str(s),
            ) && get_v(e, "name"@) == Some(JsonV::Str(s)),
            JsonV::Object(ms) => match obj_get(ms, "id"@) {
                Some(JsonV::Str(i)) => i.len() > 0 ==> (enabled_entry_v1(model) matches Some((id, e)) && id == i
                    && get_v(e, "id"@) == Some(JsonV::Str(i)) && get_v(e, "name"@) == Some(
                    JsonV::Str(
                        match obj_get(ms, "name"@) {
                            Some(JsonV::Str(n)) => n,
                            _ => i,
                        },
                    ),
                )),
                _ => enabled_entry_v1(model) is None,
            },
            _ => enabled_entry_v1(model) is None,
        },
{
    reveal_strlit("id");
    reveal_strlit("name");
    reveal_strlit("capabilityOverrides");
    reveal_strlit("isManual");
    assert("id"@.len() == 2);
    assert("name"@.len() == 4);
    assert("capabilityOverrides"@.len() == 19);
    assert("isManual"@.len() == 8);
    match model {
        JsonV::Str(s) => {
            lemma_entry_named(s, s, None);
        },
        JsonV::Object(ms) => {
            match obj_get(ms, "id"@) {
                Some(JsonV::Str(i)) => {
                    if i.len() > 0 {
                        let nm = match obj_get(ms, "name"@) {
                            Some(JsonV::Str(n)) => n,
                            _ => i,
                        };
                        let cp = match obj_get(ms, "capabilityOverrides"@) {
                            Some(c) => Some(c),
                            None => obj_get(ms, "capabilities"@),
                        };
                        lemma_entry_named(i, nm, cp);
                    }
                },
                _ => {},
            }
        },
        _ => {},
    }
}

proof fn lemma_entry_named(id: Seq<char>, name: Seq<char>, caps: Option<JsonV>)
    ensures
        get_v(manual_entry_v(id, name, caps), "id"@) == Some(JsonV::Str(id)),
        get_v(manual_entry_v(id, name, caps), "name"@) == Some(JsonV::Str(name)),
{
    reveal_strlit("id");
    reveal_strlit("name");
    reveal_strlit("capabilityOverrides");
    reveal_strlit("isManual");
    assert("id"@.len() == 2);
    assert("name"@.len() == 4);
    assert("capabilityOverrides"@.len() == 19);
    assert("isManual"@.len() == 8);
    let n0 = obj_insert(Seq::empty(), "id"@, JsonV::Str(id));
    let n1 = obj_insert(n0, "name"@, JsonV::Str(name));
    law_insert_then_get(Seq::empty(), "id"@, JsonV::Str(id), "id"@);
    law_insert_then_get(n0, "name"@, JsonV::Str(name), "id"@);
    law_insert_then_get(n0, "name"@, JsonV::Str(name), "name"@);
    let n2 = match caps {
        Some(c) => obj_insert(n1, "capabilityOverrides"@, c),
        None => n1,
    };
    match caps {
        Some(c) => {
            law_insert_then_get(n1, "capabilityOverrides"@, c, "id"@);
            law_insert_then_get(n1, "capabilityOverrides"@, c, "name"@);
        },
        None => {},
    }
    law_insert_then_get(n2, "isManual"@, JsonV::Bool(true), "id"@);
    law_insert_then_get(n2, "isManual"@, JsonV::Bool(true), "name"@);
}

/// The name an enabled model object gives its catalogue entry: its own
/// `name` text, else the id.
pub open spec fn own_name(ms: Seq<(Seq<char>, JsonV)>, id: Seq<char>) -> Seq<char> {
    match obj_get(ms, "name"@) {
        Some(JsonV::Str(n)) => n,
        _ => id,
    }
}

proof fn lemma_extra_keys_keep(m: Seq<(Seq<char>, JsonV)>, ms: Seq<(Seq<char>, JsonV)>, k: Seq<char>)
    requires
        k == "id"@ || k == "name"@,
    ensures
        ({
            let m1 = match obj_get(ms, "capabilities"@) {
                Some(c) => obj_insert(m, "capabilityOverrides"@, c),
                None => m,
            };
            let m2 = match obj_get(ms, "providerOptions"@) {
                Some(p) => obj_insert(m1, "providerOptions"@, p),
                None => m1,
            };
            obj_get(obj_insert(m2, "isManual"@, JsonV::Bool(true)), k) == obj_get(m, k)
        }),
{
    reveal_strlit("id");
    reveal_strlit("name");
    reveal_strlit("capabilityOverrides");
    reveal_strlit("providerOptions");
    reveal_strlit("isManual");
    assert("id"@.len() == 2);
    assert("name"@.len() == 4);
    assert("capabilityOverrides"@.len() == 19);
    assert("providerOptions"@.len() == 15);
    assert("isManual"@.len() == 8);
    let m1 = match obj_get(ms, "capabilities"@) {
        Some(c) => obj_insert(m, "capabilityOverrides"@, c),
        None => m,
    };
    match obj_get(ms, "capabilities"@) {
        Some(c) => law_insert_then_get(m, "capabilityOverrides"@, c, k),
        None => {},
    }
    let m2 = match obj_get(ms, "providerOptions"@) {
        Some(p) => obj_insert(m1, "providerOptions"@, p),
        None => m1,
    };
    match obj_get(ms, "providerOptions"@) {
        Some(p) => law_insert_then_get(m1, "providerOptions"@, p, k),
        None => {},
    }
    law_insert_then_get(m2, "isManual"@, JsonV::Bool(true), k);
}

/// The entries the later catalogue rewrite adds for an enabled model are
/// listed under the model's id and named by the model object's own `name`
/// text when it has one, by the id otherwise.
pub proof fn law_rewrite_entries_named(id: Seq<char>, model: JsonV)
    ensures
        get_v(ids_entry_v(id, model), "id"@) == Some(JsonV::Str(id)),
        get_v(ids_entry_v(id, model), "name"@) == Some(JsonV::Str(
            match model {
                JsonV::Object(ms) => own_name(ms, id),
                _ => id,
            },
        )),
        model matches JsonV::Object(ms) ==> get_v(object_entry_v(id, ms), "id"@) == Some(JsonV::Str(id))
            && get_v(object_entry_v(id, ms), "name"@) == Some(JsonV::Str(own_name(ms, id))),
{
    reveal_strlit("id");
    reveal_strlit("name");
    assert("id"@.len() == 2);
    assert("name"@.len() == 4);
    let n0 = obj_insert(Seq::empty(), "id"@, JsonV::Str(id));
    let n1 = obj_insert(n0, "name"@, JsonV::Str(id));
    law_insert_then_get(Seq::empty(), "id"@, JsonV::Str(id), "id"@);
    law_insert_then_get(n0, "name"@, JsonV::Str(id), "id"@);
    law_insert_then_get(n0, "name"@, JsonV::Str(id), "name"@);
    match model {
        JsonV::Object(ms) => {
            let nm = own_name(ms, id);
            let a = match str_v(obj_get(ms, "name"@)) {
                Some(n) => obj_insert(n1, "name"@, JsonV::Str(n)),
                None => n1,
            };
            match str_v(obj_get(ms, "name"@)) {
                Some(n) => {
                    law_insert_then_get(n1, "name"@, JsonV::Str(n), "id"@);
                    law_insert_then_get(n1, "name"@, JsonV::Str(n), "name"@);
                },
                None => {},
            }
            lemma_extra_keys_keep(a, ms, "id"@);
            lemma_extra_keys_keep(a, ms, "name"@);
            let o1 = obj_insert(n0, "name"@, JsonV::Str(nm));
            law_insert_then_get(n0, "name"@, JsonV::Str(nm), "id"@);
            law_insert_then_get(n0, "name"@, JsonV::Str(nm), "name"@);
            lemma_extra_keys_keep(o1, ms, "id"@);
            lemma_extra_keys_keep(o1, ms, "name"@);
        },
        _ => {
            law_insert_then_get(n1, "isManual"@, JsonV::Bool(true), "id"@);
            law_insert_then_get(n1, "isManual"@, JsonV::Bool(true), "name"@);
            reveal_strlit("isManual");
            assert("isManual"@.len() == 8);
        },
    }
}

} // verus!
