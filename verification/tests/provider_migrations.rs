use gula_db_core::dedupe::{plan_duplicate_providers, predefined_provider_ids, provider_type_for, DedupeAction, DuplicateProviderRow};
use gula_db_core::json::{Json, Member};
use gula_db_core::migrations::{
    contains_item_id, migrate_available_models, migrate_capability_overrides,
    migrate_enabled_into_catalogue, migrate_models_to_ids, needs_cached_models,
};

fn show(j: &Json) -> String {
    match j {
        Json::Null => "null".to_string(),
        Json::Bool(b) => b.to_string(),
        Json::Int(i) => i.to_string(),
        Json::UInt(u) => u.to_string(),
        Json::Float(t) => t.clone(),
        Json::Str(s) => format!("{:?}", s),
        Json::Array(items) => format!("[{}]", items.iter().map(show).collect::<Vec<_>>().join(",")),
        Json::Object(ms) => format!(
            "{{{}}}",
            ms.iter().map(|m| format!("{:?}:{}", m.key, show(&m.value))).collect::<Vec<_>>().join(",")
        ),
    }
}

fn obj(pairs: Vec<(&str, Json)>) -> Json {
    Json::Object(pairs.into_iter().map(|(k, v)| Member { key: k.to_string(), value: v }).collect())
}

fn s(t: &str) -> Json {
    Json::Str(t.to_string())
}

fn arr(items: Vec<Json>) -> Json {
    Json::Array(items)
}

#[test]
fn enabled_models_missing_from_the_catalogue_are_added_by_hand() {
    let models = arr(vec![
        s("gpt-4o"),
        obj(vec![("id", s("o1")), ("name", s("O One")), ("capabilities", obj(vec![("vision", Json::Bool(true))]))]),
        obj(vec![("id", s(""))]),
        Json::Int(3),
        s("gpt-4o"),
    ]);
    let available = arr(vec![obj(vec![("id", s("o1")), ("name", s("cat"))])]);
    let out = migrate_available_models(Some(models), Some(available), None).unwrap();
    assert_eq!(
        show(&out),
        "[{\"id\":\"o1\",\"name\":\"cat\"},{\"id\":\"gpt-4o\",\"name\":\"gpt-4o\",\"isManual\":true}]"
    );
}

#[test]
fn an_empty_catalogue_starts_from_the_cached_model_list() {
    assert!(needs_cached_models(&Some(arr(Vec::new()))));
    assert!(needs_cached_models(&None));
    assert!(!needs_cached_models(&Some(arr(vec![s("x")]))));
    let models = arr(vec![obj(vec![("id", s("m2")), ("capabilityOverrides", Json::Int(1)), ("capabilities", Json::Int(2))])]);
    let cached = Some(Some(arr(vec![obj(vec![("id", s("m1"))])])));
    let out = migrate_available_models(Some(models), Some(arr(Vec::new())), cached).unwrap();
    assert_eq!(
        show(&out),
        "[{\"id\":\"m1\"},{\"id\":\"m2\",\"name\":\"m2\",\"capabilityOverrides\":1,\"isManual\":true}]"
    );
    assert!(migrate_available_models(Some(arr(Vec::new())), Some(arr(Vec::new())), Some(None)).is_none());
}

#[test]
fn running_the_catalogue_migration_twice_changes_nothing_more() {
    let models = || arr(vec![s("a"), s("b")]);
    let once = migrate_available_models(Some(models()), None, None).unwrap();
    let twice = migrate_available_models(Some(models()), Some(gula_db_core::json::json_clone(&once)), None).unwrap();
    assert_eq!(show(&twice), show(&once));
}

#[test]
fn first_pass_adds_only_missing_ids() {
    let models = arr(vec![
        obj(vec![("id", s("x")), ("name", s("X")), ("capabilities", Json::Bool(true)), ("providerOptions", obj(Vec::new()))]),
        s("y"),
    ]);
    let available = arr(vec![obj(vec![("id", s("y"))])]);
    let out = migrate_enabled_into_catalogue(Some(models), Some(available), None).unwrap();
    assert_eq!(
        show(&out),
        "[{\"id\":\"y\"},{\"id\":\"x\",\"name\":\"X\",\"capabilityOverrides\":true,\"providerOptions\":{},\"isManual\":true}]"
    );
    let nothing_new = migrate_enabled_into_catalogue(Some(arr(vec![s("y")])), Some(arr(vec![obj(vec![("id", s("y"))])])), None);
    assert!(nothing_new.is_none());
    assert!(contains_item_id(&vec![obj(vec![("id", s("y"))])], "y"));
    assert!(!contains_item_id(&vec![obj(vec![("id", Json::Int(1))])], "1"));
}

#[test]
fn enabled_objects_become_ids() {
    let models = arr(vec![obj(vec![("id", s("a")), ("name", s("A"))]), s("b"), obj(vec![("name", s("no id"))])]);
    let available = arr(vec![obj(vec![("id", s("b"))])]);
    let (ids, catalogue) = migrate_models_to_ids(Some(models), Some(available)).unwrap();
    assert_eq!(show(&ids), "[\"a\",\"b\"]");
    assert_eq!(
        show(&catalogue.unwrap()),
        "[{\"id\":\"b\"},{\"id\":\"a\",\"name\":\"A\",\"isManual\":true}]"
    );
    assert!(migrate_models_to_ids(Some(arr(vec![s("a")])), None).is_none());
    assert!(migrate_models_to_ids(Some(arr(Vec::new())), None).is_none());
    let (ids, catalogue) = migrate_models_to_ids(Some(arr(vec![obj(vec![("id", s("b"))])])), Some(arr(vec![obj(vec![("id", s("b"))])]))).unwrap();
    assert_eq!(show(&ids), "[\"b\"]");
    assert!(catalogue.is_none());
}

#[test]
fn capabilities_are_renamed_capability_overrides() {
    let available = arr(vec![
        obj(vec![("id", s("a")), ("capabilities", obj(vec![("tools", Json::Bool(true))]))]),
        obj(vec![("id", s("b"))]),
        s("odd"),
    ]);
    let out = migrate_capability_overrides(Some(available)).unwrap();
    assert_eq!(
        show(&out),
        "[{\"id\":\"a\",\"capabilityOverrides\":{\"tools\":true}},{\"id\":\"b\"},\"odd\"]"
    );
    assert!(migrate_capability_overrides(Some(out)).is_none());
    assert!(migrate_capability_overrides(None).is_none());
}

fn row(id: &str, key: &str, enabled: i64) -> DuplicateProviderRow {
    DuplicateProviderRow {
        id: id.to_string(),
        api_key: key.to_string(),
        base_url: None,
        models: format!("[\"{}\"]", id),
        enabled,
    }
}

fn describe(plan: &[DedupeAction]) -> Vec<String> {
    plan.iter()
        .map(|a| match a {
            DedupeAction::CopyCredentials { api_key, models, enabled, .. } => format!("copy {} {} {}", api_key, models, enabled),
            DedupeAction::Rename { from } => format!("rename {}", from),
            DedupeAction::Delete { id } => format!("delete {}", id),
        })
        .collect()
}

#[test]
fn predefined_providers_and_their_types() {
    assert_eq!(predefined_provider_ids(), vec!["openai", "anthropic", "gemini", "openrouter"]);
    assert_eq!(provider_type_for("gemini"), "google");
    assert_eq!(provider_type_for("openai"), "openai");
}

#[test]
fn duplicates_fold_into_the_stable_row() {
    let rows = vec![row("uuid-1", "sk-1", 0), row("openai", "", 1), row("uuid-2", "sk-2", 0)];
    let plan = plan_duplicate_providers("openai", &rows);
    assert_eq!(
        describe(&plan),
        vec![
            "copy sk-1 [\"uuid-1\"] 1",
            "delete uuid-1",
            "copy sk-2 [\"uuid-2\"] 1",
            "delete uuid-2",
        ]
    );
    let rows = vec![row("openai", "sk-0", 0), row("uuid-1", "sk-1", 1)];
    assert_eq!(describe(&plan_duplicate_providers("openai", &rows)), vec!["delete uuid-1"]);
}

#[test]
fn without_a_stable_row_the_first_keyed_row_is_moved() {
    let rows = vec![row("u1", "", 0), row("u2", "sk-2", 0), row("u3", "sk-3", 1)];
    let plan = plan_duplicate_providers("anthropic", &rows);
    assert_eq!(describe(&plan), vec!["rename u2", "delete u1", "delete u3"]);
    let rows = vec![row("u1", "", 0), row("u2", "", 1), row("u3", "sk-3", 1)];
    let plan = plan_duplicate_providers("gemini", &rows);
    assert_eq!(describe(&plan), vec!["rename u3", "delete u1", "delete u2"]);
    let rows = vec![row("u1", "", 0), row("u2", "", 1)];
    let plan = plan_duplicate_providers("openrouter", &rows);
    assert_eq!(describe(&plan), vec!["rename u1", "delete u2"]);
}

#[test]
fn a_single_row_is_left_alone() {
    assert!(plan_duplicate_providers("openai", &vec![row("x", "", 0)]).is_empty());
    assert!(plan_duplicate_providers("openai", &Vec::new()).is_empty());
}
