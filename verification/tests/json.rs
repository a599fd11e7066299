use record_screen::json::{merge_json, JsonValue};

fn text(s: &str) -> JsonValue {
    JsonValue::Text(s.to_string())
}

fn object(entries: Vec<(&str, JsonValue)>) -> JsonValue {
    JsonValue::Object(entries.into_iter().map(|(k, v)| (k.to_string(), v)).collect())
}

fn lookup<'a>(value: &'a JsonValue, key: &str) -> Option<&'a JsonValue> {
    match value {
        JsonValue::Object(entries) => entries.iter().find(|(k, _)| k == key).map(|(_, v)| v),
        _ => None,
    }
}

#[test]
fn merge_keeps_defaults_for_keys_the_saved_file_lacks() {
    let defaults = object(vec![
        ("qualityPreset", text("1080p / 30 fps")),
        ("micEnabled", JsonValue::Bool(true)),
    ]);
    let persisted = object(vec![("micEnabled", JsonValue::Bool(false))]);
    let merged = merge_json(defaults, persisted);
    assert_eq!(lookup(&merged, "qualityPreset"), Some(&text("1080p / 30 fps")));
    assert_eq!(lookup(&merged, "micEnabled"), Some(&JsonValue::Bool(false)));
    match &merged {
        JsonValue::Object(entries) => assert_eq!(entries.len(), 2),
        _ => panic!("merged settings must stay an object"),
    }
}

#[test]
fn merge_adds_keys_only_the_saved_file_has() {
    let defaults = object(vec![("a", JsonValue::Number("1".to_string()))]);
    let persisted = object(vec![("b", JsonValue::Null)]);
    let merged = merge_json(defaults, persisted);
    assert_eq!(lookup(&merged, "a"), Some(&JsonValue::Number("1".to_string())));
    assert_eq!(lookup(&merged, "b"), Some(&JsonValue::Null));
}

#[test]
fn merge_descends_into_nested_objects() {
    let defaults = object(vec![(
        "region",
        object(vec![("x", JsonValue::Number("160".to_string())), ("y", JsonValue::Number("120".to_string()))]),
    )]);
    let persisted = object(vec![("region", object(vec![("y", JsonValue::Number("7".to_string()))]))]);
    let merged = merge_json(defaults, persisted);
    let region = lookup(&merged, "region").expect("region stays");
    assert_eq!(lookup(region, "x"), Some(&JsonValue::Number("160".to_string())));
    assert_eq!(lookup(region, "y"), Some(&JsonValue::Number("7".to_string())));
}

#[test]
fn merge_replaces_anything_that_is_not_two_objects() {
    let merged = merge_json(object(vec![("a", JsonValue::Null)]), JsonValue::Array(vec![text("x")]));
    assert_eq!(merged, JsonValue::Array(vec![text("x")]));
    let merged = merge_json(text("old"), object(vec![("a", JsonValue::Bool(true))]));
    assert_eq!(merged, object(vec![("a", JsonValue::Bool(true))]));
    let merged = merge_json(object(vec![("a", JsonValue::Null)]), text("new"));
    assert_eq!(merged, text("new"));
}

#[test]
fn complete_saved_document_reads_back_as_saved() {
    let defaults = object(vec![
        ("outputDirectory", text("~/Movies/Record Screen")),
        ("micEnabled", JsonValue::Bool(true)),
        ("regionX", JsonValue::Number("160".to_string())),
    ]);
    let saved = object(vec![
        ("micEnabled", JsonValue::Bool(false)),
        ("outputDirectory", text("/data/videos")),
        ("regionX", JsonValue::Number("0".to_string())),
    ]);
    let merged = merge_json(defaults, saved);
    assert_eq!(lookup(&merged, "outputDirectory"), Some(&text("/data/videos")));
    assert_eq!(lookup(&merged, "micEnabled"), Some(&JsonValue::Bool(false)));
    assert_eq!(lookup(&merged, "regionX"), Some(&JsonValue::Number("0".to_string())));
    match &merged {
        JsonValue::Object(entries) => assert_eq!(entries.len(), 3),
        _ => panic!("merged settings must stay an object"),
    }
}
