use supervisor::configuration::{config_document, default_file_text, get_modules, get_remote_functions, get_wot_td};

fn object_with(key: &str, value: serde_json::Value) -> serde_json::Value {
    let mut map = serde_json::Map::new();
    map.insert(key.to_string(), value);
    serde_json::Value::Object(map)
}

#[test]
fn default_file_is_the_pretty_document() {
    assert_eq!(default_file_text(&serde_json::Value::Object(serde_json::Map::new())), "{}");
    let doc = object_with("a", serde_json::Value::Bool(true));
    assert_eq!(default_file_text(&doc), "{\n  \"a\": true\n}");
}

#[test]
fn config_text_is_parsed_as_json() {
    assert_eq!(config_document("{\"a\": true}"), Ok(object_with("a", serde_json::Value::Bool(true))));
    assert!(config_document("{").is_err());
}

#[test]
fn config_loaders_name_the_file_that_failed() {
    assert_eq!(get_modules("{}"), Ok(serde_json::Value::Object(serde_json::Map::new())));
    assert_eq!(get_remote_functions("[1]"), Ok(serde_json::Value::Array(vec![serde_json::Value::from(1)])));
    let err = get_modules("nope").unwrap_err();
    assert!(err.starts_with("Failed to parse JSON in modules.json: "));
    assert!(err.len() > "Failed to parse JSON in modules.json: ".len());
    let err = get_remote_functions("").unwrap_err();
    assert!(err.starts_with("Failed to parse JSON in remote_functions.json: "));
    let err = get_wot_td("/i/configs/device-description.json", "{\"a\":").unwrap_err();
    assert!(err.starts_with("Error parsing JSON in /i/configs/device-description.json: "));
    assert_eq!(get_wot_td("p", "null"), Ok(serde_json::Value::Null));
}
