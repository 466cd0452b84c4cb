//! Where the supervisor's configuration files are found.
use crate::json::{json_parse, json_to_pretty, parsed_json, pretty_json};
use crate::path::{join_path, path_join};
use vstd::prelude::*;

verus! {

/// The instance directory: the configured one, else `instance` in the
/// working directory.
pub fn get_instance_path(configured: Option<String>, working_dir: &str) -> (r: String)
    ensures
        r@ == match configured {
            Some(c) => c@,
            None => path_join(working_dir@, "instance"@),
        },
{
    match configured {
        Some(c) => c,
        None => join_path(working_dir, "instance"),
    }
}

/// `{instance}/configs`: the directory of the static JSON configuration files.
pub fn get_config_dir(instance: &str) -> (r: String)
    ensures
        r@ == path_join(instance@, "configs"@),
{
    join_path(instance, "configs")
}

/// The path of a configuration file in the configuration directory.
pub fn config_file_path(instance: &str, file_name: &str) -> (r: String)
    ensures
        r@ == path_join(path_join(instance@, "configs"@), file_name@),
{
    let dir = get_config_dir(instance);
    join_path(&dir, file_name)
}

/// The text that a missing JSON configuration file is created with: the
/// default document written pretty, or `{}` when it cannot be written.
pub fn default_file_text(default_obj: &serde_json::Value) -> (r: String)
    ensures
        r@ == match pretty_json(*default_obj) {
            Some(t) => t,
            None => "{}"@,
        },
{
    match json_to_pretty(default_obj) {
        Some(t) => t,
        None => "{}".to_string(),
    }
}

/// The JSON document that the text of a configuration file holds, or the
/// message of the parse error.
pub fn config_document(text: &str) -> (r: Result<serde_json::Value, String>)
    ensures
        match parsed_json(text@) {
            Ok(v) => r == Ok::<serde_json::Value, String>(v),
            Err(e) => r matches Err(m) && m@ == e,
        },
{
    json_parse(text)
}

/// What loading a configuration file whose text is `text` gives: its
/// document, or `prefix` followed by the parse error's message.
pub open spec fn loaded_config(text: Seq<char>, prefix: Seq<char>) -> Result<serde_json::Value, Seq<char>> {
    match parsed_json(text) {
        Ok(v) => Ok(v),
        Err(e) => Err(prefix + e),
    }
}

/// Parses the text of a configuration file; the error is `prefix` followed
/// by the parse error's message.
fn load_config(text: &str, prefix: &str) -> (r: Result<serde_json::Value, String>)
    ensures
        match loaded_config(text@, prefix@) {
            Ok(v) => r == Ok::<serde_json::Value, String>(v),
            Err(e) => r matches Err(m) && m@ == e,
        },
{
    match config_document(text) {
        Ok(v) => Ok(v),
        Err(e) => {
            let mut m = prefix.to_string();
            m.append(e.as_str());
            Err(m)
        },
    }
}

/// The document of `remote_functions.json`, whose text is `content`.
pub fn get_remote_functions(content: &str) -> (r: Result<serde_json::Value, String>)
    ensures
        match loaded_config(content@, "Failed to parse JSON in remote_functions.json: "@) {
            Ok(v) => r == Ok::<serde_json::Value, String>(v),
            Err(e) => r matches Err(m) && m@ == e,
        },
{
    load_config(content, "Failed to parse JSON in remote_functions.json: ")
}

/// The document of `modules.json`, whose text is `content`.
pub fn get_modules(content: &str) -> (r: Result<serde_json::Value, String>)
    ensures
        match loaded_config(content@, "Failed to parse JSON in modules.json: "@) {
            Ok(v) => r == Ok::<serde_json::Value, String>(v),
            Err(e) => r matches Err(m) && m@ == e,
        },
{
    load_config(content, "Failed to parse JSON in modules.json: ")
}

/// The Web of Things Thing Description kept at `path`, whose text is `content`.
pub fn get_wot_td(path: &str, content: &str) -> (r: Result<serde_json::Value, String>)
    ensures
        match loaded_config(content@, "Error parsing JSON in "@ + path@ + ": "@) {
            Ok(v) => r == Ok::<serde_json::Value, String>(v),
            Err(e) => r matches Err(m) && m@ == e,
        },
{
    let mut prefix = "Error parsing JSON in ".to_string();
    prefix.append(path);
    prefix.append(": ");
    load_config(content, prefix.as_str())
}

} // verus!
