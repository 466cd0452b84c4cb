use supervisor::configuration::get_instance_path;
use supervisor::strmap::StrMap;
use supervisor::structs::deployment_orchestrator::{
    MountPathFile, MultipartMediaType, SchemaObject, SchemaProperty,
};
use supervisor::structs::openapi::OpenApiEncodingObject;
use supervisor::structs::request_entry::Timestamp;
use supervisor::wasm::pick_runtime_type;
use supervisor::wasmtime::{
    functions, plan_module_load, serialized_module_path, should_compile, ModuleConfig,
    ModuleLoadPlan, WasmtimeModule,
};

fn encoding(content_type: Option<&str>) -> OpenApiEncodingObject {
    OpenApiEncodingObject {
        content_type: content_type.map(|s| s.to_string()),
        headers: None,
        style: None,
        explode: None,
        allow_reserved: None,
    }
}

fn property(type_: &str, format: Option<&str>) -> SchemaProperty {
    SchemaProperty { type_: type_.to_string(), format: format.map(|s| s.to_string()) }
}

fn multipart(media_type: &str, schema_type: &str, props: Vec<(&str, SchemaProperty)>) -> MultipartMediaType {
    let mut properties = StrMap::new();
    for (k, v) in props {
        properties.insert(k.to_string(), v);
    }
    let mut enc = StrMap::new();
    enc.insert("image".to_string(), encoding(Some("image/jpeg")));
    enc.insert("note".to_string(), encoding(Some("text/plain")));
    enc.insert("raw".to_string(), encoding(None));
    MultipartMediaType {
        media_type: media_type.to_string(),
        schema: SchemaObject { type_: schema_type.to_string(), properties },
        encoding: enc,
    }
}

#[test]
fn multipart_bodies_are_checked() {
    let wrong = multipart("application/json", "object", vec![]);
    assert_eq!(
        MountPathFile::list_from_multipart(&wrong).err(),
        Some("Expected multipart/form-data, got '\"application/json\"'".to_string())
    );
    let not_object = multipart("multipart/form-data", "array", vec![]);
    assert_eq!(
        MountPathFile::list_from_multipart(&not_object).err(),
        Some("Only object schemas supported, got '\"array\"'".to_string())
    );
    let empty = multipart("multipart/form-data", "object", vec![]);
    assert_eq!(
        MountPathFile::list_from_multipart(&empty).err(),
        Some("Expected properties for multipart schema, properties was empty instead.".to_string())
    );
}

#[test]
fn multipart_binary_properties_become_mounts() {
    let body = multipart(
        "multipart/form-data",
        "object",
        vec![
            ("image", property("string", Some("binary"))),
            ("note", property("string", None)),
            ("raw", property("string", Some("binary"))),
            ("other", property("string", Some("binary"))),
        ],
    );
    let mounts = MountPathFile::list_from_multipart(&body).unwrap();
    assert_eq!(mounts.len(), 1);
    assert_eq!(mounts[0].path, "image");
    assert_eq!(mounts[0].media_type, "image/jpeg");
    assert!(mounts[0].stage.is_none());
}

#[test]
fn runtime_choice() {
    assert_eq!(pick_runtime_type(Some("wasm3")), "wasm3");
    assert_eq!(pick_runtime_type(Some("wasmtime")), "wasmtime");
    assert_eq!(pick_runtime_type(None), "wasmtime");
}

#[test]
fn instance_path_defaults_to_working_directory() {
    assert_eq!(get_instance_path(None, "/home/pi"), "/home/pi/instance");
    assert_eq!(get_instance_path(Some("/data".to_string()), "/home/pi"), "/data");
}

#[test]
fn modules_are_compiled_when_their_serialized_form_is_stale() {
    let t = |s: i64, n: u32| Timestamp { secs: s, nanos: n };
    assert!(should_compile(t(10, 0), None));
    assert!(should_compile(t(10, 5), Some(t(10, 4))));
    assert!(!should_compile(t(10, 4), Some(t(10, 4))));
    assert!(!should_compile(t(9, 9), Some(t(10, 0))));
    assert_eq!(serialized_module_path("/m/dep/mod1"), "/m/dep/mod1.SERIALIZED.wasm");
    assert_eq!(serialized_module_path("/m/fibo.wasm"), "/m/fibo.SERIALIZED.wasm");
}

#[test]
fn loading_plans() {
    let config = ModuleConfig::new(
        "id1".to_string(),
        "mod1".to_string(),
        "/m/dep/mod1".to_string(),
        StrMap::new(),
        None,
    );
    let mut modules: StrMap<WasmtimeModule> = StrMap::new();
    match plan_module_load(&modules, &config, Timestamp { secs: 2, nanos: 0 }, None) {
        ModuleLoadPlan::Load { serialized_path, compile } => {
            assert_eq!(serialized_path, "/m/dep/mod1.SERIALIZED.wasm");
            assert!(compile);
        }
        ModuleLoadPlan::AlreadyLoaded => panic!("nothing is loaded"),
    }
    modules.insert("mod1".to_string(), WasmtimeModule::new(config.clone()).unwrap());
    assert!(matches!(
        plan_module_load(&modules, &config, Timestamp { secs: 2, nanos: 0 }, None),
        ModuleLoadPlan::AlreadyLoaded
    ));
    assert!(functions(&modules, "mod1").is_empty());
    assert!(functions(&modules, "nosuch").is_empty());
}

/// A module importing `env.f` and exporting the function `run`.
fn tiny_module_bytes() -> Vec<u8> {
    vec![
        0x00, 0x61, 0x73, 0x6d, 0x01, 0x00, 0x00, 0x00, // header
        0x01, 0x04, 0x01, 0x60, 0x00, 0x00, // types: () -> ()
        0x02, 0x09, 0x01, 0x03, b'e', b'n', b'v', 0x01, b'f', 0x00, 0x00, // import env.f
        0x03, 0x02, 0x01, 0x00, // one function of type 0
        0x07, 0x07, 0x01, 0x03, b'r', b'u', b'n', 0x00, 0x01, // export run = function 1
        0x0a, 0x04, 0x01, 0x02, 0x00, 0x0b, // body: end
    ]
}

#[test]
fn compiled_module_lists_its_function_imports_and_exports() {
    let engine = wasmtime::Engine::default();
    let module = wasmtime::Module::new(&engine, tiny_module_bytes()).unwrap();
    let config = ModuleConfig::new("id".to_string(), "tiny".to_string(), "/m/tiny".to_string(), StrMap::new(), None);
    let mut m = WasmtimeModule::new(config).unwrap();
    assert!(m.get_all_imports().is_empty());
    m.module = Some(module);
    assert_eq!(m.get_all_imports(), vec!["f".to_string()]);
    assert_eq!(m.get_all_exports(), vec!["run".to_string()]);
    let mut modules: StrMap<WasmtimeModule> = StrMap::new();
    modules.insert("tiny".to_string(), m);
    assert_eq!(functions(&modules, "tiny"), vec!["run".to_string()]);
}
