use supervisor::strmap::StrMap;
use supervisor::wasm_api::{
    IWasmModule, IWasmRuntime, IncompatibleWasmModule, MLModel, ModuleConfig, WasmModuleBase,
    WasmRuntimeBase, WasmRuntimeNotSetError, WasmValue,
};

#[test]
fn test_module_config_set_model() {
    let mut data_files = StrMap::new();
    data_files.insert("model.pb".to_string(), "/tmp/mymodel.pb".to_string());

    let mut config = ModuleConfig::new("modid", "mymodule", "/tmp/mymodule.wasm", data_files);
    config.set_model_from_data_files("model.pb");

    assert!(config.ml_model.is_some());
    let ml_model = config.ml_model.as_ref().unwrap();
    assert_eq!(ml_model.path, "/tmp/mymodel.pb");
    assert_eq!(ml_model.alloc_function_name, "alloc");
    assert_eq!(ml_model.infer_function_name, "infer_from_ptrs");
}

#[test]
fn test_runtime_load_module() {
    let mut runtime = WasmRuntimeBase::new();
    let config = ModuleConfig::new("test_id", "test_module", "/path/to/test_module.wasm", StrMap::new());

    // Load module into runtime
    let maybe_module = runtime.load_module(config);
    assert!(maybe_module.is_some());
    let module = maybe_module.unwrap();
    assert_eq!(module.name(), "test_module");
}

#[test]
fn test_run_function_not_implemented() {
    let mut runtime = WasmRuntimeBase::new();
    let config = ModuleConfig::new("test_id", "test_module", "/path/to/test_module.wasm", StrMap::new());
    runtime.load_module(config);

    let result = runtime.run_function("fake_func", &[], None);
    // It's unimplemented, so it should return None
    assert!(result.is_none());
}

#[test]
fn test_fake_wasm_add_function() {
    // No engine is attached to the base runtime; adding through it yields nothing.
    let mut runtime = WasmRuntimeBase::new();
    let config = ModuleConfig::new("my_id", "my_module", "/tmp/simple.wasm", StrMap::new());
    runtime.load_module(config);
    let result = runtime.run_function("add", &[WasmValue::I32(3), WasmValue::I32(4)], Some("my_module"));
    assert!(result.is_none());
}

#[test]
fn module_config_defaults() {
    let config = ModuleConfig::new("i", "n", "p", StrMap::new());
    assert!(config.ml_model.is_none());
    assert_eq!(config.data_ptr_function_name, "get_img_ptr");
    assert_eq!(config.id, "i");
    assert_eq!(config.name, "n");
    assert_eq!(config.path, "p");
}

#[test]
fn set_model_without_matching_data_file_keeps_config() {
    let mut data_files = StrMap::new();
    data_files.insert("other.bin".to_string(), "/tmp/other.bin".to_string());
    let mut config = ModuleConfig::new("i", "n", "p", data_files);
    config.set_model_from_data_files("model.pb");
    assert!(config.ml_model.is_none());
}

#[test]
fn ml_model_new_and_default() {
    let m = MLModel::new("/models/a.pb");
    assert_eq!(m.path, "/models/a.pb");
    assert_eq!(m.alloc_function_name, "alloc");
    assert_eq!(m.infer_function_name, "infer_from_ptrs");
    let d = MLModel::default();
    assert_eq!(d.path, "");
    assert_eq!(d.alloc_function_name, "alloc");
}

#[test]
fn loaded_module_keeps_its_configuration() {
    let mut runtime = WasmRuntimeBase::new();
    let config = ModuleConfig::new("id1", "fibo", "/m/fibo.wasm", StrMap::new());
    runtime.load_module(config);
    let module = runtime.modules().get("fibo").unwrap();
    assert_eq!(module.id(), "id1");
    assert_eq!(module.path(), "/m/fibo.wasm");
    assert!(module.runtime().is_none());
    assert_eq!(runtime.modules().len(), 1);
}

#[test]
fn get_or_load_module_reuses_loaded_module() {
    let mut runtime = WasmRuntimeBase::new();
    runtime.load_module(ModuleConfig::new("first", "m", "/a.wasm", StrMap::new()));
    let again = runtime
        .get_or_load_module(Some(ModuleConfig::new("second", "m", "/b.wasm", StrMap::new())))
        .unwrap();
    assert_eq!(again.id(), "first");
    assert!(runtime.get_or_load_module(None).is_none());
    let other = runtime
        .get_or_load_module(Some(ModuleConfig::new("third", "n", "/c.wasm", StrMap::new())))
        .unwrap();
    assert_eq!(other.id(), "third");
    assert_eq!(runtime.modules().len(), 2);
}

#[test]
fn reloading_a_module_replaces_it() {
    let mut runtime = WasmRuntimeBase::new();
    runtime.load_module(ModuleConfig::new("first", "m", "/a.wasm", StrMap::new()));
    runtime.load_module(ModuleConfig::new("second", "m", "/b.wasm", StrMap::new()));
    assert_eq!(runtime.modules().len(), 1);
    assert_eq!(runtime.modules().get("m").unwrap().id(), "second");
}

#[test]
fn searching_all_modules_lists_their_functions() {
    let mut runtime = WasmRuntimeBase::new();
    runtime.load_module(ModuleConfig::new("a", "ma", "/a.wasm", StrMap::new()));
    runtime.load_module(ModuleConfig::new("b", "mb", "/b.wasm", StrMap::new()));
    assert!(runtime.run_function("f", &[], None).is_none());
    for (_, m) in runtime.modules().entries() {
        assert_eq!(m.cached_functions, Some(Vec::new()));
    }
    assert!(runtime.run_function("f", &[], Some("missing")).is_none());
}

#[test]
fn base_runtime_memory_access_fails() {
    let mut runtime = WasmRuntimeBase::new();
    let (data, err) = runtime.read_from_memory(0, 4, None);
    assert!(data.is_empty());
    assert_eq!(err, Some("not implemented".to_string()));
    assert_eq!(runtime.write_to_memory(0, &[1, 2], Some("m")), Some("not implemented".to_string()));
    assert!(runtime.current_module_name().is_none());
    runtime.set_current_module_name(Some("m".to_string()));
    assert_eq!(runtime.current_module_name(), Some("m"));
}

#[test]
fn base_module_runs_nothing() {
    let mut module = WasmModuleBase::new(ModuleConfig::new("i", "n", "p", StrMap::new()), None);
    assert!(module.functions().is_empty());
    assert!(module.run_function("f", &[WasmValue::I64(1)]).is_none());
    assert!(module.run_data_function("f", "get_img_ptr", &[1, 2, 3], &[]).is_empty());
    assert_eq!(module.upload_data(&[1], "alloc"), (None, None));
    assert_eq!(module.upload_data_file("/x", Ok(vec![1, 2]), "alloc"), (None, None));
    assert_eq!(module.upload_data_file("/x", Err("missing".to_string()), "alloc"), (None, None));
    let model = MLModel::new("/m.pb");
    assert_eq!(module.upload_ml_model(&model, Ok(vec![])), (None, None));
    assert!(module.run_ml_inference(&model, &[0]).is_none());
    module.set_runtime(Box::new(WasmRuntimeBase::new()));
    assert!(module.runtime().is_some());
}

#[test]
fn error_messages() {
    assert_eq!(WasmRuntimeNotSetError.message(), "Wasm runtime has not been set properly.");
    assert_eq!(IncompatibleWasmModule.message(), "Attempted to mix incompatible Wasm modules.");
}
