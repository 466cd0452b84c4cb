use supervisor::api::deployment::{
    deleted_message, deletion_targets, deployment_delete, deployment_register, module_config,
    plan_deployment, Deployment, DeploymentError,
};
use supervisor::strmap::StrMap;
use supervisor::structs::deployment_orchestrator::{
    DeploymentDoc, DeviceModule, DeviceModuleUrls, Endpoint, FullManifest, Instructions,
    MountPathFile, OperationRequest, OperationResponse, StageMounts, Step,
};
use supervisor::structs::module_orchestrator::MountStage;

fn endpoint(url: &str, path: &str) -> Endpoint {
    Endpoint {
        url: url.to_string(),
        path: path.to_string(),
        method: "POST".to_string(),
        request: OperationRequest { parameters: vec![], request_body: None },
        response: OperationResponse { media_type: "application/json".to_string(), schema: None },
    }
}

fn mount(path: &str, media_type: &str) -> MountPathFile {
    MountPathFile { path: path.to_string(), media_type: media_type.to_string(), stage: None }
}

fn module(id: &str, name: &str) -> DeviceModule {
    let mut other = StrMap::new();
    other.insert("model.pb".to_string(), format!("http://orch/files/{}/model.pb", id));
    DeviceModule {
        id: id.to_string(),
        name: name.to_string(),
        urls: DeviceModuleUrls {
            binary: format!("http://orch/files/{}.wasm", id),
            description: format!("http://orch/files/{}.json", id),
            other,
        },
    }
}

fn step(device: &str, module_id: &str, module_name: &str, function: &str, next: Option<&str>) -> Step {
    Step {
        device_id: device.to_string(),
        deployment_id: "dep1".to_string(),
        module: module(module_id, module_name),
        function_name: function.to_string(),
        endpoint: endpoint("http://me:8080/", &format!("/dep1/modules/{}/{}", module_name, function)),
        instructions: Instructions {
            from: endpoint("http://prev:8080", "/from"),
            to: next.map(|n| endpoint(n, "/next")),
        },
        mounts: StageMounts {
            execution: vec![mount(&format!("{}_in.png", function), "image/png")],
            deployment: vec![mount("model.pb", "application/octet-stream")],
            output: vec![],
        },
    }
}

fn doc(my_id: &str, steps: Vec<Step>) -> DeploymentDoc {
    DeploymentDoc {
        id: None,
        my_id: my_id.to_string(),
        name: "test deployment".to_string(),
        validation_error: None,
        full_manifest: FullManifest { sequence: steps },
        active: Some(true),
    }
}

fn sample() -> Deployment {
    let steps = vec![
        step("devA", "m1", "camera", "take", Some("http://devB:8080")),
        step("devB", "m2", "infer", "run", None),
        step("devA", "m1", "camera", "take", None),
        step("devA", "m3", "filter", "blur", None),
    ];
    plan_deployment(doc("devA", steps)).unwrap()
}

#[test]
fn missing_my_id_is_refused() {
    let r = plan_deployment(doc("", vec![step("devA", "m1", "camera", "take", None)]));
    assert_eq!(r.as_ref().err(), Some(&DeploymentError::MissingMyId));
    assert_eq!(DeploymentError::MissingMyId.message(), "Missing myId in deployment");
}

#[test]
fn deployment_without_steps_for_the_device_is_refused() {
    let r = plan_deployment(doc("devC", vec![step("devA", "m1", "camera", "take", None)]));
    assert_eq!(r.as_ref().err(), Some(&DeploymentError::NoStepsForDevice));
    assert_eq!(
        DeploymentError::NoStepsForDevice.message(),
        "No steps in fullManifest.sequence for this device"
    );
}

#[test]
fn plan_keeps_the_devices_steps_and_first_module_uses() {
    let d = sample();
    assert_eq!(d.id, "dep1");
    assert_eq!(d.device_id, "devA");
    assert_eq!(d.sequence.len(), 4);
    assert_eq!(d.my_steps, vec![0, 2, 3]);
    assert_eq!(d.modules.len(), 2);
    assert_eq!(d.modules.get("m1"), Some(&0));
    assert_eq!(d.modules.get("m3"), Some(&3));
    assert_eq!(d.modules.get("m2"), None);
}

#[test]
fn function_lookups_use_the_devices_steps_in_order() {
    let d = sample();
    assert_eq!(d.function_steps("camera", "take"), vec![0, 2]);
    assert_eq!(d.function_steps("infer", "run"), Vec::<usize>::new());
    let ep = d.endpoint("camera", "take").unwrap();
    assert_eq!(ep.path, "/dep1/modules/camera/take");
    assert!(d.endpoint("infer", "run").is_none());
    let links = d.instructions("camera", "take");
    assert_eq!(links.len(), 2);
    assert_eq!(links[0].to.as_ref().map(|e| e.url.as_str()), Some("http://devB:8080"));
    assert!(links[1].to.is_none());
    assert!(d.has_module("filter"));
    assert!(!d.has_module("infer"));
}

#[test]
fn mounts_are_collected_per_stage_and_tagged() {
    let d = sample();
    let exec = d.mounts("camera", "take", MountStage::Execution);
    assert_eq!(exec.len(), 2);
    assert_eq!(exec[0].path, "take_in.png");
    assert_eq!(exec[0].media_type, "image/png");
    assert_eq!(exec[0].stage, Some(MountStage::Execution));
    let dep = d.mounts("filter", "blur", MountStage::Deployment);
    assert_eq!(dep.len(), 1);
    assert_eq!(dep[0].stage, Some(MountStage::Deployment));
    assert!(d.mounts("camera", "take", MountStage::Output).is_empty());
}

#[test]
fn chain_links_follow_the_whole_sequence() {
    let d = sample();
    assert_eq!(d.next_target_with_index(0).map(|e| e.url.as_str()), Some("http://devB:8080"));
    assert!(d.next_target_with_index(1).is_none());
    assert!(d.next_target_with_index(9).is_none());
    assert!(d.step_link(3).is_some());
    assert!(d.step_link(4).is_none());
}

#[test]
fn downloads_are_laid_out_below_the_instance() {
    let d = sample();
    let downloads = d.module_downloads("./instance");
    assert_eq!(downloads.len(), 2);
    let first = &downloads[0];
    assert_eq!(first.module_id, "m1");
    assert_eq!(first.module_name, "camera");
    assert_eq!(first.binary_url, "http://orch/files/m1.wasm");
    assert_eq!(first.binary_path, "./instance/wasm-modules/dep1/m1");
    assert_eq!(first.params_dir, "./instance/wasm-params/dep1/m1");
    assert_eq!(first.files.len(), 1);
    assert_eq!(first.files[0].file_name, "model.pb");
    assert_eq!(first.files[0].url, "http://orch/files/m1/model.pb");
    assert_eq!(first.files[0].path, "./instance/wasm-params/dep1/m1/model.pb");
    assert_eq!(downloads[1].module_id, "m3");
}

#[test]
fn module_config_uses_the_download_and_default_model() {
    let d = sample();
    let downloads = d.module_downloads("/srv");
    let mut saved = StrMap::new();
    saved.insert("model.pb".to_string(), downloads[0].files[0].path.clone());
    let config = module_config(&downloads[0], saved);
    assert_eq!(config.id, "m1");
    assert_eq!(config.name, "camera");
    assert_eq!(config.path, "/srv/wasm-modules/dep1/m1");
    assert_eq!(config.data_ptr_function_name, "get_image_ptr");
    let model = config.ml_model.unwrap();
    assert_eq!(model.path, "model.pb");
    assert_eq!(model.alloc_function_name, "alloc");
    assert_eq!(model.infer_function_name, "infer_from_ptrs");
}

#[test]
fn deletion_targets_and_message() {
    let t = deletion_targets("./instance", "456");
    assert_eq!(t.json_path, "./instance/deployments/456.json");
    assert_eq!(t.module_dir, "./instance/wasm-modules/456");
    assert_eq!(t.params_dir, "./instance/wasm-params/456");
    assert_eq!(deleted_message("456"), "Deployment '456' and all associated files deleted");
}

#[test]
fn deleting_a_registered_deployment_removes_it_once() {
    let mut registry = StrMap::new();
    deployment_register(&mut registry, sample());
    assert!(registry.contains_key("dep1"));
    assert!(deployment_delete(&mut registry, "dep1"));
    assert!(!registry.contains_key("dep1"));
    assert!(!deployment_delete(&mut registry, "dep1"));
}
