use supervisor::api::deployment::{deployment_register, plan_deployment};
use supervisor::api::run::{
    captured_output, chain_step_from_header, decide_run, fetched_result, final_result_document,
    next_chain_step, output_urls, read_chained_reply, request_history_url, resume_url, ChainReply,
    RunDecision, RunRefusal,
};
use supervisor::strmap::StrMap;
use supervisor::structs::deployment_orchestrator::{
    DeploymentDoc, DeviceModule, DeviceModuleUrls, Endpoint, FullManifest, Instructions,
    OperationRequest, OperationResponse, StageMounts, Step,
};
use supervisor::structs::openapi::{OpenApiParameterIn, OpenApiParameterObject};

fn endpoint(url: &str, path: &str, params: Vec<&str>) -> Endpoint {
    Endpoint {
        url: url.to_string(),
        path: path.to_string(),
        method: "POST".to_string(),
        request: OperationRequest {
            parameters: params
                .into_iter()
                .map(|n| OpenApiParameterObject {
                    name: n.to_string(),
                    in_: OpenApiParameterIn::Query,
                    description: None,
                    required: false,
                    deprecated: None,
                    allow_empty_value: None,
                    style: None,
                    explode: None,
                    allow_reserved: None,
                    schema: None,
                    content: None,
                })
                .collect(),
            request_body: None,
        },
        response: OperationResponse { media_type: "application/json".to_string(), schema: None },
    }
}

fn registry() -> StrMap<supervisor::api::deployment::Deployment> {
    let step = Step {
        device_id: "me".to_string(),
        deployment_id: "123".to_string(),
        module: DeviceModule {
            id: "id1".to_string(),
            name: "mod1".to_string(),
            urls: DeviceModuleUrls {
                binary: "http://o/b".to_string(),
                description: "http://o/d".to_string(),
                other: StrMap::new(),
            },
        },
        function_name: "func1".to_string(),
        endpoint: endpoint("http://me", "/123/modules/mod1/func1", vec![]),
        instructions: Instructions { from: endpoint("http://a", "/x", vec![]), to: None },
        mounts: StageMounts { execution: vec![], deployment: vec![], output: vec![] },
    };
    let doc = DeploymentDoc {
        id: None,
        my_id: "me".to_string(),
        name: "n".to_string(),
        validation_error: None,
        full_manifest: FullManifest { sequence: vec![step] },
        active: None,
    };
    let mut r = StrMap::new();
    deployment_register(&mut r, plan_deployment(doc).unwrap());
    r
}

#[test]
fn chain_step_header_defaults_to_zero() {
    assert_eq!(chain_step_from_header(None), 0);
    assert_eq!(chain_step_from_header(Some("3")), 3);
    assert_eq!(chain_step_from_header(Some("+7")), 7);
    assert_eq!(chain_step_from_header(Some("x")), 0);
    assert_eq!(chain_step_from_header(Some("-1")), 0);
    assert_eq!(chain_step_from_header(Some("")), 0);
}

#[test]
fn next_chain_step_saturates() {
    assert_eq!(next_chain_step(0), 1);
    assert_eq!(next_chain_step(usize::MAX), usize::MAX);
}

#[test]
fn refusals_have_statuses_and_messages() {
    assert_eq!(RunRefusal::StepLimitExceeded.status(), 400);
    assert_eq!(RunRefusal::StepLimitExceeded.message(10), "X-Chain-Step exceeds 10");
    assert_eq!(RunRefusal::DeploymentNotFound.status(), 404);
    assert_eq!(RunRefusal::DeploymentNotFound.message(10), "Deployment not found");
    assert_eq!(RunRefusal::ModuleNotFound.status(), 404);
    assert_eq!(RunRefusal::ModuleNotFound.message(10), "Module not found in deployment");
    assert_eq!(RunRefusal::Busy.status(), 409);
    assert_eq!(RunRefusal::Busy.message(10), "Machine is busy");
}

#[test]
fn run_decisions() {
    let reg = registry();
    let refuse = |d: RunDecision| match d {
        RunDecision::Refuse(r) => Some(r),
        _ => None,
    };
    assert_eq!(refuse(decide_run("./i", 11, 10, "123", "mod1", None, &reg, true)), Some(RunRefusal::StepLimitExceeded));
    match decide_run("./i", 0, 10, "123", "mod1", Some("file.txt"), &reg, false) {
        RunDecision::ServeFile(p) => assert_eq!(p, "./i/wasm-params/123/mod1/file.txt"),
        _ => panic!("expected a file"),
    }
    assert_eq!(refuse(decide_run("./i", 0, 10, "456", "mod1", None, &reg, true)), Some(RunRefusal::DeploymentNotFound));
    assert_eq!(refuse(decide_run("./i", 0, 10, "123", "other", None, &reg, true)), Some(RunRefusal::ModuleNotFound));
    assert_eq!(refuse(decide_run("./i", 0, 10, "123", "mod1", None, &reg, false)), Some(RunRefusal::Busy));
    assert!(matches!(decide_run("./i", 10, 10, "123", "mod1", None, &reg, true), RunDecision::Start));
}

#[test]
fn result_urls() {
    assert_eq!(request_history_url(None, None, None, "abc"), "http://localhost:8080/request-history/abc");
    assert_eq!(
        request_history_url(Some("https"), Some("10.0.0.2"), Some("5000"), "abc"),
        "https://10.0.0.2:5000/request-history/abc"
    );
    let urls = output_urls(None, Some("h"), None, "dep 1", "m", &vec!["a b.png".to_string(), "x".to_string()]);
    assert_eq!(urls, vec![
        "http://h:8080/module_results/dep%201/m/a%20b.png".to_string(),
        "http://h:8080/module_results/dep%201/m/x".to_string(),
    ]);
}

#[test]
fn captured_output_is_none_when_nothing_was_written() {
    assert_eq!(captured_output(&[]), None);
    assert_eq!(captured_output(b"42\n"), Some("42\n".to_string()));
}

#[test]
fn chained_reply_with_result() {
    let v: serde_json::Value = serde_json::from_str(r#"{"result": 7}"#).unwrap();
    match read_chained_reply(v) {
        ChainReply::Final(x) => assert_eq!(x, serde_json::Value::from(7)),
        other => panic!("unexpected {:?}", other),
    }
    let v: serde_json::Value = serde_json::from_str(r#"{"result": {"result": "inner", "x": 1}}"#).unwrap();
    match read_chained_reply(v) {
        ChainReply::Final(x) => assert_eq!(x, serde_json::Value::from("inner")),
        other => panic!("unexpected {:?}", other),
    }
}

#[test]
fn chained_reply_with_result_url_or_neither() {
    let v: serde_json::Value = serde_json::from_str(r#"{"status": "started", "resultUrl": "http://x/request-history/1"}"#).unwrap();
    match read_chained_reply(v) {
        ChainReply::Fetch(u) => assert_eq!(u, "http://x/request-history/1"),
        other => panic!("unexpected {:?}", other),
    }
    let v: serde_json::Value = serde_json::from_str(r#"{"resultUrl": 5}"#).unwrap();
    match read_chained_reply(v.clone()) {
        ChainReply::Whole(x) => assert_eq!(x, v),
        other => panic!("unexpected {:?}", other),
    }
}

#[test]
fn fetched_and_final_documents() {
    let v: serde_json::Value = serde_json::from_str(r#"{"result": [1, 2]}"#).unwrap();
    assert_eq!(fetched_result(v), serde_json::from_str::<serde_json::Value>("[1, 2]").unwrap());
    let w: serde_json::Value = serde_json::from_str(r#"{"other": 1}"#).unwrap();
    assert_eq!(fetched_result(w.clone()), w);
    assert_eq!(
        final_result_document(None),
        serde_json::from_str::<serde_json::Value>(r#"{"result": null}"#).unwrap()
    );
    assert_eq!(
        final_result_document(Some(serde_json::Value::from("ok"))),
        serde_json::from_str::<serde_json::Value>(r#"{"result": "ok"}"#).unwrap()
    );
}

#[test]
fn resume_urls() {
    let e = endpoint("http://next:8080//", "/dep/modules/m/f", vec!["value"]);
    assert_eq!(resume_url(&e, None), "http://next:8080/dep/modules/m/f");
    assert_eq!(resume_url(&e, Some("")), "http://next:8080/dep/modules/m/f");
    assert_eq!(resume_url(&e, Some("12")), "http://next:8080/dep/modules/m/f?value=12");
    let plain = endpoint("http://next", "/p", vec![]);
    assert_eq!(resume_url(&plain, Some("5")), "http://next/p?result=5");
}

#[test]
fn captured_output_replaces_invalid_utf8() {
    assert_eq!(captured_output(&[0x6f, 0x6b, 0xff]), Some("ok\u{FFFD}".to_string()));
}

#[test]
fn chain_step_header_limits() {
    assert_eq!(chain_step_from_header(Some("+")), 0);
    assert_eq!(chain_step_from_header(Some("0042")), 42);
    assert_eq!(chain_step_from_header(Some("1 ")), 0);
    assert_eq!(chain_step_from_header(Some(&usize::MAX.to_string())), usize::MAX);
    assert_eq!(chain_step_from_header(Some("99999999999999999999999")), 0);
}
