use supervisor::wasm_api::WasmRuntimeBase;
use supervisor::wasm_utils::{
    IRemoteFunction, PrintFunction, RandomGet, RpcCall, TakeImageDynamicSize, TakeImageStaticSize,
    EINVAL,
};

#[test]
fn printing_reports_the_failed_read() {
    let print = PrintFunction::new(WasmRuntimeBase::new());
    assert_eq!(print.print_impl(0, 3), "not implemented");
    assert!(print.runtime().modules_map.len() == 0);
}

#[test]
fn random_bytes_that_cannot_be_written_give_einval() {
    let random = RandomGet::new(WasmRuntimeBase::new());
    assert_eq!(random.random_get_impl(8, 2, vec![1, 2, 3]), EINVAL);
    assert!(random.runtime().current_module.is_none());
}

#[test]
fn rpc_call_reports_the_failed_name_read() {
    let rpc = RpcCall::new(WasmRuntimeBase::new());
    assert_eq!(
        rpc.rpc_call_impl(0, 4, 16, 8),
        Err("Error reading function name: not implemented".to_string())
    );
    assert!(rpc.runtime().functions_cache.is_none());
}

#[test]
fn dynamic_image_needs_an_allocation() {
    let mut take = TakeImageDynamicSize::new(WasmRuntimeBase::new());
    assert_eq!(take.take_image_impl(0, 4), Err("Allocation failed".to_string()));
    assert!(take.runtime().modules_map.len() == 0);
}

#[test]
fn static_image_reports_the_failed_size_read() {
    let take = TakeImageStaticSize::new(WasmRuntimeBase::new());
    assert_eq!(take.take_image_impl(0, 4), Err("not implemented".to_string()));
    assert!(take.runtime().current_module.is_none());
}
