//! Types of outside crates that the supervisor's data carries through.
//!
//! Each declaration only makes the type known; nothing inside a value of one
//! of these types is visible to proofs.
use vstd::prelude::*;

verus! {

/// A JSON document (`serde_json::Value`).
#[verifier::external_type_specification]
#[verifier::external_body]
pub struct ExJsonValue(serde_json::Value);

/// `Clone` of `serde_json::Value` is derived, so the copy equals the value copied.
pub assume_specification[ <serde_json::Value as Clone>::clone ](v: &serde_json::Value) -> (r:
    serde_json::Value)
    ensures
        r == *v,
;

/// A compiled WebAssembly module (`wasmtime::Module`).
#[verifier::external_type_specification]
#[verifier::external_body]
pub struct ExWasmModule(::wasmtime::Module);

/// An instantiated WebAssembly module (`wasmtime::Instance`).
#[verifier::external_type_specification]
#[verifier::external_body]
pub struct ExWasmInstance(::wasmtime::Instance);

/// A WebAssembly value (`wasmtime::Val`).
#[verifier::external_type_specification]
#[verifier::external_body]
pub struct ExWasmVal(::wasmtime::Val);

/// A mutual-exclusion lock of std (`std::sync::Mutex`).
#[verifier::external_type_specification]
#[verifier::external_body]
#[verifier::reject_recursive_types(T)]
pub struct ExMutex<T: ?Sized>(std::sync::Mutex<T>);

} // verus!
