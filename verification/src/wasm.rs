//! The choice of WebAssembly runtime.
use vstd::prelude::*;

verus! {

/// The runtime to use: `wasm3` when it is configured, else `wasmtime`.
pub fn pick_runtime_type(setting: Option<&str>) -> (r: &'static str)
    ensures
        r@ == if setting matches Some(s) && s@ == "wasm3"@ {
            "wasm3"@
        } else {
            "wasmtime"@
        },
{
    match setting {
        Some(s) => if crate::text::str_eq(s, "wasm3") {
            "wasm3"
        } else {
            "wasmtime"
        },
        None => "wasmtime",
    }
}

} // verus!
