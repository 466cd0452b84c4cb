//! Verified core of a WebAssembly IoT supervisor.
#![allow(non_snake_case)]

pub mod outside;
pub mod json;
pub mod strmap;
pub mod structs;
pub mod path;
pub mod text;
pub mod constants;
pub mod urlenc;
pub mod utils;
pub mod api;
pub mod configuration;
pub mod wasm;
pub mod wasm_api;
pub mod wasm_utils;
pub mod wasmtime;
pub mod interuption;
pub mod logging;
pub mod zeroconf;
pub mod import;
pub mod wasmtime_imports;
