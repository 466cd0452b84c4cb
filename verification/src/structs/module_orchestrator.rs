//! The module documents of the orchestrator.
use crate::strmap::StrMap;
use crate::structs::openapi::OpenApiDocument;
use vstd::prelude::*;

verus! {

/// A function that a module exports.
#[derive(Debug, Clone)]
pub struct WasmExport {
    pub name: String,
    pub parameter_count: usize,
    /// Parameter types, as strings.
    pub params: Vec<String>,
    /// Result types, as strings.
    pub results: Vec<String>,
}

/// An import that a module requires from its host.
#[derive(Debug, Clone)]
pub struct WasmRequirement {
    pub module: String,
    pub name: String,
    pub kind: String,
    /// Parameter types, as strings.
    pub params: Vec<String>,
    /// Result types, as strings.
    pub results: Vec<String>,
}

/// Where a module's binary is stored on the orchestrator.
#[derive(Debug, Clone)]
pub struct WasmBinaryInfo {
    pub original_filename: String,
    pub file_name: String,
    pub path: String,
}

/// Where a data file of a module is stored on the orchestrator.
#[derive(Debug, Clone)]
pub struct DataFileInfo {
    pub original_filename: String,
    pub file_name: String,
    pub path: String,
}

/// When a mounted file is available to a module: at deployment, at each
/// execution, or as output of an execution.
#[derive(Debug, Clone, Copy, PartialEq, Eq, Structural)]
pub enum MountStage {
    Deployment,
    Execution,
    Output,
}

/// A file mounted into a module.
#[derive(Debug, Clone)]
pub struct ModuleMount {
    pub media_type: String,
    pub stage: MountStage,
}

/// A module as the orchestrator stores it.
#[derive(Debug)]
pub struct ModuleDoc {
    pub id: Option<String>,
    pub name: String,
    pub exports: Vec<WasmExport>,
    pub requirements: Vec<WasmRequirement>,
    pub wasm: WasmBinaryInfo,
    pub data_files: Option<StrMap<DataFileInfo>>,
    pub description: Option<OpenApiDocument>,
    /// Function name to mount path to mount.
    pub mounts: Option<StrMap<StrMap<ModuleMount>>>,
    pub is_core_module: bool,
}

} // verus!
