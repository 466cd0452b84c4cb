//! Fixed names, defaults and the directory layout below the instance path.
use crate::path::{join_path, path_join};
use crate::text::string_views;
use vstd::prelude::*;

verus! {

/// Default port used when running the service.
pub const DEFAULT_PORT: u16 = 8080;

/// Default URL scheme used in requests.
pub const DEFAULT_URL_SCHEME: &'static str = "http";

/// Base path of the orchestrator's device discovery service.
pub const URL_BASE_PATH: &'static str = "/file/device/discovery/register";

/// Name of the supervisor given to the orchestrator when none is configured.
pub const SUPERVISOR_DEFAULT_NAME: &'static str = "supervisor";

/// Instance directory used when none is configured.
pub const DEFAULT_INSTANCE_PATH: &'static str = "./instance";

/// Folder below the instance path where deployed Wasm modules are stored.
pub const MODULE_FOLDER_NAME: &'static str = "wasm-modules";

/// Folder below the instance path where mounted files are stored.
pub const PARAMS_FOLDER_NAME: &'static str = "wasm-params";

/// Folder below the instance path where deployments are saved as JSON.
pub const DEPLOYMENTS_FOLDER_NAME: &'static str = "deployments";

/// Postfix that marks serialized modules.
pub const SERIALIZED_MODULE_POSTFIX: &'static str = "SERIALIZED.wasm";

/// Postfix that marks modules serialized for pulley.
pub const PULLEY_MODULE_POSTFIX: &'static str = "PULLEY.wasm";

/// Name of the linear memory that each module exports.
pub const MEMORY_NAME: &'static str = "memory";

/// The instance directory: the configured one, else [`DEFAULT_INSTANCE_PATH`].
pub fn instance_path(configured: Option<String>) -> (r: String)
    ensures
        r@ == match configured {
            Some(p) => p@,
            None => DEFAULT_INSTANCE_PATH@,
        },
{
    match configured {
        Some(p) => p,
        None => DEFAULT_INSTANCE_PATH.to_string(),
    }
}

/// The directory holding deployed modules.
pub open spec fn spec_module_folder(instance: Seq<char>) -> Seq<char> {
    path_join(instance, MODULE_FOLDER_NAME@)
}

/// The directory holding mounted files.
pub open spec fn spec_params_folder(instance: Seq<char>) -> Seq<char> {
    path_join(instance, PARAMS_FOLDER_NAME@)
}

/// The directory holding saved deployments.
pub open spec fn spec_deployments_folder(instance: Seq<char>) -> Seq<char> {
    path_join(instance, DEPLOYMENTS_FOLDER_NAME@)
}

/// Full path of the directory containing Wasm modules.
pub fn module_folder(instance: &str) -> (r: String)
    ensures
        r@ == spec_module_folder(instance@),
{
    join_path(instance, MODULE_FOLDER_NAME)
}

/// Full path of the directory used for mounted files.
pub fn params_folder(instance: &str) -> (r: String)
    ensures
        r@ == spec_params_folder(instance@),
{
    join_path(instance, PARAMS_FOLDER_NAME)
}

/// Full path of the directory where deployments are saved.
pub fn deployments_folder(instance: &str) -> (r: String)
    ensures
        r@ == spec_deployments_folder(instance@),
{
    join_path(instance, DEPLOYMENTS_FOLDER_NAME)
}

/// Functions provided for the camera module.
pub open spec fn spec_camera_functions() -> Seq<Seq<char>> {
    seq![
        "takeImageDynamicSize"@,
        "takeImageStaticSize"@,
        "takeImage"@
    ]
}

/// Functions of wasip1 provided to modules compiled for the wasm32-wasip1 target.
pub open spec fn spec_wasi_functions() -> Seq<Seq<char>> {
    seq![
        "args_get"@,
        "args_sizes_get"@,
        "environ_get"@,
        "environ_sizes_get"@,
        "clock_res_get"@,
        "clock_time_get"@,
        "fd_advise"@,
        "fd_allocate"@,
        "fd_close"@,
        "fd_datasync"@,
        "fd_fdstat_get"@,
        "fd_fdstat_set_flags"@,
        "fd_fdstat_set_rights"@,
        "fd_filestat_get"@,
        "fd_filestat_set_size"@,
        "fd_filestat_set_times"@,
        "fd_pread"@,
        "fd_prestat_get"@,
        "fd_prestat_dir_name"@,
        "fd_pwrite"@,
        "fd_read"@,
        "fd_readdir"@,
        "fd_renumber"@,
        "fd_seek"@,
        "fd_sync"@,
        "fd_tell"@,
        "fd_write"@,
        "path_create_directory"@,
        "path_filestat_get"@,
        "path_filestat_set_times"@,
        "path_link"@,
        "path_open"@,
        "path_readlink"@,
        "path_remove_directory"@,
        "path_rename"@,
        "path_symlink"@,
        "path_unlink_file"@,
        "poll_oneoff"@,
        "proc_exit"@,
        "proc_raise"@,
        "sched_yield"@,
        "random_get"@,
        "sock_accept"@,
        "sock_recv"@,
        "sock_send"@,
        "sock_shutdown"@
    ]
}

/// The interfaces that modules can import: the camera functions, followed by
/// the WASI functions where WASI is available.
pub open spec fn spec_supervisor_interfaces(wasi_enabled: bool) -> Seq<Seq<char>> {
    if wasi_enabled {
        spec_camera_functions() + spec_wasi_functions()
    } else {
        spec_camera_functions()
    }
}

/// The interfaces imported into Wasm modules; WASI functions are only
/// available where `wasi_enabled`.
pub fn supervisor_interfaces(wasi_enabled: bool) -> (r: Vec<String>)
    ensures
        string_views(r@) == spec_supervisor_interfaces(wasi_enabled),
{
    let mut v: Vec<String> = Vec::new();
    v.push("takeImageDynamicSize".to_string());
    v.push("takeImageStaticSize".to_string());
    v.push("takeImage".to_string());
    assert(string_views(v@) =~= spec_camera_functions());
    if wasi_enabled {
        let ghost before = v@;
        v.push("args_get".to_string());
        v.push("args_sizes_get".to_string());
        v.push("environ_get".to_string());
        v.push("environ_sizes_get".to_string());
        v.push("clock_res_get".to_string());
        v.push("clock_time_get".to_string());
        v.push("fd_advise".to_string());
        v.push("fd_allocate".to_string());
        v.push("fd_close".to_string());
        v.push("fd_datasync".to_string());
        v.push("fd_fdstat_get".to_string());
        v.push("fd_fdstat_set_flags".to_string());
        v.push("fd_fdstat_set_rights".to_string());
        v.push("fd_filestat_get".to_string());
        v.push("fd_filestat_set_size".to_string());
        v.push("fd_filestat_set_times".to_string());
        v.push("fd_pread".to_string());
        v.push("fd_prestat_get".to_string());
        v.push("fd_prestat_dir_name".to_string());
        v.push("fd_pwrite".to_string());
        v.push("fd_read".to_string());
        v.push("fd_readdir".to_string());
        v.push("fd_renumber".to_string());
        v.push("fd_seek".to_string());
        v.push("fd_sync".to_string());
        v.push("fd_tell".to_string());
        v.push("fd_write".to_string());
        v.push("path_create_directory".to_string());
        v.push("path_filestat_get".to_string());
        v.push("path_filestat_set_times".to_string());
        v.push("path_link".to_string());
        v.push("path_open".to_string());
        v.push("path_readlink".to_string());
        v.push("path_remove_directory".to_string());
        v.push("path_rename".to_string());
        v.push("path_symlink".to_string());
        v.push("path_unlink_file".to_string());
        v.push("poll_oneoff".to_string());
        v.push("proc_exit".to_string());
        v.push("proc_raise".to_string());
        v.push("sched_yield".to_string());
        v.push("random_get".to_string());
        v.push("sock_accept".to_string());
        v.push("sock_recv".to_string());
        v.push("sock_send".to_string());
        v.push("sock_shutdown".to_string());
        assert(string_views(v@) =~= spec_camera_functions() + spec_wasi_functions()) by {
            assert(v@.subrange(0, 3) =~= before);
        }
    }
    v
}

} // verus!
