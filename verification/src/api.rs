//! Paths used by the HTTP interface, where modules live directly below the
//! module and parameter folders.
use crate::constants::{module_folder, params_folder, spec_module_folder, spec_params_folder};
use crate::path::{join_path, path_join};
use vstd::prelude::*;

pub mod deployment;
pub mod device;
pub mod results;
pub mod run;

verus! {

/// `modules/{module}`: the module's `.wasm` file.
pub fn get_module_path(instance: &str, module_name: &str) -> (r: String)
    ensures
        r@ == path_join(spec_module_folder(instance@), module_name@),
{
    let folder = module_folder(instance);
    join_path(&folder, module_name)
}

/// `params/{module}`, or the file `filename` mounted for the module.
pub fn get_params_path(instance: &str, module_name: &str, filename: Option<&str>) -> (r: String)
    ensures
        r@ == match filename {
            Some(f) => path_join(path_join(spec_params_folder(instance@), module_name@), f@),
            None => path_join(spec_params_folder(instance@), module_name@),
        },
{
    let folder = params_folder(instance);
    let base = join_path(&folder, module_name);
    match filename {
        Some(file) => join_path(&base, file),
        None => base,
    }
}

} // verus!
