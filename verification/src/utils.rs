//! Paths of deployed modules and their files, and result URLs.
use crate::constants::{
    deployments_folder, module_folder, params_folder, spec_deployments_folder,
    spec_module_folder, spec_params_folder,
};
use crate::path::{join_path, path_join};
use crate::structs::deployment_supervisor::{Schema, SchemaType};
use crate::urlenc::{url_encode, url_encoded};
use vstd::prelude::*;

verus! {

/// Whether a value described by `schema` can be returned as a primitive
/// WebAssembly value; only integers map directly onto `i32`/`i64`.
pub fn can_be_represented_as_wasm_primitive(schema: &Schema) -> (r: bool)
    ensures
        r == (schema.type_ == SchemaType::INTEGER),
{
    match schema.type_ {
        SchemaType::INTEGER => true,
        _ => false,
    }
}

/// `params/{deployment}/{module}`, or the file below it.
pub open spec fn spec_params_path(
    instance: Seq<char>,
    deployment_id: Seq<char>,
    module_name: Seq<char>,
    filename: Option<Seq<char>>,
) -> Seq<char> {
    let base = path_join(path_join(spec_params_folder(instance), deployment_id), module_name);
    match filename {
        Some(f) => path_join(base, f),
        None => base,
    }
}

/// Host path of the file that module `module_name` of deployment
/// `deployment_id` sees at mount path `filename`.
pub fn module_mount_path(instance: &str, deployment_id: &str, module_name: &str, filename: &str) -> (r:
    String)
    ensures
        r@ == path_join(
            path_join(path_join(spec_params_folder(instance@), deployment_id@), module_name@),
            filename@,
        ),
{
    let p = params_folder(instance);
    let p = join_path(&p, deployment_id);
    let p = join_path(&p, module_name);
    join_path(&p, filename)
}

/// The result URL of an output file:
/// `{scheme}://{host}:{port}/module_results/{deployment}/{module}/{file}` with
/// the last three percent-encoded.
pub open spec fn spec_output_url(
    scheme: Seq<char>,
    host: Seq<char>,
    port: Seq<char>,
    deployment_id: Seq<char>,
    module_name: Seq<char>,
    filename: Seq<char>,
) -> Seq<char> {
    scheme + "://"@ + host + ":"@ + port + "/module_results/"@ + url_encoded(deployment_id) + "/"@
        + url_encoded(module_name) + "/"@ + url_encoded(filename)
}

/// The configured value, or the default.
pub open spec fn or_default(configured: Option<&str>, default: Seq<char>) -> Seq<char> {
    match configured {
        Some(v) => v@,
        None => default,
    }
}

/// URL of an output file of a module.  Scheme, host and port default to
/// `http`, `localhost` and `8080` where they are not configured.
pub fn make_output_url(
    scheme: Option<&str>,
    host: Option<&str>,
    port: Option<&str>,
    deployment_id: &str,
    module_name: &str,
    filename: &str,
) -> (r: String)
    ensures
        r@ == spec_output_url(
            or_default(scheme, "http"@),
            or_default(host, "localhost"@),
            or_default(port, "8080"@),
            deployment_id@,
            module_name@,
            filename@,
        ),
{
    let scheme = match scheme {
        Some(s) => s,
        None => "http",
    };
    let host = match host {
        Some(h) => h,
        None => "localhost",
    };
    let port = match port {
        Some(p) => p,
        None => "8080",
    };
    let mut r = scheme.to_string();
    r.append("://");
    r.append(host);
    r.append(":");
    r.append(port);
    r.append("/module_results/");
    let d = url_encode(deployment_id);
    r.append(d.as_str());
    r.append("/");
    let m = url_encode(module_name);
    r.append(m.as_str());
    r.append("/");
    let f = url_encode(filename);
    r.append(f.as_str());
    r
}

/// `modules/{deployment}/{module}`: where a module's `.wasm` file is stored.
pub fn get_module_path(instance: &str, deployment_id: &str, module_name: &str) -> (r: String)
    ensures
        r@ == path_join(path_join(spec_module_folder(instance@), deployment_id@), module_name@),
{
    let p = module_folder(instance);
    let p = join_path(&p, deployment_id);
    join_path(&p, module_name)
}

/// `deployments/{deployment}.json`: where a deployment is saved.
pub fn get_deployment_path(instance: &str, deployment_id: &str) -> (r: String)
    ensures
        r@ == path_join(spec_deployments_folder(instance@), deployment_id@ + ".json"@),
{
    let p = deployments_folder(instance);
    let mut file = deployment_id.to_string();
    file.append(".json");
    join_path(&p, file.as_str())
}

/// `params/{deployment}/{module}`, or the file `filename` below it.
pub fn get_params_path(
    instance: &str,
    deployment_id: &str,
    module_name: &str,
    filename: Option<&str>,
) -> (r: String)
    ensures
        r@ == spec_params_path(
            instance@,
            deployment_id@,
            module_name@,
            match filename {
                Some(f) => Some(f@),
                None => None,
            },
        ),
{
    let p = params_folder(instance);
    let p = join_path(&p, deployment_id);
    let base = join_path(&p, module_name);
    match filename {
        Some(file) => join_path(&base, file),
        None => base,
    }
}

/// Law: the host path of a mounted file is the file of that name in the
/// module's parameter directory.
pub proof fn law_mount_path_is_params_file(
    instance: Seq<char>,
    deployment_id: Seq<char>,
    module_name: Seq<char>,
    filename: Seq<char>,
)
    ensures
        path_join(
            path_join(path_join(spec_params_folder(instance), deployment_id), module_name),
            filename,
        ) == spec_params_path(instance, deployment_id, module_name, Some(filename)),
        spec_params_path(instance, deployment_id, module_name, Some(filename)) == path_join(
            spec_params_path(instance, deployment_id, module_name, None),
            filename,
        ),
{
}

} // verus!
