//! Running module functions: which requests are admitted, where their
//! results are announced, and how a chain of calls goes on.
use crate::api::deployment::Deployment;
use crate::json::{
    json_as_str,
    json_field,
    json_get,
    json_is_null,
    json_null_value,
    json_object_with,
    json_singleton,
    json_text,
};
use crate::strmap::StrMap;
use crate::structs::deployment_orchestrator::Endpoint;
use crate::text::{
    decimal,
    parse_unsigned,
    parse_usize,
    str_eq,
    trim_trailing_slashes,
    usize_to_string,
    lossy_text,
    utf8_lossy,
    without_trailing_slashes,
};
use crate::utils::{get_params_path, make_output_url, or_default, spec_output_url, spec_params_path};
use vstd::prelude::*;
use vstd::utf8::{decode_utf8, valid_utf8};

verus! {

/// The chain step that a request's `X-Chain-Step` header asks for: the
/// number it holds, or 0 when it is missing or not a number.
pub fn chain_step_from_header(header: Option<&str>) -> (r: usize)
    ensures
        r == match header {
            Some(h) => match parse_unsigned(h@, usize::MAX as nat) {
                Some(n) => n,
                None => 0,
            },
            None => 0,
        },
{
    match header {
        Some(h) => match parse_usize(h) {
            Some(n) => n,
            None => 0,
        },
        None => 0,
    }
}

/// The step that the next call of a chain runs: one more, without overflow.
pub fn next_chain_step(step_index: usize) -> (r: usize)
    ensures
        r == if step_index < usize::MAX {
            step_index + 1
        } else {
            step_index as int
        },
{
    step_index.saturating_add(1)
}

/// Why a request to run a function is refused.
#[derive(Debug, Clone, Copy, PartialEq, Eq, Structural)]
pub enum RunRefusal {
    /// The chain step is beyond the limit.
    StepLimitExceeded,
    /// No deployment has the id.
    DeploymentNotFound,
    /// The deployment has no module of that name.
    ModuleNotFound,
    /// Another function is running.
    Busy,
}

impl RunRefusal {
    /// The HTTP status of the refusal.
    pub fn status(&self) -> (r: u16)
        ensures
            r == match self {
                RunRefusal::StepLimitExceeded => 400u16,
                RunRefusal::DeploymentNotFound => 404u16,
                RunRefusal::ModuleNotFound => 404u16,
                RunRefusal::Busy => 409u16,
            },
    {
        match self {
            RunRefusal::StepLimitExceeded => 400,
            RunRefusal::DeploymentNotFound => 404,
            RunRefusal::ModuleNotFound => 404,
            RunRefusal::Busy => 409,
        }
    }

    /// The error text of the refusal; `max_steps` is the chain limit.
    pub fn message(&self, max_steps: usize) -> (r: String)
        ensures
            r@ == match self {
                RunRefusal::StepLimitExceeded => "X-Chain-Step exceeds "@ + decimal(max_steps as nat),
                RunRefusal::DeploymentNotFound => "Deployment not found"@,
                RunRefusal::ModuleNotFound => "Module not found in deployment"@,
                RunRefusal::Busy => "Machine is busy"@,
            },
    {
        match self {
            RunRefusal::StepLimitExceeded => {
                let mut m = "X-Chain-Step exceeds ".to_string();
                let n = usize_to_string(max_steps);
                m.append(n.as_str());
                m
            },
            RunRefusal::DeploymentNotFound => "Deployment not found".to_string(),
            RunRefusal::ModuleNotFound => "Module not found in deployment".to_string(),
            RunRefusal::Busy => "Machine is busy".to_string(),
        }
    }
}

/// What to do with a request to run a function, or to fetch one of its files.
#[derive(Debug, Clone)]
pub enum RunDecision {
    /// Refuse the request.
    Refuse(RunRefusal),
    /// Serve the file at this path.
    ServeFile(String),
    /// Start running the function.
    Start,
}

impl Deployment {
    /// Whether one of this device's steps uses a module named `module_name`.
    pub open spec fn spec_has_module(self, module_name: Seq<char>) -> bool {
        exists|j: int|
            0 <= j < self.my_steps@.len() && self.sequence@[#[trigger] self.my_steps@[j] as int].module.name@
                == module_name
    }

    /// Whether one of this device's steps uses a module named `module_name`.
    pub fn has_module(&self, module_name: &str) -> (r: bool)
        requires
            self.wf(),
        ensures
            r == self.spec_has_module(module_name@),
    {
        proof {
            crate::api::deployment::lemma_steps_on_device_bounded(
                self.sequence@,
                self.device_id@,
                self.sequence@.len(),
            );
        }
        let mut k: usize = 0;
        while k < self.my_steps.len()
            invariant
                k <= self.my_steps@.len(),
                forall|j: int| 0 <= j < self.my_steps@.len() ==> #[trigger] self.my_steps@[j] < self.sequence@.len(),
                forall|j: int|
                    0 <= j < k ==> self.sequence@[#[trigger] self.my_steps@[j] as int].module.name@
                        != module_name@,
            decreases self.my_steps@.len() - k,
        {
            if str_eq(self.sequence[self.my_steps[k]].module.name.as_str(), module_name) {
                return true;
            }
            k = k + 1;
        }
        false
    }
}

/// Whether every deployment held in memory is well formed.
pub open spec fn registry_wf(registry: Map<Seq<char>, Deployment>) -> bool {
    forall|k: Seq<char>| #[trigger] registry.contains_key(k) ==> registry[k].wf()
}

/// What a request to run `function` of `module_name` in `deployment_id` at
/// chain step `step_index` gets: refused beyond the chain limit; the file,
/// when one is named; else refused for an unknown deployment or module, or
/// while another function runs; else started.
pub open spec fn spec_decide_run(
    instance: Seq<char>,
    step_index: usize,
    max_steps: usize,
    deployment_id: Seq<char>,
    module_name: Seq<char>,
    filename: Option<Seq<char>>,
    registry: Map<Seq<char>, Deployment>,
    idle: bool,
    r: RunDecision,
) -> bool {
    if step_index > max_steps {
        r == RunDecision::Refuse(RunRefusal::StepLimitExceeded)
    } else if filename is Some {
        r matches RunDecision::ServeFile(p) && p@ == spec_params_path(
            instance,
            deployment_id,
            module_name,
            filename,
        )
    } else if !registry.contains_key(deployment_id) {
        r == RunDecision::Refuse(RunRefusal::DeploymentNotFound)
    } else if !registry[deployment_id].spec_has_module(module_name) {
        r == RunDecision::Refuse(RunRefusal::ModuleNotFound)
    } else if !idle {
        r == RunDecision::Refuse(RunRefusal::Busy)
    } else {
        r == RunDecision::Start
    }
}

/// Decides what a request to run a function, or to fetch a file it wrote,
/// gets.
pub fn decide_run(
    instance: &str,
    step_index: usize,
    max_steps: usize,
    deployment_id: &str,
    module_name: &str,
    filename: Option<&str>,
    registry: &StrMap<Deployment>,
    idle: bool,
) -> (r: RunDecision)
    requires
        registry_wf(registry@),
    ensures
        spec_decide_run(
            instance@,
            step_index,
            max_steps,
            deployment_id@,
            module_name@,
            match filename {
                Some(f) => Some(f@),
                None => None,
            },
            registry@,
            idle,
            r,
        ),
{
    if step_index > max_steps {
        return RunDecision::Refuse(RunRefusal::StepLimitExceeded);
    }
    match filename {
        Some(f) => {
            return RunDecision::ServeFile(get_params_path(instance, deployment_id, module_name, Some(f)));
        },
        None => {},
    }
    match registry.get(deployment_id) {
        None => RunDecision::Refuse(RunRefusal::DeploymentNotFound),
        Some(deployment) => {
            if !deployment.has_module(module_name) {
                RunDecision::Refuse(RunRefusal::ModuleNotFound)
            } else if !idle {
                RunDecision::Refuse(RunRefusal::Busy)
            } else {
                RunDecision::Start
            }
        },
    }
}

/// The URL under which a started request's result is found:
/// `{scheme}://{host}:{port}/request-history/{request id}`.
pub open spec fn spec_request_history_url(
    scheme: Seq<char>,
    host: Seq<char>,
    port: Seq<char>,
    request_id: Seq<char>,
) -> Seq<char> {
    scheme + "://"@ + host + ":"@ + port + "/request-history/"@ + request_id
}

/// The result URL of a request; scheme, host and port default to `http`,
/// `localhost` and `8080` where they are not configured.
pub fn request_history_url(
    scheme: Option<&str>,
    host: Option<&str>,
    port: Option<&str>,
    request_id: &str,
) -> (r: String)
    ensures
        r@ == spec_request_history_url(
            or_default(scheme, "http"@),
            or_default(host, "localhost"@),
            or_default(port, "8080"@),
            request_id@,
        ),
{
    let scheme = match scheme {
        Some(s) => s,
        None => "http",
    };
    let host = match host {
        Some(h) => h,
        None => "localhost",
    };
    let port = match port {
        Some(p) => p,
        None => "8080",
    };
    let mut r = scheme.to_string();
    r.append("://");
    r.append(host);
    r.append(":");
    r.append(port);
    r.append("/request-history/");
    r.append(request_id);
    r
}

/// The URLs of the output files `filenames` of a module.
pub fn output_urls(
    scheme: Option<&str>,
    host: Option<&str>,
    port: Option<&str>,
    deployment_id: &str,
    module_name: &str,
    filenames: &Vec<String>,
) -> (r: Vec<String>)
    ensures
        r@.len() == filenames@.len(),
        forall|j: int|
            0 <= j < r@.len() ==> (#[trigger] r@[j])@ == spec_output_url(
                or_default(scheme, "http"@),
                or_default(host, "localhost"@),
                or_default(port, "8080"@),
                deployment_id@,
                module_name@,
                filenames@[j]@,
            ),
{
    let mut r: Vec<String> = Vec::new();
    let mut j: usize = 0;
    while j < filenames.len()
        invariant
            j <= filenames@.len(),
            r@.len() == j,
            forall|t: int|
                0 <= t < j ==> (#[trigger] r@[t])@ == spec_output_url(
                    or_default(scheme, "http"@),
                    or_default(host, "localhost"@),
                    or_default(port, "8080"@),
                    deployment_id@,
                    module_name@,
                    filenames@[t]@,
                ),
        decreases filenames@.len() - j,
    {
        let url = make_output_url(
            scheme,
            host,
            port,
            deployment_id,
            module_name,
            filenames[j].as_str(),
        );
        r.push(url);
        j = j + 1;
    }
    r
}

/// What a module wrote to its standard output: nothing when it wrote no
/// bytes, else the text of the bytes, decoded lossily.
pub fn captured_output(bytes: &[u8]) -> (r: Option<String>)
    ensures
        bytes@.len() == 0 ==> r is None,
        bytes@.len() > 0 ==> (r matches Some(s) && s@ == lossy_text(bytes@)),
        bytes@.len() > 0 && valid_utf8(bytes@) ==> (r matches Some(s) && s@ == decode_utf8(bytes@)),
{
    if bytes.len() == 0 {
        None
    } else {
        Some(utf8_lossy(bytes))
    }
}

/// What the reply to a chained call says of the chain's result.
#[derive(Debug, Clone)]
pub enum ChainReply {
    /// The reply carries the final result.
    Final(serde_json::Value),
    /// The result is to be fetched from this URL.
    Fetch(String),
    /// The reply itself is the result.
    Whole(serde_json::Value),
}

/// Reads the reply to a chained call: its `result` member, unwrapped once
/// more where that is itself an object with a `result`; else the
/// `resultUrl` to fetch the result from; else the whole reply.
pub fn read_chained_reply(chained: serde_json::Value) -> (r: ChainReply)
    ensures
        match json_field(chained, "result"@) {
            Some(res) => r == ChainReply::Final(
                match json_field(res, "result"@) {
                    Some(inner) => inner,
                    None => res,
                },
            ),
            None => match json_field(chained, "resultUrl"@) {
                Some(u) => match json_text(u) {
                    Some(t) => r matches ChainReply::Fetch(url) && url@ == t,
                    None => r == ChainReply::Whole(chained),
                },
                None => r == ChainReply::Whole(chained),
            },
        },
{
    match json_get(&chained, "result") {
        Some(res) => match json_get(&res, "result") {
            Some(inner) => ChainReply::Final(inner),
            None => ChainReply::Final(res),
        },
        None => match json_get(&chained, "resultUrl") {
            Some(u) => match json_as_str(&u) {
                Some(url) => ChainReply::Fetch(url),
                None => ChainReply::Whole(chained),
            },
            None => ChainReply::Whole(chained),
        },
    }
}

/// The result in a document fetched from a result URL: its `result`
/// member, or the whole document.
pub fn fetched_result(fetched: serde_json::Value) -> (r: serde_json::Value)
    ensures
        r == match json_field(fetched, "result"@) {
            Some(v) => v,
            None => fetched,
        },
{
    match json_get(&fetched, "result") {
        Some(v) => v,
        None => fetched,
    }
}

/// The document returned for a call that ends the chain: an object whose
/// `result` member is the call's result, or `null` without one.
pub fn final_result_document(result: Option<serde_json::Value>) -> (r: serde_json::Value)
    ensures
        match result {
            Some(v) => r == json_singleton("result"@, v),
            None => exists|n: serde_json::Value| json_is_null(n) && r == json_singleton("result"@, n),
        },
{
    let key = "result".to_string();
    match result {
        Some(v) => json_object_with(key, v),
        None => {
            let n = json_null_value();
            json_object_with(key, n)
        },
    }
}

/// The first parameter name of an endpoint's request, or `result`.
pub open spec fn first_parameter_name(endpoint: Endpoint) -> Seq<char> {
    if endpoint.request.parameters@.len() > 0 {
        endpoint.request.parameters@[0].name@
    } else {
        "result"@
    }
}

/// The URL that a resumed execution calls next: the endpoint's URL without
/// trailing slashes, then its path, then, when the module wrote some
/// output, that output as the query parameter named by the endpoint's first
/// parameter (or `result`).
pub open spec fn spec_resume_url(endpoint: Endpoint, output: Option<Seq<char>>) -> Seq<char> {
    let base = trim_trailing_slashes(endpoint.url@) + endpoint.path@;
    match output {
        Some(s) => if s.len() > 0 {
            base + "?"@ + first_parameter_name(endpoint) + "="@ + s
        } else {
            base
        },
        None => base,
    }
}

/// Builds the URL that a resumed execution calls next.
pub fn resume_url(endpoint: &Endpoint, output: Option<&str>) -> (r: String)
    ensures
        r@ == spec_resume_url(
            *endpoint,
            match output {
                Some(s) => Some(s@),
                None => None,
            },
        ),
{
    let mut url = without_trailing_slashes(endpoint.url.as_str());
    url.append(endpoint.path.as_str());
    match output {
        Some(s) => {
            if !s.is_empty() {
                url.append("?");
                if endpoint.request.parameters.len() > 0 {
                    url.append(endpoint.request.parameters[0].name.as_str());
                } else {
                    url.append("result");
                }
                url.append("=");
                url.append(s);
            }
            url
        },
        None => url,
    }
}

/// A snapshot of an interrupted execution, to resume from.
#[derive(Debug, Clone)]
pub struct Resume {
    pub status: String,
    pub message: Vec<u8>,
}

/// A key pressed in the demonstration interface, for the running module.
#[derive(Debug, Clone)]
pub struct Input {
    pub key: String,
}

} // verus!
