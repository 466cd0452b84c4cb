//! What the device tells about itself, and the decisions around its
//! orchestrator: whether a health check came from it, and whether a
//! registration names one.
use crate::constants::{spec_supervisor_interfaces, supervisor_interfaces};
use crate::json::{json_as_str, json_field, json_get, json_text};
use crate::strmap::StrMap;
use crate::structs::device::{
    CpuInfo,
    DeviceDescription,
    MemoryInfo,
    NetworkInterfaceIpInfo,
    OsInfo,
    PlatformInfo,
};
use crate::text::{str_eq, string_views};
use vstd::prelude::*;

verus! {

/// What the raw readings of the system give as a platform description: the
/// clock speed is converted from MHz to Hz.
pub fn platform_info(
    cpu_architecture: String,
    cpu_name: String,
    clock_speed_mhz: u64,
    core_count: usize,
    memory_bytes: u64,
    storage: StrMap<u64>,
    network: StrMap<NetworkInterfaceIpInfo>,
    system: OsInfo,
) -> (r: PlatformInfo)
    requires
        clock_speed_mhz * 1_000_000 <= u64::MAX,
    ensures
        r.cpu.architecture == cpu_architecture,
        r.cpu.human_readable_name == cpu_name,
        r.cpu.clock_speed_hz == clock_speed_mhz * 1_000_000,
        r.cpu.core_count == core_count as u32,
        r.memory.total_bytes == memory_bytes,
        r.storage == storage,
        r.network == network,
        r.system == system,
{
    #[verifier::truncate]
    let cores = core_count as u32;
    PlatformInfo {
        cpu: CpuInfo {
            architecture: cpu_architecture,
            clock_speed_hz: clock_speed_mhz * 1_000_000,
            core_count: cores,
            human_readable_name: cpu_name,
        },
        memory: MemoryInfo { total_bytes: memory_bytes },
        storage,
        network,
        system,
    }
}

/// The device description: the platform and the interfaces offered to
/// modules (the WASI ones where `wasi_enabled`).
pub fn get_device_description(platform: PlatformInfo, wasi_enabled: bool) -> (r: DeviceDescription)
    ensures
        r.platform == platform,
        string_views(r.supervisor_interfaces@) == spec_supervisor_interfaces(wasi_enabled),
{
    DeviceDescription { platform, supervisor_interfaces: supervisor_interfaces(wasi_enabled) }
}

/// What `Url::parse` makes of `s`: `None` when it is no URL, else the URL's
/// host as text, if it has one.
pub uninterp spec fn parsed_url_host(s: Seq<char>) -> Option<Option<Seq<char>>>;

/// Parses `s` with `reqwest::Url::parse` and reads the host of the URL.
#[verifier::external_body]
fn parse_url_host(s: &str) -> (r: Option<Option<String>>)
    ensures
        match r {
            None => parsed_url_host(s@) is None,
            Some(None) => parsed_url_host(s@) == Some(None::<Seq<char>>),
            Some(Some(h)) => parsed_url_host(s@) == Some(Some(h@)),
        },
{
    match reqwest::Url::parse(s) {
        Ok(url) => Some(url.host().map(|h| h.to_string())),
        Err(_) => None,
    }
}

/// The host of the orchestrator URL, or the empty text when the URL does
/// not parse or has no host.
pub open spec fn orchestrator_host(url: Seq<char>) -> Seq<char> {
    match parsed_url_host(url) {
        Some(Some(h)) => h,
        _ => Seq::empty(),
    }
}

/// Who sent a request: the `X-Forwarded-For` header, else the peer address,
/// else nobody known.
pub open spec fn requester(forwarded_for: Option<Seq<char>>, peer_ip: Option<Seq<char>>) -> Seq<char> {
    match forwarded_for {
        Some(f) => f,
        None => match peer_ip {
            Some(p) => p,
            None => Seq::empty(),
        },
    }
}

/// Whether a health check counts as done by the orchestrator: an
/// orchestrator URL is configured and the request came from its host.
pub fn health_check_by_orchestrator(
    orchestrator_url: Option<&str>,
    forwarded_for: Option<&str>,
    peer_ip: Option<&str>,
) -> (r: bool)
    ensures
        r == match orchestrator_url {
            Some(u) => u@.len() > 0 && requester(
                match forwarded_for {
                    Some(f) => Some(f@),
                    None => None,
                },
                match peer_ip {
                    Some(p) => Some(p@),
                    None => None,
                },
            ) == orchestrator_host(u@),
            None => false,
        },
{
    let url = match orchestrator_url {
        Some(u) => u,
        None => {
            return false;
        },
    };
    if url.is_empty() {
        return false;
    }
    let host = match parse_url_host(url) {
        Some(Some(h)) => h,
        _ => String::new(),
    };
    let from = match forwarded_for {
        Some(f) => f.to_string(),
        None => match peer_ip {
            Some(p) => p.to_string(),
            None => String::new(),
        },
    };
    str_eq(from.as_str(), host.as_str())
}

/// Why a registration of an orchestrator is refused.
#[derive(Debug, Clone, Copy, PartialEq, Eq, Structural)]
pub enum RegisterError {
    /// The request names no URL.
    NoUrl,
    /// The URL does not parse.
    InvalidUrl,
}

impl RegisterError {
    /// The text of the error.
    pub fn message(&self) -> (r: String)
        ensures
            r@ == match self {
                RegisterError::NoUrl => "No url found"@,
                RegisterError::InvalidUrl => "Invalid url"@,
            },
    {
        match self {
            RegisterError::NoUrl => "No url found".to_string(),
            RegisterError::InvalidUrl => "Invalid url".to_string(),
        }
    }
}

/// An accepted orchestrator: its URL and the endpoint where logs go.
#[derive(Debug, Clone)]
pub struct OrchestratorRegistration {
    pub orchestrator_url: String,
    pub logging_endpoint: String,
}

/// The URL a registration names: the text of its `url` member, or the empty
/// text when that is not a string.
pub open spec fn registration_url(field: serde_json::Value) -> Seq<char> {
    match json_text(field) {
        Some(t) => t,
        None => Seq::empty(),
    }
}

/// Reads a registration of the orchestrator: the request must be an object
/// with a `url` member that parses as a URL; logs then go to
/// `{url}/device/logs`.
pub fn register_orchestrator(data: &serde_json::Value) -> (r: Result<OrchestratorRegistration, RegisterError>)
    ensures
        match json_field(*data, "url"@) {
            None => r == Err::<OrchestratorRegistration, RegisterError>(RegisterError::NoUrl),
            Some(field) => if parsed_url_host(registration_url(field)) is None {
                r == Err::<OrchestratorRegistration, RegisterError>(RegisterError::InvalidUrl)
            } else {
                r matches Ok(reg) && reg.orchestrator_url@ == registration_url(field)
                    && reg.logging_endpoint@ == registration_url(field) + "/device/logs"@
            },
        },
{
    let field = match json_get(data, "url") {
        Some(f) => f,
        None => {
            return Err(RegisterError::NoUrl);
        },
    };
    let url = match json_as_str(&field) {
        Some(s) => s,
        None => String::new(),
    };
    match parse_url_host(url.as_str()) {
        None => Err(RegisterError::InvalidUrl),
        Some(_) => {
            let mut logging_endpoint = url.clone();
            logging_endpoint.append("/device/logs");
            Ok(OrchestratorRegistration { orchestrator_url: url, logging_endpoint })
        },
    }
}

} // verus!
