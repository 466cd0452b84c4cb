//! The identity under which the supervisor advertises itself on the
//! network and registers with its orchestrator.
use crate::constants::{DEFAULT_PORT, DEFAULT_URL_SCHEME, SUPERVISOR_DEFAULT_NAME, URL_BASE_PATH};
use crate::text::{
    decimal,
    parse_i64,
    parse_signed,
    parse_u16,
    parse_unsigned,
    str_eq,
    to_lowercase,
    unicode_lowercase,
    usize_to_string,
};
use vstd::prelude::*;

verus! {

/// A service advertised on the network: `{name}._{type}._{protocol}` at a
/// host and port, with properties, renewed when no health check came for
/// longer than the renewal time.
#[derive(Debug, Clone)]
pub struct WebthingZeroconf {
    pub service_name: String,
    pub service_type: String,
    pub service_protocol: String,
    pub host: String,
    pub port: u16,
    pub properties: Vec<(String, String)>,
    /// Seconds without a health check after which the service registers
    /// again.
    pub register_renewal_time: i64,
    /// When the service last registered or was checked, in seconds since
    /// the Unix epoch.
    pub last_register_time: i64,
}

/// The TLS property: `1` when the preferred URL scheme is `https` in any
/// case, else `0`.
pub open spec fn tls_flag(preferred_scheme: Seq<char>) -> Seq<char> {
    if unicode_lowercase(preferred_scheme) == "https"@ {
        "1"@
    } else {
        "0"@
    }
}

/// The renewal time: the configured number of seconds, or the default when
/// none is configured or it is not a number.
pub open spec fn renewal_time(setting: Option<Seq<char>>, default: i64) -> int {
    match setting {
        Some(s) => match parse_signed(s, i64::MIN as int, i64::MAX as int) {
            Some(v) => v,
            None => default as int,
        },
        None => default as int,
    }
}

impl WebthingZeroconf {
    /// The `webthing`/`tcp` service of this supervisor at `host` and `port`.
    /// Its name is the configured supervisor name, else `supervisor`; its
    /// properties are the root path, the TLS flag and the host address.
    pub fn new(
        host: String,
        port: u16,
        preferred_url_scheme: Option<&str>,
        supervisor_name: Option<String>,
        renewal_setting: Option<&str>,
        default_renewal_time: i64,
        now: i64,
    ) -> (r: Self)
        ensures
            r.service_name@ == match supervisor_name {
                Some(n) => n@,
                None => SUPERVISOR_DEFAULT_NAME@,
            },
            r.service_type@ == "webthing"@,
            r.service_protocol@ == "tcp"@,
            r.host == host,
            r.port == port,
            r.properties@.len() == 3,
            r.properties@[0].0@ == "path"@ && r.properties@[0].1@ == "/"@,
            r.properties@[1].0@ == "tls"@ && r.properties@[1].1@ == tls_flag(
                match preferred_url_scheme {
                    Some(s) => s@,
                    None => DEFAULT_URL_SCHEME@,
                },
            ),
            r.properties@[2].0@ == "address"@ && r.properties@[2].1@ == host@,
            r.register_renewal_time == renewal_time(
                match renewal_setting {
                    Some(s) => Some(s@),
                    None => None,
                },
                default_renewal_time,
            ),
            r.last_register_time == now,
    {
        let scheme = match preferred_url_scheme {
            Some(s) => s,
            None => DEFAULT_URL_SCHEME,
        };
        let lowered = to_lowercase(scheme);
        let tls = if str_eq(lowered.as_str(), "https") {
            "1"
        } else {
            "0"
        };
        let service_name = match supervisor_name {
            Some(n) => n,
            None => SUPERVISOR_DEFAULT_NAME.to_string(),
        };
        let mut properties: Vec<(String, String)> = Vec::new();
        properties.push(("path".to_string(), "/".to_string()));
        properties.push(("tls".to_string(), tls.to_string()));
        properties.push(("address".to_string(), host.clone()));
        let register_renewal_time = match renewal_setting {
            Some(s) => match parse_i64(s) {
                Some(v) => v,
                None => default_renewal_time,
            },
            None => default_renewal_time,
        };
        WebthingZeroconf {
            service_name,
            service_type: "webthing".to_string(),
            service_protocol: "tcp".to_string(),
            host,
            port,
            properties,
            register_renewal_time,
            last_register_time: now,
        }
    }

    /// Whether the service has to register again at time `now`: more than
    /// the renewal time has passed since it last did or was checked.
    pub fn renewal_due(&self, now: i64) -> (r: bool)
        ensures
            r == (now - self.last_register_time > self.register_renewal_time),
    {
        let elapsed: i128 = (now as i128) - (self.last_register_time as i128);
        elapsed > (self.register_renewal_time as i128)
    }

    /// Notes a health check by the orchestrator at time `now`, which restarts
    /// the renewal timer.
    pub fn register_health_check(&mut self, now: i64)
        ensures
            final(self).last_register_time == now,
            final(self).register_renewal_time == old(self).register_renewal_time,
            final(self).service_name == old(self).service_name,
            final(self).service_type == old(self).service_type,
            final(self).service_protocol == old(self).service_protocol,
            final(self).host == old(self).host,
            final(self).port == old(self).port,
            final(self).properties == old(self).properties,
    {
        self.last_register_time = now;
    }

    /// `{host}:{port}`, the address at which the supervisor is waited for.
    pub fn server_address(&self) -> (r: String)
        ensures
            r@ == self.host@ + ":"@ + decimal(self.port as nat),
    {
        let mut a = self.host.clone();
        a.append(":");
        let p = usize_to_string(self.port as usize);
        a.append(p.as_str());
        a
    }

    /// What is sent to the orchestrator to register the service: its name,
    /// type, port and properties, and its host as its only address.
    pub fn registration_data(&self) -> (r: ZeroconfRegistrationData)
        ensures
            r.name@ == self.service_name@,
            r.kind@ == self.service_type@,
            r.port == self.port,
            r.properties@.len() == self.properties@.len(),
            forall|j: int|
                0 <= j < r.properties@.len() ==> (#[trigger] r.properties@[j]).0@ == self.properties@[j].0@
                    && r.properties@[j].1@ == self.properties@[j].1@,
            r.addresses@.len() == 1,
            r.addresses@[0]@ == self.host@,
            r.host@ == self.host@,
    {
        let mut properties: Vec<(String, String)> = Vec::new();
        let mut j: usize = 0;
        while j < self.properties.len()
            invariant
                j <= self.properties@.len(),
                properties@.len() == j,
                forall|t: int|
                    0 <= t < j ==> (#[trigger] properties@[t]).0@ == self.properties@[t].0@
                        && properties@[t].1@ == self.properties@[t].1@,
            decreases self.properties@.len() - j,
        {
            properties.push((self.properties[j].0.clone(), self.properties[j].1.clone()));
            j = j + 1;
        }
        let mut addresses: Vec<String> = Vec::new();
        addresses.push(self.host.clone());
        ZeroconfRegistrationData {
            name: self.service_name.clone(),
            kind: self.service_type.clone(),
            port: self.port,
            properties,
            addresses,
            host: self.host.clone(),
        }
    }
}

/// What the supervisor sends to the orchestrator to register.
#[derive(Debug, Clone)]
pub struct ZeroconfRegistrationData {
    pub name: String,
    pub kind: String,
    pub port: u16,
    pub properties: Vec<(String, String)>,
    pub addresses: Vec<String>,
    pub host: String,
}

/// The address the supervisor listens at: the local IP address that was
/// found, else `127.0.0.1`, and the configured port, else 8080 (also when
/// the setting is not a port number).
pub fn get_listening_address(local_ip: Option<String>, port_setting: Option<&str>) -> (r: (String, u16))
    ensures
        r.0@ == match local_ip {
            Some(ip) => ip@,
            None => "127.0.0.1"@,
        },
        r.1 == match port_setting {
            Some(s) => match parse_unsigned(s@, u16::MAX as nat) {
                Some(p) => p as u16,
                None => DEFAULT_PORT,
            },
            None => DEFAULT_PORT,
        },
{
    let host = match local_ip {
        Some(ip) => ip,
        None => "127.0.0.1".to_string(),
    };
    let port = match port_setting {
        Some(s) => match parse_u16(s) {
            Some(p) => p,
            None => DEFAULT_PORT,
        },
        None => DEFAULT_PORT,
    };
    (host, port)
}

/// The URL at which the orchestrator takes registrations: its URL followed
/// by the discovery path.
pub fn orchestrator_registration_url(orchestrator_url: &str) -> (r: String)
    ensures
        r@ == orchestrator_url@ + URL_BASE_PATH@,
{
    let mut u = orchestrator_url.to_string();
    u.append(URL_BASE_PATH);
    u
}

} // verus!
