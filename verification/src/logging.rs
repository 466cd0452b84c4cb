//! The structured log records that the supervisor sends to its external
//! logging server.
use crate::structs::request_entry::RequestEntry;
use vstd::prelude::*;
use vstd::string::*;

verus! {

/// The severity of a log record.
#[derive(Debug, Clone, Copy, PartialEq, Eq, Structural)]
pub enum LogLevel {
    Debug,
    Info,
    Warn,
    Error,
}

/// `c` in ASCII upper case.
pub open spec fn ascii_upper_char(c: char) -> char {
    if 'a' <= c && c <= 'z' {
        ((c as u32) - 32) as char
    } else {
        c
    }
}

/// `s` in ASCII upper case.
pub open spec fn ascii_upper(s: Seq<char>) -> Seq<char> {
    s.map_values(|c: char| ascii_upper_char(c))
}

/// Whether `s` in ASCII upper case is `t`.
pub fn upper_equals(s: &str, t: &str) -> (r: bool)
    ensures
        r == (ascii_upper(s@) == t@),
{
    let n = s.unicode_len();
    let m = t.unicode_len();
    if n != m {
        proof {
            assert(ascii_upper(s@).len() == n);
        }
        return false;
    }
    let mut i: usize = 0;
    while i < n
        invariant
            i <= n,
            n == s@.len(),
            m == t@.len(),
            n == m,
            forall|j: int| 0 <= j < i ==> ascii_upper_char(#[trigger] s@[j]) == t@[j],
        decreases n - i,
    {
        let c = s.get_char(i);
        let u = if 'a' <= c && c <= 'z' {
            ((c as u8) - 32) as char
        } else {
            c
        };
        if u != t.get_char(i) {
            proof {
                assert(ascii_upper(s@)[i as int] != t@[i as int]);
            }
            return false;
        }
        i = i + 1;
    }
    proof {
        assert(ascii_upper(s@) =~= t@);
    }
    true
}

/// The severity named by `level`, read in ASCII upper case: `DEBUG`,
/// `INFO`, `WARN` or `WARNING`, `ERROR`; any other name counts as `INFO`.
pub open spec fn spec_log_level(level: Seq<char>) -> LogLevel {
    let u = ascii_upper(level);
    if u == "DEBUG"@ {
        LogLevel::Debug
    } else if u == "WARN"@ || u == "WARNING"@ {
        LogLevel::Warn
    } else if u == "ERROR"@ {
        LogLevel::Error
    } else {
        LogLevel::Info
    }
}

/// The severity named by `level`.
pub fn log_level(level: &str) -> (r: LogLevel)
    ensures
        r == spec_log_level(level@),
{
    if upper_equals(level, "DEBUG") {
        LogLevel::Debug
    } else if upper_equals(level, "WARN") || upper_equals(level, "WARNING") {
        LogLevel::Warn
    } else if upper_equals(level, "ERROR") {
        LogLevel::Error
    } else {
        LogLevel::Info
    }
}

/// Whether records go to the external logging server: only when the
/// setting is exactly `true`.
pub fn logging_enabled(setting: Option<&str>) -> (r: bool)
    ensures
        r == (setting matches Some(s) && s@ == "true"@),
{
    match setting {
        Some(s) => crate::text::str_eq(s, "true"),
        None => false,
    }
}

/// Where records are sent: the configured endpoint, else
/// `http://localhost:3000/device/logs`.
pub fn logging_endpoint(configured: Option<String>) -> (r: String)
    ensures
        r@ == match configured {
            Some(e) => e@,
            None => "http://localhost:3000/device/logs"@,
        },
{
    match configured {
        Some(e) => e,
        None => "http://localhost:3000/device/logs".to_string(),
    }
}

/// The name the device logs under: the configured one, else `unknown`.
pub fn device_name(configured: Option<String>) -> (r: String)
    ensures
        r@ == match configured {
            Some(n) => n@,
            None => "unknown"@,
        },
{
    match configured {
        Some(n) => n,
        None => "unknown".to_string(),
    }
}

/// The device's IP address: the configured one, else the local address
/// that was found, else `127.0.0.1`.
pub fn get_device_ip(configured: Option<String>, local_ip: Option<String>) -> (r: String)
    ensures
        r@ == match configured {
            Some(c) => c@,
            None => match local_ip {
                Some(l) => l@,
                None => "127.0.0.1"@,
            },
        },
{
    match configured {
        Some(c) => c,
        None => match local_ip {
            Some(l) => l,
            None => "127.0.0.1".to_string(),
        },
    }
}

/// The request a log record is about.
#[derive(Debug, Clone)]
pub struct LogRequestContext {
    pub request_id: String,
    pub deployment_id: String,
    pub module_name: String,
}

/// A log record as sent to the logging server.
#[derive(Debug, Clone)]
pub struct LogRecord {
    pub timestamp: String,
    pub loglevel: String,
    pub message: String,
    pub func_name: String,
    pub device_name: String,
    pub device_ip: String,
    pub request: Option<LogRequestContext>,
}

/// Builds a log record; a record about a request names the request, its
/// deployment and its module.
pub fn log_record(
    timestamp: String,
    level: &str,
    message: &str,
    func_name: &str,
    device_name: String,
    device_ip: String,
    entry: Option<&RequestEntry>,
) -> (r: LogRecord)
    ensures
        r.timestamp == timestamp,
        r.loglevel@ == level@,
        r.message@ == message@,
        r.func_name@ == func_name@,
        r.device_name == device_name,
        r.device_ip == device_ip,
        match entry {
            Some(e) => r.request matches Some(c) && c.request_id@ == e.request_id@ && c.deployment_id@
                == e.deployment_id@ && c.module_name@ == e.module_name@,
            None => r.request is None,
        },
{
    let request = match entry {
        Some(e) => Some(
            LogRequestContext {
                request_id: e.request_id.clone(),
                deployment_id: e.deployment_id.clone(),
                module_name: e.module_name.clone(),
            },
        ),
        None => None,
    };
    LogRecord {
        timestamp,
        loglevel: level.to_string(),
        message: message.to_string(),
        func_name: func_name.to_string(),
        device_name,
        device_ip,
        request,
    }
}

} // verus!
