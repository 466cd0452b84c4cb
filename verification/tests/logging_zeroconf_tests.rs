use supervisor::logging::{
    device_name, get_device_ip, log_level, log_record, logging_enabled, logging_endpoint, LogLevel,
};
use supervisor::strmap::StrMap;
use supervisor::structs::request_entry::{RequestEntry, Timestamp};
use supervisor::zeroconf::{get_listening_address, orchestrator_registration_url, WebthingZeroconf};

#[test]
fn log_levels_ignore_case() {
    assert_eq!(log_level("debug"), LogLevel::Debug);
    assert_eq!(log_level("Info"), LogLevel::Info);
    assert_eq!(log_level("warning"), LogLevel::Warn);
    assert_eq!(log_level("WARN"), LogLevel::Warn);
    assert_eq!(log_level("error"), LogLevel::Error);
    assert_eq!(log_level("trace"), LogLevel::Info);
}

#[test]
fn logging_settings_and_defaults() {
    assert!(logging_enabled(Some("true")));
    assert!(!logging_enabled(Some("TRUE")));
    assert!(!logging_enabled(None));
    assert_eq!(logging_endpoint(None), "http://localhost:3000/device/logs");
    assert_eq!(logging_endpoint(Some("http://o/logs".to_string())), "http://o/logs");
    assert_eq!(device_name(None), "unknown");
    assert_eq!(get_device_ip(None, None), "127.0.0.1");
    assert_eq!(get_device_ip(None, Some("10.1.1.1".to_string())), "10.1.1.1");
    assert_eq!(get_device_ip(Some("1.2.3.4".to_string()), Some("10.1.1.1".to_string())), "1.2.3.4");
}

#[test]
fn log_record_names_the_request() {
    let e = RequestEntry::new(
        "d".to_string(), "m".to_string(), "f".to_string(), "GET".to_string(),
        serde_json::Value::Null, StrMap::new(), Timestamp { secs: 0, nanos: 0 }, 0,
    );
    let r = log_record("t".to_string(), "INFO", "hello", "fun", "dev".to_string(), "ip".to_string(), Some(&e));
    let c = r.request.unwrap();
    assert_eq!(c.request_id, e.request_id);
    assert_eq!(c.deployment_id, "d");
    assert_eq!(c.module_name, "m");
    assert_eq!(r.loglevel, "INFO");
    assert_eq!(r.message, "hello");
    let r2 = log_record("t".to_string(), "DEBUG", "x", "fun", "dev".to_string(), "ip".to_string(), None);
    assert!(r2.request.is_none());
}

#[test]
fn zeroconf_service_identity() {
    let zc = WebthingZeroconf::new("10.0.0.9".to_string(), 8080, Some("HTTPS"), None, Some("120"), 60, 1000);
    assert_eq!(zc.service_name, "supervisor");
    assert_eq!(zc.service_type, "webthing");
    assert_eq!(zc.service_protocol, "tcp");
    assert_eq!(zc.properties, vec![
        ("path".to_string(), "/".to_string()),
        ("tls".to_string(), "1".to_string()),
        ("address".to_string(), "10.0.0.9".to_string()),
    ]);
    assert_eq!(zc.register_renewal_time, 120);
    assert_eq!(zc.last_register_time, 1000);
    let plain = WebthingZeroconf::new("h".to_string(), 1, None, Some("dev1".to_string()), Some("soon"), 60, 0);
    assert_eq!(plain.properties[1].1, "0");
    assert_eq!(plain.service_name, "dev1");
    assert_eq!(plain.register_renewal_time, 60);
}

#[test]
fn renewal_and_health_checks() {
    let mut zc = WebthingZeroconf::new("h".to_string(), 1, None, None, None, 60, 1000);
    assert!(!zc.renewal_due(1060));
    assert!(zc.renewal_due(1061));
    zc.register_health_check(1050);
    assert!(!zc.renewal_due(1061));
    assert!(zc.renewal_due(1111));
    assert_eq!(zc.server_address(), "h:1");
}

#[test]
fn registration_payload_and_urls() {
    let zc = WebthingZeroconf::new("10.0.0.9".to_string(), 8080, None, None, None, 60, 0);
    let data = zc.registration_data();
    assert_eq!(data.name, "supervisor");
    assert_eq!(data.kind, "webthing");
    assert_eq!(data.port, 8080);
    assert_eq!(data.addresses, vec!["10.0.0.9".to_string()]);
    assert_eq!(data.host, "10.0.0.9");
    assert_eq!(data.properties.len(), 3);
    assert_eq!(
        orchestrator_registration_url("http://orch:3000"),
        "http://orch:3000/file/device/discovery/register"
    );
    assert_eq!(get_listening_address(None, None), ("127.0.0.1".to_string(), 8080));
    assert_eq!(get_listening_address(Some("10.0.0.2".to_string()), Some("5000")), ("10.0.0.2".to_string(), 5000));
    assert_eq!(get_listening_address(None, Some("99999")), ("127.0.0.1".to_string(), 8080));
}

#[test]
fn numeric_settings_are_read_as_std_reads_them() {
    assert_eq!(get_listening_address(None, Some("65535")), ("127.0.0.1".to_string(), 65535));
    assert_eq!(get_listening_address(None, Some("65536")), ("127.0.0.1".to_string(), 8080));
    assert_eq!(get_listening_address(None, Some("+80")), ("127.0.0.1".to_string(), 80));
    let low = WebthingZeroconf::new("h".to_string(), 1, None, None, Some("-9223372036854775808"), 60, 0);
    assert_eq!(low.register_renewal_time, i64::MIN);
    let high = WebthingZeroconf::new("h".to_string(), 1, None, None, Some("9223372036854775808"), 60, 0);
    assert_eq!(high.register_renewal_time, 60);
    let signed = WebthingZeroconf::new("h".to_string(), 1, None, None, Some("+15"), 60, 0);
    assert_eq!(signed.register_renewal_time, 15);
    let neg = WebthingZeroconf::new("h".to_string(), 1, None, None, Some("-15"), 60, 0);
    assert_eq!(neg.register_renewal_time, -15);
    assert_eq!(WebthingZeroconf::new("h".to_string(), 10234, None, None, None, 60, 0).server_address(), "h:10234");
}
