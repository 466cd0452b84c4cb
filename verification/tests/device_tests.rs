use supervisor::api::device::{
    get_device_description, health_check_by_orchestrator, platform_info, register_orchestrator,
    RegisterError,
};
use supervisor::strmap::StrMap;
use supervisor::structs::device::{NetworkInterfaceIpInfo, OsInfo};

fn os() -> OsInfo {
    OsInfo {
        host_name: "pi".to_string(),
        kernel: "6.1".to_string(),
        name: "Debian".to_string(),
        os: "12".to_string(),
    }
}

#[test]
fn platform_info_converts_mhz_to_hz() {
    let mut storage = StrMap::new();
    storage.insert("sda".to_string(), 64_000_000_000u64);
    let mut network = StrMap::new();
    network.insert(
        "eth0".to_string(),
        NetworkInterfaceIpInfo { ip_info: vec!["192.168.1.1/24".to_string()], mac_address: None },
    );
    let p = platform_info("aarch64".to_string(), "Cortex-A72".to_string(), 1500, 4, 8_000_000_000, storage, network, os());
    assert_eq!(p.cpu.clock_speed_hz, 1_500_000_000);
    assert_eq!(p.cpu.core_count, 4);
    assert_eq!(p.cpu.architecture, "aarch64");
    assert_eq!(p.cpu.human_readable_name, "Cortex-A72");
    assert_eq!(p.memory.total_bytes, 8_000_000_000);
    assert_eq!(p.storage.get("sda"), Some(&64_000_000_000u64));
    assert_eq!(p.network.get("eth0").unwrap().ip_info, vec!["192.168.1.1/24".to_string()]);
    assert_eq!(p.system.host_name, "pi");
}

#[test]
fn device_description_lists_the_interfaces() {
    let p = platform_info("x86_64".to_string(), "cpu".to_string(), 1, 1, 1, StrMap::new(), StrMap::new(), os());
    let d = get_device_description(p.clone(), true);
    assert_eq!(d.supervisor_interfaces.len(), 49);
    assert_eq!(d.supervisor_interfaces[0], "takeImageDynamicSize");
    assert_eq!(d.supervisor_interfaces[3], "args_get");
    let e = get_device_description(p, false);
    assert_eq!(e.supervisor_interfaces, vec!["takeImageDynamicSize", "takeImageStaticSize", "takeImage"]);
}

#[test]
fn health_checks_count_only_from_the_orchestrator() {
    assert!(health_check_by_orchestrator(Some("http://10.0.0.5:3000"), Some("10.0.0.5"), None));
    assert!(health_check_by_orchestrator(Some("http://10.0.0.5:3000"), None, Some("10.0.0.5")));
    assert!(!health_check_by_orchestrator(Some("http://10.0.0.5:3000"), Some("10.0.0.6"), Some("10.0.0.5")));
    assert!(!health_check_by_orchestrator(None, Some("10.0.0.5"), None));
    assert!(!health_check_by_orchestrator(Some(""), Some(""), None));
    assert!(health_check_by_orchestrator(Some("not a url"), None, None));
}

#[test]
fn registration_needs_a_valid_url() {
    let none: serde_json::Value = serde_json::from_str(r#"{"other": 1}"#).unwrap();
    assert_eq!(register_orchestrator(&none).err(), Some(RegisterError::NoUrl));
    assert_eq!(RegisterError::NoUrl.message(), "No url found");
    let not_object: serde_json::Value = serde_json::from_str("[1]").unwrap();
    assert_eq!(register_orchestrator(&not_object).err(), Some(RegisterError::NoUrl));
    let bad: serde_json::Value = serde_json::from_str(r#"{"url": "::nope"}"#).unwrap();
    assert_eq!(register_orchestrator(&bad).err(), Some(RegisterError::InvalidUrl));
    assert_eq!(RegisterError::InvalidUrl.message(), "Invalid url");
    let number: serde_json::Value = serde_json::from_str(r#"{"url": 5}"#).unwrap();
    assert_eq!(register_orchestrator(&number).err(), Some(RegisterError::InvalidUrl));
    let good: serde_json::Value = serde_json::from_str(r#"{"url": "http://orch:3000"}"#).unwrap();
    let reg = register_orchestrator(&good).unwrap();
    assert_eq!(reg.orchestrator_url, "http://orch:3000");
    assert_eq!(reg.logging_endpoint, "http://orch:3000/device/logs");
}
