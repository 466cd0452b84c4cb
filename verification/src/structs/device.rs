//! Descriptions of a device: its hardware, system and network, and how it
//! is reached.
use crate::strmap::StrMap;
use vstd::prelude::*;

verus! {

/// Addresses and port at which a device is reached.
#[derive(Debug, Clone)]
pub struct DeviceCommunication {
    pub addresses: Vec<String>,
    pub port: u16,
}

/// The CPU of a device.
#[derive(Debug, Clone)]
pub struct CpuInfo {
    pub architecture: String,
    pub clock_speed_hz: u64,
    pub core_count: u32,
    pub human_readable_name: String,
}

/// The memory of a device.
#[derive(Debug, Clone, Copy)]
pub struct MemoryInfo {
    /// Total memory in bytes.
    pub total_bytes: u64,
}

/// The addresses of one network interface.
#[derive(Debug, Clone)]
pub struct NetworkInterfaceIpInfo {
    /// Addresses assigned to the interface, such as `192.168.1.1/24`.
    pub ip_info: Vec<String>,
    pub mac_address: Option<String>,
}

/// The operating system of a device.
#[derive(Debug, Clone)]
pub struct OsInfo {
    pub host_name: String,
    pub kernel: String,
    pub name: String,
    pub os: String,
}

/// The hardware and system of a device.
#[derive(Debug, Clone)]
pub struct PlatformInfo {
    pub cpu: CpuInfo,
    pub memory: MemoryInfo,
    /// Storage device name to its size in bytes.
    pub storage: StrMap<u64>,
    /// Network interface name to its addresses.
    pub network: StrMap<NetworkInterfaceIpInfo>,
    pub system: OsInfo,
}

/// A device's platform and the interfaces its supervisor offers to modules.
#[derive(Debug, Clone)]
pub struct DeviceDescription {
    pub platform: PlatformInfo,
    pub supervisor_interfaces: Vec<String>,
}

/// Whether a device is active.
#[derive(Debug, Clone, Copy, PartialEq, Eq, Structural)]
pub enum StatusEnum {
    Active,
    Inactive,
}

/// Traffic of one network interface since the system started.
#[derive(Debug, Clone, Copy)]
pub struct NetworkInterfaceUsage {
    pub down_bytes: u64,
    pub up_bytes: u64,
}

} // verus!
