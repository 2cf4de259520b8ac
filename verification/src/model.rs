//! The domain model that session data is merged into (the fields the
//! library's logic reads and writes).

use vstd::prelude::*;

use crate::interface::{Port, Radio};
use crate::net::IpAddress;
use crate::text::chars_of;

verus! {

/// A hardware address, kept as the text it was given as.
#[derive(Debug, Clone)]
pub struct MacAddress {
    pub text: String,
}

impl MacAddress {
    /// Wraps the given text.
    pub fn new(text: &str) -> (m: MacAddress)
        ensures
            m.text@ == text@,
    {
        MacAddress { text: text.to_owned() }
    }

    /// The address text.
    pub fn as_str(&self) -> (s: &str)
        ensures
            s@ == self.text@,
    {
        self.text.as_str()
    }
}

/// The text of an optional address.
pub open spec fn mac_view(m: Option<MacAddress>) -> Option<Seq<char>> {
    match m {
        Some(a) => Some(a.text@),
        None => None,
    }
}

/// The radio link of a wireless client, as its session record reports it.
#[derive(Debug, Clone, PartialEq, Eq)]
pub struct WirelessInfo {
    pub ssid: Option<String>,
    pub bssid: Option<String>,
    pub channel: Option<u32>,
    /// Radio band token (`ng`, `na`, `6e`).
    pub radio: Option<String>,
    pub signal_dbm: Option<i32>,
    pub rssi: Option<i32>,
    pub noise_dbm: Option<i32>,
    pub satisfaction: Option<i32>,
}

/// A network client.
#[derive(Debug)]
pub struct Client {
    pub mac: MacAddress,
    pub ip: Option<IpAddress>,
    pub hostname: Option<String>,
    pub tx_bytes: Option<u64>,
    pub rx_bytes: Option<u64>,
    pub uplink_device_mac: Option<MacAddress>,
    pub switch_port: Option<u32>,
    pub use_fixedip: bool,
    pub fixed_ip: Option<IpAddress>,
    /// The radio link, for a wireless client.
    pub wireless: Option<WirelessInfo>,
}

/// Uplink throughput of a device.
#[derive(Debug, Clone, Copy, PartialEq, Eq, Structural)]
pub struct Bandwidth {
    pub tx_bytes_per_sec: u64,
    pub rx_bytes_per_sec: u64,
}

/// Live counters of a device.
#[derive(Debug, Clone, Copy, PartialEq, Eq, Structural)]
pub struct DeviceStats {
    pub uplink_bandwidth: Option<Bandwidth>,
    pub uptime_secs: Option<u64>,
}

/// The role of a managed device.
#[derive(Debug, Clone, Copy, PartialEq, Eq, Structural)]
pub enum DeviceType {
    Gateway,
    Switch,
    AccessPoint,
    Other,
}

/// A managed device (switch, gateway or access point).
#[derive(Debug)]
pub struct Device {
    pub mac: MacAddress,
    pub device_type: DeviceType,
    pub client_count: Option<u32>,
    pub wan_ipv6: Option<String>,
    pub ports: Vec<Port>,
    pub radios: Vec<Radio>,
    pub uplink_device_mac: Option<MacAddress>,
    pub uplink_port_idx: Option<u32>,
    pub stats: DeviceStats,
}

/// Health of one site subsystem (`wan`, `lan`, `wlan`, ...), as the
/// dashboard and the store keep it.
#[derive(Debug, Clone)]
pub struct HealthSummary {
    pub subsystem: String,
    pub status: String,
    pub num_adopted: Option<u32>,
    pub num_sta: Option<u32>,
    pub tx_bytes_r: Option<u64>,
    pub rx_bytes_r: Option<u64>,
    pub wan_ip: Option<String>,
    pub gateways: Option<Vec<String>>,
}

} // verus!
