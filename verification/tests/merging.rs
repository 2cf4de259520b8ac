use unifly::interface::{PortConnector, PortState};
use unifly::merge::{merge_client_traffic, merge_session_clients, merge_session_devices, merge_user_reservations};
use unifly::model::{DeviceType, WirelessInfo, Bandwidth, Client, Device, DeviceStats, MacAddress};
use unifly::models::{
    SessionClientEntry, SessionDevice, SessionPortEntry, SessionRadioEntry, SessionRadioStats,
    SessionUplink, SessionUserEntry, SessionWan,
};
use unifly::net::IpAddress;

fn ip(text: &str) -> IpAddress {
    match text.parse::<core::net::IpAddr>().expect("valid ip") {
        core::net::IpAddr::V4(a) => IpAddress::V4(u32::from(a)),
        core::net::IpAddr::V6(a) => IpAddress::V6(u128::from(a)),
    }
}

fn client(mac: &str, addr: Option<&str>) -> Client {
    Client {
        mac: MacAddress::new(mac),
        ip: addr.map(ip),
        hostname: None,
        tx_bytes: None,
        rx_bytes: None,
        uplink_device_mac: None,
        switch_port: None,
        use_fixedip: false,
        fixed_ip: None,
        wireless: None,
    }
}

fn session_client(mac: &str, addr: Option<&str>) -> SessionClientEntry {
    SessionClientEntry {
        id: "id".into(),
        mac: mac.into(),
        hostname: None,
        ip: addr.map(String::from),
        oui: None,
        name: None,
        is_guest: None,
        is_wired: None,
        authorized: None,
        blocked: None,
        signal: None,
        tx_bytes: None,
        rx_bytes: None,
        tx_rate: None,
        rx_rate: None,
        uptime: None,
        first_seen: None,
        last_seen: None,
        site_id: None,
        essid: None,
        bssid: None,
        channel: None,
        radio: None,
        rssi: None,
        noise: None,
        satisfaction: None,
        ap_mac: None,
        network: None,
        network_id: None,
        sw_mac: None,
        sw_port: None,
    }
}

fn user(mac: &str, fixed: Option<bool>, fixed_ip: Option<&str>) -> SessionUserEntry {
    SessionUserEntry {
        id: "u".into(),
        mac: mac.into(),
        name: None,
        hostname: None,
        use_fixedip: fixed,
        fixed_ip: fixed_ip.map(String::from),
        network_id: None,
        site_id: None,
        noted: None,
        note: None,
    }
}

#[test]
fn traffic_fills_only_missing_fields_from_the_last_record_with_the_ip() {
    let mut clients = vec![client("aa:aa:aa:aa:aa:01", Some("192.168.1.10")), client("aa:aa:aa:aa:aa:02", None)];
    clients[0].rx_bytes = Some(5);
    let mut first = session_client("s1", Some("192.168.1.10"));
    first.tx_bytes = Some(1);
    let mut last = session_client("s2", Some("192.168.1.10"));
    last.tx_bytes = Some(100);
    last.rx_bytes = Some(200);
    last.hostname = Some("laptop".into());
    last.is_wired = Some(true);
    last.sw_mac = Some("sw:mac".into());
    last.ap_mac = Some("ap:mac".into());
    last.sw_port = Some(7);
    merge_client_traffic(&mut clients, &vec![first, last]);
    let c = &clients[0];
    assert_eq!(c.tx_bytes, Some(100));
    assert_eq!(c.rx_bytes, Some(5));
    assert_eq!(c.hostname.as_deref(), Some("laptop"));
    assert_eq!(c.uplink_device_mac.as_ref().map(|m| m.as_str()), Some("sw:mac"));
    assert_eq!(c.switch_port, Some(7));
    assert_eq!(c.wireless, None);
    assert_eq!(clients[1].tx_bytes, None);
}

#[test]
fn wireless_clients_take_the_access_point_and_no_switch_port() {
    let mut clients = vec![client("m", Some("10.0.0.2"))];
    let mut s = session_client("m", Some("10.0.0.2"));
    s.ap_mac = Some("ap".into());
    s.sw_mac = Some("sw".into());
    s.sw_port = Some(3);
    s.tx_bytes = Some(-1);
    merge_client_traffic(&mut clients, &vec![s]);
    assert_eq!(clients[0].uplink_device_mac.as_ref().map(|m| m.as_str()), Some("ap"));
    assert_eq!(clients[0].switch_port, None);
    assert_eq!(clients[0].tx_bytes, None);
}

#[test]
fn ipv6_clients_match_by_canonical_text() {
    let mut clients = vec![client("m", Some("2001:db8:0:0:0:0:0:1"))];
    let mut s = session_client("m", Some("2001:db8::1"));
    s.hostname = Some("v6".into());
    merge_client_traffic(&mut clients, &vec![s]);
    assert_eq!(clients[0].hostname.as_deref(), Some("v6"));
}

#[test]
fn traffic_merge_twice_changes_nothing_more() {
    let mut s = session_client("m", Some("10.0.0.3"));
    s.tx_bytes = Some(9);
    s.is_wired = Some(true);
    let sessions = vec![s];
    let mut once = vec![client("m", Some("10.0.0.3"))];
    merge_client_traffic(&mut once, &sessions);
    let mut twice = vec![client("m", Some("10.0.0.3"))];
    merge_client_traffic(&mut twice, &sessions);
    merge_client_traffic(&mut twice, &sessions);
    assert_eq!(once[0].tx_bytes, twice[0].tx_bytes);
    assert_eq!(once[0].switch_port, twice[0].switch_port);
    assert_eq!(once[0].uplink_device_mac.is_none(), twice[0].uplink_device_mac.is_none());
}

#[test]
fn reservations_match_by_mac_ignoring_case() {
    let mut clients = vec![client("AA:BB:CC:DD:EE:FF", Some("10.0.0.4"))];
    let users = vec![user("aa:bb:cc:dd:ee:ff", Some(true), Some("10.0.0.99"))];
    merge_user_reservations(&mut clients, &vec![], &users);
    assert!(clients[0].use_fixedip);
    assert_eq!(clients[0].fixed_ip, Some(ip("10.0.0.99")));
}

#[test]
fn reservations_fall_back_to_the_session_client_with_the_ip() {
    let mut clients = vec![client("11:11:11:11:11:11", Some("10.0.0.5"))];
    let sessions = vec![session_client("22:22:22:22:22:22", Some("10.0.0.5"))];
    let users = vec![user("22:22:22:22:22:22", None, Some("bogus"))];
    merge_user_reservations(&mut clients, &sessions, &users);
    assert!(!clients[0].use_fixedip);
    assert_eq!(clients[0].fixed_ip, None);
    let mut unmatched = vec![client("33:33:33:33:33:33", None)];
    unmatched[0].use_fixedip = true;
    merge_user_reservations(&mut unmatched, &sessions, &users);
    assert!(unmatched[0].use_fixedip);
}

#[test]
fn session_clients_merge_traffic_then_reservations() {
    let mut clients = vec![client("aa", Some("10.0.0.6"))];
    let mut s = session_client("aa", Some("10.0.0.6"));
    s.rx_bytes = Some(42);
    let users = vec![user("AA", Some(true), Some("10.0.0.60"))];
    merge_session_clients(&mut clients, &vec![s], &users);
    assert_eq!(clients[0].rx_bytes, Some(42));
    assert!(clients[0].use_fixedip);
}

fn device(mac: &str) -> Device {
    Device {
        device_type: DeviceType::Switch,
        mac: MacAddress::new(mac),
        client_count: None,
        wan_ipv6: None,
        ports: vec![],
        radios: vec![],
        uplink_device_mac: None,
        uplink_port_idx: None,
        stats: DeviceStats { uplink_bandwidth: Some(Bandwidth { tx_bytes_per_sec: 1, rx_bytes_per_sec: 2 }), uptime_secs: None },
    }
}

fn session_device(mac: &str) -> SessionDevice {
    SessionDevice {
        id: "d".into(),
        mac: mac.into(),
        device_type: "usw".into(),
        ip: None,
        name: None,
        model: None,
        version: None,
        adopted: true,
        state: 1,
        sys_stats: None,
        uptime: None,
        num_sta: None,
        serial: None,
        site_id: None,
        last_seen: None,
        upgradable: None,
        user_num_sta: None,
        guest_num_sta: None,
        uplink: None,
        wan1: None,
        ipv6: None,
        port_table: vec![],
        radio_table: vec![],
        radio_table_stats: vec![],
    }
}

#[test]
fn devices_are_completed_from_their_session_record() {
    let mut devices = vec![device("aa:01"), device("aa:02")];
    devices[1].client_count = Some(9);
    let mut s = session_device("aa:01");
    s.num_sta = Some(4);
    s.uplink = Some(SessionUplink { uplink_mac: Some("up".into()), uplink_remote_port: Some(12) });
    s.wan1 = Some(SessionWan { ipv6: Some(vec![Some("fe80::1".into()), Some("2001:db8::5/64".into())]) });
    s.port_table = vec![SessionPortEntry {
        port_idx: Some(1),
        up: Some(true),
        media: Some("SFP+".into()),
        ..Default::default()
    }];
    s.radio_table = vec![SessionRadioEntry { radio: Some("na".into()), channel: None, ht: Some("80".into()) }];
    s.radio_table_stats = vec![SessionRadioStats { radio: Some("na".into()), channel: Some(36) }];
    let mut other = session_device("aa:02");
    other.num_sta = Some(-3);
    merge_session_devices(&mut devices, &vec![s, other]);
    let d = &devices[0];
    assert_eq!(d.client_count, Some(4));
    assert_eq!(d.wan_ipv6.as_deref(), Some("2001:db8::5"));
    assert_eq!(d.ports.len(), 1);
    assert_eq!(d.ports[0].state, PortState::Up);
    assert_eq!(d.ports[0].connector, Some(PortConnector::SfpPlus));
    assert_eq!(d.radios.len(), 1);
    assert_eq!(d.radios[0].frequency_mhz, 5000);
    assert_eq!(d.radios[0].channel, Some(36));
    assert_eq!(d.radios[0].channel_width_mhz, Some(80));
    assert_eq!(d.uplink_device_mac.as_ref().map(|m| m.as_str()), Some("up"));
    assert_eq!(d.uplink_port_idx, Some(12));
    assert_eq!(d.stats.uplink_bandwidth, Some(Bandwidth { tx_bytes_per_sec: 1, rx_bytes_per_sec: 2 }));
    assert_eq!(devices[1].client_count, Some(9));
}

#[test]
fn devices_without_a_session_record_are_unchanged() {
    let mut devices = vec![device("zz")];
    let mut s = session_device("aa");
    s.num_sta = Some(4);
    merge_session_devices(&mut devices, &vec![s]);
    assert_eq!(devices[0].client_count, None);
    assert!(devices[0].ports.is_empty());
}

#[test]
fn device_merge_twice_changes_nothing_more() {
    let mut s = session_device("aa:01");
    s.num_sta = Some(4);
    s.uplink = Some(SessionUplink { uplink_mac: Some("up".into()), uplink_remote_port: Some(12) });
    s.port_table = vec![SessionPortEntry { port_idx: Some(3), up: Some(false), ..Default::default() }];
    let sessions = vec![s];
    let mut once = vec![device("aa:01")];
    merge_session_devices(&mut once, &sessions);
    let mut twice = vec![device("aa:01")];
    merge_session_devices(&mut twice, &sessions);
    merge_session_devices(&mut twice, &sessions);
    assert_eq!(once[0].client_count, twice[0].client_count);
    assert_eq!(once[0].ports.len(), twice[0].ports.len());
    assert_eq!(once[0].ports[0].index, twice[0].ports[0].index);
    assert_eq!(once[0].uplink_port_idx, twice[0].uplink_port_idx);
    assert_eq!(
        once[0].uplink_device_mac.as_ref().map(|m| m.as_str().to_string()),
        twice[0].uplink_device_mac.as_ref().map(|m| m.as_str().to_string())
    );
}

#[test]
fn reservation_merge_twice_changes_nothing_more() {
    let users = vec![user("aa", Some(true), Some("10.0.0.60"))];
    let mut once = vec![client("AA", Some("10.0.0.6"))];
    merge_user_reservations(&mut once, &vec![], &users);
    let mut twice = vec![client("AA", Some("10.0.0.6"))];
    merge_user_reservations(&mut twice, &vec![], &users);
    merge_user_reservations(&mut twice, &vec![], &users);
    assert_eq!(once[0].use_fixedip, twice[0].use_fixedip);
    assert_eq!(once[0].fixed_ip, twice[0].fixed_ip);
}

#[test]
fn wireless_clients_take_their_radio_link_when_missing() {
    let mut s = session_client("m", Some("10.0.0.8"));
    s.essid = Some("HomeNet".into());
    s.bssid = Some("ap:bs:id".into());
    s.channel = Some(36);
    s.radio = Some("na".into());
    s.signal = Some(-55);
    s.rssi = Some(40);
    s.noise = Some(-95);
    s.satisfaction = Some(98);
    let sessions = vec![s];
    let mut clients = vec![client("m", Some("10.0.0.8"))];
    merge_client_traffic(&mut clients, &sessions);
    assert_eq!(
        clients[0].wireless,
        Some(WirelessInfo {
            ssid: Some("HomeNet".into()),
            bssid: Some("ap:bs:id".into()),
            channel: Some(36),
            radio: Some("na".into()),
            signal_dbm: Some(-55),
            rssi: Some(40),
            noise_dbm: Some(-95),
            satisfaction: Some(98),
        })
    );
    // A present radio link is kept.
    let kept = WirelessInfo {
        ssid: Some("Other".into()),
        bssid: None,
        channel: None,
        radio: None,
        signal_dbm: None,
        rssi: None,
        noise_dbm: None,
        satisfaction: None,
    };
    let mut known = vec![client("m", Some("10.0.0.8"))];
    known[0].wireless = Some(kept.clone());
    merge_client_traffic(&mut known, &sessions);
    assert_eq!(known[0].wireless, Some(kept));
    // A negative channel is dropped.
    let mut odd = session_client("m", Some("10.0.0.9"));
    odd.channel = Some(-1);
    let mut c = vec![client("m", Some("10.0.0.9"))];
    merge_client_traffic(&mut c, &vec![odd]);
    assert_eq!(c[0].wireless.as_ref().and_then(|w| w.channel), None);
    assert!(c[0].wireless.is_some());
}
