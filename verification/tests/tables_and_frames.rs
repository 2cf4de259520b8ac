use unifly::interface::{
    parse_port_connector, parse_port_state, parse_session_ports, parse_session_radios, PortConnector,
    PortState,
};
use unifly::model::{DeviceType, Bandwidth, Device, DeviceStats, MacAddress};
use unifly::models::{SessionPortEntry, SessionRadioEntry, SessionRadioStats};
use unifly::parser::{event_header, frame_items_are_events, is_device_sync};
use unifly::support::{parse_ipv6_text, parse_session_device_wan_ipv6, pick_ipv6_from_value};
use unifly::sync::{apply_device_sync, sync_device_in, unseen_events, DeviceSyncCounters};

#[test]
fn port_state_tokens() {
    assert_eq!(parse_port_state("UP"), PortState::Up);
    assert_eq!(parse_port_state("down"), PortState::Down);
    assert_eq!(parse_port_state("Up"), PortState::Unknown);
}

#[test]
fn connector_tokens() {
    assert_eq!(parse_port_connector("rj45"), Some(PortConnector::Rj45));
    assert_eq!(parse_port_connector("SFPPLUS"), Some(PortConnector::SfpPlus));
    assert_eq!(parse_port_connector("qsfp28"), Some(PortConnector::Qsfp28));
    assert_eq!(parse_port_connector("Sfp"), None);
}

#[test]
fn session_ports_skip_rows_without_index_and_decode_poe() {
    let rows = vec![
        SessionPortEntry { port_idx: None, ..Default::default() },
        SessionPortEntry {
            port_idx: Some(3),
            up: Some(false),
            name: Some("Port 3".into()),
            speed: Some(1000),
            media: Some("GE".into()),
            port_poe: Some(true),
            poe_caps: Some(7),
            poe_enable: Some(true),
            poe_good: Some(true),
        },
        SessionPortEntry { port_idx: Some(4), port_poe: Some(true), poe_caps: Some(1), ..Default::default() },
    ];
    let ports = parse_session_ports(&rows);
    assert_eq!(ports.len(), 2);
    assert_eq!(ports[0].index, 3);
    assert_eq!(ports[0].state, PortState::Down);
    assert_eq!(ports[0].connector, Some(PortConnector::Rj45));
    assert_eq!(ports[0].speed_mbps, Some(1000));
    let poe = ports[0].poe.as_ref().expect("poe");
    assert_eq!(poe.standard.as_deref(), Some("802.3bt"));
    assert!(poe.enabled);
    assert_eq!(poe.state, PortState::Up);
    let poe4 = ports[1].poe.as_ref().expect("poe");
    assert_eq!(poe4.standard.as_deref(), Some("802.3af"));
    assert_eq!(poe4.state, PortState::Down);
}

#[test]
fn session_radios_use_their_band_and_stats() {
    let rows = vec![
        SessionRadioEntry { radio: Some("ng".into()), channel: Some(6), ht: Some("20".into()) },
        SessionRadioEntry { radio: Some("xx".into()), channel: Some(1), ht: None },
        SessionRadioEntry { radio: Some("6e".into()), channel: None, ht: Some("auto".into()) },
    ];
    let stats = vec![
        SessionRadioStats { radio: Some("6e".into()), channel: Some(37) },
        SessionRadioStats { radio: Some("6e".into()), channel: Some(5) },
    ];
    let radios = parse_session_radios(&rows, &stats);
    assert_eq!(radios.len(), 2);
    assert_eq!(radios[0].frequency_mhz, 2400);
    assert_eq!(radios[0].channel, Some(6));
    assert_eq!(radios[0].channel_width_mhz, Some(20));
    assert_eq!(radios[1].frequency_mhz, 6000);
    assert_eq!(radios[1].channel, Some(37));
    assert_eq!(radios[1].channel_width_mhz, None);
}

#[test]
fn device_sync_keys() {
    assert!(is_device_sync("device:sync"));
    assert!(is_device_sync("device:update"));
    assert!(!is_device_sync("EVT_WU_Connected"));
}

#[test]
fn parse_event_from_raw_json() {
    let event = event_header(
        "events",
        Some("EVT_WU_Connected"),
        Some("wlan"),
        Some("abc123"),
        Some("User[aa:bb:cc:dd:ee:ff] connected"),
        None,
        Some("2026-02-10T12:00:00Z"),
    );
    assert_eq!(event.key, "EVT_WU_Connected");
    assert_eq!(event.subsystem, "wlan");
    assert_eq!(event.site_id, "abc123");
    assert_eq!(
        event.message.as_deref(),
        Some("User[aa:bb:cc:dd:ee:ff] connected")
    );
    assert_eq!(event.datetime.as_deref(), Some("2026-02-10T12:00:00Z"));
    assert!(event.keeps_payload);
}

#[test]
fn parse_sync_event_from_raw_json() {
    let event = event_header("device:sync", None, None, Some("site1"), None, None, None);
    assert_eq!(event.key, "device:sync");
    assert_eq!(event.subsystem, "unknown");
    assert_eq!(event.site_id, "site1");
    assert!(!event.keeps_payload, "sync frames must not retain the payload");
}

#[test]
fn event_message_falls_back_to_message_field() {
    let event = event_header("events", None, None, None, None, Some("Switch lost contact"), None);
    assert_eq!(event.key, "events");
    assert_eq!(event.site_id, "");
    assert_eq!(event.message.as_deref(), Some("Switch lost contact"));
}

#[test]
fn only_events_frames_are_typed() {
    assert!(frame_items_are_events(Some("events")));
    assert!(!frame_items_are_events(Some("device:sync")));
    assert!(!frame_items_are_events(None));
}

#[test]
fn ipv6_text_ignores_prefix_and_space() {
    let v = parse_ipv6_text("  2001:db8::1/64 ").expect("parses");
    assert_eq!(v, 0x2001_0db8_0000_0000_0000_0000_0000_0001);
    assert_eq!(parse_ipv6_text("10.0.0.1"), None);
}

#[test]
fn ipv6_pick_prefers_global_then_link_local() {
    let items = vec![None, Some("fe80::1".to_string()), Some("junk".to_string()), Some("2001:db8::2".to_string())];
    assert_eq!(pick_ipv6_from_value(&items).as_deref(), Some("2001:db8::2"));
    let items = vec![Some("fe80::1".to_string()), Some("fe80::2".to_string())];
    assert_eq!(pick_ipv6_from_value(&items).as_deref(), Some("fe80::1"));
    assert_eq!(pick_ipv6_from_value(&vec![]), None);
    let wan = vec![Some("junk".to_string())];
    let top = vec![Some("2001:0db8::0003".to_string())];
    assert_eq!(parse_session_device_wan_ipv6(Some(&wan), Some(&top)).as_deref(), Some("2001:db8::3"));
}

fn device() -> Device {
    Device {
        device_type: DeviceType::Gateway,
        mac: MacAddress::new("aa:bb"),
        client_count: Some(2),
        wan_ipv6: Some("2001:db8::9".into()),
        ports: vec![],
        radios: vec![],
        uplink_device_mac: None,
        uplink_port_idx: Some(5),
        stats: DeviceStats { uplink_bandwidth: Some(Bandwidth { tx_bytes_per_sec: 7, rx_bytes_per_sec: 8 }), uptime_secs: Some(10) },
    }
}

fn no_readings() -> DeviceSyncCounters {
    DeviceSyncCounters {
        uplink_tx_bytes_r: None,
        uplink_rx_bytes_r: None,
        tx_bytes_r: None,
        rx_bytes_r: None,
        underscore_uptime: None,
        uptime: None,
        num_sta: None,
        wan1_ipv6: None,
        ipv6: None,
    }
}

#[test]
fn device_sync_updates_what_the_frame_carries() {
    let mut r = no_readings();
    r.uplink_tx_bytes_r = Some(Some(100));
    r.rx_bytes_r = Some(Some(200));
    r.underscore_uptime = Some(Some(42));
    r.uptime = Some(Some(1));
    r.num_sta = Some(Some(5_000_000_000));
    let d = apply_device_sync(device(), &r);
    assert_eq!(d.stats.uplink_bandwidth, Some(Bandwidth { tx_bytes_per_sec: 100, rx_bytes_per_sec: 200 }));
    assert_eq!(d.stats.uptime_secs, Some(42));
    assert_eq!(d.client_count, Some(u32::MAX));
    assert_eq!(d.wan_ipv6.as_deref(), Some("2001:db8::9"));
    assert_eq!(d.uplink_port_idx, Some(5));
}

#[test]
fn device_sync_keeps_values_the_frame_lacks() {
    let mut r = no_readings();
    r.uplink_tx_bytes_r = Some(None);
    r.tx_bytes_r = Some(Some(100));
    r.rx_bytes_r = Some(Some(100));
    r.underscore_uptime = Some(Some(-5));
    let d = apply_device_sync(device(), &r);
    assert_eq!(d.stats.uplink_bandwidth, Some(Bandwidth { tx_bytes_per_sec: 7, rx_bytes_per_sec: 8 }));
    assert_eq!(d.stats.uptime_secs, Some(10));
    assert_eq!(d.client_count, Some(2));
    let mut zero = no_readings();
    zero.tx_bytes_r = Some(Some(0));
    zero.rx_bytes_r = Some(Some(0));
    zero.ipv6 = Some(vec![Some("2001:db8::a".into())]);
    let d = apply_device_sync(device(), &zero);
    assert_eq!(d.stats.uplink_bandwidth, Some(Bandwidth { tx_bytes_per_sec: 7, rx_bytes_per_sec: 8 }));
    assert_eq!(d.wan_ipv6.as_deref(), Some("2001:db8::a"));
}

#[test]
fn only_new_events_are_published() {
    let stored = vec!["a".to_string(), "b".to_string()];
    let incoming = vec!["b".to_string(), "c".to_string(), "d".to_string(), "c".to_string(), "a".to_string()];
    assert_eq!(unseen_events(&stored, &incoming), vec![1, 2]);
    assert_eq!(unseen_events(&vec![], &vec![]), Vec::<usize>::new());
}

#[test]
fn a_sync_frame_updates_only_the_device_it_names() {
    let mut other = device();
    other.mac = MacAddress::new("cc:dd");
    let mut devices = vec![other, device()];
    let mut r = no_readings();
    r.num_sta = Some(Some(11));
    sync_device_in(&mut devices, Some("aa:bb"), &r);
    assert_eq!(devices.len(), 2);
    assert_eq!(devices[0].client_count, Some(2));
    assert_eq!(devices[1].client_count, Some(11));
    assert_eq!(devices[1].mac.as_str(), "aa:bb");
    sync_device_in(&mut devices, Some("ee:ff"), &r);
    sync_device_in(&mut devices, None, &r);
    assert_eq!(devices[0].client_count, Some(2));
    assert_eq!(devices[0].mac.as_str(), "cc:dd");
}
