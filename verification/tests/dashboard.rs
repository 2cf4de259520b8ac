use unifly::refresh::{refresh_path, stats_poll_applies, unwrap_or_empty_with, RefreshPath};
use unifly::support::{
    require_integration, require_session, require_uuid, tls_to_transport, unsupported, EntityId,
    TlsMode, TlsVerification,
};
use unifly::error::CoreError;
use unifly::model::{Bandwidth, Device, DeviceStats, DeviceType, HealthSummary, MacAddress};
use unifly::support::{convert_health_summaries, HealthFields};
use unifly::tui::{
    bandwidth_scale_reference, connection_timing, direct_tls, resolve_effects_enabled, sample_due, tick_signal,
    update_peaks, BandwidthSample, ConnectionStatus, DashboardAction, DashboardScreen, Peaks, TickSignal,
};

type Screen = DashboardScreen<(), String>;

#[test]
fn current_bandwidth_prefers_most_recent_sample() {
    let mut screen: Screen = DashboardScreen::new();
    let base = 0;
    screen.device_bandwidth = Some(BandwidthSample { tx_bps: 10, rx_bps: 20, captured_at_ms: base });
    screen.health_bandwidth = Some(BandwidthSample { tx_bps: 30, rx_bps: 40, captured_at_ms: base + 1000 });

    assert_eq!(screen.current_bandwidth(), Some((30, 40)));
}

#[test]
fn current_bandwidth_falls_back_to_the_only_reading() {
    let mut screen: Screen = DashboardScreen::new();
    assert_eq!(screen.current_bandwidth(), None);
    screen.health_bandwidth = Some(BandwidthSample { tx_bps: 30, rx_bps: 40, captured_at_ms: 0 });
    screen.device_bandwidth = Some(BandwidthSample { tx_bps: 10, rx_bps: 20, captured_at_ms: 5 });
    assert_eq!(screen.current_bandwidth(), Some((10, 20)));
    screen.health_bandwidth = None;
    assert_eq!(screen.current_bandwidth(), Some((10, 20)));
}

#[test]
fn bandwidth_scaling_uses_recent_visible_samples() {
    let mut screen: Screen = DashboardScreen::new();
    for idx in 1..=4u64 {
        screen.history.tx.push((idx, idx * 1000));
        screen.history.rx.push((idx, idx * 500));
    }

    let reference = bandwidth_scale_reference(&screen.history.tx);
    assert!(reference >= 4_000);
}

#[test]
fn bandwidth_scale_takes_the_85th_percentile_of_the_last_48_positive_samples() {
    // 100 samples valued 1..=100, then a latest sample of 0: the window is
    // the last 48 (values 54..=100 and the 0), of which 47 are positive;
    // index (47 - 1) * 85 / 100 = 39 of the sorted positives is 93.
    let mut series: Vec<(u64, u64)> = (1..=100u64).map(|i| (i, i)).collect();
    series.push((101, 0));
    assert_eq!(bandwidth_scale_reference(&series), 93);
    // The latest sample raises the reference when it is larger.
    series.push((102, 5000));
    assert_eq!(bandwidth_scale_reference(&series), 5000);
    assert_eq!(bandwidth_scale_reference(&vec![(1, 0), (2, 0)]), 0);
    assert_eq!(bandwidth_scale_reference(&vec![]), 0);
}

#[test]
fn focused_tick_pulses_on_new_peak_after_sampling() {
    let mut screen: Screen = DashboardScreen::new();
    screen.focused = true;
    let now = 0;
    screen.device_bandwidth = Some(BandwidthSample { tx_bps: 10_000, rx_bps: 40_000, captured_at_ms: now });

    let action = screen.apply_action(DashboardAction::Tick, now);

    assert!(matches!(action, Some(TickSignal::ChartPeak)));
    assert_eq!(screen.history.tx.len(), 1);
    assert_eq!(screen.history.rx.len(), 1);
}

#[test]
fn focused_tick_invalidates_without_new_peak() {
    let mut screen: Screen = DashboardScreen::new();
    screen.focused = true;
    let now = 0;
    screen.history.peaks = Peaks { tx: 100_000, rx: 100_000 };
    screen.device_bandwidth = Some(BandwidthSample { tx_bps: 10_000, rx_bps: 40_000, captured_at_ms: now });

    let action = screen.apply_action(DashboardAction::Tick, now);

    assert!(matches!(action, Some(TickSignal::Invalidate)));
}

#[test]
fn ticks_sample_once_a_second_and_unfocused_screens_stay_quiet() {
    let mut screen: Screen = DashboardScreen::new();
    screen.device_bandwidth = Some(BandwidthSample { tx_bps: 5, rx_bps: 6, captured_at_ms: 0 });
    assert_eq!(screen.apply_action(DashboardAction::Tick, 0), None);
    assert_eq!(screen.history.tx, vec![(1, 5)]);
    assert_eq!(screen.history.rx, vec![(1, 6)]);
    // Half a second later no new sample is taken.
    screen.focused = true;
    assert_eq!(screen.apply_action(DashboardAction::Tick, 500), Some(TickSignal::Invalidate));
    assert_eq!(screen.history.tx.len(), 1);
    // A second after the first sample the next one is due.
    assert_eq!(screen.apply_action(DashboardAction::Tick, 1000), Some(TickSignal::Invalidate));
    assert_eq!(screen.history.tx, vec![(1, 5), (2, 5)]);
    assert_eq!(screen.last_chart_sample_ms, Some(1000));
}

#[test]
fn the_chart_keeps_the_last_minute() {
    let mut screen: Screen = DashboardScreen::new();
    for i in 0..61u64 {
        screen.device_bandwidth = Some(BandwidthSample { tx_bps: i, rx_bps: 2 * i, captured_at_ms: i * 1000 });
        screen.apply_action(DashboardAction::Tick, i * 1000);
    }
    assert_eq!(screen.history.tx.len(), 60);
    assert_eq!(screen.history.tx[0], (2, 1));
    assert_eq!(screen.history.rx[59], (61, 120));
    assert_eq!(screen.history.sample_counter, 61);
    assert_eq!(screen.history.peaks, Peaks { tx: 60, rx: 120 });
}

fn device(device_type: DeviceType, bw: Option<(u64, u64)>) -> Device {
    Device {
        mac: MacAddress::new("aa:bb"),
        device_type,
        client_count: None,
        wan_ipv6: None,
        ports: vec![],
        radios: vec![],
        uplink_device_mac: None,
        uplink_port_idx: None,
        stats: DeviceStats {
            uplink_bandwidth: bw.map(|(tx, rx)| Bandwidth { tx_bytes_per_sec: tx, rx_bytes_per_sec: rx }),
            uptime_secs: None,
        },
    }
}

fn health(subsystem: &str, tx: Option<u64>, rx: Option<u64>) -> HealthSummary {
    HealthSummary {
        subsystem: subsystem.into(),
        status: "ok".into(),
        num_adopted: None,
        num_sta: None,
        tx_bytes_r: tx,
        rx_bytes_r: rx,
        wan_ip: None,
        gateways: None,
    }
}

#[test]
fn device_update_reads_the_first_gateway_and_raises_the_peaks() {
    let mut screen: Screen = DashboardScreen::new();
    screen.focused = true;
    let devices = vec![
        device(DeviceType::Switch, Some((999, 999))),
        device(DeviceType::Gateway, Some((100, 200))),
        device(DeviceType::Gateway, Some((7, 7))),
    ];
    let signal = screen.apply_action(DashboardAction::DevicesUpdated(devices), 42);
    assert_eq!(signal, Some(TickSignal::ChartPeak));
    assert_eq!(screen.device_bandwidth, Some(BandwidthSample { tx_bps: 100, rx_bps: 200, captured_at_ms: 42 }));
    assert_eq!(screen.last_data_update_ms, Some(42));
    assert_eq!(screen.history.peaks, Peaks { tx: 100, rx: 200 });
    assert_eq!(screen.devices.len(), 3);
    assert!(screen.history.tx.is_empty());
    // The same reading again does not raise the peak.
    let again = vec![device(DeviceType::Gateway, Some((100, 200)))];
    assert_eq!(screen.apply_action(DashboardAction::DevicesUpdated(again), 43), None);
    // A gateway without uplink throughput clears the reading.
    let silent = vec![device(DeviceType::Gateway, None), device(DeviceType::Gateway, Some((1, 1)))];
    assert_eq!(screen.apply_action(DashboardAction::DevicesUpdated(silent), 44), None);
    assert_eq!(screen.device_bandwidth, None);
}

#[test]
fn health_update_reads_the_wan_subsystem() {
    let mut screen: Screen = DashboardScreen::new();
    let hs = vec![health("lan", Some(5), Some(5)), health("wan", Some(300), None)];
    // Unfocused: the peaks rise but nothing is signalled.
    assert_eq!(screen.apply_action(DashboardAction::HealthUpdated(hs), 7), None);
    assert_eq!(screen.health_bandwidth, Some(BandwidthSample { tx_bps: 300, rx_bps: 0, captured_at_ms: 7 }));
    assert_eq!(screen.history.peaks, Peaks { tx: 300, rx: 0 });
    assert_eq!(screen.health.len(), 2);
}

#[test]
fn events_are_kept_up_to_a_hundred() {
    let mut screen: Screen = DashboardScreen::new();
    for i in 0..105 {
        assert_eq!(screen.apply_action(DashboardAction::EventReceived(format!("e{i}")), 0), None);
    }
    assert_eq!(screen.events.len(), 100);
    assert_eq!(screen.events[0], "e5");
    assert_eq!(screen.events[99], "e104");
    assert_eq!(screen.apply_action(DashboardAction::Other, 0), None);
    assert_eq!(screen.events.len(), 100);
}

#[test]
fn refresh_age_reads_like_the_title_bar() {
    let mut screen: Screen = DashboardScreen::new();
    assert_eq!(screen.refresh_age_str(0), "no data");
    screen.last_data_update_ms = Some(10_000);
    assert_eq!(screen.refresh_age_str(14_999), "just now");
    assert_eq!(screen.refresh_age_str(15_000), "5s ago");
    assert_eq!(screen.refresh_age_str(69_999), "59s ago");
    assert_eq!(screen.refresh_age_str(70_000), "1m ago");
    assert_eq!(screen.refresh_age_str(10_000 + 3_600_000), "60m ago");
    assert_eq!(screen.refresh_age_str(0), "just now");
}

#[test]
fn peaks_and_tick_signals() {
    let mut peaks = Peaks { tx: 0, rx: 0 };
    assert!(sample_due(None, 0, 1000));
    let grew = update_peaks(&mut peaks, 10_000, 40_000);
    assert!(grew);
    assert_eq!(tick_signal(true, Some(grew), true), Some(TickSignal::ChartPeak));
    let mut high = Peaks { tx: 100_000, rx: 100_000 };
    assert!(!update_peaks(&mut high, 10_000, 40_000));
    assert_eq!(tick_signal(false, Some(true), true), None);
    assert_eq!(tick_signal(true, None, false), None);
}

#[test]
fn health_summaries_default_names_and_cut_counters() {
    let raw = vec![
        HealthFields {
            subsystem: Some("wan".into()),
            status: None,
            num_adopted: Some(u64::from(u32::MAX) + 3),
            num_sta: Some(12),
            tx_bytes_r: Some(1),
            rx_bytes_r: None,
            wan_ip: Some("203.0.113.1".into()),
            gateways: Some(vec![Some("gw1".into()), None, Some("gw2".into())]),
        },
        HealthFields {
            subsystem: None,
            status: Some("ok".into()),
            num_adopted: None,
            num_sta: None,
            tx_bytes_r: None,
            rx_bytes_r: None,
            wan_ip: None,
            gateways: None,
        },
    ];
    let out = convert_health_summaries(raw);
    assert_eq!(out.len(), 2);
    assert_eq!(out[0].subsystem, "wan");
    assert_eq!(out[0].status, "unknown");
    assert_eq!(out[0].num_adopted, Some(2));
    assert_eq!(out[0].num_sta, Some(12));
    assert_eq!(out[0].tx_bytes_r, Some(1));
    assert_eq!(out[0].wan_ip.as_deref(), Some("203.0.113.1"));
    assert_eq!(out[0].gateways, Some(vec!["gw1".to_string(), "gw2".to_string()]));
    assert_eq!(out[1].subsystem, "unknown");
    assert_eq!(out[1].status, "ok");
    assert_eq!(out[1].gateways, None);
}

#[test]
fn samples_are_spaced_by_the_interval() {
    assert!(!sample_due(Some(1000), 1500, 1000));
    assert!(sample_due(Some(1000), 2000, 1000));
    assert!(!sample_due(Some(5000), 1000, 1000));
}

#[test]
fn effects_and_timing_settings() {
    assert!(resolve_effects_enabled(false, false, None));
    assert!(!resolve_effects_enabled(true, false, Some(true)));
    assert!(!resolve_effects_enabled(false, true, None));
    assert!(!resolve_effects_enabled(false, false, Some(false)));
    let cloud = connection_timing(true);
    assert_eq!((cloud.refresh_interval_secs, cloud.websocket_enabled, cloud.polling_interval_secs), (60, false, 30));
    let local = connection_timing(false);
    assert_eq!((local.refresh_interval_secs, local.websocket_enabled, local.polling_interval_secs), (10, true, 10));
    assert!(matches!(direct_tls(true, Some(true)), TlsVerification::SystemDefaults));
    assert!(matches!(direct_tls(false, Some(true)), TlsVerification::DangerAcceptInvalid));
    assert!(matches!(direct_tls(false, None), TlsVerification::SystemDefaults));
    assert_eq!(ConnectionStatus::default(), ConnectionStatus::Disconnected);
}

#[test]
fn refresh_paths_and_poll_gate() {
    assert_eq!(refresh_path(true, Some(7)), RefreshPath::Integration { site_id: 7 });
    assert_eq!(refresh_path(false, Some(7)), RefreshPath::Session);
    assert_eq!(refresh_path(true, None), RefreshPath::Session);
    assert!(stats_poll_applies(true, Some(1), 3));
    assert!(!stats_poll_applies(true, Some(1), 0));
    assert!(!stats_poll_applies(false, Some(1), 3));
}

#[test]
fn optional_endpoints_degrade_to_empty() {
    let ok: Result<Vec<i32>, String> = Ok(vec![1, -2, 3]);
    let kept = unwrap_or_empty_with(ok, |x: i32| if x > 0 { Some(x * 10) } else { None });
    assert_eq!(kept, vec![10, 30]);
    let failed: Result<Vec<i32>, String> = Err("404".into());
    assert!(unwrap_or_empty_with(failed, |x: i32| Some(x)).is_empty());
}

#[test]
fn unavailable_operations_report_what_they_need() {
    assert_eq!(require_uuid(&EntityId::Uuid(5)).unwrap(), 5);
    match require_uuid(&EntityId::Legacy("abc".into())) {
        Err(CoreError::Unsupported { operation, required }) => {
            assert_eq!(operation, "Integration API operation on legacy ID");
            assert_eq!(required, "UUID-based entity ID");
        }
        other => panic!("unexpected {other:?}"),
    }
    assert!(matches!(require_session::<u8>(None), Err(CoreError::Unsupported { .. })));
    assert_eq!(*require_session(Some(&3u8)).unwrap(), 3);
    match unsupported("list vouchers") {
        CoreError::Unsupported { operation, required } => {
            assert_eq!(operation, "list vouchers");
            assert_eq!(required, "Integration API");
        }
        other => panic!("unexpected {other:?}"),
    }
    assert!(require_integration(Some(&1u8), None, "op").is_err());
    assert_eq!(require_integration(Some(&1u8), Some(9), "op").unwrap().1, 9);
    assert!(matches!(tls_to_transport(&TlsVerification::CustomCa("/ca.pem".into())), TlsMode::CustomCa(p) if p == "/ca.pem"));
}
