use unifly::backoff::{step_after_connection, ReconnectConfig, ReconnectStep};
use unifly::interface::{
    parse_integration_ports, parse_integration_radios, IntegrationPoeFields, IntegrationPortFields,
    IntegrationRadioFields, PortConnector, PortState,
};
use unifly::models::{lenient_bool_text, lenient_u32_of, lenient_u64_text};
use unifly::refresh::{required_listings, unwrap_or_empty};
use unifly::session::{classify_raw, Error, SessionAuth};
use unifly::support::{build_transport, TlsMode, TlsVerification};
use unifly::tui::{direct_connection, profile_name, DirectAuth};

#[test]
fn lenient_booleans_accept_words_and_digits() {
    assert_eq!(lenient_bool_text("true"), Some(true));
    assert_eq!(lenient_bool_text(" YES "), Some(true));
    assert_eq!(lenient_bool_text("1"), Some(true));
    assert_eq!(lenient_bool_text("False"), Some(false));
    assert_eq!(lenient_bool_text("0"), Some(false));
    assert_eq!(lenient_bool_text("no"), Some(false));
    assert_eq!(lenient_bool_text("auto"), None);
    assert_eq!(lenient_bool_text(""), None);
}

#[test]
fn lenient_numbers_read_trimmed_digits_only() {
    assert_eq!(lenient_u64_text("7"), Some(7));
    assert_eq!(lenient_u64_text("  42 "), Some(42));
    assert_eq!(lenient_u64_text("18446744073709551615"), Some(u64::MAX));
    assert_eq!(lenient_u64_text("18446744073709551616"), None);
    assert_eq!(lenient_u64_text("auto"), None);
    assert_eq!(lenient_u64_text("-1"), None);
    assert_eq!(lenient_u64_text(""), None);
    assert_eq!(lenient_u32_of(Some(5)), Some(5));
    assert_eq!(lenient_u32_of(Some(u64::from(u32::MAX) + 1)), None);
    assert_eq!(lenient_u32_of(None), None);
}

fn port(idx: Option<u64>) -> IntegrationPortFields {
    IntegrationPortFields {
        idx,
        name: Some("Port 1".into()),
        state: Some("UP".into()),
        speed_mbps: Some(1000),
        max_speed_mbps: Some(u64::from(u32::MAX) + 10),
        connector: Some("sfp+".into()),
        poe: Some(IntegrationPoeFields { standard: Some("802.3at".into()), enabled: None, state: Some("down".into()) }),
    }
}

#[test]
fn integration_ports_skip_entries_without_index() {
    assert!(parse_integration_ports(None).is_empty());
    let mut plain = port(Some(2));
    plain.state = Some("weird".into());
    plain.connector = Some("coax".into());
    plain.poe = None;
    let entries = vec![port(Some(1)), port(None), plain];
    let ports = parse_integration_ports(Some(&entries));
    assert_eq!(ports.len(), 2);
    assert_eq!(ports[0].index, 1);
    assert_eq!(ports[0].state, PortState::Up);
    assert_eq!(ports[0].speed_mbps, Some(1000));
    assert_eq!(ports[0].max_speed_mbps, Some(9));
    assert_eq!(ports[0].connector, Some(PortConnector::SfpPlus));
    let poe = ports[0].poe.as_ref().expect("poe");
    assert_eq!(poe.standard.as_deref(), Some("802.3at"));
    assert!(!poe.enabled);
    assert_eq!(poe.state, PortState::Down);
    assert_eq!(ports[1].index, 2);
    assert_eq!(ports[1].state, PortState::Unknown);
    assert_eq!(ports[1].connector, None);
    assert!(ports[1].poe.is_none());
}

#[test]
fn integration_radios_need_a_frequency() {
    assert!(parse_integration_radios(None).is_empty());
    let entries = vec![
        IntegrationRadioFields {
            frequency_mhz: Some(5000),
            channel: Some(36),
            channel_width_mhz: Some(80),
            wlan_standard: Some("802.11ax".into()),
        },
        IntegrationRadioFields { frequency_mhz: None, channel: Some(1), channel_width_mhz: None, wlan_standard: None },
        IntegrationRadioFields {
            frequency_mhz: Some(2400),
            channel: Some(u64::from(u32::MAX) + 7),
            channel_width_mhz: None,
            wlan_standard: None,
        },
    ];
    let radios = parse_integration_radios(Some(&entries));
    assert_eq!(radios.len(), 2);
    assert_eq!(radios[0].frequency_mhz, 5000);
    assert_eq!(radios[0].channel, Some(36));
    assert_eq!(radios[0].channel_width_mhz, Some(80));
    assert_eq!(radios[0].wlan_standard.as_deref(), Some("802.11ax"));
    assert_eq!(radios[1].frequency_mhz, 2400);
    assert_eq!(radios[1].channel, Some(6));
    assert_eq!(radios[1].channel_width_mhz, None);
}

#[test]
fn raw_responses_are_classified_like_envelopes() {
    let ok: Result<u8, Error> = classify_raw(SessionAuth::Cookie, 200, "200 OK", b"1", Ok(1));
    assert_eq!(ok.unwrap(), 1);
    assert!(matches!(
        classify_raw::<u8>(SessionAuth::Cookie, 401, "401 Unauthorized", b"", Ok(1)),
        Err(Error::SessionExpired)
    ));
    assert!(matches!(
        classify_raw::<u8>(SessionAuth::ApiKey, 401, "401 Unauthorized", b"", Ok(1)),
        Err(Error::InvalidApiKey)
    ));
    match classify_raw::<u8>(SessionAuth::Cookie, 404, "404 Not Found", b"missing", Ok(1)) {
        Err(Error::SessionApi { message }) => assert_eq!(message, "HTTP 404 Not Found: missing"),
        other => panic!("unexpected {other:?}"),
    }
    match classify_raw::<u8>(SessionAuth::Cookie, 200, "200 OK", b"{oops", Err("expected value".into())) {
        Err(Error::Deserialization { message, body }) => {
            assert_eq!(message, "expected value");
            assert_eq!(body, "{oops");
        }
        other => panic!("unexpected {other:?}"),
    }
}

#[test]
fn a_clean_close_reconnects_at_once_and_resets_the_count() {
    let config = ReconnectConfig { initial_delay_ms: 1000, max_delay_ms: 30_000, max_retries: Some(2) };
    assert_eq!(step_after_connection(5, true, &config), ReconnectStep::Retry { delay_ms: 0, next_attempt: 0 });
    assert_eq!(step_after_connection(1, false, &config), ReconnectStep::Retry { delay_ms: 2000, next_attempt: 2 });
    assert_eq!(step_after_connection(2, false, &config), ReconnectStep::GiveUp);
}

#[test]
fn optional_endpoints_convert_with_from() {
    let ok: Result<Vec<u32>, String> = Ok(vec![1, 2, 3]);
    let wide: Vec<u64> = unwrap_or_empty(ok);
    assert_eq!(wide, vec![1u64, 2, 3]);
    let failed: Result<Vec<u32>, String> = Err("404".into());
    let none: Vec<u64> = unwrap_or_empty(failed);
    assert!(none.is_empty());
}

#[test]
fn profiles_resolve_flag_then_default_then_literal() {
    assert_eq!(profile_name(Some("lab"), Some("home")), "lab");
    assert_eq!(profile_name(None, Some("home")), "home");
    assert_eq!(profile_name(None, None), "default");
}

#[test]
fn transport_takes_tls_and_timeout_without_a_jar() {
    let t = build_transport(&TlsVerification::DangerAcceptInvalid, 30);
    assert!(matches!(t.tls, TlsMode::DangerAcceptInvalid));
    assert_eq!(t.timeout_secs, 30);
    assert!(!t.cookie_jar);
}

#[test]
fn flag_connections_need_a_url_and_an_api_key() {
    let cloud_url = "https://api.ui.com";
    assert!(direct_connection(None, None, cloud_url, true, false, None, None, false).is_none());
    assert!(direct_connection(Some("https://10.0.0.1"), None, cloud_url, false, false, None, None, false).is_none());
    assert!(direct_connection(Some("not a url"), None, cloud_url, true, false, None, None, false).is_none());

    let local = direct_connection(Some("https://10.0.0.1"), None, cloud_url, true, false, Some("lab"), Some(true), false)
        .expect("local connection");
    assert_eq!(local.url.url().as_str(), "https://10.0.0.1/");
    assert_eq!(local.url.source_text(), "https://10.0.0.1");
    assert!(matches!(local.auth, DirectAuth::ApiKey));
    assert_eq!(local.site, "lab");
    assert!(matches!(local.tls, TlsVerification::DangerAcceptInvalid));
    assert_eq!(
        (local.timing.refresh_interval_secs, local.timing.websocket_enabled, local.timing.polling_interval_secs),
        (10, true, 10)
    );
    assert!(!local.no_session_cache);

    let hybrid = direct_connection(Some("https://10.0.0.1"), None, cloud_url, true, true, None, None, true)
        .expect("hybrid connection");
    assert!(matches!(hybrid.auth, DirectAuth::Hybrid));
    assert_eq!(hybrid.site, "default");
    assert!(matches!(hybrid.tls, TlsVerification::SystemDefaults));
    assert!(hybrid.no_session_cache);

    let cloud = direct_connection(None, Some("console-1"), cloud_url, true, true, None, Some(true), false)
        .expect("cloud connection");
    assert_eq!(cloud.url.url().as_str(), "https://api.ui.com/");
    assert_eq!(cloud.url.source_text(), "https://api.ui.com");
    assert!(matches!(cloud.auth, DirectAuth::Cloud { ref host_id } if host_id == "console-1"));
    assert!(matches!(cloud.tls, TlsVerification::SystemDefaults));
    assert_eq!(
        (cloud.timing.refresh_interval_secs, cloud.timing.websocket_enabled, cloud.timing.polling_interval_secs),
        (60, false, 30)
    );
    assert!(cloud.no_session_cache);
}

#[test]
fn the_first_failed_required_listing_aborts_the_refresh() {
    let all = required_listings::<u8, u8, u8, u8, u8, u8, &str>(
        Ok(vec![1]),
        Ok(vec![2]),
        Ok(vec![3]),
        Ok(vec![4]),
        Ok(vec![5]),
        Ok(vec![]),
    )
    .unwrap();
    assert_eq!(
        (all.devices, all.clients, all.networks, all.wifi, all.sites, all.traffic_matching_lists),
        (vec![1], vec![2], vec![3], vec![4], vec![5], vec![])
    );
    let failed = required_listings::<u8, u8, u8, u8, u8, u8, &str>(
        Ok(vec![1]),
        Ok(vec![2]),
        Err("networks"),
        Ok(vec![4]),
        Err("sites"),
        Ok(vec![]),
    );
    assert_eq!(failed.unwrap_err(), "networks");
    let last = required_listings::<u8, u8, u8, u8, u8, u8, &str>(
        Ok(vec![]),
        Ok(vec![]),
        Ok(vec![]),
        Ok(vec![]),
        Ok(vec![]),
        Err("tml"),
    );
    assert_eq!(last.unwrap_err(), "tml");
}
