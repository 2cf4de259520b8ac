//! Conversion of session port and radio tables into the device model.

use vstd::prelude::*;

use crate::models::{SessionPortEntry, SessionRadioEntry, SessionRadioStats};
use crate::session::opt_view;
use crate::text::{chars_eq, chars_of, parse_unsigned, parse_unsigned_chars};

verus! {

/// Link state of a port.
#[derive(Debug, Clone, Copy, PartialEq, Eq, Structural)]
pub enum PortState {
    Up,
    Down,
    Unknown,
}

/// Physical connector of a port.
#[derive(Debug, Clone, Copy, PartialEq, Eq, Structural)]
pub enum PortConnector {
    Rj45,
    Sfp,
    SfpPlus,
    Sfp28,
    Qsfp28,
}

/// Power-over-Ethernet facts of a port.
#[derive(Debug, Clone)]
pub struct PoeInfo {
    pub standard: Option<String>,
    pub enabled: bool,
    pub state: PortState,
}

/// One physical port of a device.
#[derive(Debug, Clone)]
pub struct Port {
    pub index: u32,
    pub name: Option<String>,
    pub state: PortState,
    pub speed_mbps: Option<u32>,
    pub max_speed_mbps: Option<u32>,
    pub connector: Option<PortConnector>,
    pub poe: Option<PoeInfo>,
}

/// One radio of an access point. The band is given in MHz (2400, 5000,
/// 6000).
#[derive(Debug, Clone)]
pub struct Radio {
    pub frequency_mhz: u32,
    pub channel: Option<u32>,
    pub channel_width_mhz: Option<u32>,
    pub wlan_standard: Option<String>,
}

/// The state a port-state token names.
pub open spec fn port_state_of(raw: Seq<char>) -> PortState {
    if raw == "UP"@ || raw == "up"@ {
        PortState::Up
    } else if raw == "DOWN"@ || raw == "down"@ {
        PortState::Down
    } else {
        PortState::Unknown
    }
}

/// Reads a port state token (`UP`/`up`, `DOWN`/`down`; anything else is
/// unknown).
pub fn parse_port_state(raw: &str) -> (s: PortState)
    ensures
        s == port_state_of(raw@),
{
    let r = chars_of(raw);
    if chars_eq(&r, &chars_of("UP")) || chars_eq(&r, &chars_of("up")) {
        PortState::Up
    } else if chars_eq(&r, &chars_of("DOWN")) || chars_eq(&r, &chars_of("down")) {
        PortState::Down
    } else {
        PortState::Unknown
    }
}

/// The connector a connector token names.
pub open spec fn connector_of(raw: Seq<char>) -> Option<PortConnector> {
    if raw == "RJ45"@ || raw == "rj45"@ {
        Some(PortConnector::Rj45)
    } else if raw == "SFP"@ || raw == "sfp"@ {
        Some(PortConnector::Sfp)
    } else if raw == "SFPPLUS"@ || raw == "SFP+"@ || raw == "sfp+"@ {
        Some(PortConnector::SfpPlus)
    } else if raw == "SFP28"@ || raw == "sfp28"@ {
        Some(PortConnector::Sfp28)
    } else if raw == "QSFP28"@ || raw == "qsfp28"@ {
        Some(PortConnector::Qsfp28)
    } else {
        None
    }
}

/// Reads an Integration API connector token.
pub fn parse_port_connector(raw: &str) -> (c: Option<PortConnector>)
    ensures
        c == connector_of(raw@),
{
    let r = chars_of(raw);
    if chars_eq(&r, &chars_of("RJ45")) || chars_eq(&r, &chars_of("rj45")) {
        Some(PortConnector::Rj45)
    } else if chars_eq(&r, &chars_of("SFP")) || chars_eq(&r, &chars_of("sfp")) {
        Some(PortConnector::Sfp)
    } else if chars_eq(&r, &chars_of("SFPPLUS")) || chars_eq(&r, &chars_of("SFP+")) || chars_eq(&r, &chars_of("sfp+")) {
        Some(PortConnector::SfpPlus)
    } else if chars_eq(&r, &chars_of("SFP28")) || chars_eq(&r, &chars_of("sfp28")) {
        Some(PortConnector::Sfp28)
    } else if chars_eq(&r, &chars_of("QSFP28")) || chars_eq(&r, &chars_of("qsfp28")) {
        Some(PortConnector::Qsfp28)
    } else {
        None
    }
}

/// The connector a session `media` token names.
pub open spec fn media_connector(media: Option<Seq<char>>) -> Option<PortConnector> {
    match media {
        Some(m) => if m == "GE"@ || m == "FE"@ {
            Some(PortConnector::Rj45)
        } else if m == "SFP"@ {
            Some(PortConnector::Sfp)
        } else if m == "SFP+"@ {
            Some(PortConnector::SfpPlus)
        } else {
            None
        },
        None => None,
    }
}

fn media_to_connector(media: &Option<String>) -> (c: Option<PortConnector>)
    ensures
        c == media_connector(opt_view(*media)),
{
    match media {
        Some(m) => {
            let r = chars_of(m.as_str());
            if chars_eq(&r, &chars_of("GE")) || chars_eq(&r, &chars_of("FE")) {
                Some(PortConnector::Rj45)
            } else if chars_eq(&r, &chars_of("SFP")) {
                Some(PortConnector::Sfp)
            } else if chars_eq(&r, &chars_of("SFP+")) {
                Some(PortConnector::SfpPlus)
            } else {
                None
            }
        },
        None => None,
    }
}

/// The PoE standard named by a `poe_caps` value.
pub open spec fn poe_standard(caps: Option<u64>) -> Option<Seq<char>> {
    match caps {
        Some(7) => Some("802.3bt"@),
        Some(3) => Some("802.3at"@),
        Some(_) => Some("802.3af"@),
        None => None,
    }
}

/// The state that a flag stands for: up when set, down otherwise.
pub open spec fn up_if(flag: Option<bool>) -> PortState {
    if flag == Some(true) {
        PortState::Up
    } else {
        PortState::Down
    }
}

/// `port` is the conversion of the session row `e`.
pub open spec fn port_from_session(port: Port, e: SessionPortEntry) -> bool {
    &&& e.port_idx == Some(port.index)
    &&& port.name == e.name
    &&& port.state == up_if(e.up)
    &&& port.speed_mbps == e.speed
    &&& port.max_speed_mbps is None
    &&& port.connector == media_connector(opt_view(e.media))
    &&& if e.port_poe == Some(true) {
        port.poe matches Some(poe) && opt_view(poe.standard) == poe_standard(e.poe_caps) && poe.enabled
            == (e.poe_enable == Some(true)) && poe.state == up_if(e.poe_good)
    } else {
        port.poe is None
    }
}

/// The session rows that carry a port index, in order.
pub open spec fn indexed_rows(rows: Seq<SessionPortEntry>) -> Seq<SessionPortEntry>
    decreases rows.len(),
{
    if rows.len() == 0 {
        Seq::empty()
    } else {
        let rest = indexed_rows(rows.drop_last());
        if rows.last().port_idx is Some {
            rest.push(rows.last())
        } else {
            rest
        }
    }
}

/// `ports` converts `rows` one for one.
pub open spec fn ports_from_rows(ports: Seq<Port>, rows: Seq<SessionPortEntry>) -> bool {
    &&& ports.len() == rows.len()
    &&& forall|i: int| 0 <= i < ports.len() ==> port_from_session(#[trigger] ports[i], rows[i])
}

fn flag(b: Option<bool>) -> (r: bool)
    ensures
        r == (b == Some(true)),
{
    match b {
        Some(v) => v,
        None => false,
    }
}

fn state_if(b: Option<bool>) -> (s: PortState)
    ensures
        s == up_if(b),
{
    if flag(b) {
        PortState::Up
    } else {
        PortState::Down
    }
}

fn session_port(e: &SessionPortEntry, idx: u32) -> (p: Port)
    requires
        e.port_idx == Some(idx),
    ensures
        port_from_session(p, *e),
{
    let poe = if flag(e.port_poe) {
        let standard = match e.poe_caps {
            Some(caps) => Some(
                if caps == 7 {
                    String::from_str("802.3bt")
                } else if caps == 3 {
                    String::from_str("802.3at")
                } else {
                    String::from_str("802.3af")
                },
            ),
            None => None,
        };
        Some(PoeInfo { standard, enabled: flag(e.poe_enable), state: state_if(e.poe_good) })
    } else {
        None
    };
    Port {
        index: idx,
        name: e.name.clone(),
        state: state_if(e.up),
        speed_mbps: e.speed,
        max_speed_mbps: None,
        connector: media_to_connector(&e.media),
        poe,
    }
}

/// Converts session `port_table` rows into ports, skipping rows without a
/// `port_idx` (the controller's 1-based port number).
pub fn parse_session_ports(rows: &Vec<SessionPortEntry>) -> (ports: Vec<Port>)
    ensures
        ports_from_rows(ports@, indexed_rows(rows@)),
        forall|i: int| #![trigger ports@[i]] 0 <= i < ports@.len() ==> {
            let e = indexed_rows(rows@)[i];
            &&& e.port_poe == Some(true) ==> ports@[i].poe is Some
            &&& e.port_poe != Some(true) ==> ports@[i].poe is None
            &&& e.port_poe == Some(true) && e.poe_caps == Some(3u64)
                ==> opt_view(ports@[i].poe->0.standard) == Some("802.3at"@)
            &&& e.port_poe == Some(true) && e.poe_caps == Some(7u64)
                ==> opt_view(ports@[i].poe->0.standard) == Some("802.3bt"@)
            &&& e.port_poe == Some(true) && e.poe_caps is Some && e.poe_caps != Some(3u64) && e.poe_caps != Some(7u64)
                ==> opt_view(ports@[i].poe->0.standard) == Some("802.3af"@)
            &&& e.port_poe == Some(true) && e.poe_caps is None ==> ports@[i].poe->0.standard is None
        },
{
    let mut ports: Vec<Port> = Vec::new();
    let mut i: usize = 0;
    while i < rows.len()
        invariant
            i <= rows@.len(),
            ports_from_rows(ports@, indexed_rows(rows@.take(i as int))),
        decreases rows@.len() - i,
    {
        proof {
            assert(rows@.take(i + 1).drop_last() =~= rows@.take(i as int));
            assert(rows@.take(i + 1).last() == rows@[i as int]);
        }
        match rows[i].port_idx {
            Some(idx) => {
                let p = session_port(&rows[i], idx);
                ports.push(p);
            },
            None => {},
        }
        i = i + 1;
    }
    assert(rows@.take(rows@.len() as int) =~= rows@);
    ports
}

/// The PoE standard of a PoE port follows its capability code: 7 is
/// 802.3bt, 3 is 802.3at, any other code 802.3af, and no code names no
/// standard. A row without PoE gives a port without PoE.
pub proof fn law_poe_standard_follows_caps(port: Port, e: SessionPortEntry)
    requires
        port_from_session(port, e),
    ensures
        e.port_poe == Some(true) ==> port.poe is Some,
        e.port_poe != Some(true) ==> port.poe is None,
        e.port_poe == Some(true) && e.poe_caps == Some(3u64) ==> opt_view(port.poe->0.standard) == Some("802.3at"@),
        e.port_poe == Some(true) && e.poe_caps == Some(7u64) ==> opt_view(port.poe->0.standard) == Some("802.3bt"@),
        e.port_poe == Some(true) && e.poe_caps is Some && e.poe_caps != Some(3u64) && e.poe_caps != Some(7u64)
            ==> opt_view(port.poe->0.standard) == Some("802.3af"@),
        e.port_poe == Some(true) && e.poe_caps is None ==> port.poe->0.standard is None,
        port.index == e.port_idx->0,
{
}

/// A session port is up exactly when its row says `up: true`; media `GE`
/// or `FE` is an RJ45 connector, `SFP` an SFP cage, `SFP+` an SFP+ cage,
/// and any other (or no) media names no connector.
pub proof fn law_session_port_state_and_media(port: Port, e: SessionPortEntry)
    requires
        port_from_session(port, e),
    ensures
        e.up == Some(true) ==> port.state == PortState::Up,
        e.up != Some(true) ==> port.state == PortState::Down,
        e.media is None ==> port.connector is None,
        e.media is Some && (e.media->0@ == "GE"@ || e.media->0@ == "FE"@) ==> port.connector == Some(PortConnector::Rj45),
        e.media is Some && e.media->0@ == "SFP"@ ==> port.connector == Some(PortConnector::Sfp),
        e.media is Some && e.media->0@ == "SFP+"@ ==> port.connector == Some(PortConnector::SfpPlus),
        port.name == e.name && port.speed_mbps == e.speed && port.max_speed_mbps is None,
{
    reveal_strlit("GE");
    reveal_strlit("FE");
    reveal_strlit("SFP");
    reveal_strlit("SFP+");
    assert("SFP"@.len() == 3 && "SFP+"@.len() == 4 && "GE"@.len() == 2 && "FE"@.len() == 2);
    assert("SFP"@ != "GE"@ && "SFP"@ != "FE"@ && "SFP+"@ != "GE"@ && "SFP+"@ != "FE"@ && "SFP+"@ != "SFP"@);
}

/// The band (MHz) of a session radio token: `ng` 2.4 GHz, `na` 5 GHz,
/// `6e` 6 GHz.
pub open spec fn band_mhz(band: Seq<char>) -> Option<u32> {
    if band == "ng"@ {
        Some(2400)
    } else if band == "na"@ {
        Some(5000)
    } else if band == "6e"@ {
        Some(6000)
    } else {
        None
    }
}

fn session_radio_freq(band: &Vec<char>) -> (f: Option<u32>)
    ensures
        f == band_mhz(band@),
{
    if chars_eq(band, &chars_of("ng")) {
        Some(2400)
    } else if chars_eq(band, &chars_of("na")) {
        Some(5000)
    } else if chars_eq(band, &chars_of("6e")) {
        Some(6000)
    } else {
        None
    }
}

/// The session radio rows with a known band, in order.
pub open spec fn banded_rows(rows: Seq<SessionRadioEntry>) -> Seq<SessionRadioEntry>
    decreases rows.len(),
{
    if rows.len() == 0 {
        Seq::empty()
    } else {
        let rest = banded_rows(rows.drop_last());
        if rows.last().radio matches Some(b) && band_mhz(b@) is Some {
            rest.push(rows.last())
        } else {
            rest
        }
    }
}

/// `j` is the first stats row for `band`.
pub open spec fn first_stats_for(stats: Seq<SessionRadioStats>, band: Seq<char>, j: int) -> bool {
    &&& 0 <= j < stats.len()
    &&& opt_view(stats[j].radio) == Some(band)
    &&& forall|k: int| 0 <= k < j ==> opt_view(stats[k].radio) != Some(band)
}

/// The channel of the first stats row for `band`, if any.
pub open spec fn stats_channel(stats: Seq<SessionRadioStats>, band: Seq<char>) -> Option<u32> {
    if exists|j: int| first_stats_for(stats, band, j) {
        stats[choose|j: int| first_stats_for(stats, band, j)].channel
    } else {
        None
    }
}

/// The channel width that the `ht` text gives (a decimal `u32`).
pub open spec fn width_of(ht: Option<Seq<char>>) -> Option<u32> {
    match ht {
        Some(t) => match parse_unsigned(t, u32::MAX as nat) {
            Some(v) => Some(v as u32),
            None => None,
        },
        None => None,
    }
}

/// `radio` is the conversion of row `e`, with `stats` as its statistics.
pub open spec fn radio_from_session(radio: Radio, e: SessionRadioEntry, stats: Seq<SessionRadioStats>) -> bool {
    &&& e.radio matches Some(b) && band_mhz(b@) == Some(radio.frequency_mhz)
    &&& radio.channel == match e.channel {
        Some(c) => Some(c),
        None => stats_channel(stats, e.radio->0@),
    }
    &&& radio.channel_width_mhz == width_of(opt_view(e.ht))
    &&& radio.wlan_standard is None
}

/// A session radio's frequency follows its band token (`ng` 2400 MHz,
/// `na` 5000 MHz, `6e` 6000 MHz), and a channel on the radio row wins over
/// the statistics row's.
pub proof fn law_session_radio_band(radio: Radio, e: SessionRadioEntry, stats: Seq<SessionRadioStats>)
    requires
        radio_from_session(radio, e, stats),
    ensures
        e.radio is Some,
        e.radio->0@ == "ng"@ ==> radio.frequency_mhz == 2400,
        e.radio->0@ == "na"@ ==> radio.frequency_mhz == 5000,
        e.radio->0@ == "6e"@ ==> radio.frequency_mhz == 6000,
        e.radio->0@ != "ng"@ && e.radio->0@ != "na"@ && e.radio->0@ != "6e"@ ==> false,
        e.channel is Some ==> radio.channel == e.channel,
        radio.wlan_standard is None,
{
    reveal_strlit("ng");
    reveal_strlit("na");
    reveal_strlit("6e");
    assert("na"@[1] != "ng"@[1] && "6e"@[0] != "ng"@[0] && "6e"@[0] != "na"@[0]);
    assert("na"@ != "ng"@ && "6e"@ != "ng"@ && "6e"@ != "na"@);
}

fn stats_channel_for(stats: &Vec<SessionRadioStats>, band: &Vec<char>) -> (c: Option<u32>)
    ensures
        c == stats_channel(stats@, band@),
{
    let mut j: usize = 0;
    while j < stats.len()
        invariant
            j <= stats@.len(),
            forall|k: int| 0 <= k < j ==> opt_view(stats@[k].radio) != Some(band@),
        decreases stats@.len() - j,
    {
        let hit = match &stats[j].radio {
            Some(r) => chars_eq(&chars_of(r.as_str()), band),
            None => false,
        };
        if hit {
            proof {
                assert(first_stats_for(stats@, band@, j as int));
                let c = choose|x: int| first_stats_for(stats@, band@, x);
                assert(first_stats_for(stats@, band@, c));
                assert(c == j);
            }
            return stats[j].channel;
        }
        j = j + 1;
    }
    None
}

/// Converts session `radio_table` rows, skipping rows without a known band,
/// and completes each with the first `radio_table_stats` row of its band:
/// the row's own channel wins, the stats row's channel fills a gap.
pub fn parse_session_radios(rows: &Vec<SessionRadioEntry>, stats: &Vec<SessionRadioStats>) -> (radios: Vec<Radio>)
    ensures
        radios@.len() == banded_rows(rows@).len(),
        forall|i: int| 0 <= i < radios@.len() ==> radio_from_session(#[trigger] radios@[i], banded_rows(rows@)[i], stats@),
{
    let mut radios: Vec<Radio> = Vec::new();
    let mut i: usize = 0;
    while i < rows.len()
        invariant
            i <= rows@.len(),
            radios@.len() == banded_rows(rows@.take(i as int)).len(),
            forall|k: int| 0 <= k < radios@.len() ==> radio_from_session(#[trigger] radios@[k], banded_rows(rows@.take(i as int))[k], stats@),
        decreases rows@.len() - i,
    {
        proof {
            assert(rows@.take(i + 1).drop_last() =~= rows@.take(i as int));
            assert(rows@.take(i + 1).last() == rows@[i as int]);
        }
        if let Some(b) = &rows[i].radio {
            let band = chars_of(b.as_str());
            if let Some(freq) = session_radio_freq(&band) {
                let channel = match rows[i].channel {
                    Some(c) => Some(c),
                    None => stats_channel_for(stats, &band),
                };
                let width = match &rows[i].ht {
                    Some(t) => match parse_unsigned_chars(&chars_of(t.as_str()), u32::MAX as u64) {
                        Some(v) => Some(v as u32),
                        None => None,
                    },
                    None => None,
                };
                radios.push(Radio { frequency_mhz: freq, channel, channel_width_mhz: width, wlan_standard: None });
            }
        }
        i = i + 1;
    }
    assert(rows@.take(rows@.len() as int) =~= rows@);
    radios
}

} // verus!

verus! {

/// The PoE object of an Integration API port, as the fields the library
/// reads: `standard` and `state` when they are strings, `enabled` when it
/// is a boolean.
#[derive(Debug, Clone)]
pub struct IntegrationPoeFields {
    pub standard: Option<String>,
    pub enabled: Option<bool>,
    pub state: Option<String>,
}

/// One entry of an Integration API `interfaces.ports` array, as the fields
/// the library reads: numbers when they are non-negative integers, texts
/// when they are strings, and `poe` when the key is present at all.
#[derive(Debug, Clone)]
pub struct IntegrationPortFields {
    pub idx: Option<u64>,
    pub name: Option<String>,
    pub state: Option<String>,
    pub speed_mbps: Option<u64>,
    pub max_speed_mbps: Option<u64>,
    pub connector: Option<String>,
    pub poe: Option<IntegrationPoeFields>,
}

/// The state a token names, unknown when there is no token.
pub open spec fn state_or_unknown(raw: Option<Seq<char>>) -> PortState {
    match raw {
        Some(r) => port_state_of(r),
        None => PortState::Unknown,
    }
}

/// A number narrowed to `u32` as an `as` cast narrows it.
pub open spec fn narrowed(v: Option<u64>) -> Option<u32> {
    match v {
        Some(x) => Some(x as u32),
        None => None,
    }
}

/// `port` is the conversion of Integration entry `e`.
pub open spec fn port_from_integration(port: Port, e: IntegrationPortFields) -> bool {
    &&& e.idx matches Some(i) && port.index == i as u32
    &&& port.name == e.name
    &&& port.state == state_or_unknown(opt_view(e.state))
    &&& port.speed_mbps == narrowed(e.speed_mbps)
    &&& port.max_speed_mbps == narrowed(e.max_speed_mbps)
    &&& port.connector == match e.connector {
        Some(c) => connector_of(c@),
        None => None,
    }
    &&& match e.poe {
        Some(p) => port.poe matches Some(q) && q.standard == p.standard && q.enabled == (p.enabled == Some(true))
            && q.state == state_or_unknown(opt_view(p.state)),
        None => port.poe is None,
    }
}

/// The Integration entries that carry an index, in order.
pub open spec fn indexed_entries(entries: Seq<IntegrationPortFields>) -> Seq<IntegrationPortFields>
    decreases entries.len(),
{
    if entries.len() == 0 {
        Seq::empty()
    } else {
        let rest = indexed_entries(entries.drop_last());
        if entries.last().idx is Some {
            rest.push(entries.last())
        } else {
            rest
        }
    }
}

fn state_from(raw: &Option<String>) -> (s: PortState)
    ensures
        s == state_or_unknown(opt_view(*raw)),
{
    match raw {
        Some(r) => parse_port_state(r.as_str()),
        None => PortState::Unknown,
    }
}

fn narrow(v: Option<u64>) -> (r: Option<u32>)
    ensures
        r == narrowed(v),
{
    match v {
        Some(x) => Some(x as u32),
        None => None,
    }
}

/// Converts the Integration API `interfaces.ports` entries (`None` when the
/// payload has no `ports` array) into ports, skipping entries without an
/// index. Numbers are narrowed to `u32` as a cast narrows them.
pub fn parse_integration_ports(ports: Option<&Vec<IntegrationPortFields>>) -> (r: Vec<Port>)
    ensures
        match ports {
            Some(entries) => r@.len() == indexed_entries(entries@).len() && forall|i: int|
                0 <= i < r@.len() ==> port_from_integration(#[trigger] r@[i], indexed_entries(entries@)[i]),
            None => r@.len() == 0,
        },
{
    let entries = match ports {
        Some(e) => e,
        None => return Vec::new(),
    };
    let mut out: Vec<Port> = Vec::new();
    let mut i: usize = 0;
    while i < entries.len()
        invariant
            i <= entries@.len(),
            out@.len() == indexed_entries(entries@.take(i as int)).len(),
            forall|k: int| 0 <= k < out@.len() ==> port_from_integration(#[trigger] out@[k], indexed_entries(entries@.take(i as int))[k]),
        decreases entries@.len() - i,
    {
        proof {
            assert(entries@.take(i + 1).drop_last() =~= entries@.take(i as int));
            assert(entries@.take(i + 1).last() == entries@[i as int]);
        }
        let e = &entries[i];
        if let Some(idx) = e.idx {
            let poe = match &e.poe {
                Some(p) => Some(PoeInfo {
                    standard: p.standard.clone(),
                    enabled: match p.enabled {
                        Some(b) => b,
                        None => false,
                    },
                    state: state_from(&p.state),
                }),
                None => None,
            };
            let connector = match &e.connector {
                Some(c) => parse_port_connector(c.as_str()),
                None => None,
            };
            out.push(Port {
                index: idx as u32,
                name: e.name.clone(),
                state: state_from(&e.state),
                speed_mbps: narrow(e.speed_mbps),
                max_speed_mbps: narrow(e.max_speed_mbps),
                connector,
                poe,
            });
        }
        i = i + 1;
    }
    assert(entries@.take(entries@.len() as int) =~= entries@);
    out
}

/// One entry of an Integration API `interfaces.radios` array, as the fields
/// the library reads. The frequency arrives in GHz as a JSON float; the
/// caller gives it in whole MHz (`None` when absent or not a number).
#[derive(Debug, Clone)]
pub struct IntegrationRadioFields {
    pub frequency_mhz: Option<u32>,
    pub channel: Option<u64>,
    pub channel_width_mhz: Option<u64>,
    pub wlan_standard: Option<String>,
}

/// The Integration radio entries that carry a frequency, in order.
pub open spec fn tuned_entries(entries: Seq<IntegrationRadioFields>) -> Seq<IntegrationRadioFields>
    decreases entries.len(),
{
    if entries.len() == 0 {
        Seq::empty()
    } else {
        let rest = tuned_entries(entries.drop_last());
        if entries.last().frequency_mhz is Some {
            rest.push(entries.last())
        } else {
            rest
        }
    }
}

/// `radio` is the conversion of Integration radio entry `e`.
pub open spec fn radio_from_integration(radio: Radio, e: IntegrationRadioFields) -> bool {
    &&& e.frequency_mhz == Some(radio.frequency_mhz)
    &&& radio.channel == narrowed(e.channel)
    &&& radio.channel_width_mhz == narrowed(e.channel_width_mhz)
    &&& radio.wlan_standard == e.wlan_standard
}

/// Converts an Integration `interfaces.radios` array (`None` when the key
/// is missing or no array) into radios, skipping entries without a
/// frequency; numbers are narrowed to `u32` as an `as` cast narrows them.
pub fn parse_integration_radios(radios: Option<&Vec<IntegrationRadioFields>>) -> (r: Vec<Radio>)
    ensures
        match radios {
            Some(entries) => r@.len() == tuned_entries(entries@).len() && forall|i: int|
                0 <= i < r@.len() ==> radio_from_integration(#[trigger] r@[i], tuned_entries(entries@)[i]),
            None => r@.len() == 0,
        },
{
    let entries = match radios {
        Some(e) => e,
        None => return Vec::new(),
    };
    let mut out: Vec<Radio> = Vec::new();
    let mut i: usize = 0;
    while i < entries.len()
        invariant
            i <= entries@.len(),
            out@.len() == tuned_entries(entries@.take(i as int)).len(),
            forall|k: int| 0 <= k < out@.len() ==> radio_from_integration(#[trigger] out@[k], tuned_entries(entries@.take(i as int))[k]),
        decreases entries@.len() - i,
    {
        proof {
            assert(entries@.take(i + 1).drop_last() =~= entries@.take(i as int));
            assert(entries@.take(i + 1).last() == entries@[i as int]);
        }
        let e = &entries[i];
        if let Some(freq) = e.frequency_mhz {
            out.push(Radio {
                frequency_mhz: freq,
                channel: narrow(e.channel),
                channel_width_mhz: narrow(e.channel_width_mhz),
                wlan_standard: e.wlan_standard.clone(),
            });
        }
        i = i + 1;
    }
    assert(entries@.take(entries@.len() as int) =~= entries@);
    out
}

} // verus!
