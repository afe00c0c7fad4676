//! BlueZ objects, sources without audio, and the input rule.
use bluetooth_audio_bridge::a2dp::{
    monitor, should_connect, Attempt, Observation, RetryTable,
};
use bluetooth_audio_bridge::bluetooth::{
    snapshot, BluetoothStatus, BusInterface, BusObject, Device, PropertyValue, Snapshot, Source,
    SINK_UUID, SOURCE_UUID,
};
use bluetooth_audio_bridge::config::{Bluetooth, ConfigError};
use bluetooth_audio_bridge::policy::{
    phone_policy_file_present, policy_file_eligible, policy_places, policy_text_accepted,
    PolicyFile,
};
use bluetooth_audio_bridge::storage::{Environment, FileFacts, Lookup};

const SECOND: u64 = 1_000_000_000;

const TIMING: Bluetooth = Bluetooth {
    dbus_timeout_seconds: 5,
    a2dp_connect_delay_seconds: 2,
    a2dp_retry_delay_seconds: 30,
};

fn text(value: &str) -> PropertyValue {
    PropertyValue::Text(value.to_string())
}

fn object(path: &str, interface: &str, properties: Vec<(&str, PropertyValue)>) -> BusObject {
    BusObject {
        path: path.to_string(),
        interfaces: vec![
            BusInterface {
                name: "org.freedesktop.DBus.Properties".to_string(),
                properties: Vec::new(),
            },
            BusInterface {
                name: interface.to_string(),
                properties: properties.into_iter().map(|(k, v)| (k.to_string(), v)).collect(),
            },
        ],
    }
}

fn phone(path: &str, address: &str) -> BusObject {
    object(
        path,
        "org.bluez.Device1",
        vec![
            ("Address", text(address)),
            ("Alias", text("Phone")),
            ("Name", text("iPhone")),
            ("Paired", PropertyValue::Flag(true)),
            ("Connected", PropertyValue::Flag(true)),
            ("UUIDs", PropertyValue::Texts(vec![SOURCE_UUID.to_ascii_uppercase()])),
        ],
    )
}

fn transport(uuid: &str, device: PropertyValue) -> BusObject {
    object(
        "/fd0",
        "org.bluez.MediaTransport1",
        vec![("UUID", text(uuid)), ("Device", device)],
    )
}

fn missing(shown: &Snapshot) -> Vec<(String, String)> {
    shown.missing_sources.iter().map(|s| (s.path.clone(), s.address.clone())).collect()
}

fn pair(path: &str, address: &str) -> (String, String) {
    (path.to_string(), address.to_string())
}

#[test]
fn devices_are_read_from_objects() {
    assert_eq!(SOURCE_UUID, "0000110a-0000-1000-8000-00805f9b34fb");
    assert_eq!(SINK_UUID, "0000110b-0000-1000-8000-00805f9b34fb");
    let shown = snapshot(&vec![phone("/dev_a", "aa:bb:cc:dd:ee:ff")]);
    assert_eq!(shown.devices.len(), 1);
    let device = &shown.devices[0];
    assert_eq!(device.address, "AA:BB:CC:DD:EE:FF");
    assert_eq!(device.name, "Phone");
    assert!(device.paired && device.connected);
    assert_eq!(device.uuids, vec![SOURCE_UUID.to_ascii_uppercase()]);
    assert_eq!(missing(&shown), vec![pair("/dev_a", "AA:BB:CC:DD:EE:FF")]);
}

#[test]
fn missing_properties_have_defaults() {
    let bare = object("/d", "org.bluez.Device1", vec![("Address", text("00:11"))]);
    let named = object(
        "/e",
        "org.bluez.Device1",
        vec![
            ("Address", text("00:12")),
            ("Alias", text("")),
            ("Name", text("Speaker")),
            ("Paired", text("true")),
            ("Connected", PropertyValue::Other),
            ("UUIDs", text("x")),
        ],
    );
    let shown = snapshot(&vec![named, bare]);
    assert_eq!(shown.devices[0].name, "");
    assert!(!shown.devices[0].paired && !shown.devices[0].connected);
    assert!(shown.devices[0].uuids.is_empty());
    assert_eq!(shown.devices[1].name, "Speaker");
    assert!(!shown.devices[1].paired && !shown.devices[1].connected);
    assert!(shown.devices[1].uuids.is_empty());
    assert!(shown.missing_sources.is_empty());
}

#[test]
fn objects_without_an_address_are_no_devices() {
    let shown = snapshot(&vec![
        object("/a", "org.bluez.Device1", vec![("Name", text("x"))]),
        object("/b", "org.bluez.Device1", vec![("Address", PropertyValue::Flag(true))]),
        object("/c", "org.bluez.Adapter1", vec![("Address", text("00:11"))]),
    ]);
    assert!(shown.devices.is_empty() && shown.missing_sources.is_empty());
}

#[test]
fn sources_with_a_transport_are_not_missing() {
    let path = |p: &str| PropertyValue::Path(p.to_string());
    for uuid in [SINK_UUID.to_string(), SINK_UUID.to_ascii_uppercase()] {
        let shown = snapshot(&vec![transport(&uuid, path("/dev_a")), phone("/dev_a", "AA")]);
        assert_eq!(shown.devices.len(), 1);
        assert!(shown.missing_sources.is_empty());
    }
    let elsewhere = vec![transport(SINK_UUID, path("/dev_b")), phone("/dev_a", "AA")];
    assert_eq!(missing(&snapshot(&elsewhere)), vec![pair("/dev_a", "AA")]);
    let outgoing = vec![transport(SOURCE_UUID, path("/dev_a")), phone("/dev_a", "AA")];
    assert_eq!(missing(&snapshot(&outgoing)), vec![pair("/dev_a", "AA")]);
    let untyped = vec![transport(SINK_UUID, text("/dev_a")), phone("/dev_a", "AA")];
    assert_eq!(missing(&snapshot(&untyped)), vec![pair("/dev_a", "AA")]);
}

#[test]
fn only_paired_connected_sources_are_missing() {
    for (paired, connected, uuid) in [
        (false, true, SOURCE_UUID),
        (true, false, SOURCE_UUID),
        (true, true, SINK_UUID),
    ] {
        let shown = snapshot(&vec![object(
            "/dev_a",
            "org.bluez.Device1",
            vec![
                ("Address", text("AA")),
                ("Paired", PropertyValue::Flag(paired)),
                ("Connected", PropertyValue::Flag(connected)),
                ("UUIDs", PropertyValue::Texts(vec![uuid.to_string()])),
            ],
        )]);
        assert_eq!(shown.devices.len(), 1);
        assert!(shown.missing_sources.is_empty());
    }
}

#[test]
fn snapshots_do_not_depend_on_the_order_of_objects() {
    let forward = snapshot(&vec![phone("/2", "BB"), phone("/1", "CC"), phone("/3", "AA")]);
    let backward = snapshot(&vec![phone("/3", "AA"), phone("/1", "CC"), phone("/2", "BB")]);
    let addresses = |s: &Snapshot| -> Vec<String> {
        s.devices.iter().map(|d| d.address.clone()).collect()
    };
    assert_eq!(addresses(&forward), vec!["AA", "BB", "CC"]);
    assert_eq!(addresses(&backward), vec!["AA", "BB", "CC"]);
    let expected = vec![pair("/1", "CC"), pair("/2", "BB"), pair("/3", "AA")];
    assert_eq!(missing(&forward), expected);
    assert_eq!(missing(&backward), expected);
}

fn source(path: &str, address: &str) -> Source {
    Source { path: path.to_string(), address: address.to_string() }
}

#[test]
fn new_sources_wait_for_the_connect_delay() {
    let mut table = RetryTable::new();
    let sources = vec![source("/a", "AA")];
    assert!(table.begin(true, &sources));
    assert_eq!(table.connect_missing_sources(true, 10 * SECOND, &TIMING, &sources, 0), None);
    assert_eq!(
        table.connect_missing_sources(true, 12 * SECOND - 1, &TIMING, &sources, 0),
        None
    );
    assert_eq!(table.connect_missing_sources(true, 12 * SECOND, &TIMING, &sources, 0), Some(0));
}

#[test]
fn sources_are_asked_again_after_the_retry_delay() {
    let mut table = RetryTable::new();
    let sources = vec![source("/a", "AA"), source("/b", "BB")];
    let at_once = Bluetooth { a2dp_connect_delay_seconds: 0, ..TIMING };
    assert!(table.begin(true, &sources));
    assert_eq!(table.connect_missing_sources(true, 0, &at_once, &sources, 0), Some(0));
    assert_eq!(table.record(&sources[0], Attempt::Completed, SECOND, &at_once), None);
    assert_eq!(table.connect_missing_sources(true, SECOND, &at_once, &sources, 1), Some(1));
    assert_eq!(
        table.record(&sources[1], Attempt::TimedOut, SECOND, &at_once),
        Some("Incoming A2DP connection timed out for BB".to_string())
    );
    assert_eq!(table.connect_missing_sources(true, SECOND, &at_once, &sources, 2), None);
    assert_eq!(
        table.connect_missing_sources(true, 31 * SECOND - 1, &at_once, &sources, 0),
        None
    );
    assert_eq!(table.connect_missing_sources(true, 31 * SECOND, &at_once, &sources, 0), Some(0));
}

#[test]
fn due_sources_are_asked_in_order() {
    let mut table = RetryTable::new();
    let sources = vec![source("/a", "AA"), source("/b", "BB"), source("/c", "CC")];
    assert_eq!(table.record(&sources[1], Attempt::Completed, 0, &TIMING), None);
    assert_eq!(table.record(&sources[2], Attempt::Completed, 5 * SECOND, &TIMING), None);
    let now = 30 * SECOND;
    assert_eq!(table.connect_missing_sources(true, now, &TIMING, &sources, 0), Some(1));
    assert_eq!(table.connect_missing_sources(true, now, &TIMING, &sources, 2), None);
    let now = 35 * SECOND;
    assert_eq!(table.connect_missing_sources(true, now, &TIMING, &sources, 0), Some(0));
    assert_eq!(table.connect_missing_sources(true, now, &TIMING, &sources, 2), Some(2));
}

#[test]
fn rounds_ask_a_source_at_a_distance_and_leave_their_sources() {
    let mut table = RetryTable::new();
    let mut asked: Vec<u64> = Vec::new();
    let mut now: u64 = 7 * SECOND;
    for round in 0..60u64 {
        let sources = if round % 2 == 0 {
            vec![source("/a", "AA"), source("/p", "PP")]
        } else {
            vec![source("/p", "PP"), source("/z", "ZZ")]
        };
        assert!(table.begin(true, &sources));
        let mut from: usize = 0;
        while let Some(next) = table.connect_missing_sources(true, now, &TIMING, &sources, from) {
            assert!(next >= from);
            if sources[next].path == "/p" {
                asked.push(now);
            }
            now += SECOND / 2;
            let attempt = match asked.len() % 3 {
                0 => Attempt::Completed,
                1 => Attempt::TimedOut,
                _ => Attempt::Failed("busy".to_string()),
            };
            table.record(&sources[next], attempt, now, &TIMING);
            from = next + 1;
        }
        now += 2 * SECOND;
    }
    assert_eq!(asked[0], 9 * SECOND);
    assert!(asked.len() >= 4);
    for pair in asked.windows(2) {
        assert!(pair[1] >= pair[0] + SECOND / 2 + 30 * SECOND);
    }
    // The last round was one with /z and without /a: only /a has to be met again.
    let both = vec![source("/a", "AA"), source("/z", "ZZ")];
    let last = now - 2 * SECOND;
    assert_eq!(table.connect_missing_sources(true, last, &TIMING, &both, 0), None);
    assert_eq!(table.connect_missing_sources(true, now, &TIMING, &both, 1), Some(1));
    assert_eq!(table.connect_missing_sources(true, now, &TIMING, &both, 0), Some(0));
}

#[test]
fn errors_of_sources_are_reported_once_and_summed_up() {
    let mut table = RetryTable::new();
    let sources = vec![source("/a", "AA"), source("/b", "BB"), source("/c", "CC")];
    let failed = || Attempt::Failed("br-connection-busy".to_string());
    let expected = "Cannot connect incoming A2DP for AA: br-connection-busy";
    assert_eq!(table.summary(&sources), "");
    assert_eq!(table.record(&sources[0], failed(), 0, &TIMING), Some(expected.to_string()));
    assert_eq!(table.record(&sources[0], failed(), 1, &TIMING), None);
    assert_eq!(table.summary(&sources), expected);
    assert_eq!(table.record(&sources[1], Attempt::Completed, 0, &TIMING), None);
    assert!(table.record(&sources[2], Attempt::TimedOut, 0, &TIMING).is_some());
    assert_eq!(
        table.summary(&sources),
        "Cannot connect incoming A2DP for AA: br-connection-busy; Incoming A2DP connection timed out for CC"
    );
    assert_eq!(table.record(&sources[0], Attempt::Completed, 2, &TIMING), None);
    assert_eq!(table.summary(&sources), "Incoming A2DP connection timed out for CC");
    assert_eq!(table.record(&sources[0], failed(), 3, &TIMING), Some(expected.to_string()));
}

#[test]
fn sources_that_are_gone_are_forgotten() {
    let mut table = RetryTable::new();
    let both = vec![source("/a", "AA"), source("/b", "BB")];
    let one = vec![source("/b", "BB")];
    assert!(table.record(&both[0], Attempt::TimedOut, 0, &TIMING).is_some());
    assert!(table.record(&both[1], Attempt::TimedOut, 0, &TIMING).is_some());
    assert!(table.begin(true, &one));
    assert_eq!(table.summary(&both), "Incoming A2DP connection timed out for BB");
    assert_eq!(table.connect_missing_sources(true, SECOND, &TIMING, &both, 0), None);
    assert_eq!(table.connect_missing_sources(true, 3 * SECOND, &TIMING, &both, 0), Some(0));
}

#[test]
fn nothing_is_asked_while_forwarding_is_off() {
    let mut table = RetryTable::new();
    let sources = vec![source("/a", "AA")];
    assert!(table.record(&sources[0], Attempt::TimedOut, 0, &TIMING).is_some());
    assert_eq!(table.connect_missing_sources(false, 100 * SECOND, &TIMING, &sources, 0), None);
    assert!(!table.begin(false, &sources));
    assert_eq!(table.summary(&sources), "");
    assert!(should_connect(true, true, true));
    assert!(!should_connect(false, true, true));
    assert!(!should_connect(true, false, true));
    assert!(!should_connect(true, true, false));
}

#[test]
fn observations_become_a_status() {
    let devices = vec![Device {
        address: "AA".to_string(),
        name: "Phone".to_string(),
        paired: true,
        connected: false,
        uuids: Vec::new(),
    }];
    let (status, kept) = monitor(Observation::Devices(devices), "late");
    assert!(status.available && kept);
    assert_eq!(status.devices[0].address, "AA");
    assert_eq!(status.last_error, "late");
    let (status, kept) = monitor(Observation::Failed("no bus".to_string()), "late");
    assert!(!status.available && !kept && status.devices.is_empty());
    assert_eq!(status.last_error, "BlueZ unavailable: no bus");
    let (status, kept) = monitor(Observation::TimedOut, "late");
    assert!(!status.available && !kept && status.devices.is_empty());
    assert_eq!(status.last_error, "BlueZ snapshot timed out");
    let unknown = BluetoothStatus::default();
    assert!(!unknown.available && unknown.devices.is_empty() && unknown.last_error.is_empty());
}

const RULE: &str = "-- BLUETOOTH_AUDIO_BRIDGE_POLICY=1\r\n# BLUETOOTH_AUDIO_BRIDGE_SCOPE=a2dp-source\n   ----## BLUETOOTH_AUDIO_BRIDGE_ROUTE=system-output  ";

#[test]
fn rules_declare_three_markers() {
    assert!(policy_text_accepted(RULE));
    assert!(policy_text_accepted(&format!("rule = {{}}\n{}\n", RULE)));
    assert!(!policy_text_accepted(""));
    for (from, to) in [
        ("POLICY=1", "POLICY=2"),
        ("SCOPE=a2dp-source", "SCOPE=a2dp-source,sink"),
        ("ROUTE=system-output", "ROUTE=headphones"),
        ("# BLUETOOTH", "#- BLUETOOTH"),
        ("-- BLUETOOTH", "- BLUETOOTH"),
        ("   ----## BLUETOOTH", "##-- BLUETOOTH"),
        ("\r\n", " "),
    ] {
        assert!(!policy_text_accepted(&RULE.replace(from, to)), "{}", to);
    }
}

fn rule_file() -> FileFacts {
    FileFacts {
        is_file: true,
        is_dir: false,
        is_socket: false,
        uid: 1000,
        mode: 0o100644,
        len: 65536,
        device: 1,
        inode: 1,
    }
}

#[test]
fn rule_files_are_small_files_of_the_user() {
    assert!(policy_file_eligible(Lookup::Found(rule_file()), 1000));
    assert!(!policy_file_eligible(Lookup::Found(FileFacts { len: 65537, ..rule_file() }), 1000));
    assert!(!policy_file_eligible(Lookup::Found(FileFacts { is_file: false, ..rule_file() }), 1000));
    assert!(!policy_file_eligible(Lookup::Found(rule_file()), 1));
    assert!(!policy_file_eligible(Lookup::Missing, 1000));
    assert!(!policy_file_eligible(Lookup::Failed, 1000));
}

#[test]
fn one_rule_file_is_enough() {
    let file = |found, content: Option<&str>| PolicyFile {
        found,
        content: content.map(|c| c.to_string()),
    };
    let found = Lookup::Found(rule_file());
    let good = vec![file(Lookup::Missing, None), file(found, Some(RULE))];
    assert!(phone_policy_file_present(1000, &good));
    assert!(!phone_policy_file_present(0, &good));
    assert!(!phone_policy_file_present(1001, &good));
    assert!(!phone_policy_file_present(1000, &vec![file(found, None)]));
    assert!(!phone_policy_file_present(1000, &vec![file(found, Some("x"))]));
    assert!(!phone_policy_file_present(1000, &vec![file(Lookup::Missing, Some(RULE))]));
    let root = Lookup::Found(FileFacts { uid: 0, ..rule_file() });
    assert!(!phone_policy_file_present(0, &vec![file(root, Some(RULE))]));
}

#[test]
fn rules_have_a_place_for_each_wireplumber() {
    let environment = Environment {
        current_dir: Ok(b"/work".to_vec()),
        xdg_config_home: None,
        home: Some(b"/home/u".to_vec()),
    };
    assert_eq!(
        policy_places(&environment),
        Ok(vec![
            b"/home/u/.config/wireplumber/bluetooth.lua.d/90-bluetooth-audio-bridge-phone.lua"
                .to_vec(),
            b"/home/u/.config/wireplumber/wireplumber.conf.d/90-bluetooth-audio-bridge-phone.conf"
                .to_vec(),
        ])
    );
    let homeless = Environment { home: None, ..environment };
    assert_eq!(policy_places(&homeless), Err(ConfigError::HomeUnset));
}
