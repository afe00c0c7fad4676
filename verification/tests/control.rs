//! The engine, the controller and the command line.
use bluetooth_audio_bridge::audio::{
    native_result, native_text, Levels, NativeLevels, NativeRouteStatus, NativeStatus, RouteStatus,
    Status,
};
use bluetooth_audio_bridge::bluetooth::{BluetoothStatus, Device};
use bluetooth_audio_bridge::cli::{
    choose_forwarding, command_for, created_message, device_heading, device_row, devices_settings,
    forwarding_menu, offline_json, offline_lines, print_status, refuse_existing, remote,
    saved_offline_message, selected_message, Answer, Change, ChoiceError, SettingsSource, Source,
    Switch,
};
use bluetooth_audio_bridge::config::{Bluetooth, Config, ConfigError, Timer, TimerSupport};
use bluetooth_audio_bridge::controller::{
    apply_controls, control_plan, levels, start_diagnostic, stop_diagnostics, AudioStatus, Control,
    ControlPlan, Controller, Diagnostic, Event, RequestAction, SavedAction, TickStep,
};
use bluetooth_audio_bridge::gain::Gain;
use bluetooth_audio_bridge::ipc::{Channel, Command, Request, Response};
use bluetooth_audio_bridge::json::{field, render, Json};
use bluetooth_audio_bridge::report::{
    audio_json, bluetooth_json, config_json, policy_message, GainTexts,
};
use bluetooth_audio_bridge::storage::{FileFacts, Lookup};

const SECOND: u64 = 1_000_000_000;

const TIMING: Bluetooth = Bluetooth {
    dbus_timeout_seconds: 5,
    a2dp_connect_delay_seconds: 2,
    a2dp_retry_delay_seconds: 30,
};

const REACHABLE: TimerSupport =
    TimerSupport { dbus_timeout: true, a2dp_connect_delay: true, a2dp_retry_delay: true };

fn gain(value: f32) -> Gain {
    Gain { bits: value.to_bits() }
}

fn gains() -> GainTexts {
    GainTexts { phone: "0.5".to_string(), desktop: "1.0".to_string(), master: "0.25".to_string() }
}

fn controller() -> Controller {
    Controller::new(b"/cfg/config.toml".to_vec(), Config::with_timing(TIMING), 5 * SECOND)
}

fn asks(command: Command) -> Request {
    Request { config_path: b"/cfg/config.toml".to_vec(), command }
}

fn status(error: &str) -> Status {
    Status {
        pipewire_connected: true,
        routing_enabled: true,
        policy_ready: false,
        inputs_detected: 2,
        inputs_routed: 1,
        default_output_name: "Speakers".to_string(),
        last_error: error.to_string(),
        routes: vec![RouteStatus {
            input_name: "iPhone".to_string(),
            input_address: "AA:BB".to_string(),
            output_name: "".to_string(),
            ready: true,
            codec: "aac".to_string(),
            sample_rate: 44100,
            channels: 2,
            last_error: "no port".to_string(),
        }],
    }
}

fn fail(text: &str) -> Result<(), String> {
    Err(text.to_string())
}

#[test]
fn buffers_end_at_the_first_zero() {
    assert_eq!(native_text(b"abc\0def\0"), "abc");
    assert_eq!(native_text(b"\0x"), "");
    assert_eq!(native_text(b""), "");
    assert_eq!(native_text(b"full"), "full");
    assert_eq!(native_text("ü日\0".as_bytes()), "ü日");
    assert_eq!(native_text(b"a\xffb\0"), "a\u{fffd}b");
    assert_eq!(native_text(b"\xe6\x97"), String::from_utf8_lossy(b"\xe6\x97"));
}

#[test]
fn engine_calls_fail_with_a_text() {
    assert_eq!(native_result(0, b"ignored\0"), Ok(()));
    assert_eq!(native_result(-1, b"no device\0junk"), fail("no device"));
    assert_eq!(native_result(1, b"\0"), fail(""));
}

#[test]
fn levels_are_handed_to_the_engine() {
    let mut config = Config::with_timing(TIMING);
    config.audio.phone_gain = gain(0.5);
    config.audio.desktop_mute = true;
    let asked = levels(&config);
    assert_eq!(
        asked,
        Levels {
            phone_gain: gain(0.5),
            desktop_gain: gain(1.0),
            master_gain: gain(1.0),
            phone_mute: false,
            desktop_mute: true,
            master_mute: false,
        }
    );
    assert_eq!(
        asked.native(),
        NativeLevels {
            phone_gain: gain(0.5),
            desktop_gain: gain(1.0),
            master_gain: gain(1.0),
            phone_mute: 0,
            desktop_mute: 1,
            master_mute: 0,
        }
    );
}

#[test]
fn engine_reports_are_converted() {
    let route = |name: &[u8], ready| NativeRouteStatus {
        input_name: name.to_vec(),
        input_address: b"AA\0".to_vec(),
        output_name: b"out\0".to_vec(),
        ready,
        codec: b"sbc\0".to_vec(),
        sample_rate: 48000,
        channels: 2,
        last_error: b"\0".to_vec(),
    };
    let native = NativeStatus {
        pipewire_connected: 1,
        routing_enabled: 0,
        policy_ready: 255,
        inputs_detected: 3,
        inputs_routed: 2,
        default_output_name: b"Speakers\0\0".to_vec(),
        last_error: b"oops\0".to_vec(),
    };
    let report =
        Status::from_native(&native, &vec![Some(route(b"a\0", 1)), None, Some(route(b"b\0", 0))]);
    assert!(report.pipewire_connected && !report.routing_enabled && report.policy_ready);
    assert_eq!((report.inputs_detected, report.inputs_routed), (3, 2));
    assert_eq!(report.default_output_name, "Speakers");
    assert_eq!(report.last_error, "oops");
    assert_eq!(report.routes.len(), 2);
    assert_eq!(report.routes[0].input_name, "a");
    assert!(report.routes[0].ready);
    assert_eq!(report.routes[1].input_name, "b");
    assert!(!report.routes[1].ready);
    assert_eq!(report.routes[1].input_address, "AA");
    assert_eq!(report.routes[1].output_name, "out");
    assert_eq!(report.routes[1].codec, "sbc");
    assert_eq!((report.routes[1].sample_rate, report.routes[1].channels), (48000, 2));
    assert_eq!(report.routes[1].last_error, "");
    let kept = AudioStatus::from(report);
    assert_eq!(kept.routes.len(), 2);
    assert_eq!(kept.last_error, "oops");
}

#[test]
fn levels_come_first_when_routes_open() {
    let mut config = Config::with_timing(TIMING);
    assert_eq!(
        control_plan(&config),
        ControlPlan {
            first: Control::SetLevels(levels(&config)),
            second: Control::SetEnabled(true)
        }
    );
    config.audio.routing_enabled = false;
    assert_eq!(
        control_plan(&config),
        ControlPlan {
            first: Control::SetEnabled(false),
            second: Control::SetLevels(levels(&config))
        }
    );
}

#[test]
fn route_errors_hide_volume_errors() {
    assert_eq!(apply_controls(Ok(()), Ok(())), Ok(()));
    assert_eq!(apply_controls(fail("v"), Ok(())), fail("Software volume update failed: v"));
    assert_eq!(apply_controls(Ok(()), fail("r")), fail("Route update failed: r"));
    assert_eq!(apply_controls(fail("v"), fail("r")), fail("Route update failed: r"));
}

#[test]
fn events_are_logged_as_json_lines() {
    let nasty = "a \"quoted\" \\ line\nbreak\ttab\r\u{8}\u{c}\u{1}\u{1f}\u{7f} ü日\u{2028}";
    for (event, name) in [
        (Event::ControllerStarted, "controller_started"),
        (Event::ControllerStopped, "controller_stopped"),
        (Event::AudioControlError, "audio_control_error"),
        (Event::AudioEngineCreated, "audio_engine_created"),
        (Event::AudioEngineError, "audio_engine_error"),
        (Event::AudioTickError, "audio_tick_error"),
        (Event::AudioShutdownError, "audio_shutdown_error"),
        (Event::BluetoothA2dpConnectError, "bluetooth_a2dp_connect_error"),
    ] {
        let line = Diagnostic::new(event, nasty).line();
        assert!(!line.contains('\n'));
        let read: serde_json::Value = serde_json::from_str(&line).unwrap();
        assert_eq!(read["event"].as_str(), Some(name));
        assert_eq!(read["message"].as_str(), Some(nasty));
        assert_eq!(line, read.to_string());
    }
    assert_eq!(
        Diagnostic::new(Event::AudioTickError, "x\n\u{1b}").line(),
        "{\"event\":\"audio_tick_error\",\"message\":\"x\\n\\u001b\"}"
    );
}

#[test]
fn log_lines_tell_messages_apart() {
    let messages =
        ["", "n", "\n", "\\n", "\\\n", "\"", "\\\"", "\u{1}", "\\u0001", "\u{10}", "\u{1f}", "1f"];
    for a in messages {
        for b in messages {
            let first = Diagnostic::new(Event::AudioTickError, a).line();
            let second = Diagnostic::new(Event::AudioTickError, b).line();
            assert_eq!(first == second, a == b);
        }
    }
}

#[test]
fn json_is_rendered_compactly() {
    let value = Json::Object(vec![
        ("a".to_string(), Json::Array(vec![Json::Null, Json::Bool(true), Json::Bool(false)])),
        ("b\"".to_string(), Json::Number("12.5".to_string())),
        ("c".to_string(), Json::Object(Vec::new())),
        ("d".to_string(), Json::Array(Vec::new())),
        ("e".to_string(), Json::Text("t\\".to_string())),
    ]);
    let text = render(&value);
    assert_eq!(text, "{\"a\":[null,true,false],\"b\\\"\":12.5,\"c\":{},\"d\":[],\"e\":\"t\\\\\"}");
    let read: serde_json::Value = serde_json::from_str(&text).unwrap();
    assert_eq!(read.to_string(), text);
    assert!(matches!(field(Some(&value), "c"), Some(Json::Object(_))));
    assert!(field(Some(&value), "z").is_none());
    assert!(field(None, "a").is_none());
    assert!(field(field(Some(&value), "a"), "a").is_none());
}

#[test]
fn requests_for_another_controller_are_refused() {
    let other = Request { config_path: b"/cfg/other.toml".to_vec(), command: Command::Status };
    match controller().on_request(&other) {
        RequestAction::Reply(response) => {
            assert!(!response.ok && response.data.is_none());
            assert_eq!(
                response.message,
                "Controller uses /cfg/config.toml; this command requested a different config"
            );
        }
        action => panic!("{:?}", action),
    }
    let same =
        Request { config_path: b"/cfg//./config.toml".to_vec(), command: Command::Status };
    assert!(matches!(controller().on_request(&same), RequestAction::ReportStatus));
}

#[test]
fn looks_and_changes_are_told_apart() {
    assert!(matches!(controller().on_request(&asks(Command::Status)), RequestAction::ReportStatus));
    assert!(matches!(
        controller().on_request(&asks(Command::ConfigShow)),
        RequestAction::ShowConfig
    ));
    let quiet = Command::Volume { channel: Channel::Phone, value: gain(0.4) };
    match controller().on_request(&asks(quiet)) {
        RequestAction::Save(updated) => {
            assert_eq!(updated.audio.phone_gain, gain(0.4));
            assert_eq!(updated.audio.master_gain, gain(1.0));
        }
        action => panic!("{:?}", action),
    }
    let loud = Command::Volume { channel: Channel::Phone, value: gain(2.0) };
    match controller().on_request(&asks(loud)) {
        RequestAction::Reply(response) => {
            assert!(!response.ok);
            assert_eq!(response.message, "Gain must be a finite number between 0 and 1");
        }
        action => panic!("{:?}", action),
    }
    let slow = TimerSupport { dbus_timeout: false, ..REACHABLE };
    match controller().decide(&asks(Command::Enable { enabled: false }), slow) {
        RequestAction::Reply(response) => assert_eq!(
            response.message,
            ConfigError::TimerRange(Timer::DbusTimeout).message(b"")
        ),
        action => panic!("{:?}", action),
    }
}

#[test]
fn saved_settings_are_taken_up() {
    let mut state = controller();
    let mut updated = Config::with_timing(TIMING);
    updated.audio.routing_enabled = false;
    match state.on_saved(updated.clone(), fail("disk full")) {
        SavedAction::Reply(response) => {
            assert!(!response.ok);
            assert_eq!(response.message, "disk full");
        }
        action => panic!("{:?}", action),
    }
    assert!(state.config.audio.routing_enabled);
    match state.on_saved(updated.clone(), Ok(())) {
        SavedAction::Reply(response) => {
            assert!(response.ok && response.data.is_none());
            assert_eq!(
                response.message,
                "Configuration saved; audio state is available through status"
            );
        }
        action => panic!("{:?}", action),
    }
    assert!(!state.config.audio.routing_enabled);
    state.on_engine_created(None);
    match state.on_saved(updated, Ok(())) {
        SavedAction::ApplyControls(plan) => assert_eq!(plan, control_plan(&state.config)),
        action => panic!("{:?}", action),
    }
}

#[test]
fn controls_answer_the_request() {
    let mut state = controller();
    state.on_engine_created(None);
    let (response, logged) = state.on_controls(fail("Route update failed: x"), status(""));
    assert!(!response.ok);
    assert_eq!(
        response.message,
        "Configuration saved, but a live control could not be applied: Route update failed: x"
    );
    assert_eq!(logged.unwrap().event, Event::AudioControlError);
    assert_eq!(state.error, "Route update failed: x");
    assert_eq!(state.audio.inputs_detected, 2);
    let (response, logged) = state.on_controls(Ok(()), status(""));
    assert!(response.ok && logged.is_none());
    assert_eq!(state.error, "");
}

#[test]
fn engines_are_started_after_longer_and_longer_waits() {
    let mut state = controller();
    assert_eq!(state.on_tick(5 * SECOND - 1), TickStep::Finished);
    let mut now: u64 = 5 * SECOND;
    for wait in [1u64, 2, 4, 8, 16, 30, 30, 30] {
        assert_eq!(state.on_tick(now), TickStep::CreateEngine);
        let first = state.error.is_empty();
        let (step, logged) = state.on_engine_failed("no PipeWire".to_string(), now);
        assert_eq!(step, TickStep::Finished);
        assert_eq!(logged.is_some(), first);
        assert_eq!(state.error, "no PipeWire");
        assert_eq!(state.on_tick(now + wait * SECOND - 1), TickStep::Finished);
        now += wait * SECOND;
    }
    let (_, logged) = state.on_engine_failed("other".to_string(), now);
    assert_eq!(logged.unwrap().line(), "{\"event\":\"audio_engine_error\",\"message\":\"other\"}");
}

#[test]
fn created_engines_work_at_once() {
    let mut state = controller();
    let (step, logged) = state.on_engine_created(Some("Route update failed: x".to_string()));
    assert_eq!(step, TickStep::TickEngine);
    assert_eq!(logged.len(), 2);
    assert_eq!(logged[0].event, Event::AudioControlError);
    assert_eq!(logged[0].message, "Route update failed: x");
    assert_eq!(logged[1].event, Event::AudioEngineCreated);
    assert_eq!(
        logged[1].message,
        "Waiting for Bluetooth audio and the output selected by Ubuntu"
    );
    assert_eq!(state.on_tick(0), TickStep::TickEngine);
    let mut state = controller();
    let (_, logged) = state.on_engine_created(Some(String::new()));
    assert_eq!(logged.len(), 1);
}

#[test]
fn engines_that_fail_are_dropped() {
    let mut state = controller();
    state.on_engine_created(None);
    assert!(state.on_engine_tick(Ok(status("x")), 0).is_none());
    assert!(state.audio.pipewire_connected);
    let logged = state.on_engine_tick(Err("lost".to_string()), 9 * SECOND).unwrap();
    assert_eq!(logged.event, Event::AudioTickError);
    assert_eq!(logged.message, "lost");
    assert!(!state.engine_running && !state.audio.pipewire_connected);
    assert!(state.audio.routes.is_empty());
    assert_eq!(state.on_tick(10 * SECOND - 1), TickStep::Finished);
    assert_eq!(state.on_tick(10 * SECOND), TickStep::CreateEngine);
    state.on_engine_created(Some("lost".to_string()));
    assert!(state.on_engine_tick(Err("lost".to_string()), 0).is_none());
    assert_eq!(state.retry_delay, 4);
}

#[test]
fn errors_clear_and_waits_shorten_when_audio_works() {
    let mut state = controller();
    state.on_engine_failed("e".to_string(), 0);
    state.on_engine_created(Some("volume".to_string()));
    state.on_engine_tick(Ok(status("engine")), 0);
    assert_eq!((state.error.as_str(), state.retry_delay), ("volume", 2));
    state.on_engine_tick(Ok(status("")), 0);
    assert_eq!((state.error.as_str(), state.retry_delay), ("", 2));
    let routed = |detected, connected| Status {
        inputs_detected: detected,
        inputs_routed: detected,
        pipewire_connected: connected,
        ..status("")
    };
    state.on_engine_tick(Ok(routed(0, true)), 0);
    assert_eq!(state.retry_delay, 2);
    state.on_engine_tick(Ok(routed(1, false)), 0);
    assert_eq!(state.retry_delay, 2);
    state.on_engine_tick(Ok(routed(1, true)), 0);
    assert_eq!(state.retry_delay, 1);
}

#[test]
fn sources_are_told_of_changes_only() {
    let mut state = controller();
    assert_eq!(state.publish(), None);
    state.on_engine_created(None);
    state.on_engine_tick(Ok(status("")), 0);
    assert_eq!(state.publish(), Some(true));
    assert_eq!(state.publish(), None);
    state.config.audio.routing_enabled = false;
    assert_eq!(state.publish(), Some(false));
    assert_eq!(state.publish(), None);
}

#[test]
fn stopping_closes_the_routes() {
    let mut state = controller();
    assert_eq!(state.on_stop(), None);
    state.on_engine_created(None);
    assert_eq!(state.on_stop(), Some(Control::SetEnabled(false)));
    assert!(!state.a2dp_enabled && !state.engine_running);
    assert_eq!(
        start_diagnostic(b"/cfg/config.toml").line(),
        "{\"event\":\"controller_started\",\"message\":\"/cfg/config.toml\"}"
    );
    let logged = stop_diagnostics(fail("busy"));
    assert_eq!(logged.len(), 2);
    assert_eq!(logged[0].line(), "{\"event\":\"audio_shutdown_error\",\"message\":\"busy\"}");
    assert_eq!(
        logged[1].line(),
        "{\"event\":\"controller_stopped\",\"message\":\"Project-owned audio resources released\"}"
    );
    assert_eq!(stop_diagnostics(Ok(())).len(), 1);
}

fn observed() -> BluetoothStatus {
    BluetoothStatus {
        available: true,
        devices: vec![Device {
            address: "AA:BB".to_string(),
            name: "Phone \"x\"".to_string(),
            paired: true,
            connected: false,
            uuids: vec!["u1".to_string(), "u2".to_string()],
        }],
        last_error: "slow".to_string(),
    }
}

fn running() -> Controller {
    let mut state = controller();
    state.config.audio.master_mute = true;
    state.on_engine_created(Some("volume".to_string()));
    state.on_engine_tick(Ok(status("engine")), 0);
    state
}

#[test]
fn status_is_reported_whole() {
    let response = running().status_response(&observed(), true, &gains());
    assert!(response.ok);
    assert_eq!(response.message, "Live controller status");
    let text = render(&response.data.unwrap());
    let read: serde_json::Value = serde_json::from_str(&text).unwrap();
    assert_eq!(read["running"], serde_json::Value::from(true));
    assert_eq!(read["config_path"].as_str(), Some("/cfg/config.toml"));
    assert_eq!(read["config"]["audio"]["phone_gain"].as_f64(), Some(0.5));
    assert_eq!(read["config"]["audio"]["master_mute"].as_bool(), Some(true));
    assert_eq!(read["config"]["bluetooth"]["a2dp_retry_delay_seconds"].as_u64(), Some(30));
    assert_eq!(read["config"].as_object().unwrap().len(), 2);
    assert_eq!(read["config"]["audio"].as_object().unwrap().len(), 7);
    assert_eq!(read["bluetooth"]["devices"][0]["uuids"][1].as_str(), Some("u2"));
    assert_eq!(read["bluetooth"]["devices"][0]["name"].as_str(), Some("Phone \"x\""));
    assert_eq!(read["bluetooth"]["last_error"].as_str(), Some("slow"));
    assert_eq!(read["audio"]["inputs_detected"].as_u64(), Some(2));
    assert_eq!(read["audio"]["routes"][0]["sample_rate"].as_u64(), Some(44100));
    assert_eq!(read["policy_file_present"].as_bool(), Some(true));
    assert_eq!(read["last_error"].as_str(), Some("volume"));
    assert_eq!(read.as_object().unwrap().len(), 8);
}

#[test]
fn parts_of_the_status_are_json() {
    let state = running();
    assert_eq!(
        render(&bluetooth_json(&observed())),
        "{\"available\":true,\"devices\":[{\"address\":\"AA:BB\",\"name\":\"Phone \\\"x\\\"\",\"paired\":true,\"connected\":false,\"uuids\":[\"u1\",\"u2\"]}],\"last_error\":\"slow\"}"
    );
    assert_eq!(
        render(&audio_json(&AudioStatus::default())),
        "{\"pipewire_connected\":false,\"routing_enabled\":false,\"policy_ready\":false,\"inputs_detected\":0,\"inputs_routed\":0,\"default_output_name\":\"\",\"last_error\":\"\",\"routes\":[]}"
    );
    let shown = "{\"audio\":{\"phone_gain\":0.5,\"desktop_gain\":1.0,\"master_gain\":0.25,\"phone_mute\":false,\"desktop_mute\":false,\"master_mute\":true,\"routing_enabled\":true},\"bluetooth\":{\"dbus_timeout_seconds\":5,\"a2dp_connect_delay_seconds\":2,\"a2dp_retry_delay_seconds\":30}}";
    assert_eq!(render(&config_json(&state.config, &gains())), shown);
    let response = state.config_response(&gains());
    assert!(response.ok);
    assert_eq!(response.message, "Active configuration");
    assert_eq!(render(&response.data.unwrap()), shown);
}

#[test]
fn input_rule_is_described() {
    let active = "Bluetooth input policy is active; output follows Ubuntu";
    assert_eq!(policy_message(true, false), active);
    assert_eq!(policy_message(true, true), active);
    assert_eq!(
        policy_message(false, true),
        "Input policy is installed; waiting to observe it on incoming Bluetooth audio. Log out and back in after updating the policy"
    );
    assert_eq!(
        policy_message(false, false),
        "Ubuntu/WirePlumber manages Bluetooth playback; bridge forwarding controls require the optional input policy"
    );
}

#[test]
fn status_is_printed_as_it_is_known() {
    let data = running().status_response(&observed(), false, &gains()).data.unwrap();
    assert_eq!(
        print_status(&data),
        vec![
            "Controller: running",
            "Config: /cfg/config.toml",
            "Bluetooth audio requested: true",
            "Forwarding enabled: true | PipeWire connected: true",
            "Bluetooth inputs: 2 detected, 1 routed",
            "Ubuntu default output: Speakers",
            "iPhone (AA:BB) -> unknown | ready: true",
            "  Native output codec: aac | sample rate: 44100 | channels: 2",
            "  Attention: no port",
            "phone: relative gain=0.5 muted=false",
            "desktop: relative gain=1.0 muted=false",
            "master: relative gain=0.25 muted=true",
            "Input policy: Ubuntu/WirePlumber manages Bluetooth playback; bridge forwarding controls require the optional input policy",
            "Attention: volume",
            "Attention: slow",
            "Attention: engine",
        ]
    );
}

#[test]
fn unknown_status_is_printed_with_placeholders() {
    assert_eq!(
        print_status(&Json::Null),
        vec![
            "Controller: running",
            "Config: unknown",
            "Bluetooth audio requested: false",
            "Forwarding enabled: false | PipeWire connected: false",
            "Bluetooth inputs: null detected, null routed",
            "Ubuntu default output: unknown",
            "phone: relative gain=null muted=false",
            "desktop: relative gain=null muted=false",
            "master: relative gain=null muted=false",
            "Input policy: unknown",
        ]
    );
}

#[test]
fn changes_become_commands() {
    for (source, channel) in [
        (Source::Phone, Channel::Phone),
        (Source::Desktop, Channel::Desktop),
        (Source::Master, Channel::Master),
    ] {
        assert_eq!(Channel::from(source), channel);
        assert_eq!(
            command_for(&Change::Volume { channel: source, value: gain(0.4) }),
            Ok(Command::Volume { channel, value: gain(0.4) })
        );
        assert_eq!(
            command_for(&Change::Mute { channel: source, state: Switch::On }),
            Ok(Command::Mute { channel, muted: true })
        );
        assert_eq!(
            command_for(&Change::Mute { channel: source, state: Switch::Off }),
            Ok(Command::Mute { channel, muted: false })
        );
        assert_eq!(
            command_for(&Change::Volume { channel: source, value: gain(1.1) }),
            Err(ConfigError::GainOutOfRange)
        );
    }
    assert_eq!(
        command_for(&Change::Select { enabled: false }),
        Ok(Command::Select { enabled: false })
    );
    assert_eq!(command_for(&Change::Enable), Ok(Command::Enable { enabled: true }));
    assert_eq!(command_for(&Change::Disable), Ok(Command::Enable { enabled: false }));
}

#[test]
fn refusals_of_the_controller_are_errors() {
    assert!(remote(None).unwrap().is_none());
    assert_eq!(remote(Some(Response::error("no"))).err(), Some("no".to_string()));
    let done = remote(Some(Response::success("yes", None))).unwrap().unwrap();
    assert_eq!(done.message, "yes");
}

#[test]
fn menu_asks_for_forwarding() {
    assert_eq!(
        forwarding_menu(true),
        vec![
            "Forward Bluetooth audio through PipeWire? Currently: on",
            "  1) On  - use the output selected in Ubuntu",
            "  2) Off - pause Bluetooth audio forwarding",
            "Choose 1 or 2 [Enter keeps the current setting]: ",
        ]
    );
    assert_eq!(
        forwarding_menu(false)[0],
        "Forward Bluetooth audio through PipeWire? Currently: off"
    );
}

#[test]
fn menu_takes_answers() {
    for current in [true, false] {
        let choose = |line: &str| choose_forwarding(current, &Answer::Line(line.to_string()));
        for blank in ["", "\n", "  \t\r\n"] {
            assert_eq!(choose(blank), Ok(current));
        }
        for on in ["1\n", "on", " ON \n", "Yes", "y"] {
            assert_eq!(choose(on), Ok(true));
        }
        for off in ["2", "off\n", "OFF", "no", "N"] {
            assert_eq!(choose(off), Ok(false));
        }
        for other in ["3", "o n", "yess", "12"] {
            assert_eq!(choose(other), Err(ChoiceError::Unrecognized));
        }
        assert_eq!(
            choose_forwarding(current, &Answer::NoTerminal),
            Err(ChoiceError::NoTerminal)
        );
        assert_eq!(
            choose_forwarding(current, &Answer::EndOfInput),
            Err(ChoiceError::Cancelled)
        );
    }
    assert_eq!(
        ChoiceError::NoTerminal.message(),
        "Use 'bluetooth-audio-bridge select on' or 'bluetooth-audio-bridge select off' without an interactive terminal"
    );
    assert_eq!(ChoiceError::Cancelled.message(), "Selection cancelled; configuration unchanged");
    assert_eq!(
        ChoiceError::Unrecognized.message(),
        "Choose 1 (on) or 2 (off); configuration unchanged"
    );
}

#[test]
fn devices_are_listed_in_columns() {
    let device = |paired, connected| Device {
        address: "AA:BB:CC:DD:EE:FF".to_string(),
        name: "Phone".to_string(),
        paired,
        connected,
        uuids: Vec::new(),
    };
    assert_eq!(device_heading(), "ADDRESS            PAIRED  CONNECTED  NAME");
    assert_eq!(device_row(&device(true, false)), "AA:BB:CC:DD:EE:FF  true    false      Phone");
    for paired in [true, false] {
        for connected in [true, false] {
            let shown = device(paired, connected);
            assert_eq!(
                device_row(&shown),
                format!(
                    "{}  {:<6}  {:<9}  {}",
                    shown.address, shown.paired, shown.connected, shown.name
                )
            );
        }
    }
}

#[test]
fn devices_need_a_settings_file_only_when_asked_for() {
    let found = Lookup::Found(FileFacts {
        is_file: true,
        is_dir: false,
        is_socket: false,
        uid: 1,
        mode: 0o600,
        len: 0,
        device: 0,
        inode: 0,
    });
    assert_eq!(devices_settings(found, true), SettingsSource::File);
    assert_eq!(devices_settings(found, false), SettingsSource::File);
    assert_eq!(devices_settings(Lookup::Missing, false), SettingsSource::Defaults);
    assert_eq!(devices_settings(Lookup::Missing, true), SettingsSource::Nowhere);
    assert_eq!(devices_settings(Lookup::Failed, false), SettingsSource::Nowhere);
    assert_eq!(
        refuse_existing(found, b"/c"),
        Some("/c already exists; it has not been overwritten".to_string())
    );
    assert_eq!(refuse_existing(Lookup::Missing, b"/c"), None);
    assert_eq!(refuse_existing(Lookup::Failed, b"/c"), None);
}

#[test]
fn outcomes_are_told() {
    assert_eq!(
        saved_offline_message(b"/c/config.toml"),
        "Saved /c/config.toml. Controller is offline; changes apply on its next start."
    );
    assert_eq!(
        selected_message(true),
        "Bluetooth audio forwarding: on. Output follows Ubuntu."
    );
    assert_eq!(
        selected_message(false),
        "Bluetooth audio forwarding: off. Output follows Ubuntu."
    );
    assert_eq!(
        created_message(b"/c\xff"),
        "Created /c\u{fffd}. Bluetooth inputs are detected automatically; choose the output in Ubuntu."
    );
}

#[test]
fn offline_status_is_told_to_people_and_programs() {
    assert_eq!(
        offline_lines(),
        vec![
            "Controller is offline; Ubuntu audio may still be playing independently.",
            "Start the controller: systemctl --user start bluetooth-audio-bridge.service",
        ]
    );
    let text = offline_json(b"/c/config.toml");
    assert_eq!(
        text,
        "{\"config_path\":\"/c/config.toml\",\"message\":\"Controller is offline; Ubuntu audio may still be playing independently\",\"running\":false,\"start_command\":\"systemctl --user start bluetooth-audio-bridge.service\"}"
    );
    let read: serde_json::Value = serde_json::from_str(&text).unwrap();
    assert_eq!(read.to_string(), text);
}
