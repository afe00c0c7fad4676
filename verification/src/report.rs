//! What the controller answers to a look at its status or its settings.
use crate::audio::RouteStatus;
use crate::bluetooth::{BluetoothStatus, Device};
use crate::config::Config;
use crate::controller::{AudioStatus, Controller};
use crate::ipc::Response;
use crate::json;
use crate::json::Json;
use crate::text;
use vstd::prelude::*;
use vstd::string::*;
use vstd::utf8::*;

verus! {

/// The gains of the settings as JSON numbers.
#[derive(Debug)]
pub struct GainTexts {
    pub phone: String,
    pub desktop: String,
    pub master: String,
}

/// The value is that text.
pub open spec fn is_text(value: Json, s: Seq<char>) -> bool {
    value matches Json::Text(t) && t@ == s
}

/// The value is the number with that text.
pub open spec fn is_number(value: Json, s: Seq<char>) -> bool {
    value matches Json::Number(t) && t@ == s
}

/// The value is that whole number.
pub open spec fn is_count(value: Json, n: nat) -> bool {
    is_number(value, text::decimal(n))
}

/// The value is an array of those texts.
pub open spec fn is_texts(value: Json, parts: Seq<Seq<char>>) -> bool {
    value matches Json::Array(items) && items@.len() == parts.len() && forall|i: int|
        0 <= i < parts.len() ==> is_text(#[trigger] items@[i], parts[i])
}

/// The value is an object with exactly those keys, in that order.
pub open spec fn is_object(value: Json, keys: Seq<Seq<char>>) -> bool {
    value matches Json::Object(fields) && json::keys(fields@) == keys
}

/// The `i`-th value of an object.
pub open spec fn item(value: Json, i: int) -> Json {
    value->Object_0@[i].1
}

/// The value shows an input.
pub open spec fn shows_route(value: Json, route: RouteStatus) -> bool {
    &&& is_object(
        value,
        seq![
            "input_name"@,
            "input_address"@,
            "output_name"@,
            "ready"@,
            "codec"@,
            "sample_rate"@,
            "channels"@,
            "last_error"@,
        ],
    )
    &&& is_text(item(value, 0), route.input_name@)
    &&& is_text(item(value, 1), route.input_address@)
    &&& is_text(item(value, 2), route.output_name@)
    &&& item(value, 3) == Json::Bool(route.ready)
    &&& is_text(item(value, 4), route.codec@)
    &&& is_count(item(value, 5), route.sample_rate as nat)
    &&& is_count(item(value, 6), route.channels as nat)
    &&& is_text(item(value, 7), route.last_error@)
}

/// The value shows the inputs in order.
pub open spec fn shows_routes(value: Json, routes: Seq<RouteStatus>) -> bool {
    value matches Json::Array(items) && items@.len() == routes.len() && forall|i: int|
        0 <= i < routes.len() ==> shows_route(#[trigger] items@[i], routes[i])
}

/// The value shows the audio.
pub open spec fn shows_audio(value: Json, audio: AudioStatus) -> bool {
    &&& is_object(
        value,
        seq![
            "pipewire_connected"@,
            "routing_enabled"@,
            "policy_ready"@,
            "inputs_detected"@,
            "inputs_routed"@,
            "default_output_name"@,
            "last_error"@,
            "routes"@,
        ],
    )
    &&& item(value, 0) == Json::Bool(audio.pipewire_connected)
    &&& item(value, 1) == Json::Bool(audio.routing_enabled)
    &&& item(value, 2) == Json::Bool(audio.policy_ready)
    &&& is_count(item(value, 3), audio.inputs_detected as nat)
    &&& is_count(item(value, 4), audio.inputs_routed as nat)
    &&& is_text(item(value, 5), audio.default_output_name@)
    &&& is_text(item(value, 6), audio.last_error@)
    &&& shows_routes(item(value, 7), audio.routes@)
}

/// The value shows a device.
pub open spec fn shows_device(value: Json, device: Device) -> bool {
    &&& is_object(value, seq!["address"@, "name"@, "paired"@, "connected"@, "uuids"@])
    &&& is_text(item(value, 0), device.address@)
    &&& is_text(item(value, 1), device.name@)
    &&& item(value, 2) == Json::Bool(device.paired)
    &&& item(value, 3) == Json::Bool(device.connected)
    &&& is_texts(item(value, 4), text::texts(device.uuids@))
}

/// The value shows the devices in order.
pub open spec fn shows_devices(value: Json, devices: Seq<Device>) -> bool {
    value matches Json::Array(items) && items@.len() == devices.len() && forall|i: int|
        0 <= i < devices.len() ==> shows_device(#[trigger] items@[i], devices[i])
}

/// The value shows what is known of Bluetooth.
pub open spec fn shows_bluetooth(value: Json, status: BluetoothStatus) -> bool {
    &&& is_object(value, seq!["available"@, "devices"@, "last_error"@])
    &&& item(value, 0) == Json::Bool(status.available)
    &&& shows_devices(item(value, 1), status.devices@)
    &&& is_text(item(value, 2), status.last_error@)
}

/// The value shows the settings that are written, the gains by their texts.
pub open spec fn shows_config(value: Json, config: Config, gains: GainTexts) -> bool {
    &&& is_object(value, seq!["audio"@, "bluetooth"@])
    &&& is_object(
        item(value, 0),
        seq![
            "phone_gain"@,
            "desktop_gain"@,
            "master_gain"@,
            "phone_mute"@,
            "desktop_mute"@,
            "master_mute"@,
            "routing_enabled"@,
        ],
    )
    &&& is_number(item(item(value, 0), 0), gains.phone@)
    &&& is_number(item(item(value, 0), 1), gains.desktop@)
    &&& is_number(item(item(value, 0), 2), gains.master@)
    &&& item(item(value, 0), 3) == Json::Bool(config.audio.phone_mute)
    &&& item(item(value, 0), 4) == Json::Bool(config.audio.desktop_mute)
    &&& item(item(value, 0), 5) == Json::Bool(config.audio.master_mute)
    &&& item(item(value, 0), 6) == Json::Bool(config.audio.routing_enabled)
    &&& is_object(
        item(value, 1),
        seq![
            "dbus_timeout_seconds"@,
            "a2dp_connect_delay_seconds"@,
            "a2dp_retry_delay_seconds"@,
        ],
    )
    &&& is_count(item(item(value, 1), 0), config.bluetooth.dbus_timeout_seconds as nat)
    &&& is_count(item(item(value, 1), 1), config.bluetooth.a2dp_connect_delay_seconds as nat)
    &&& is_count(item(item(value, 1), 2), config.bluetooth.a2dp_retry_delay_seconds as nat)
}

/// What is said of the input rule: whether it has been seen to work, is there, or is not.
pub open spec fn policy_text(policy_ready: bool, file_present: bool) -> Seq<char> {
    if policy_ready {
        "Bluetooth input policy is active; output follows Ubuntu"@
    } else if file_present {
        "Input policy is installed; waiting to observe it on incoming Bluetooth audio. Log out and back in after updating the policy"@
    } else {
        "Ubuntu/WirePlumber manages Bluetooth playback; bridge forwarding controls require the optional input policy"@
    }
}

/// The value shows the status of a controller.
pub open spec fn shows_status(
    value: Json,
    controller: Controller,
    bluetooth: BluetoothStatus,
    policy_file_present: bool,
    gains: GainTexts,
) -> bool {
    &&& is_object(
        value,
        seq![
            "running"@,
            "config_path"@,
            "config"@,
            "bluetooth"@,
            "audio"@,
            "policy_file_present"@,
            "policy_message"@,
            "last_error"@,
        ],
    )
    &&& item(value, 0) == Json::Bool(true)
    &&& is_text(item(value, 1), decode_utf8(controller.path@))
    &&& shows_config(item(value, 2), controller.config, gains)
    &&& shows_bluetooth(item(value, 3), bluetooth)
    &&& shows_audio(item(value, 4), controller.audio)
    &&& item(value, 5) == Json::Bool(policy_file_present)
    &&& is_text(item(value, 6), policy_text(controller.audio.policy_ready, policy_file_present))
    &&& is_text(item(value, 7), controller.error@)
}

fn put(fields: &mut Vec<(String, Json)>, key: &str, value: Json)
    ensures
        final(fields)@.len() == old(fields)@.len() + 1,
        final(fields)@.drop_last() == old(fields)@,
        final(fields)@.last().0@ == key@,
        final(fields)@.last().1 == value,
        json::keys(final(fields)@) == json::keys(old(fields)@).push(key@),
        forall|i: int| 0 <= i < old(fields)@.len() ==> #[trigger] final(fields)@[i] == old(fields)@[i],
{
    fields.push((String::from_str(key), value));
    assert(fields@.drop_last() =~= old(fields)@);
    assert(json::keys(fields@) =~= json::keys(old(fields)@).push(key@));
}

fn text_value(s: &String) -> (r: Json)
    ensures
        is_text(r, s@),
{
    Json::Text(s.clone())
}

fn count_value(n: u64) -> (r: Json)
    ensures
        is_count(r, n as nat),
{
    Json::Number(text::decimal_text(n))
}

fn route_json(route: &RouteStatus) -> (r: Json)
    ensures
        shows_route(r, *route),
{
    let mut f: Vec<(String, Json)> = Vec::new();
    put(&mut f, "input_name", text_value(&route.input_name));
    put(&mut f, "input_address", text_value(&route.input_address));
    put(&mut f, "output_name", text_value(&route.output_name));
    put(&mut f, "ready", Json::Bool(route.ready));
    put(&mut f, "codec", text_value(&route.codec));
    put(&mut f, "sample_rate", count_value(route.sample_rate as u64));
    put(&mut f, "channels", count_value(route.channels as u64));
    put(&mut f, "last_error", text_value(&route.last_error));
    assert(json::keys(f@) =~= seq![
        "input_name"@,
        "input_address"@,
        "output_name"@,
        "ready"@,
        "codec"@,
        "sample_rate"@,
        "channels"@,
        "last_error"@,
    ]);
    Json::Object(f)
}

/// The audio as JSON.
pub fn audio_json(audio: &AudioStatus) -> (r: Json)
    ensures
        shows_audio(r, *audio),
{
    let mut routes: Vec<Json> = Vec::new();
    let mut i: usize = 0;
    while i < audio.routes.len()
        invariant
            i <= audio.routes@.len(),
            routes@.len() == i,
            forall|k: int| 0 <= k < i ==> shows_route(#[trigger] routes@[k], audio.routes@[k]),
        decreases audio.routes@.len() - i,
    {
        routes.push(route_json(&audio.routes[i]));
        i = i + 1;
    }
    let list = Json::Array(routes);
    assert(shows_routes(list, audio.routes@));
    let mut f: Vec<(String, Json)> = Vec::new();
    put(&mut f, "pipewire_connected", Json::Bool(audio.pipewire_connected));
    put(&mut f, "routing_enabled", Json::Bool(audio.routing_enabled));
    put(&mut f, "policy_ready", Json::Bool(audio.policy_ready));
    put(&mut f, "inputs_detected", count_value(audio.inputs_detected as u64));
    put(&mut f, "inputs_routed", count_value(audio.inputs_routed as u64));
    put(&mut f, "default_output_name", text_value(&audio.default_output_name));
    put(&mut f, "last_error", text_value(&audio.last_error));
    put(&mut f, "routes", list);
    assert(json::keys(f@) =~= seq![
        "pipewire_connected"@,
        "routing_enabled"@,
        "policy_ready"@,
        "inputs_detected"@,
        "inputs_routed"@,
        "default_output_name"@,
        "last_error"@,
        "routes"@,
    ]);
    Json::Object(f)
}

fn device_json(device: &Device) -> (r: Json)
    ensures
        shows_device(r, *device),
{
    let mut uuids: Vec<Json> = Vec::new();
    let mut i: usize = 0;
    while i < device.uuids.len()
        invariant
            i <= device.uuids@.len(),
            uuids@.len() == i,
            forall|k: int|
                0 <= k < i ==> is_text(#[trigger] uuids@[k], text::texts(device.uuids@)[k]),
        decreases device.uuids@.len() - i,
    {
        uuids.push(text_value(&device.uuids[i]));
        i = i + 1;
    }
    let mut f: Vec<(String, Json)> = Vec::new();
    put(&mut f, "address", text_value(&device.address));
    put(&mut f, "name", text_value(&device.name));
    put(&mut f, "paired", Json::Bool(device.paired));
    put(&mut f, "connected", Json::Bool(device.connected));
    put(&mut f, "uuids", Json::Array(uuids));
    assert(json::keys(f@) =~= seq!["address"@, "name"@, "paired"@, "connected"@, "uuids"@]);
    Json::Object(f)
}

/// What is known of Bluetooth as JSON.
pub fn bluetooth_json(status: &BluetoothStatus) -> (r: Json)
    ensures
        shows_bluetooth(r, *status),
{
    let mut devices: Vec<Json> = Vec::new();
    let mut i: usize = 0;
    while i < status.devices.len()
        invariant
            i <= status.devices@.len(),
            devices@.len() == i,
            forall|k: int| 0 <= k < i ==> shows_device(#[trigger] devices@[k], status.devices@[k]),
        decreases status.devices@.len() - i,
    {
        devices.push(device_json(&status.devices[i]));
        i = i + 1;
    }
    let list = Json::Array(devices);
    assert(shows_devices(list, status.devices@));
    let mut f: Vec<(String, Json)> = Vec::new();
    put(&mut f, "available", Json::Bool(status.available));
    put(&mut f, "devices", list);
    put(&mut f, "last_error", text_value(&status.last_error));
    assert(json::keys(f@) =~= seq!["available"@, "devices"@, "last_error"@]);
    Json::Object(f)
}

/// The settings that are written as JSON.
pub fn config_json(config: &Config, gains: &GainTexts) -> (r: Json)
    ensures
        shows_config(r, *config, *gains),
{
    let mut a: Vec<(String, Json)> = Vec::new();
    put(&mut a, "phone_gain", Json::Number(gains.phone.clone()));
    put(&mut a, "desktop_gain", Json::Number(gains.desktop.clone()));
    put(&mut a, "master_gain", Json::Number(gains.master.clone()));
    put(&mut a, "phone_mute", Json::Bool(config.audio.phone_mute));
    put(&mut a, "desktop_mute", Json::Bool(config.audio.desktop_mute));
    put(&mut a, "master_mute", Json::Bool(config.audio.master_mute));
    put(&mut a, "routing_enabled", Json::Bool(config.audio.routing_enabled));
    assert(json::keys(a@) =~= seq![
        "phone_gain"@,
        "desktop_gain"@,
        "master_gain"@,
        "phone_mute"@,
        "desktop_mute"@,
        "master_mute"@,
        "routing_enabled"@,
    ]);
    let mut b: Vec<(String, Json)> = Vec::new();
    put(&mut b, "dbus_timeout_seconds", count_value(config.bluetooth.dbus_timeout_seconds));
    put(
        &mut b,
        "a2dp_connect_delay_seconds",
        count_value(config.bluetooth.a2dp_connect_delay_seconds),
    );
    put(
        &mut b,
        "a2dp_retry_delay_seconds",
        count_value(config.bluetooth.a2dp_retry_delay_seconds),
    );
    assert(json::keys(b@) =~= seq![
        "dbus_timeout_seconds"@,
        "a2dp_connect_delay_seconds"@,
        "a2dp_retry_delay_seconds"@,
    ]);
    let mut f: Vec<(String, Json)> = Vec::new();
    put(&mut f, "audio", Json::Object(a));
    put(&mut f, "bluetooth", Json::Object(b));
    assert(json::keys(f@) =~= seq!["audio"@, "bluetooth"@]);
    Json::Object(f)
}

/// What is said of the input rule.
pub fn policy_message(policy_ready: bool, file_present: bool) -> (r: &'static str)
    ensures
        r@ == policy_text(policy_ready, file_present),
{
    if policy_ready {
        "Bluetooth input policy is active; output follows Ubuntu"
    } else if file_present {
        "Input policy is installed; waiting to observe it on incoming Bluetooth audio. Log out and back in after updating the policy"
    } else {
        "Ubuntu/WirePlumber manages Bluetooth playback; bridge forwarding controls require the optional input policy"
    }
}

impl Controller {
    /// The answer to a look at the status.
    pub fn status_response(
        &self,
        bluetooth: &BluetoothStatus,
        policy_file_present: bool,
        gains: &GainTexts,
    ) -> (r: Response)
        requires
            valid_utf8(self.path@),
        ensures
            r.ok,
            r.message@ == "Live controller status"@,
            r.data matches Some(data) && shows_status(
                data,
                *self,
                *bluetooth,
                policy_file_present,
                *gains,
            ),
    {
        let mut f: Vec<(String, Json)> = Vec::new();
        put(&mut f, "running", Json::Bool(true));
        put(&mut f, "config_path", Json::Text(text::lossy_text(self.path.as_slice())));
        put(&mut f, "config", config_json(&self.config, gains));
        put(&mut f, "bluetooth", bluetooth_json(bluetooth));
        put(&mut f, "audio", audio_json(&self.audio));
        put(&mut f, "policy_file_present", Json::Bool(policy_file_present));
        put(
            &mut f,
            "policy_message",
            Json::Text(
                String::from_str(policy_message(self.audio.policy_ready, policy_file_present)),
            ),
        );
        put(&mut f, "last_error", text_value(&self.error));
        assert(json::keys(f@) =~= seq![
            "running"@,
            "config_path"@,
            "config"@,
            "bluetooth"@,
            "audio"@,
            "policy_file_present"@,
            "policy_message"@,
            "last_error"@,
        ]);
        Response::success("Live controller status", Some(Json::Object(f)))
    }

    /// The answer to a look at the settings.
    pub fn config_response(&self, gains: &GainTexts) -> (r: Response)
        ensures
            r.ok,
            r.message@ == "Active configuration"@,
            r.data matches Some(data) && shows_config(data, self.config, *gains),
    {
        Response::success("Active configuration", Some(config_json(&self.config, gains)))
    }
}

/// An input is shown under the names of what is known of it, each thing under its own.
pub proof fn inputs_are_shown_by_name(value: Json, route: RouteStatus)
    requires
        shows_route(value, route),
    ensures
        value is Object,
        value->Object_0@.len() == 8,
        value->Object_0@[0].0@ == "input_name"@,
        value->Object_0@[0].1 matches Json::Text(t) && t@ == route.input_name@,
        value->Object_0@[1].0@ == "input_address"@,
        value->Object_0@[1].1 matches Json::Text(t) && t@ == route.input_address@,
        value->Object_0@[2].0@ == "output_name"@,
        value->Object_0@[2].1 matches Json::Text(t) && t@ == route.output_name@,
        value->Object_0@[3].0@ == "ready"@,
        value->Object_0@[3].1 == Json::Bool(route.ready),
        value->Object_0@[4].0@ == "codec"@,
        value->Object_0@[4].1 matches Json::Text(t) && t@ == route.codec@,
        value->Object_0@[5].0@ == "sample_rate"@,
        value->Object_0@[5].1 matches Json::Number(t) && t@ == text::decimal(route.sample_rate as nat),
        value->Object_0@[6].0@ == "channels"@,
        value->Object_0@[6].1 matches Json::Number(t) && t@ == text::decimal(route.channels as nat),
        value->Object_0@[7].0@ == "last_error"@,
        value->Object_0@[7].1 matches Json::Text(t) && t@ == route.last_error@,
{
    assert(json::keys(value->Object_0@).len() == value->Object_0@.len());
    assert(json::keys(value->Object_0@)[0] == value->Object_0@[0].0@);
    assert(json::keys(value->Object_0@)[1] == value->Object_0@[1].0@);
    assert(json::keys(value->Object_0@)[2] == value->Object_0@[2].0@);
    assert(json::keys(value->Object_0@)[3] == value->Object_0@[3].0@);
    assert(json::keys(value->Object_0@)[4] == value->Object_0@[4].0@);
    assert(json::keys(value->Object_0@)[5] == value->Object_0@[5].0@);
    assert(json::keys(value->Object_0@)[6] == value->Object_0@[6].0@);
    assert(json::keys(value->Object_0@)[7] == value->Object_0@[7].0@);
}

/// The audio is shown under the names of what is known of it, with every input in order.
pub proof fn audio_is_shown_by_name(value: Json, audio: AudioStatus)
    requires
        shows_audio(value, audio),
    ensures
        value is Object,
        value->Object_0@.len() == 8,
        value->Object_0@[0].0@ == "pipewire_connected"@,
        value->Object_0@[0].1 == Json::Bool(audio.pipewire_connected),
        value->Object_0@[1].0@ == "routing_enabled"@,
        value->Object_0@[1].1 == Json::Bool(audio.routing_enabled),
        value->Object_0@[2].0@ == "policy_ready"@,
        value->Object_0@[2].1 == Json::Bool(audio.policy_ready),
        value->Object_0@[3].0@ == "inputs_detected"@,
        value->Object_0@[3].1 matches Json::Number(t) && t@ == text::decimal(audio.inputs_detected as nat),
        value->Object_0@[4].0@ == "inputs_routed"@,
        value->Object_0@[4].1 matches Json::Number(t) && t@ == text::decimal(audio.inputs_routed as nat),
        value->Object_0@[5].0@ == "default_output_name"@,
        value->Object_0@[5].1 matches Json::Text(t) && t@ == audio.default_output_name@,
        value->Object_0@[6].0@ == "last_error"@,
        value->Object_0@[6].1 matches Json::Text(t) && t@ == audio.last_error@,
        value->Object_0@[7].0@ == "routes"@,
        value->Object_0@[7].1 is Array,
        value->Object_0@[7].1->Array_0@.len() == audio.routes@.len(),
        forall|i: int|
            0 <= i < audio.routes@.len() ==> shows_route(
                #[trigger] value->Object_0@[7].1->Array_0@[i],
                audio.routes@[i],
            ),
{
    assert(json::keys(value->Object_0@).len() == value->Object_0@.len());
    assert(json::keys(value->Object_0@)[0] == value->Object_0@[0].0@);
    assert(json::keys(value->Object_0@)[1] == value->Object_0@[1].0@);
    assert(json::keys(value->Object_0@)[2] == value->Object_0@[2].0@);
    assert(json::keys(value->Object_0@)[3] == value->Object_0@[3].0@);
    assert(json::keys(value->Object_0@)[4] == value->Object_0@[4].0@);
    assert(json::keys(value->Object_0@)[5] == value->Object_0@[5].0@);
    assert(json::keys(value->Object_0@)[6] == value->Object_0@[6].0@);
    assert(json::keys(value->Object_0@)[7] == value->Object_0@[7].0@);
}

/// A device is shown under the names of what is known of it, with every service in order.
pub proof fn devices_are_shown_by_name(value: Json, device: Device)
    requires
        shows_device(value, device),
    ensures
        value is Object,
        value->Object_0@.len() == 5,
        value->Object_0@[0].0@ == "address"@,
        value->Object_0@[0].1 matches Json::Text(t) && t@ == device.address@,
        value->Object_0@[1].0@ == "name"@,
        value->Object_0@[1].1 matches Json::Text(t) && t@ == device.name@,
        value->Object_0@[2].0@ == "paired"@,
        value->Object_0@[2].1 == Json::Bool(device.paired),
        value->Object_0@[3].0@ == "connected"@,
        value->Object_0@[3].1 == Json::Bool(device.connected),
        value->Object_0@[4].0@ == "uuids"@,
        value->Object_0@[4].1 is Array,
        value->Object_0@[4].1->Array_0@.len() == device.uuids@.len(),
        forall|i: int|
            0 <= i < device.uuids@.len() ==> (
            #[trigger] value->Object_0@[4].1->Array_0@[i] matches Json::Text(t) && t@
                == device.uuids@[i]@),
{
    assert(json::keys(value->Object_0@).len() == value->Object_0@.len());
    assert(json::keys(value->Object_0@)[0] == value->Object_0@[0].0@);
    assert(json::keys(value->Object_0@)[1] == value->Object_0@[1].0@);
    assert(json::keys(value->Object_0@)[2] == value->Object_0@[2].0@);
    assert(json::keys(value->Object_0@)[3] == value->Object_0@[3].0@);
    assert(json::keys(value->Object_0@)[4] == value->Object_0@[4].0@);
    let items = value->Object_0@[4].1->Array_0@;
    assert(text::texts(device.uuids@).len() == device.uuids@.len());
    assert forall|i: int| 0 <= i < device.uuids@.len() implies (
    #[trigger] items[i] matches Json::Text(t) && t@ == device.uuids@[i]@) by {
        assert(is_text(items[i], text::texts(device.uuids@)[i]));
    }
}

/// What is known of Bluetooth is shown under its names, with every device in order.
pub proof fn bluetooth_is_shown_by_name(value: Json, status: BluetoothStatus)
    requires
        shows_bluetooth(value, status),
    ensures
        value is Object,
        value->Object_0@.len() == 3,
        value->Object_0@[0].0@ == "available"@,
        value->Object_0@[0].1 == Json::Bool(status.available),
        value->Object_0@[1].0@ == "devices"@,
        value->Object_0@[1].1 is Array,
        value->Object_0@[2].0@ == "last_error"@,
        value->Object_0@[2].1 matches Json::Text(t) && t@ == status.last_error@,
        value->Object_0@[1].1->Array_0@.len() == status.devices@.len(),
        forall|i: int|
            0 <= i < status.devices@.len() ==> shows_device(
                #[trigger] value->Object_0@[1].1->Array_0@[i],
                status.devices@[i],
            ),
{
    assert(json::keys(value->Object_0@).len() == value->Object_0@.len());
    assert(json::keys(value->Object_0@)[0] == value->Object_0@[0].0@);
    assert(json::keys(value->Object_0@)[1] == value->Object_0@[1].0@);
    assert(json::keys(value->Object_0@)[2] == value->Object_0@[2].0@);
}

/// The settings are shown under their names: those that are written, and no others.
pub proof fn settings_are_shown_by_name(value: Json, config: Config, gains: GainTexts)
    requires
        shows_config(value, config, gains),
    ensures
        value is Object,
        value->Object_0@.len() == 2,
        value->Object_0@[0].0@ == "audio"@,
        value->Object_0@[0].1 is Object,
        value->Object_0@[1].0@ == "bluetooth"@,
        value->Object_0@[1].1 is Object,
        value->Object_0@[0].1 is Object,
        value->Object_0@[0].1->Object_0@.len() == 7,
        value->Object_0@[0].1->Object_0@[0].0@ == "phone_gain"@,
        value->Object_0@[0].1->Object_0@[0].1 matches Json::Number(t) && t@ == gains.phone@,
        value->Object_0@[0].1->Object_0@[1].0@ == "desktop_gain"@,
        value->Object_0@[0].1->Object_0@[1].1 matches Json::Number(t) && t@ == gains.desktop@,
        value->Object_0@[0].1->Object_0@[2].0@ == "master_gain"@,
        value->Object_0@[0].1->Object_0@[2].1 matches Json::Number(t) && t@ == gains.master@,
        value->Object_0@[0].1->Object_0@[3].0@ == "phone_mute"@,
        value->Object_0@[0].1->Object_0@[3].1 == Json::Bool(config.audio.phone_mute),
        value->Object_0@[0].1->Object_0@[4].0@ == "desktop_mute"@,
        value->Object_0@[0].1->Object_0@[4].1 == Json::Bool(config.audio.desktop_mute),
        value->Object_0@[0].1->Object_0@[5].0@ == "master_mute"@,
        value->Object_0@[0].1->Object_0@[5].1 == Json::Bool(config.audio.master_mute),
        value->Object_0@[0].1->Object_0@[6].0@ == "routing_enabled"@,
        value->Object_0@[0].1->Object_0@[6].1 == Json::Bool(config.audio.routing_enabled),
        value->Object_0@[1].1 is Object,
        value->Object_0@[1].1->Object_0@.len() == 3,
        value->Object_0@[1].1->Object_0@[0].0@ == "dbus_timeout_seconds"@,
        value->Object_0@[1].1->Object_0@[0].1 matches Json::Number(t) && t@ == text::decimal(config.bluetooth.dbus_timeout_seconds as nat),
        value->Object_0@[1].1->Object_0@[1].0@ == "a2dp_connect_delay_seconds"@,
        value->Object_0@[1].1->Object_0@[1].1 matches Json::Number(t) && t@ == text::decimal(config.bluetooth.a2dp_connect_delay_seconds as nat),
        value->Object_0@[1].1->Object_0@[2].0@ == "a2dp_retry_delay_seconds"@,
        value->Object_0@[1].1->Object_0@[2].1 matches Json::Number(t) && t@ == text::decimal(config.bluetooth.a2dp_retry_delay_seconds as nat),
{
    assert(json::keys(value->Object_0@).len() == value->Object_0@.len());
    assert(json::keys(value->Object_0@)[0] == value->Object_0@[0].0@);
    assert(json::keys(value->Object_0@)[1] == value->Object_0@[1].0@);
    assert(json::keys(value->Object_0@[0].1->Object_0@).len() == value->Object_0@[0].1->Object_0@.len());
    assert(json::keys(value->Object_0@[0].1->Object_0@)[0] == value->Object_0@[0].1->Object_0@[0].0@);
    assert(json::keys(value->Object_0@[0].1->Object_0@)[1] == value->Object_0@[0].1->Object_0@[1].0@);
    assert(json::keys(value->Object_0@[0].1->Object_0@)[2] == value->Object_0@[0].1->Object_0@[2].0@);
    assert(json::keys(value->Object_0@[0].1->Object_0@)[3] == value->Object_0@[0].1->Object_0@[3].0@);
    assert(json::keys(value->Object_0@[0].1->Object_0@)[4] == value->Object_0@[0].1->Object_0@[4].0@);
    assert(json::keys(value->Object_0@[0].1->Object_0@)[5] == value->Object_0@[0].1->Object_0@[5].0@);
    assert(json::keys(value->Object_0@[0].1->Object_0@)[6] == value->Object_0@[0].1->Object_0@[6].0@);
    assert(json::keys(value->Object_0@[1].1->Object_0@).len() == value->Object_0@[1].1->Object_0@.len());
    assert(json::keys(value->Object_0@[1].1->Object_0@)[0] == value->Object_0@[1].1->Object_0@[0].0@);
    assert(json::keys(value->Object_0@[1].1->Object_0@)[1] == value->Object_0@[1].1->Object_0@[1].0@);
    assert(json::keys(value->Object_0@[1].1->Object_0@)[2] == value->Object_0@[1].1->Object_0@[2].0@);
}

/// The status is shown under its names: the settings, Bluetooth, the audio, what is said of the
/// input rule, and the last error.
pub proof fn status_is_shown_by_name(
    value: Json,
    controller: Controller,
    bluetooth: BluetoothStatus,
    policy_file_present: bool,
    gains: GainTexts,
)
    requires
        shows_status(value, controller, bluetooth, policy_file_present, gains),
    ensures
        value is Object,
        value->Object_0@.len() == 8,
        value->Object_0@[0].0@ == "running"@,
        value->Object_0@[0].1 == Json::Bool(true),
        value->Object_0@[1].0@ == "config_path"@,
        value->Object_0@[1].1 matches Json::Text(t) && t@ == decode_utf8(controller.path@),
        value->Object_0@[2].0@ == "config"@,
        value->Object_0@[3].0@ == "bluetooth"@,
        value->Object_0@[4].0@ == "audio"@,
        value->Object_0@[5].0@ == "policy_file_present"@,
        value->Object_0@[5].1 == Json::Bool(policy_file_present),
        value->Object_0@[6].0@ == "policy_message"@,
        value->Object_0@[7].0@ == "last_error"@,
        value->Object_0@[7].1 matches Json::Text(t) && t@ == controller.error@,
        shows_config(value->Object_0@[2].1, controller.config, gains),
        shows_bluetooth(value->Object_0@[3].1, bluetooth),
        shows_audio(value->Object_0@[4].1, controller.audio),
        value->Object_0@[6].1 matches Json::Text(t) && t@ == policy_text(
            controller.audio.policy_ready,
            policy_file_present,
        ),
{
    assert(json::keys(value->Object_0@).len() == value->Object_0@.len());
    assert(json::keys(value->Object_0@)[0] == value->Object_0@[0].0@);
    assert(json::keys(value->Object_0@)[1] == value->Object_0@[1].0@);
    assert(json::keys(value->Object_0@)[2] == value->Object_0@[2].0@);
    assert(json::keys(value->Object_0@)[3] == value->Object_0@[3].0@);
    assert(json::keys(value->Object_0@)[4] == value->Object_0@[4].0@);
    assert(json::keys(value->Object_0@)[5] == value->Object_0@[5].0@);
    assert(json::keys(value->Object_0@)[6] == value->Object_0@[6].0@);
    assert(json::keys(value->Object_0@)[7] == value->Object_0@[7].0@);
}

/// What is said of the input rule: that it works once that was seen, else that it is there, else
/// that it is not.
pub proof fn input_rule_is_described(policy_ready: bool, file_present: bool)
    ensures
        policy_ready ==> policy_text(policy_ready, file_present)
            == "Bluetooth input policy is active; output follows Ubuntu"@,
        !policy_ready && file_present ==> policy_text(policy_ready, file_present)
            == "Input policy is installed; waiting to observe it on incoming Bluetooth audio. Log out and back in after updating the policy"@,
        !policy_ready && !file_present ==> policy_text(policy_ready, file_present)
            == "Ubuntu/WirePlumber manages Bluetooth playback; bridge forwarding controls require the optional input policy"@,
{
}

} // verus!
