//! What the status that a controller gives looks like in print.
use crate::audio::RouteStatus;
use crate::bluetooth::BluetoothStatus;
use crate::cli;
use crate::controller::{AudioStatus, Controller};
use crate::json;
use crate::json::Json;
use crate::report;
use crate::report::GainTexts;
use crate::text;
use vstd::prelude::*;
use vstd::string::*;
use vstd::utf8::*;

verus! {

/// A text in print: one that is empty is not known.
pub open spec fn known(s: Seq<char>) -> Seq<char> {
    if s.len() > 0 {
        s
    } else {
        "unknown"@
    }
}

/// The lines about an input.
pub open spec fn printed_route(route: RouteStatus) -> Seq<Seq<char>> {
    let first = known(route.input_name@) + " ("@ + known(route.input_address@) + ") -> "@ + known(
        route.output_name@,
    ) + " | ready: "@ + cli::flag_text(route.ready);
    let second = "  Native output codec: "@ + known(route.codec@) + " | sample rate: "@
        + text::decimal(route.sample_rate as nat) + " | channels: "@ + text::decimal(
        route.channels as nat,
    );
    if route.last_error@.len() > 0 {
        seq![first, second, "  Attention: "@ + route.last_error@]
    } else {
        seq![first, second]
    }
}

/// The lines about the inputs in order.
pub open spec fn printed_routes(routes: Seq<RouteStatus>) -> Seq<Seq<char>>
    decreases routes.len(),
{
    if routes.len() == 0 {
        Seq::empty()
    } else {
        printed_routes(routes.drop_last()) + printed_route(routes.last())
    }
}

/// The line for an error, none where there is no error.
pub open spec fn printed_error(error: Seq<char>) -> Seq<Seq<char>> {
    if error.len() > 0 {
        seq!["Attention: "@ + error]
    } else {
        Seq::empty()
    }
}

/// The line about a group of streams.
pub open spec fn printed_level(source: Seq<char>, gain: Seq<char>, muted: bool) -> Seq<char> {
    source + ": relative gain="@ + gain + " muted="@ + cli::flag_text(muted)
}

/// The lines before those about the inputs.
pub open spec fn printed_opening(controller: Controller) -> Seq<Seq<char>> {
    let audio = controller.audio;
    seq![
        "Controller: running"@,
        "Config: "@ + known(decode_utf8(controller.path@)),
        "Bluetooth audio requested: "@ + cli::flag_text(controller.config.audio.routing_enabled),
        "Forwarding enabled: "@ + cli::flag_text(audio.routing_enabled)
            + " | PipeWire connected: "@ + cli::flag_text(audio.pipewire_connected),
        "Bluetooth inputs: "@ + text::decimal(audio.inputs_detected as nat) + " detected, "@
            + text::decimal(audio.inputs_routed as nat) + " routed"@,
        "Ubuntu default output: "@ + known(audio.default_output_name@),
    ]
}

/// The lines about the levels and the input rule.
pub open spec fn printed_levels(
    controller: Controller,
    policy_file_present: bool,
    gains: GainTexts,
) -> Seq<Seq<char>> {
    let settings = controller.config.audio;
    seq![
        printed_level("phone"@, gains.phone@, settings.phone_mute),
        printed_level("desktop"@, gains.desktop@, settings.desktop_mute),
        printed_level("master"@, gains.master@, settings.master_mute),
        "Input policy: "@ + report::policy_text(
            controller.audio.policy_ready,
            policy_file_present,
        ),
    ]
}

/// The printed status of a controller.
pub open spec fn printed_status(
    controller: Controller,
    bluetooth: BluetoothStatus,
    policy_file_present: bool,
    gains: GainTexts,
) -> Seq<Seq<char>> {
    printed_opening(controller) + printed_routes(controller.audio.routes@) + printed_levels(
        controller,
        policy_file_present,
        gains,
    ) + printed_error(controller.error@) + printed_error(bluetooth.last_error@) + printed_error(
        controller.audio.last_error@,
    )
}

/// A key of an object is found at its place when no earlier key is the same.
proof fn field_at(value: Json, keys: Seq<Seq<char>>, i: int)
    requires
        report::is_object(value, keys),
        0 <= i < keys.len(),
        forall|k: int| 0 <= k < i ==> #[trigger] keys[k] != keys[i],
    ensures
        json::field_of(Some(value), keys[i]) == Some(report::item(value, i)),
{
    let fields = value->Object_0@;
    assert(json::keys(fields).len() == fields.len());
    assert(json::keys(fields)[i] == fields[i].0@);
    assert forall|k: int| 0 <= k < i implies fields[k].0@ != fields[i].0@ by {
        assert(json::keys(fields)[k] == fields[k].0@);
        assert(keys[k] != keys[i]);
    }
    json::lookup_finds(fields, i);
}

/// The route keys that are read differ from those before them.
proof fn route_fields(value: Json, route: RouteStatus)
    requires
        report::shows_route(value, route),
    ensures
        json::field_of(Some(value), "input_name"@) == Some(report::item(value, 0)),
        json::field_of(Some(value), "input_address"@) == Some(report::item(value, 1)),
        json::field_of(Some(value), "output_name"@) == Some(report::item(value, 2)),
        json::field_of(Some(value), "ready"@) == Some(report::item(value, 3)),
        json::field_of(Some(value), "codec"@) == Some(report::item(value, 4)),
        json::field_of(Some(value), "sample_rate"@) == Some(report::item(value, 5)),
        json::field_of(Some(value), "channels"@) == Some(report::item(value, 6)),
        json::field_of(Some(value), "last_error"@) == Some(report::item(value, 7)),
{
    let keys = seq![
        "input_name"@,
        "input_address"@,
        "output_name"@,
        "ready"@,
        "codec"@,
        "sample_rate"@,
        "channels"@,
        "last_error"@,
    ];
    reveal_strlit("input_name");
    reveal_strlit("input_address");
    reveal_strlit("output_name");
    reveal_strlit("ready");
    reveal_strlit("codec");
    reveal_strlit("sample_rate");
    reveal_strlit("channels");
    reveal_strlit("last_error");
    assert(keys[0].len() == 10 && keys[1].len() == 13 && keys[2].len() == 11 && keys[3].len() == 5
        && keys[4].len() == 5 && keys[5].len() == 11 && keys[6].len() == 8 && keys[7].len() == 10);
    assert(keys[0][0] == 'i' && keys[7][0] == 'l' && keys[2][0] == 'o' && keys[5][0] == 's'
        && keys[3][0] == 'r' && keys[4][0] == 'c');
    field_at(value, keys, 0);
    field_at(value, keys, 1);
    field_at(value, keys, 2);
    field_at(value, keys, 3);
    field_at(value, keys, 4);
    field_at(value, keys, 5);
    field_at(value, keys, 6);
    field_at(value, keys, 7);
}

proof fn route_prints(value: Json, route: RouteStatus)
    requires
        report::shows_route(value, route),
    ensures
        cli::route_lines(value) == printed_route(route),
{
    route_fields(value, route);
    assert(json::rendered(report::item(value, 5)) == text::decimal(route.sample_rate as nat));
    assert(json::rendered(report::item(value, 6)) == text::decimal(route.channels as nat));
}

proof fn routes_print(items: Seq<Json>, routes: Seq<RouteStatus>)
    requires
        items.len() == routes.len(),
        forall|i: int| 0 <= i < routes.len() ==> report::shows_route(#[trigger] items[i], routes[i]),
    ensures
        cli::all_route_lines(items) == printed_routes(routes),
    decreases items.len(),
{
    if items.len() > 0 {
        assert forall|i: int| 0 <= i < routes.drop_last().len() implies report::shows_route(
            #[trigger] items.drop_last()[i],
            routes.drop_last()[i],
        ) by {
            assert(items.drop_last()[i] == items[i]);
        }
        routes_print(items.drop_last(), routes.drop_last());
        let n = items.len() - 1;
        assert(report::shows_route(items[n], routes[n]));
        route_prints(items[n], routes[n]);
    }
}

proof fn audio_fields(value: Json, audio: AudioStatus)
    requires
        report::shows_audio(value, audio),
    ensures
        json::field_of(Some(value), "pipewire_connected"@) == Some(report::item(value, 0)),
        json::field_of(Some(value), "routing_enabled"@) == Some(report::item(value, 1)),
        json::field_of(Some(value), "inputs_detected"@) == Some(report::item(value, 3)),
        json::field_of(Some(value), "inputs_routed"@) == Some(report::item(value, 4)),
        json::field_of(Some(value), "default_output_name"@) == Some(report::item(value, 5)),
        json::field_of(Some(value), "last_error"@) == Some(report::item(value, 6)),
        json::field_of(Some(value), "routes"@) == Some(report::item(value, 7)),
{
    let keys = seq![
        "pipewire_connected"@,
        "routing_enabled"@,
        "policy_ready"@,
        "inputs_detected"@,
        "inputs_routed"@,
        "default_output_name"@,
        "last_error"@,
        "routes"@,
    ];
    reveal_strlit("pipewire_connected");
    reveal_strlit("routing_enabled");
    reveal_strlit("policy_ready");
    reveal_strlit("inputs_detected");
    reveal_strlit("inputs_routed");
    reveal_strlit("default_output_name");
    reveal_strlit("last_error");
    reveal_strlit("routes");
    assert(keys[0].len() == 18 && keys[1].len() == 15 && keys[2].len() == 12
        && keys[3].len() == 15 && keys[4].len() == 13 && keys[5].len() == 19
        && keys[6].len() == 10 && keys[7].len() == 6);
    assert(keys[1][0] == 'r' && keys[3][0] == 'i');
    field_at(value, keys, 0);
    field_at(value, keys, 1);
    field_at(value, keys, 3);
    field_at(value, keys, 4);
    field_at(value, keys, 5);
    field_at(value, keys, 6);
    field_at(value, keys, 7);
}

proof fn settings_fields(value: Json, keys: Seq<Seq<char>>)
    requires
        keys == seq![
            "phone_gain"@,
            "desktop_gain"@,
            "master_gain"@,
            "phone_mute"@,
            "desktop_mute"@,
            "master_mute"@,
            "routing_enabled"@,
        ],
        report::is_object(value, keys),
    ensures
        json::field_of(Some(value), "phone_gain"@) == Some(report::item(value, 0)),
        json::field_of(Some(value), "desktop_gain"@) == Some(report::item(value, 1)),
        json::field_of(Some(value), "master_gain"@) == Some(report::item(value, 2)),
        json::field_of(Some(value), "phone_mute"@) == Some(report::item(value, 3)),
        json::field_of(Some(value), "desktop_mute"@) == Some(report::item(value, 4)),
        json::field_of(Some(value), "master_mute"@) == Some(report::item(value, 5)),
        json::field_of(Some(value), "routing_enabled"@) == Some(report::item(value, 6)),
{
    reveal_strlit("phone_gain");
    reveal_strlit("desktop_gain");
    reveal_strlit("master_gain");
    reveal_strlit("phone_mute");
    reveal_strlit("desktop_mute");
    reveal_strlit("master_mute");
    reveal_strlit("routing_enabled");
    assert(keys[0].len() == 10 && keys[1].len() == 12 && keys[2].len() == 11
        && keys[3].len() == 10 && keys[4].len() == 12 && keys[5].len() == 11
        && keys[6].len() == 15);
    assert(keys[0][6] == 'g' && keys[3][6] == 'm');
    assert(keys[1][8] == 'g' && keys[4][8] == 'm');
    assert(keys[2][7] == 'g' && keys[5][7] == 'm');
    field_at(value, keys, 0);
    field_at(value, keys, 1);
    field_at(value, keys, 2);
    field_at(value, keys, 3);
    field_at(value, keys, 4);
    field_at(value, keys, 5);
    field_at(value, keys, 6);
}

proof fn status_fields(
    value: Json,
    controller: Controller,
    bluetooth: BluetoothStatus,
    policy_file_present: bool,
    gains: GainTexts,
)
    requires
        report::shows_status(value, controller, bluetooth, policy_file_present, gains),
    ensures
        json::field_of(Some(value), "config_path"@) == Some(report::item(value, 1)),
        json::field_of(Some(value), "config"@) == Some(report::item(value, 2)),
        json::field_of(Some(value), "bluetooth"@) == Some(report::item(value, 3)),
        json::field_of(Some(value), "audio"@) == Some(report::item(value, 4)),
        json::field_of(Some(value), "policy_message"@) == Some(report::item(value, 6)),
        json::field_of(Some(value), "last_error"@) == Some(report::item(value, 7)),
        json::field_of(Some(report::item(value, 2)), "audio"@) == Some(
            report::item(report::item(value, 2), 0),
        ),
        json::field_of(Some(report::item(value, 3)), "last_error"@) == Some(
            report::item(report::item(value, 3), 2),
        ),
{
    let keys = seq![
        "running"@,
        "config_path"@,
        "config"@,
        "bluetooth"@,
        "audio"@,
        "policy_file_present"@,
        "policy_message"@,
        "last_error"@,
    ];
    reveal_strlit("running");
    reveal_strlit("config_path");
    reveal_strlit("config");
    reveal_strlit("bluetooth");
    reveal_strlit("audio");
    reveal_strlit("policy_file_present");
    reveal_strlit("policy_message");
    reveal_strlit("last_error");
    reveal_strlit("available");
    reveal_strlit("devices");
    assert(keys[0].len() == 7 && keys[1].len() == 11 && keys[2].len() == 6 && keys[3].len() == 9
        && keys[4].len() == 5 && keys[5].len() == 19 && keys[6].len() == 14 && keys[7].len() == 10);
    field_at(value, keys, 1);
    field_at(value, keys, 2);
    field_at(value, keys, 3);
    field_at(value, keys, 4);
    field_at(value, keys, 6);
    field_at(value, keys, 7);
    field_at(report::item(value, 2), seq!["audio"@, "bluetooth"@], 0);
    field_at(report::item(value, 3), seq!["available"@, "devices"@, "last_error"@], 2);
}

/// Asking a controller for its status prints what it knows: its settings, the audio with every
/// input, the levels, what is said of the input rule, and each error that there is.
pub proof fn status_prints_what_is_known(
    value: Json,
    controller: Controller,
    bluetooth: BluetoothStatus,
    policy_file_present: bool,
    gains: GainTexts,
)
    requires
        report::shows_status(value, controller, bluetooth, policy_file_present, gains),
    ensures
        cli::status_lines(Some(value)) == printed_status(
            controller,
            bluetooth,
            policy_file_present,
            gains,
        ),
{
    status_fields(value, controller, bluetooth, policy_file_present, gains);
    let config = report::item(value, 2);
    let settings = report::item(config, 0);
    let audio = report::item(value, 4);
    settings_fields(
        settings,
        seq![
            "phone_gain"@,
            "desktop_gain"@,
            "master_gain"@,
            "phone_mute"@,
            "desktop_mute"@,
            "master_mute"@,
            "routing_enabled"@,
        ],
    );
    audio_fields(audio, controller.audio);
    assert(report::shows_routes(report::item(audio, 7), controller.audio.routes@));
    routes_print(report::item(audio, 7)->Array_0@, controller.audio.routes@);
    assert(json::rendered(report::item(audio, 3)) == text::decimal(
        controller.audio.inputs_detected as nat,
    ));
    assert(json::rendered(report::item(audio, 4)) == text::decimal(
        controller.audio.inputs_routed as nat,
    ));
    assert(json::rendered(report::item(settings, 0)) == gains.phone@);
    assert(json::rendered(report::item(settings, 1)) == gains.desktop@);
    assert(json::rendered(report::item(settings, 2)) == gains.master@);
    assert(report::policy_text(controller.audio.policy_ready, policy_file_present).len() > 0) by {
        reveal_strlit("Bluetooth input policy is active; output follows Ubuntu");
        reveal_strlit(
            "Input policy is installed; waiting to observe it on incoming Bluetooth audio. Log out and back in after updating the policy",
        );
        reveal_strlit(
            "Ubuntu/WirePlumber manages Bluetooth playback; bridge forwarding controls require the optional input policy",
        );
    }
    assert(cli::opening_lines(Some(value)) =~= printed_opening(controller));
    assert(cli::level_lines(Some(value)) =~= printed_levels(
        controller,
        policy_file_present,
        gains,
    ));
}

/// The printed status tells each thing that the controller knows on a line of its own, and the
/// levels of each group of streams by its own gain and mute.
pub proof fn printed_lines_tell_what_is_known(
    controller: Controller,
    policy_file_present: bool,
    gains: GainTexts,
    word: Seq<char>,
)
    ensures
        ({
            let audio = controller.audio;
            let settings = controller.config.audio;
            let opening = printed_opening(controller);
            let levels = printed_levels(controller, policy_file_present, gains);
            &&& opening.len() == 6
            &&& opening[0] == "Controller: running"@
            &&& opening[1] == "Config: "@ + known(decode_utf8(controller.path@))
            &&& opening[2] == "Bluetooth audio requested: "@ + cli::flag_text(
                settings.routing_enabled,
            )
            &&& opening[3] == "Forwarding enabled: "@ + cli::flag_text(audio.routing_enabled)
                + " | PipeWire connected: "@ + cli::flag_text(audio.pipewire_connected)
            &&& opening[4] == "Bluetooth inputs: "@ + text::decimal(audio.inputs_detected as nat)
                + " detected, "@ + text::decimal(audio.inputs_routed as nat) + " routed"@
            &&& opening[5] == "Ubuntu default output: "@ + known(audio.default_output_name@)
            &&& levels.len() == 4
            &&& levels[0] == "phone"@ + ": relative gain="@ + gains.phone@ + " muted="@
                + cli::flag_text(settings.phone_mute)
            &&& levels[1] == "desktop"@ + ": relative gain="@ + gains.desktop@ + " muted="@
                + cli::flag_text(settings.desktop_mute)
            &&& levels[2] == "master"@ + ": relative gain="@ + gains.master@ + " muted="@
                + cli::flag_text(settings.master_mute)
            &&& levels[3] == "Input policy: "@ + report::policy_text(
                audio.policy_ready,
                policy_file_present,
            )
        }),
        word.len() > 0 ==> known(word) == word,
        word.len() == 0 ==> known(word) == "unknown"@,
{
}

/// The printed lines of an input tell what is known of it.
pub proof fn printed_inputs_tell_what_is_known(route: RouteStatus)
    ensures
        ({
            let lines = printed_route(route);
            &&& lines[0] == known(route.input_name@) + " ("@ + known(route.input_address@)
                + ") -> "@ + known(route.output_name@) + " | ready: "@ + cli::flag_text(route.ready)
            &&& lines[1] == "  Native output codec: "@ + known(route.codec@) + " | sample rate: "@
                + text::decimal(route.sample_rate as nat) + " | channels: "@ + text::decimal(
                route.channels as nat,
            )
            &&& route.last_error@.len() == 0 ==> lines.len() == 2
            &&& route.last_error@.len() > 0 ==> lines.len() == 3 && lines[2] == "  Attention: "@
                + route.last_error@
        }),
{
}

} // verus!
