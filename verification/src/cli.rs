//! The command line: what is asked of the controller, and what is printed.
use crate::bluetooth::Device;
use crate::config::ConfigError;
use crate::gain::Gain;
use crate::ipc::{Channel, Command, Response};
use crate::json;
use crate::json::Json;
use crate::storage::Lookup;
use crate::text;
use vstd::prelude::*;
use vstd::string::*;
use vstd::utf8::*;

verus! {

/// A group of streams, as it is named on the command line.
#[derive(Clone, Copy, Debug, PartialEq, Eq, Structural)]
pub enum Source {
    Phone,
    Desktop,
    Master,
}

/// The channel with the same name.
pub open spec fn channel_of(source: Source) -> Channel {
    match source {
        Source::Phone => Channel::Phone,
        Source::Desktop => Channel::Desktop,
        Source::Master => Channel::Master,
    }
}

impl From<Source> for Channel {
    fn from(value: Source) -> (r: Self) {
        match value {
            Source::Phone => Channel::Phone,
            Source::Desktop => Channel::Desktop,
            Source::Master => Channel::Master,
        }
    }
}

impl vstd::std_specs::convert::FromSpecImpl<Source> for Channel {
    open spec fn obeys_from_spec() -> bool {
        true
    }

    open spec fn from_spec(value: Source) -> Channel {
        channel_of(value)
    }
}

/// On or off, as it is written on the command line.
#[derive(Clone, Copy, Debug, PartialEq, Eq, Structural)]
pub enum Switch {
    On,
    Off,
}

impl Switch {
    /// Whether it is on.
    pub fn is_on(&self) -> (r: bool)
        ensures
            r == (*self == Switch::On),
    {
        match self {
            Switch::On => true,
            Switch::Off => false,
        }
    }
}

/// A change of the settings, as it is asked for on the command line.
#[derive(Clone, Copy, Debug, PartialEq, Eq, Structural)]
pub enum Change {
    Select { enabled: bool },
    Volume { channel: Source, value: Gain },
    Mute { channel: Source, state: Switch },
    Enable,
    Disable,
}

/// The command for a change.
pub open spec fn command_of(change: Change) -> Command {
    match change {
        Change::Select { enabled } => Command::Select { enabled },
        Change::Volume { channel, value } => Command::Volume { channel: channel_of(channel), value },
        Change::Mute { channel, state } => Command::Mute {
            channel: channel_of(channel),
            muted: state == Switch::On,
        },
        Change::Enable => Command::Enable { enabled: true },
        Change::Disable => Command::Enable { enabled: false },
    }
}

/// The command for a change. A gain that is out of range is refused before anything is sent.
pub fn command_for(change: &Change) -> (r: Result<Command, ConfigError>)
    ensures
        r == (if *change matches Change::Volume { value, .. } && !value.in_range() {
            Err::<Command, ConfigError>(ConfigError::GainOutOfRange)
        } else {
            Ok(command_of(*change))
        }),
{
    match *change {
        Change::Select { enabled } => Ok(Command::Select { enabled }),
        Change::Volume { channel, value } => match crate::config::validate_gain(value) {
            Err(e) => Err(e),
            Ok(()) => Ok(Command::Volume { channel: Channel::from(channel), value }),
        },
        Change::Mute { channel, state } => Ok(
            Command::Mute { channel: Channel::from(channel), muted: state.is_on() },
        ),
        Change::Enable => Ok(Command::Enable { enabled: true }),
        Change::Disable => Ok(Command::Enable { enabled: false }),
    }
}

/// What `Ok` and `None` mean to a client: an answer that went well, or no controller. An answer
/// that did not go well is an error with its message.
pub fn remote(response: Option<Response>) -> (r: Result<Option<Response>, String>)
    ensures
        match response {
            Some(given) => if given.ok {
                r == Ok::<Option<Response>, String>(response)
            } else {
                r matches Err(message) && message@ == given.message@
            },
            None => r == Ok::<Option<Response>, String>(None),
        },
{
    match response {
        Some(given) => {
            if given.ok {
                Ok(Some(given))
            } else {
                Err(given.message)
            }
        },
        None => Ok(None),
    }
}

/// What was got from the user of the menu.
#[derive(Debug)]
pub enum Answer {
    /// There is no terminal to ask on.
    NoTerminal,
    /// The input ended without an answer.
    EndOfInput,
    Line(String),
}

/// Why there is no choice.
#[derive(Clone, Copy, Debug, PartialEq, Eq, Structural)]
pub enum ChoiceError {
    NoTerminal,
    Cancelled,
    Unrecognized,
}

/// The choice that a line makes, without regard to case and to white space around it. An empty
/// line keeps the current setting.
pub open spec fn choice_of(line: Seq<char>, current: bool) -> Option<bool> {
    let word = text::lowered(text::trimmed(line));
    if word == ""@ {
        Some(current)
    } else if word == "1"@ || word == "on"@ || word == "yes"@ || word == "y"@ {
        Some(true)
    } else if word == "2"@ || word == "off"@ || word == "no"@ || word == "n"@ {
        Some(false)
    } else {
        None
    }
}

/// Whether audio is to be forwarded.
pub fn choose_forwarding(current: bool, answer: &Answer) -> (r: Result<bool, ChoiceError>)
    ensures
        r == (match *answer {
            Answer::NoTerminal => Err::<bool, ChoiceError>(ChoiceError::NoTerminal),
            Answer::EndOfInput => Err(ChoiceError::Cancelled),
            Answer::Line(line) => match choice_of(line@, current) {
                Some(enabled) => Ok(enabled),
                None => Err(ChoiceError::Unrecognized),
            },
        }),
{
    match answer {
        Answer::NoTerminal => Err(ChoiceError::NoTerminal),
        Answer::EndOfInput => Err(ChoiceError::Cancelled),
        Answer::Line(line) => {
            let chars = text::chars_of(line.as_str());
            let whole = text::Span { from: 0, to: chars.len() };
            assert(whole.of(chars@) =~= line@);
            let word = text::lower_span(&chars, text::trim_span(&chars, whole));
            let w = word.as_str();
            if text::same(w, "") {
                Ok(current)
            } else if text::same(w, "1") || text::same(w, "on") || text::same(w, "yes")
                || text::same(w, "y") {
                Ok(true)
            } else if text::same(w, "2") || text::same(w, "off") || text::same(w, "no")
                || text::same(w, "n") {
                Ok(false)
            } else {
                Err(ChoiceError::Unrecognized)
            }
        },
    }
}

/// Enter, with or without white space before it, keeps the current setting.
pub proof fn blank_lines_keep_the_setting(line: Seq<char>, current: bool)
    requires
        forall|i: int| 0 <= i < line.len() ==> text::is_space(#[trigger] line[i]),
    ensures
        choice_of(line, current) == Some(current),
{
    text::blanks_are_trimmed(line);
    reveal_strlit("");
    assert(text::lowered(text::trimmed(line)) =~= ""@);
}

/// The text of an error.
pub open spec fn choice_text(error: ChoiceError) -> Seq<char> {
    match error {
        ChoiceError::NoTerminal =>
            "Use 'bluetooth-audio-bridge select on' or 'bluetooth-audio-bridge select off' without an interactive terminal"@,
        ChoiceError::Cancelled => "Selection cancelled; configuration unchanged"@,
        ChoiceError::Unrecognized => "Choose 1 (on) or 2 (off); configuration unchanged"@,
    }
}

impl ChoiceError {
    /// The text of the error.
    pub fn message(&self) -> (r: &'static str)
        ensures
            r@ == choice_text(*self),
    {
        match self {
            ChoiceError::NoTerminal =>
                "Use 'bluetooth-audio-bridge select on' or 'bluetooth-audio-bridge select off' without an interactive terminal",
            ChoiceError::Cancelled => "Selection cancelled; configuration unchanged",
            ChoiceError::Unrecognized => "Choose 1 (on) or 2 (off); configuration unchanged",
        }
    }
}

/// `on` or `off`.
pub open spec fn switch_text(on: bool) -> Seq<char> {
    if on {
        "on"@
    } else {
        "off"@
    }
}

fn switch_word(on: bool) -> (r: &'static str)
    ensures
        r@ == switch_text(on),
{
    if on {
        "on"
    } else {
        "off"
    }
}

/// The menu: its lines, the last of which asks and is not ended.
pub fn forwarding_menu(current: bool) -> (r: Vec<String>)
    ensures
        text::texts(r@) == seq![
            "Forward Bluetooth audio through PipeWire? Currently: "@ + switch_text(current),
            "  1) On  - use the output selected in Ubuntu"@,
            "  2) Off - pause Bluetooth audio forwarding"@,
            "Choose 1 or 2 [Enter keeps the current setting]: "@,
        ],
{
    let mut lines: Vec<String> = Vec::new();
    lines.push(
        String::from_str("Forward Bluetooth audio through PipeWire? Currently: ").concat(
            switch_word(current),
        ),
    );
    lines.push(String::from_str("  1) On  - use the output selected in Ubuntu"));
    lines.push(String::from_str("  2) Off - pause Bluetooth audio forwarding"));
    lines.push(String::from_str("Choose 1 or 2 [Enter keeps the current setting]: "));
    assert(text::texts(lines@) =~= seq![
        "Forward Bluetooth audio through PipeWire? Currently: "@ + switch_text(current),
        "  1) On  - use the output selected in Ubuntu"@,
        "  2) Off - pause Bluetooth audio forwarding"@,
        "Choose 1 or 2 [Enter keeps the current setting]: "@,
    ]);
    lines
}

/// `true` or `false`.
pub open spec fn flag_text(flag: bool) -> Seq<char> {
    if flag {
        "true"@
    } else {
        "false"@
    }
}

fn flag_word(flag: bool) -> (r: &'static str)
    ensures
        r@ == flag_text(flag),
{
    if flag {
        "true"
    } else {
        "false"
    }
}

/// The flag that a value is, unset where it is none.
pub open spec fn flag_in(value: Option<Json>) -> bool {
    match value {
        Some(Json::Bool(b)) => b,
        _ => false,
    }
}

/// The text that a value is, unless it is none or empty.
pub open spec fn text_in(value: Option<Json>) -> Option<Seq<char>> {
    match value {
        Some(Json::Text(t)) => if t@.len() > 0 {
            Some(t@)
        } else {
            None
        },
        _ => None,
    }
}

/// The text that a value is, or that it is not known.
pub open spec fn word_in(value: Option<Json>) -> Seq<char> {
    match text_in(value) {
        Some(t) => t,
        None => "unknown"@,
    }
}

/// A value as JSON, a missing one as null.
pub open spec fn json_in(value: Option<Json>) -> Seq<char> {
    match value {
        Some(v) => json::rendered(v),
        None => "null"@,
    }
}

fn read_flag(value: Option<&Json>) -> (r: bool)
    ensures
        r == flag_in(json::target(value)),
{
    match value {
        Some(Json::Bool(b)) => *b,
        _ => false,
    }
}

fn read_text<'a>(value: Option<&'a Json>) -> (r: Option<&'a str>)
    ensures
        match r {
            Some(t) => text_in(json::target(value)) == Some(t@),
            None => text_in(json::target(value)) is None,
        },
{
    match value {
        Some(Json::Text(t)) => {
            if t.as_str().is_empty() {
                None
            } else {
                Some(t.as_str())
            }
        },
        _ => None,
    }
}

fn read_word<'a>(value: Option<&'a Json>) -> (r: &'a str)
    ensures
        r@ == word_in(json::target(value)),
{
    match read_text(value) {
        Some(t) => t,
        None => "unknown",
    }
}

fn read_json(value: Option<&Json>) -> (r: String)
    ensures
        r@ == json_in(json::target(value)),
{
    match value {
        Some(v) => json::render(v),
        None => String::from_str("null"),
    }
}

/// The lines about one input.
pub open spec fn route_lines(route: Json) -> Seq<Seq<char>> {
    let r = Some(route);
    let first = word_in(json::field_of(r, "input_name"@)) + " ("@ + word_in(
        json::field_of(r, "input_address"@),
    ) + ") -> "@ + word_in(json::field_of(r, "output_name"@)) + " | ready: "@ + flag_text(
        flag_in(json::field_of(r, "ready"@)),
    );
    let second = "  Native output codec: "@ + word_in(json::field_of(r, "codec"@))
        + " | sample rate: "@ + json_in(json::field_of(r, "sample_rate"@)) + " | channels: "@
        + json_in(json::field_of(r, "channels"@));
    match text_in(json::field_of(r, "last_error"@)) {
        Some(error) => seq![first, second, "  Attention: "@ + error],
        None => seq![first, second],
    }
}

/// The lines about the inputs in order.
pub open spec fn all_route_lines(routes: Seq<Json>) -> Seq<Seq<char>>
    decreases routes.len(),
{
    if routes.len() == 0 {
        Seq::empty()
    } else {
        all_route_lines(routes.drop_last()) + route_lines(routes.last())
    }
}

/// The lines about a list of inputs, none where there is no list.
pub open spec fn routes_lines(routes: Option<Json>) -> Seq<Seq<char>> {
    match routes {
        Some(Json::Array(items)) => all_route_lines(items@),
        _ => Seq::empty(),
    }
}

/// The line about a group of streams.
pub open spec fn level_line(settings: Option<Json>, source: Seq<char>, gain: Seq<char>, mute: Seq<
    char,
>) -> Seq<char> {
    source + ": relative gain="@ + json_in(json::field_of(settings, gain)) + " muted="@ + flag_text(
        flag_in(json::field_of(settings, mute)),
    )
}

/// The line for an error, none where there is no error.
pub open spec fn error_lines(value: Option<Json>) -> Seq<Seq<char>> {
    match text_in(value) {
        Some(error) => seq!["Attention: "@ + error],
        None => Seq::empty(),
    }
}

/// The lines before those about the inputs.
pub open spec fn opening_lines(data: Option<Json>) -> Seq<Seq<char>> {
    let audio = json::field_of(data, "audio"@);
    let settings = json::field_of(json::field_of(data, "config"@), "audio"@);
    seq![
        "Controller: running"@,
        "Config: "@ + word_in(json::field_of(data, "config_path"@)),
        "Bluetooth audio requested: "@ + flag_text(
            flag_in(json::field_of(settings, "routing_enabled"@)),
        ),
        "Forwarding enabled: "@ + flag_text(flag_in(json::field_of(audio, "routing_enabled"@)))
            + " | PipeWire connected: "@ + flag_text(
            flag_in(json::field_of(audio, "pipewire_connected"@)),
        ),
        "Bluetooth inputs: "@ + json_in(json::field_of(audio, "inputs_detected"@)) + " detected, "@
            + json_in(json::field_of(audio, "inputs_routed"@)) + " routed"@,
        "Ubuntu default output: "@ + word_in(json::field_of(audio, "default_output_name"@)),
    ]
}

/// The lines about the levels and the input rule.
pub open spec fn level_lines(data: Option<Json>) -> Seq<Seq<char>> {
    let settings = json::field_of(json::field_of(data, "config"@), "audio"@);
    seq![
        level_line(settings, "phone"@, "phone_gain"@, "phone_mute"@),
        level_line(settings, "desktop"@, "desktop_gain"@, "desktop_mute"@),
        level_line(settings, "master"@, "master_gain"@, "master_mute"@),
        "Input policy: "@ + word_in(json::field_of(data, "policy_message"@)),
    ]
}

/// The status of a controller in lines: the state, the inputs, the levels, and last the errors
/// of the controller, of Bluetooth and of the engine.
pub open spec fn status_lines(data: Option<Json>) -> Seq<Seq<char>> {
    let audio = json::field_of(data, "audio"@);
    opening_lines(data) + routes_lines(json::field_of(audio, "routes"@)) + level_lines(data)
        + error_lines(json::field_of(data, "last_error"@)) + error_lines(
        json::field_of(json::field_of(data, "bluetooth"@), "last_error"@),
    ) + error_lines(json::field_of(audio, "last_error"@))
}

fn add_line(lines: &mut Vec<String>, line: String)
    ensures
        text::texts(final(lines)@) == text::texts(old(lines)@).push(line@),
{
    lines.push(line);
    assert(text::texts(lines@) =~= text::texts(old(lines)@).push(line@));
}

fn add_route(lines: &mut Vec<String>, route: &Json)
    ensures
        text::texts(final(lines)@) == text::texts(old(lines)@) + route_lines(*route),
{
    let r = Some(route);
    let first = String::from_str(read_word(json::field(r, "input_name"))).concat(" (").concat(
        read_word(json::field(r, "input_address")),
    ).concat(") -> ").concat(read_word(json::field(r, "output_name"))).concat(
        " | ready: ",
    ).concat(flag_word(read_flag(json::field(r, "ready"))));
    let second = String::from_str("  Native output codec: ").concat(
        read_word(json::field(r, "codec")),
    ).concat(" | sample rate: ").concat(
        read_json(json::field(r, "sample_rate")).as_str(),
    ).concat(" | channels: ").concat(read_json(json::field(r, "channels")).as_str());
    add_line(lines, first);
    add_line(lines, second);
    if let Some(error) = read_text(json::field(r, "last_error")) {
        add_line(lines, String::from_str("  Attention: ").concat(error));
    }
    assert(text::texts(lines@) =~= text::texts(old(lines)@) + route_lines(*route));
}

fn add_routes(lines: &mut Vec<String>, routes: Option<&Json>)
    ensures
        text::texts(final(lines)@) == text::texts(old(lines)@) + routes_lines(
            json::target(routes),
        ),
{
    let ghost before = text::texts(lines@);
    match routes {
        Some(Json::Array(items)) => {
            let mut i: usize = 0;
            assert(before + all_route_lines(items@.take(0)) =~= before);
            while i < items.len()
                invariant
                    i <= items@.len(),
                    text::texts(lines@) == before + all_route_lines(items@.take(i as int)),
                decreases items@.len() - i,
            {
                add_route(lines, &items[i]);
                proof {
                    let more = items@.take(i + 1);
                    assert(more.drop_last() =~= items@.take(i as int));
                    assert(more.last() == items@[i as int]);
                    assert(text::texts(lines@) =~= before + all_route_lines(more));
                }
                i = i + 1;
            }
            assert(items@.take(items@.len() as int) =~= items@);
        },
        _ => {
            assert(before + Seq::<Seq<char>>::empty() =~= before);
        },
    }
}

fn level_text(settings: Option<&Json>, source: &str, gain: &str, mute: &str) -> (r: String)
    ensures
        r@ == level_line(json::target(settings), source@, gain@, mute@),
{
    String::from_str(source).concat(": relative gain=").concat(
        read_json(json::field(settings, gain)).as_str(),
    ).concat(" muted=").concat(flag_word(read_flag(json::field(settings, mute))))
}

fn add_error(lines: &mut Vec<String>, value: Option<&Json>)
    ensures
        text::texts(final(lines)@) == text::texts(old(lines)@) + error_lines(json::target(value)),
{
    if let Some(error) = read_text(value) {
        add_line(lines, String::from_str("Attention: ").concat(error));
    }
    assert(text::texts(lines@) =~= text::texts(old(lines)@) + error_lines(json::target(value)));
}

/// The status of a controller in lines.
pub fn print_status(data: &Json) -> (r: Vec<String>)
    ensures
        text::texts(r@) == status_lines(Some(*data)),
{
    let d = Some(data);
    let audio = json::field(d, "audio");
    let settings = json::field(json::field(d, "config"), "audio");
    let mut lines: Vec<String> = Vec::new();
    add_line(&mut lines, String::from_str("Controller: running"));
    add_line(
        &mut lines,
        String::from_str("Config: ").concat(read_word(json::field(d, "config_path"))),
    );
    add_line(
        &mut lines,
        String::from_str("Bluetooth audio requested: ").concat(
            flag_word(read_flag(json::field(settings, "routing_enabled"))),
        ),
    );
    add_line(
        &mut lines,
        String::from_str("Forwarding enabled: ").concat(
            flag_word(read_flag(json::field(audio, "routing_enabled"))),
        ).concat(" | PipeWire connected: ").concat(
            flag_word(read_flag(json::field(audio, "pipewire_connected"))),
        ),
    );
    add_line(
        &mut lines,
        String::from_str("Bluetooth inputs: ").concat(
            read_json(json::field(audio, "inputs_detected")).as_str(),
        ).concat(" detected, ").concat(
            read_json(json::field(audio, "inputs_routed")).as_str(),
        ).concat(" routed"),
    );
    add_line(
        &mut lines,
        String::from_str("Ubuntu default output: ").concat(
            read_word(json::field(audio, "default_output_name")),
        ),
    );
    assert(text::texts(lines@) =~= opening_lines(Some(*data)));
    add_routes(&mut lines, json::field(audio, "routes"));
    let ghost upper = text::texts(lines@);
    add_line(&mut lines, level_text(settings, "phone", "phone_gain", "phone_mute"));
    add_line(&mut lines, level_text(settings, "desktop", "desktop_gain", "desktop_mute"));
    add_line(&mut lines, level_text(settings, "master", "master_gain", "master_mute"));
    add_line(
        &mut lines,
        String::from_str("Input policy: ").concat(read_word(json::field(d, "policy_message"))),
    );
    assert(text::texts(lines@) =~= upper + level_lines(Some(*data)));
    add_error(&mut lines, json::field(d, "last_error"));
    add_error(&mut lines, json::field(json::field(d, "bluetooth"), "last_error"));
    add_error(&mut lines, json::field(audio, "last_error"));
    lines
}

/// `s` with blanks behind it up to a width.
pub open spec fn padded(s: Seq<char>, width: int) -> Seq<char> {
    s + Seq::new((if s.len() < width { width - s.len() } else { 0 }) as nat, |i: int| ' ')
}

/// The heading of the list of devices.
pub fn device_heading() -> (r: &'static str)
    ensures
        r@ == "ADDRESS            PAIRED  CONNECTED  NAME"@,
{
    "ADDRESS            PAIRED  CONNECTED  NAME"
}

/// The line for a device.
pub open spec fn device_line(device: Device) -> Seq<char> {
    device.address@ + "  "@ + padded(flag_text(device.paired), 6) + "  "@ + padded(
        flag_text(device.connected),
        9,
    ) + "  "@ + device.name@
}

fn padded_flag(flag: bool, width: usize) -> (r: String)
    requires
        5 <= width,
    ensures
        r@ == padded(flag_text(flag), width as int),
{
    proof {
        reveal_strlit("true");
        reveal_strlit("false");
    }
    let mut out = String::from_str(flag_word(flag));
    let ghost word = out@;
    let blanks: usize = if flag {
        width - 4
    } else {
        width - 5
    };
    let mut i: usize = 0;
    assert(out@ =~= word + Seq::new(0, |k: int| ' '));
    while i < blanks
        invariant
            i <= blanks,
            out@ == word + Seq::new(i as nat, |k: int| ' '),
        decreases blanks - i,
    {
        out.push(' ');
        i = i + 1;
        assert(out@ =~= word + Seq::new(i as nat, |k: int| ' '));
    }
    out
}

/// The line for a device.
pub fn device_row(device: &Device) -> (r: String)
    ensures
        r@ == device_line(*device),
{
    device.address.clone().concat("  ").concat(padded_flag(device.paired, 6).as_str()).concat(
        "  ",
    ).concat(padded_flag(device.connected, 9).as_str()).concat("  ").concat(device.name.as_str())
}

/// Where the settings for a look at the devices come from.
#[derive(Clone, Copy, Debug, PartialEq, Eq, Structural)]
pub enum SettingsSource {
    /// The settings file.
    File,
    /// The defaults.
    Defaults,
    /// Nowhere: the file cannot be looked at, or a file that was asked for is missing.
    Nowhere,
}

/// Where the settings for a look at the devices come from: without a file that was asked for, a
/// missing one does not matter.
pub fn devices_settings(found: Lookup, custom_path: bool) -> (r: SettingsSource)
    ensures
        r == (match found {
            Lookup::Found(_) => SettingsSource::File,
            Lookup::Missing => if custom_path {
                SettingsSource::Nowhere
            } else {
                SettingsSource::Defaults
            },
            Lookup::Failed => SettingsSource::Nowhere,
        }),
{
    match found {
        Lookup::Found(_) => SettingsSource::File,
        Lookup::Missing => {
            if custom_path {
                SettingsSource::Nowhere
            } else {
                SettingsSource::Defaults
            }
        },
        Lookup::Failed => SettingsSource::Nowhere,
    }
}

/// The text for a change that was saved without a controller.
pub fn saved_offline_message(path: &[u8]) -> (r: String)
    ensures
        r@ == "Saved "@ + text::lossy(path@)
            + ". Controller is offline; changes apply on its next start."@,
{
    String::from_str("Saved ").concat(text::lossy_text(path).as_str()).concat(
        ". Controller is offline; changes apply on its next start.",
    )
}

/// The text for a choice that was made.
pub fn selected_message(enabled: bool) -> (r: String)
    ensures
        r@ == "Bluetooth audio forwarding: "@ + switch_text(enabled) + ". Output follows Ubuntu."@,
{
    String::from_str("Bluetooth audio forwarding: ").concat(switch_word(enabled)).concat(
        ". Output follows Ubuntu.",
    )
}

/// The text for new settings that were created.
pub fn created_message(path: &[u8]) -> (r: String)
    ensures
        r@ == "Created "@ + text::lossy(path@)
            + ". Bluetooth inputs are detected automatically; choose the output in Ubuntu."@,
{
    String::from_str("Created ").concat(text::lossy_text(path).as_str()).concat(
        ". Bluetooth inputs are detected automatically; choose the output in Ubuntu.",
    )
}

/// Whether new settings may be created: not where something is already. The text says so.
pub fn refuse_existing(found: Lookup, path: &[u8]) -> (r: Option<String>)
    ensures
        r is Some <==> found is Found,
        r matches Some(message) ==> message@ == text::lossy(path@)
            + " already exists; it has not been overwritten"@,
{
    match found {
        Lookup::Found(_) => Some(
            text::lossy_text(path).concat(" already exists; it has not been overwritten"),
        ),
        _ => None,
    }
}

/// The status without a controller, for people.
pub fn offline_lines() -> (r: Vec<String>)
    ensures
        text::texts(r@) == seq![
            "Controller is offline; Ubuntu audio may still be playing independently."@,
            "Start the controller: systemctl --user start bluetooth-audio-bridge.service"@,
        ],
{
    let mut lines: Vec<String> = Vec::new();
    lines.push(
        String::from_str("Controller is offline; Ubuntu audio may still be playing independently."),
    );
    lines.push(
        String::from_str(
            "Start the controller: systemctl --user start bluetooth-audio-bridge.service",
        ),
    );
    assert(text::texts(lines@) =~= seq![
        "Controller is offline; Ubuntu audio may still be playing independently."@,
        "Start the controller: systemctl --user start bluetooth-audio-bridge.service"@,
    ]);
    lines
}

/// The status without a controller, for programs.
pub open spec fn offline_text(path: Seq<char>) -> Seq<char> {
    "{"@ + (json::quoted("config_path"@) + ":"@ + json::quoted(path) + ","@ + (json::quoted(
        "message"@,
    ) + ":"@ + json::quoted(
        "Controller is offline; Ubuntu audio may still be playing independently"@,
    )) + ","@ + (json::quoted("running"@) + ":"@ + "false"@) + ","@ + (json::quoted(
        "start_command"@,
    ) + ":"@ + json::quoted("systemctl --user start bluetooth-audio-bridge.service"@))) + "}"@
}

/// The status without a controller, for programs: one JSON object.
pub fn offline_json(path: &[u8]) -> (r: String)
    requires
        valid_utf8(path@),
    ensures
        r@ == offline_text(decode_utf8(path@)),
{
    let mut fields: Vec<(String, Json)> = Vec::new();
    fields.push((String::from_str("config_path"), Json::Text(text::lossy_text(path))));
    fields.push(
        (
            String::from_str("message"),
            Json::Text(
                String::from_str(
                    "Controller is offline; Ubuntu audio may still be playing independently",
                ),
            ),
        ),
    );
    fields.push((String::from_str("running"), Json::Bool(false)));
    fields.push(
        (
            String::from_str("start_command"),
            Json::Text(
                String::from_str("systemctl --user start bluetooth-audio-bridge.service"),
            ),
        ),
    );
    let object = Json::Object(fields);
    let line = json::render(&object);
    proof {
        let f = object->Object_0@;
        assert(f.len() == 4);
        let three = f.drop_last();
        let two = three.drop_last();
        let one = two.drop_last();
        assert(three[2] == f[2] && two[1] == f[1] && one[0] == f[0]);
        assert(json::rendered(f[0].1) == json::quoted(decode_utf8(path@)));
        assert(json::rendered(f[1].1) == json::quoted(
            "Controller is offline; Ubuntu audio may still be playing independently"@,
        ));
        assert(json::rendered(f[2].1) == "false"@);
        assert(json::rendered(f[3].1) == json::quoted(
            "systemctl --user start bluetooth-audio-bridge.service"@,
        ));
        assert(json::rendered_fields(one) == json::quoted("config_path"@) + ":"@ + json::quoted(
            decode_utf8(path@),
        ));
        assert(json::rendered_fields(two) == json::rendered_fields(one) + ","@ + (json::quoted(
            "message"@,
        ) + ":"@ + json::quoted(
            "Controller is offline; Ubuntu audio may still be playing independently"@,
        )));
        assert(json::rendered_fields(three) == json::rendered_fields(two) + ","@ + (json::quoted(
            "running"@,
        ) + ":"@ + "false"@));
    }
    line
}

/// Each change on the command line asks for the command with the same name, channel and value.
pub proof fn changes_ask_for_their_commands(channel: Source, value: Gain, enabled: bool)
    ensures
        channel_of(Source::Phone) == Channel::Phone,
        channel_of(Source::Desktop) == Channel::Desktop,
        channel_of(Source::Master) == Channel::Master,
        command_of(Change::Select { enabled }) == (Command::Select { enabled }),
        command_of(Change::Volume { channel, value }) == (Command::Volume {
            channel: channel_of(channel),
            value,
        }),
        command_of(Change::Mute { channel, state: Switch::On }) == (Command::Mute {
            channel: channel_of(channel),
            muted: true,
        }),
        command_of(Change::Mute { channel, state: Switch::Off }) == (Command::Mute {
            channel: channel_of(channel),
            muted: false,
        }),
        command_of(Change::Enable) == (Command::Enable { enabled: true }),
        command_of(Change::Disable) == (Command::Enable { enabled: false }),
{
}

/// What a line chooses is told by its word: without white space around it and without regard to
/// case.
pub proof fn only_the_word_chooses(a: Seq<char>, b: Seq<char>, current: bool)
    requires
        text::lowered(text::trimmed(a)) == text::lowered(text::trimmed(b)),
    ensures
        choice_of(a, current) == choice_of(b, current),
{
}

/// The words that choose, whatever the current setting: these turn forwarding on or off, no word
/// keeps it, and any other is not understood.
pub proof fn words_choose(line: Seq<char>, current: bool)
    ensures
        ({
            let word = text::lowered(text::trimmed(line));
            let on = word == "1"@ || word == "on"@ || word == "yes"@ || word == "y"@;
            let off = word == "2"@ || word == "off"@ || word == "no"@ || word == "n"@;
            &&& on ==> choice_of(line, current) == Some(true)
            &&& off ==> choice_of(line, current) == Some(false)
            &&& word.len() == 0 ==> choice_of(line, current) == Some(current)
            &&& !on && !off && word.len() > 0 ==> choice_of(line, current) is None
        }),
{
    reveal_strlit("");
    reveal_strlit("1");
    reveal_strlit("on");
    reveal_strlit("yes");
    reveal_strlit("y");
    reveal_strlit("2");
    reveal_strlit("off");
    reveal_strlit("no");
    reveal_strlit("n");
    let word = text::lowered(text::trimmed(line));
    if word.len() == 0 {
        assert(word =~= ""@);
    }
    let twos = "2"@;
    let ns = "n"@;
    let nos = "no"@;
    let offs = "off"@;
    assert(twos[0] == '2' && "1"@[0] == '1' && ns[0] == 'n' && "y"@[0] == 'y');
    assert(nos[0] == 'n' && "on"@[0] == 'o');
    assert(offs[0] == 'o' && "yes"@[0] == 'y');
}

/// `on` and `off`, `true` and `false`.
pub proof fn switches_and_flags_have_words(value: bool)
    ensures
        value ==> switch_text(value) == "on"@ && flag_text(value) == "true"@,
        !value ==> switch_text(value) == "off"@ && flag_text(value) == "false"@,
{
}

/// A value is printed as what it is: a flag that is set, a text that is not empty, and any value
/// as JSON; a missing one is unset, unknown and null.
pub proof fn values_are_printed_as_they_are(value: Option<Json>)
    ensures
        flag_in(value) <==> value == Some(Json::Bool(true)),
        value matches Some(Json::Text(t)) && t@.len() > 0 ==> text_in(value) == Some(
            value->0->Text_0@,
        ) && word_in(value) == value->0->Text_0@,
        !(value matches Some(Json::Text(t)) && t@.len() > 0) ==> text_in(value) is None && word_in(
            value,
        ) == "unknown"@,
        value matches Some(v) ==> json_in(value) == json::rendered(v),
        value is None ==> json_in(value) == "null"@,
{
}

/// The lines about inputs follow each other in the order of the inputs; without a list there are
/// none.
pub proof fn inputs_are_printed_in_order(a: Seq<Json>, b: Seq<Json>, routes: Option<Json>)
    ensures
        all_route_lines(a + b) == all_route_lines(a) + all_route_lines(b),
        a.len() == 1 ==> all_route_lines(a) == route_lines(a[0]),
        routes matches Some(Json::Array(items)) ==> routes_lines(routes) == all_route_lines(items@),
        !(routes matches Some(Json::Array(_))) ==> routes_lines(routes).len() == 0,
    decreases b.len(),
{
    if a.len() == 1 {
        assert(a.drop_last() =~= Seq::<Json>::empty());
        assert(all_route_lines(a.drop_last()) =~= Seq::<Seq<char>>::empty());
        assert(all_route_lines(a) =~= route_lines(a[0]));
    }
    if b.len() == 0 {
        assert(a + b =~= a);
        assert(all_route_lines(a) + all_route_lines(b) =~= all_route_lines(a));
    } else {
        inputs_are_printed_in_order(a, b.drop_last(), routes);
        assert((a + b).drop_last() =~= a + b.drop_last());
        assert((a + b).last() == b.last());
        assert(all_route_lines(a + b) =~= all_route_lines(a) + all_route_lines(b));
    }
}

/// A device's line holds its address, the two flags in columns of their own, and its name.
pub proof fn device_lines_have_columns(device: Device)
    ensures
        device_line(device) == device.address@ + "  "@ + padded(flag_text(device.paired), 6)
            + "  "@ + padded(flag_text(device.connected), 9) + "  "@ + device.name@,
        padded(flag_text(device.paired), 6).len() == 6,
        padded(flag_text(device.connected), 9).len() == 9,
{
    reveal_strlit("true");
    reveal_strlit("false");
}

/// Padding puts blanks behind a text up to the width, and changes nothing of the text.
pub proof fn padding_adds_blanks_behind(s: Seq<char>, width: int, i: int)
    requires
        0 <= i < padded(s, width).len(),
    ensures
        s.len() >= width ==> padded(s, width) == s,
        s.len() < width ==> padded(s, width).len() == width,
        i < s.len() ==> padded(s, width)[i] == s[i],
        i >= s.len() ==> padded(s, width)[i] == ' ',
{
    if s.len() >= width {
        assert(padded(s, width) =~= s);
    }
}

/// The status opens with these lines, each made of the value under its own names.
pub proof fn status_opens_with_its_state(data: Option<Json>)
    ensures
        ({
            let audio = json::field_of(data, "audio"@);
            let settings = json::field_of(json::field_of(data, "config"@), "audio"@);
            let lines = opening_lines(data);
            &&& lines.len() == 6
            &&& lines[0] == "Controller: running"@
            &&& lines[1] == "Config: "@ + word_in(json::field_of(data, "config_path"@))
            &&& lines[2] == "Bluetooth audio requested: "@ + flag_text(
                flag_in(json::field_of(settings, "routing_enabled"@)),
            )
            &&& lines[3] == "Forwarding enabled: "@ + flag_text(
                flag_in(json::field_of(audio, "routing_enabled"@)),
            ) + " | PipeWire connected: "@ + flag_text(
                flag_in(json::field_of(audio, "pipewire_connected"@)),
            )
            &&& lines[4] == "Bluetooth inputs: "@ + json_in(json::field_of(audio, "inputs_detected"@))
                + " detected, "@ + json_in(json::field_of(audio, "inputs_routed"@)) + " routed"@
            &&& lines[5] == "Ubuntu default output: "@ + word_in(
                json::field_of(audio, "default_output_name"@),
            )
        }),
{
}

/// The levels are printed for each group of streams, its own gain and mute, and then what is said
/// of the input rule.
pub proof fn status_tells_the_levels(data: Option<Json>)
    ensures
        ({
            let settings = json::field_of(json::field_of(data, "config"@), "audio"@);
            let lines = level_lines(data);
            &&& lines.len() == 4
            &&& lines[0] == "phone"@ + ": relative gain="@ + json_in(
                json::field_of(settings, "phone_gain"@),
            ) + " muted="@ + flag_text(flag_in(json::field_of(settings, "phone_mute"@)))
            &&& lines[1] == "desktop"@ + ": relative gain="@ + json_in(
                json::field_of(settings, "desktop_gain"@),
            ) + " muted="@ + flag_text(flag_in(json::field_of(settings, "desktop_mute"@)))
            &&& lines[2] == "master"@ + ": relative gain="@ + json_in(
                json::field_of(settings, "master_gain"@),
            ) + " muted="@ + flag_text(flag_in(json::field_of(settings, "master_mute"@)))
            &&& lines[3] == "Input policy: "@ + word_in(json::field_of(data, "policy_message"@))
        }),
{
}

/// An input takes two lines, and a third where it has an error.
pub proof fn inputs_take_their_lines(route: Json)
    ensures
        ({
            let r = Some(route);
            let error = json::field_of(r, "last_error"@);
            let lines = route_lines(route);
            &&& lines[0] == word_in(json::field_of(r, "input_name"@)) + " ("@ + word_in(
                json::field_of(r, "input_address"@),
            ) + ") -> "@ + word_in(json::field_of(r, "output_name"@)) + " | ready: "@ + flag_text(
                flag_in(json::field_of(r, "ready"@)),
            )
            &&& lines[1] == "  Native output codec: "@ + word_in(json::field_of(r, "codec"@))
                + " | sample rate: "@ + json_in(json::field_of(r, "sample_rate"@))
                + " | channels: "@ + json_in(json::field_of(r, "channels"@))
            &&& text_in(error) is None ==> lines.len() == 2
            &&& text_in(error) is Some ==> lines.len() == 3 && lines[2] == "  Attention: "@
                + text_in(error)->0
        }),
{
}

/// The status is its opening, the inputs, the levels, and a line for each error that there is:
/// that of the controller, of Bluetooth and of the audio.
pub proof fn status_has_its_parts(data: Option<Json>, value: Option<Json>)
    ensures
        status_lines(data) == opening_lines(data) + routes_lines(
            json::field_of(json::field_of(data, "audio"@), "routes"@),
        ) + level_lines(data) + error_lines(json::field_of(data, "last_error"@)) + error_lines(
            json::field_of(json::field_of(data, "bluetooth"@), "last_error"@),
        ) + error_lines(json::field_of(json::field_of(data, "audio"@), "last_error"@)),
        text_in(value) matches Some(error) ==> error_lines(value) == seq!["Attention: "@ + error],
        text_in(value) is None ==> error_lines(value).len() == 0,
{
}

/// Without a controller programs are told the path, that nothing runs, and how to start it.
pub proof fn offline_status_names_the_path(path: Seq<char>)
    ensures
        offline_text(path) == "{"@ + (json::quoted("config_path"@) + ":"@ + json::quoted(path)
            + ","@ + (json::quoted("message"@) + ":"@ + json::quoted(
            "Controller is offline; Ubuntu audio may still be playing independently"@,
        )) + ","@ + (json::quoted("running"@) + ":"@ + "false"@) + ","@ + (json::quoted(
            "start_command"@,
        ) + ":"@ + json::quoted("systemctl --user start bluetooth-audio-bridge.service"@)))
            + "}"@,
{
}

} // verus!
