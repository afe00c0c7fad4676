//! Settings as a document holds them: each of them may be missing.
use crate::config::{Audio, Bluetooth, Config, ConfigError, Connection, Devices, TimerSupport};
use crate::gain::Gain;
use crate::ipc;
use crate::ipc::Command;
use vstd::prelude::*;
use vstd::string::*;

verus! {

/// The table `devices` of a document.
#[derive(Debug)]
pub struct DevicesDocument {
    pub iphone_address: Option<String>,
    pub headphones_address: Option<String>,
}

/// The table `audio` of a document.
#[derive(Debug)]
pub struct AudioDocument {
    pub virtual_sink_name: Option<String>,
    pub output_codec: Option<String>,
    pub allow_codec_fallback: Option<bool>,
    pub phone_gain: Option<Gain>,
    pub desktop_gain: Option<Gain>,
    pub master_gain: Option<Gain>,
    pub phone_mute: Option<bool>,
    pub desktop_mute: Option<bool>,
    pub master_mute: Option<bool>,
    pub routing_enabled: Option<bool>,
    pub headphone_disconnect_action: Option<String>,
}

/// The table `bluetooth` of a document.
#[derive(Debug)]
pub struct BluetoothDocument {
    pub dbus_timeout_seconds: Option<u64>,
    pub a2dp_connect_delay_seconds: Option<u64>,
    pub a2dp_retry_delay_seconds: Option<u64>,
}

/// The table `connection` of a document.
#[derive(Debug)]
pub struct ConnectionDocument {
    pub auto_reconnect: Option<bool>,
    pub retry_initial_seconds: Option<u64>,
    pub retry_max_seconds: Option<u64>,
}

/// A whole document.
#[derive(Debug)]
pub struct ConfigDocument {
    pub devices: DevicesDocument,
    pub audio: AudioDocument,
    pub bluetooth: BluetoothDocument,
    pub connection: ConnectionDocument,
}

/// The value is that of the document, or the default where the document has none.
pub open spec fn chosen<T>(value: T, held: Option<T>, default: T) -> bool {
    value == (match held {
        Some(v) => v,
        None => default,
    })
}

/// The text is that of the document, or the default where the document has none.
pub open spec fn chosen_text(value: Seq<char>, held: Option<String>, default: Seq<char>) -> bool {
    value == (match held {
        Some(v) => v@,
        None => default,
    })
}

fn text_or(held: Option<String>, default: &str) -> (r: String)
    ensures
        chosen_text(r@, held, default@),
{
    match held {
        Some(v) => v,
        None => String::from_str(default),
    }
}

impl ConfigDocument {
    /// The document holds nothing of the settings that are no longer written.
    pub open spec fn omits_legacy(self) -> bool {
        &&& self.devices.iphone_address is None
        &&& self.devices.headphones_address is None
        &&& self.audio.virtual_sink_name is None
        &&& self.audio.output_codec is None
        &&& self.audio.allow_codec_fallback is None
        &&& self.audio.headphone_disconnect_action is None
        &&& self.connection.auto_reconnect is None
        &&& self.connection.retry_initial_seconds is None
        &&& self.connection.retry_max_seconds is None
    }

    /// The document holds the gains, mutes, forwarding and Bluetooth timing of `config`.
    pub open spec fn holds_controls(self, config: Config) -> bool {
        &&& self.audio.phone_gain == Some(config.audio.phone_gain)
        &&& self.audio.desktop_gain == Some(config.audio.desktop_gain)
        &&& self.audio.master_gain == Some(config.audio.master_gain)
        &&& self.audio.phone_mute == Some(config.audio.phone_mute)
        &&& self.audio.desktop_mute == Some(config.audio.desktop_mute)
        &&& self.audio.master_mute == Some(config.audio.master_mute)
        &&& self.audio.routing_enabled == Some(config.audio.routing_enabled)
        &&& self.bluetooth.dbus_timeout_seconds == Some(config.bluetooth.dbus_timeout_seconds)
        &&& self.bluetooth.a2dp_connect_delay_seconds == Some(
            config.bluetooth.a2dp_connect_delay_seconds,
        )
        &&& self.bluetooth.a2dp_retry_delay_seconds == Some(
            config.bluetooth.a2dp_retry_delay_seconds,
        )
    }

    /// The document is what `config` is written as.
    pub open spec fn writes(self, config: Config) -> bool {
        self.omits_legacy() && self.holds_controls(config)
    }

    /// `config` is what the document is read as: each setting that it lacks is at its default,
    /// which for the Bluetooth timing is `timing`.
    pub open spec fn reads(self, timing: Bluetooth, config: Config) -> bool {
        &&& chosen_text(config.devices.iphone_address@, self.devices.iphone_address, Seq::empty())
        &&& chosen_text(
            config.devices.headphones_address@,
            self.devices.headphones_address,
            Seq::empty(),
        )
        &&& chosen_text(
            config.audio.virtual_sink_name@,
            self.audio.virtual_sink_name,
            "bluetooth-audio-bridge"@,
        )
        &&& chosen_text(config.audio.output_codec@, self.audio.output_codec, "aac"@)
        &&& chosen(config.audio.allow_codec_fallback, self.audio.allow_codec_fallback, false)
        &&& chosen(
            config.audio.phone_gain,
            self.audio.phone_gain,
            (Gain { bits: crate::gain::ONE }),
        )
        &&& chosen(
            config.audio.desktop_gain,
            self.audio.desktop_gain,
            (Gain { bits: crate::gain::ONE }),
        )
        &&& chosen(
            config.audio.master_gain,
            self.audio.master_gain,
            (Gain { bits: crate::gain::ONE }),
        )
        &&& chosen(config.audio.phone_mute, self.audio.phone_mute, false)
        &&& chosen(config.audio.desktop_mute, self.audio.desktop_mute, false)
        &&& chosen(config.audio.master_mute, self.audio.master_mute, false)
        &&& chosen(config.audio.routing_enabled, self.audio.routing_enabled, true)
        &&& chosen_text(
            config.audio.headphone_disconnect_action@,
            self.audio.headphone_disconnect_action,
            "silence"@,
        )
        &&& chosen(
            config.bluetooth.dbus_timeout_seconds,
            self.bluetooth.dbus_timeout_seconds,
            timing.dbus_timeout_seconds,
        )
        &&& chosen(
            config.bluetooth.a2dp_connect_delay_seconds,
            self.bluetooth.a2dp_connect_delay_seconds,
            timing.a2dp_connect_delay_seconds,
        )
        &&& chosen(
            config.bluetooth.a2dp_retry_delay_seconds,
            self.bluetooth.a2dp_retry_delay_seconds,
            timing.a2dp_retry_delay_seconds,
        )
        &&& chosen(config.connection.auto_reconnect, self.connection.auto_reconnect, true)
        &&& chosen(
            config.connection.retry_initial_seconds,
            self.connection.retry_initial_seconds,
            1,
        )
        &&& chosen(config.connection.retry_max_seconds, self.connection.retry_max_seconds, 30)
    }
}

impl Config {
    /// The settings that a document holds, the missing ones at their defaults.
    pub fn from_document(document: ConfigDocument, timing: &Bluetooth) -> (r: Config)
        ensures
            document.reads(*timing, r),
    {
        proof {
            reveal_strlit("");
            assert(""@ =~= Seq::<char>::empty());
        }
        let d = document;
        Config {
            devices: Devices {
                iphone_address: text_or(d.devices.iphone_address, ""),
                headphones_address: text_or(d.devices.headphones_address, ""),
            },
            audio: Audio {
                virtual_sink_name: text_or(d.audio.virtual_sink_name, "bluetooth-audio-bridge"),
                output_codec: text_or(d.audio.output_codec, "aac"),
                allow_codec_fallback: d.audio.allow_codec_fallback.unwrap_or(false),
                phone_gain: d.audio.phone_gain.unwrap_or(Gain::unity()),
                desktop_gain: d.audio.desktop_gain.unwrap_or(Gain::unity()),
                master_gain: d.audio.master_gain.unwrap_or(Gain::unity()),
                phone_mute: d.audio.phone_mute.unwrap_or(false),
                desktop_mute: d.audio.desktop_mute.unwrap_or(false),
                master_mute: d.audio.master_mute.unwrap_or(false),
                routing_enabled: d.audio.routing_enabled.unwrap_or(true),
                headphone_disconnect_action: text_or(
                    d.audio.headphone_disconnect_action,
                    "silence",
                ),
            },
            bluetooth: Bluetooth {
                dbus_timeout_seconds: d.bluetooth.dbus_timeout_seconds.unwrap_or(
                    timing.dbus_timeout_seconds,
                ),
                a2dp_connect_delay_seconds: d.bluetooth.a2dp_connect_delay_seconds.unwrap_or(
                    timing.a2dp_connect_delay_seconds,
                ),
                a2dp_retry_delay_seconds: d.bluetooth.a2dp_retry_delay_seconds.unwrap_or(
                    timing.a2dp_retry_delay_seconds,
                ),
            },
            connection: Connection {
                auto_reconnect: d.connection.auto_reconnect.unwrap_or(true),
                retry_initial_seconds: d.connection.retry_initial_seconds.unwrap_or(1),
                retry_max_seconds: d.connection.retry_max_seconds.unwrap_or(30),
            },
        }
    }

    /// The document that the settings are written as.
    pub fn document(&self) -> (r: ConfigDocument)
        ensures
            r.writes(*self),
    {
        ConfigDocument {
            devices: DevicesDocument { iphone_address: None, headphones_address: None },
            audio: AudioDocument {
                virtual_sink_name: None,
                output_codec: None,
                allow_codec_fallback: None,
                phone_gain: Some(self.audio.phone_gain),
                desktop_gain: Some(self.audio.desktop_gain),
                master_gain: Some(self.audio.master_gain),
                phone_mute: Some(self.audio.phone_mute),
                desktop_mute: Some(self.audio.desktop_mute),
                master_mute: Some(self.audio.master_mute),
                routing_enabled: Some(self.audio.routing_enabled),
                headphone_disconnect_action: None,
            },
            bluetooth: BluetoothDocument {
                dbus_timeout_seconds: Some(self.bluetooth.dbus_timeout_seconds),
                a2dp_connect_delay_seconds: Some(self.bluetooth.a2dp_connect_delay_seconds),
                a2dp_retry_delay_seconds: Some(self.bluetooth.a2dp_retry_delay_seconds),
            },
            connection: ConnectionDocument {
                auto_reconnect: None,
                retry_initial_seconds: None,
                retry_max_seconds: None,
            },
        }
    }

    /// Reads a document and checks the settings, given which timers the clock can reach.
    pub fn load_checked(document: ConfigDocument, timing: &Bluetooth, timers: TimerSupport) -> (r:
        Result<Config, ConfigError>)
        ensures
            exists|c: Config| #[trigger]
                document.reads(*timing, c) && r == (match c.verdict(timers) {
                    Ok(_) => Ok::<Config, ConfigError>(c),
                    Err(e) => Err(e),
                }),
    {
        let config = Config::from_document(document, timing);
        let ghost c = config;
        assert(document.reads(*timing, c));
        match config.check(timers) {
            Ok(()) => Ok(config),
            Err(e) => Err(e),
        }
    }

    /// Reads a document and checks the settings against the clock as it stands.
    pub fn load(document: ConfigDocument, timing: &Bluetooth) -> (r: Result<Config, ConfigError>)
        ensures
            exists|c: Config, timers: TimerSupport|
                #![trigger document.reads(*timing, c), c.verdict(timers)]
                document.reads(*timing, c) && c.bluetooth.answered(timers) && r == (match c.verdict(timers) {
                    Ok(_) => Ok::<Config, ConfigError>(c),
                    Err(e) => Err(e),
                }),
    {
        let config = Config::from_document(document, timing);
        let ghost c = config;
        assert(document.reads(*timing, c));
        let timers = config.bluetooth.timer_support();
        match config.check(timers) {
            Ok(()) => Ok(config),
            Err(e) => Err(e),
        }
    }

    /// Checks the settings against the clock as it stands and gives the document to write.
    pub fn save(&self) -> (r: Result<ConfigDocument, ConfigError>)
        ensures
            exists|timers: TimerSupport|
                self.bluetooth.answered(timers) && match #[trigger] self.verdict(timers) {
                    Ok(_) => r matches Ok(d) && d.writes(*self),
                    Err(e) => r == Err::<ConfigDocument, ConfigError>(e),
                },
            r is Ok ==> self.sound(),
            !self.sound() ==> r == Err::<ConfigDocument, ConfigError>(
                if self.audio.gains_in_range() {
                    ConfigError::TimerZero
                } else {
                    ConfigError::GainOutOfRange
                },
            ),
    {
        let timers = self.bluetooth.timer_support();
        let checked = self.check(timers);
        assert(checked == self.verdict(timers));
        match checked {
            Ok(()) => Ok(self.document()),
            Err(e) => Err(e),
        }
    }
}

/// What is read back of settings that were written: the gains, mutes, forwarding and Bluetooth
/// timing are those that were written, and what is no longer written is at its default.
pub proof fn written_settings_come_back(
    config: Config,
    document: ConfigDocument,
    timing: Bluetooth,
    read: Config,
)
    requires
        document.writes(config),
        document.reads(timing, read),
    ensures
        read.audio.same_controls(config.audio),
        read.bluetooth == config.bluetooth,
        read.devices.unset(),
        read.audio.mixer_defaults(),
        read.connection == (Connection {
            auto_reconnect: true,
            retry_initial_seconds: 1,
            retry_max_seconds: 30,
        }),
        forall|timers: TimerSupport| #[trigger] read.verdict(timers) == config.verdict(timers),
{
}

/// Settings that never held anything but defaults in what is no longer written come back from a
/// document field by field.
pub proof fn current_settings_come_back(
    config: Config,
    document: ConfigDocument,
    timing: Bluetooth,
    read: Config,
)
    requires
        document.writes(config),
        document.reads(timing, read),
        config.devices.unset(),
        config.audio.mixer_defaults(),
        config.connection == (Connection {
            auto_reconnect: true,
            retry_initial_seconds: 1,
            retry_max_seconds: 30,
        }),
    ensures
        read.devices.iphone_address@ == config.devices.iphone_address@,
        read.devices.headphones_address@ == config.devices.headphones_address@,
        read.audio.virtual_sink_name@ == config.audio.virtual_sink_name@,
        read.audio.output_codec@ == config.audio.output_codec@,
        read.audio.allow_codec_fallback == config.audio.allow_codec_fallback,
        read.audio.headphone_disconnect_action@ == config.audio.headphone_disconnect_action@,
        read.audio.same_controls(config.audio),
        read.bluetooth == config.bluetooth,
        read.connection == config.connection,
{
    assert(read.devices.iphone_address@ =~= config.devices.iphone_address@);
    assert(read.devices.headphones_address@ =~= config.devices.headphones_address@);
}

/// A change that was made and written, with or without a controller, is there when the settings
/// are next read.
pub proof fn changes_survive_a_restart(
    config: Config,
    command: Command,
    document: ConfigDocument,
    timing: Bluetooth,
    read: Config,
)
    requires
        ipc::objection(command) is None,
        document.writes(ipc::commanded(config, command)),
        document.reads(timing, read),
    ensures
        read.audio.same_controls(ipc::commanded(config, command).audio),
        read.bluetooth == config.bluetooth,
        match command {
            Command::Select { enabled } => read.audio.routing_enabled == enabled,
            Command::Enable { enabled } => read.audio.routing_enabled == enabled,
            Command::Volume { channel, value } => ipc::gain_of(read.audio, channel) == value,
            Command::Mute { channel, muted } => ipc::mute_of(read.audio, channel) == muted,
            _ => true,
        },
{
    written_settings_come_back(ipc::commanded(config, command), document, timing, read);
    ipc::commands_take_effect(config, command);
    ipc::commands_change_one_setting(config, command);
}

/// An empty document reads as new settings.
pub proof fn empty_document_reads_as_new(document: ConfigDocument, timing: Bluetooth, read: Config)
    requires
        document.reads(timing, read),
        document.omits_legacy(),
        document.audio.phone_gain is None,
        document.audio.desktop_gain is None,
        document.audio.master_gain is None,
        document.audio.phone_mute is None,
        document.audio.desktop_mute is None,
        document.audio.master_mute is None,
        document.audio.routing_enabled is None,
        document.bluetooth.dbus_timeout_seconds is None,
        document.bluetooth.a2dp_connect_delay_seconds is None,
        document.bluetooth.a2dp_retry_delay_seconds is None,
    ensures
        read.is_new(timing),
{
}

/// Each setting that a document holds is the one that is read, whatever else the document holds
/// or lacks.
pub proof fn held_settings_are_read(document: ConfigDocument, timing: Bluetooth, read: Config)
    requires
        document.reads(timing, read),
    ensures
        document.audio.phone_gain matches Some(v) ==> read.audio.phone_gain == v,
        document.audio.desktop_gain matches Some(v) ==> read.audio.desktop_gain == v,
        document.audio.master_gain matches Some(v) ==> read.audio.master_gain == v,
        document.audio.phone_mute matches Some(v) ==> read.audio.phone_mute == v,
        document.audio.desktop_mute matches Some(v) ==> read.audio.desktop_mute == v,
        document.audio.master_mute matches Some(v) ==> read.audio.master_mute == v,
        document.audio.routing_enabled matches Some(v) ==> read.audio.routing_enabled == v,
        document.audio.allow_codec_fallback matches Some(v) ==> read.audio.allow_codec_fallback == v,
        document.bluetooth.dbus_timeout_seconds matches Some(v) ==> read.bluetooth.dbus_timeout_seconds == v,
        document.bluetooth.a2dp_connect_delay_seconds matches Some(v) ==> read.bluetooth.a2dp_connect_delay_seconds == v,
        document.bluetooth.a2dp_retry_delay_seconds matches Some(v) ==> read.bluetooth.a2dp_retry_delay_seconds == v,
        document.connection.auto_reconnect matches Some(v) ==> read.connection.auto_reconnect == v,
        document.connection.retry_initial_seconds matches Some(v) ==> read.connection.retry_initial_seconds == v,
        document.connection.retry_max_seconds matches Some(v) ==> read.connection.retry_max_seconds == v,
        document.devices.iphone_address matches Some(v) ==> read.devices.iphone_address@ == v@,
        document.devices.headphones_address matches Some(v) ==> read.devices.headphones_address@ == v@,
        document.audio.virtual_sink_name matches Some(v) ==> read.audio.virtual_sink_name@ == v@,
        document.audio.output_codec matches Some(v) ==> read.audio.output_codec@ == v@,
        document.audio.headphone_disconnect_action matches Some(v) ==> read.audio.headphone_disconnect_action@ == v@,
{
}

/// Each setting that a document lacks is read at its own default, whatever else the document
/// holds or lacks.
pub proof fn missing_settings_are_at_their_defaults(
    document: ConfigDocument,
    timing: Bluetooth,
    read: Config,
)
    requires
        document.reads(timing, read),
    ensures
        document.audio.phone_gain is None ==> read.audio.phone_gain.bits == 0x3f80_0000,
        document.audio.desktop_gain is None ==> read.audio.desktop_gain.bits == 0x3f80_0000,
        document.audio.master_gain is None ==> read.audio.master_gain.bits == 0x3f80_0000,
        document.audio.phone_mute is None ==> read.audio.phone_mute == false,
        document.audio.desktop_mute is None ==> read.audio.desktop_mute == false,
        document.audio.master_mute is None ==> read.audio.master_mute == false,
        document.audio.routing_enabled is None ==> read.audio.routing_enabled == true,
        document.audio.allow_codec_fallback is None ==> read.audio.allow_codec_fallback == false,
        document.bluetooth.dbus_timeout_seconds is None ==> read.bluetooth.dbus_timeout_seconds == timing.dbus_timeout_seconds,
        document.bluetooth.a2dp_connect_delay_seconds is None ==> read.bluetooth.a2dp_connect_delay_seconds == timing.a2dp_connect_delay_seconds,
        document.bluetooth.a2dp_retry_delay_seconds is None ==> read.bluetooth.a2dp_retry_delay_seconds == timing.a2dp_retry_delay_seconds,
        document.connection.auto_reconnect is None ==> read.connection.auto_reconnect == true,
        document.connection.retry_initial_seconds is None ==> read.connection.retry_initial_seconds == 1,
        document.connection.retry_max_seconds is None ==> read.connection.retry_max_seconds == 30,
        document.devices.iphone_address is None ==> read.devices.iphone_address@.len() == 0,
        document.devices.headphones_address is None ==> read.devices.headphones_address@.len() == 0,
        document.audio.virtual_sink_name is None ==> read.audio.virtual_sink_name@ == "bluetooth-audio-bridge"@,
        document.audio.output_codec is None ==> read.audio.output_codec@ == "aac"@,
        document.audio.headphone_disconnect_action is None ==> read.audio.headphone_disconnect_action@ == "silence"@,
{
}

/// What is read of one setting does not depend on the rest of the document.
pub proof fn settings_are_read_one_by_one(
    a: ConfigDocument,
    b: ConfigDocument,
    timing: Bluetooth,
    x: Config,
    y: Config,
)
    requires
        a.reads(timing, x),
        b.reads(timing, y),
    ensures
        a.audio.phone_gain == b.audio.phone_gain ==> x.audio.phone_gain == y.audio.phone_gain,
        a.audio.desktop_gain == b.audio.desktop_gain ==> x.audio.desktop_gain == y.audio.desktop_gain,
        a.audio.master_gain == b.audio.master_gain ==> x.audio.master_gain == y.audio.master_gain,
        a.audio.phone_mute == b.audio.phone_mute ==> x.audio.phone_mute == y.audio.phone_mute,
        a.audio.desktop_mute == b.audio.desktop_mute ==> x.audio.desktop_mute == y.audio.desktop_mute,
        a.audio.master_mute == b.audio.master_mute ==> x.audio.master_mute == y.audio.master_mute,
        a.audio.routing_enabled == b.audio.routing_enabled ==> x.audio.routing_enabled == y.audio.routing_enabled,
        a.audio.allow_codec_fallback == b.audio.allow_codec_fallback ==> x.audio.allow_codec_fallback == y.audio.allow_codec_fallback,
        a.bluetooth.dbus_timeout_seconds == b.bluetooth.dbus_timeout_seconds ==> x.bluetooth.dbus_timeout_seconds == y.bluetooth.dbus_timeout_seconds,
        a.bluetooth.a2dp_connect_delay_seconds == b.bluetooth.a2dp_connect_delay_seconds ==> x.bluetooth.a2dp_connect_delay_seconds == y.bluetooth.a2dp_connect_delay_seconds,
        a.bluetooth.a2dp_retry_delay_seconds == b.bluetooth.a2dp_retry_delay_seconds ==> x.bluetooth.a2dp_retry_delay_seconds == y.bluetooth.a2dp_retry_delay_seconds,
        a.connection.auto_reconnect == b.connection.auto_reconnect ==> x.connection.auto_reconnect == y.connection.auto_reconnect,
        a.connection.retry_initial_seconds == b.connection.retry_initial_seconds ==> x.connection.retry_initial_seconds == y.connection.retry_initial_seconds,
        a.connection.retry_max_seconds == b.connection.retry_max_seconds ==> x.connection.retry_max_seconds == y.connection.retry_max_seconds,
        a.devices.iphone_address == b.devices.iphone_address ==> x.devices.iphone_address@ == y.devices.iphone_address@,
        a.devices.headphones_address == b.devices.headphones_address ==> x.devices.headphones_address@ == y.devices.headphones_address@,
        a.audio.virtual_sink_name == b.audio.virtual_sink_name ==> x.audio.virtual_sink_name@ == y.audio.virtual_sink_name@,
        a.audio.output_codec == b.audio.output_codec ==> x.audio.output_codec@ == y.audio.output_codec@,
        a.audio.headphone_disconnect_action == b.audio.headphone_disconnect_action ==> x.audio.headphone_disconnect_action@ == y.audio.headphone_disconnect_action@,
{
    assert(a.devices.iphone_address == b.devices.iphone_address ==> x.devices.iphone_address@
        =~= y.devices.iphone_address@);
    assert(a.devices.headphones_address == b.devices.headphones_address
        ==> x.devices.headphones_address@ =~= y.devices.headphones_address@);
}

/// A written document holds each current setting as it is, and nothing of the old ones.
pub proof fn written_documents_hold_each_setting(config: Config, document: ConfigDocument)
    requires
        document.writes(config),
    ensures
        document.audio.phone_gain == Some(config.audio.phone_gain),
        document.audio.desktop_gain == Some(config.audio.desktop_gain),
        document.audio.master_gain == Some(config.audio.master_gain),
        document.audio.phone_mute == Some(config.audio.phone_mute),
        document.audio.desktop_mute == Some(config.audio.desktop_mute),
        document.audio.master_mute == Some(config.audio.master_mute),
        document.audio.routing_enabled == Some(config.audio.routing_enabled),
        document.bluetooth.dbus_timeout_seconds == Some(config.bluetooth.dbus_timeout_seconds),
        document.bluetooth.a2dp_connect_delay_seconds == Some(config.bluetooth.a2dp_connect_delay_seconds),
        document.bluetooth.a2dp_retry_delay_seconds == Some(config.bluetooth.a2dp_retry_delay_seconds),
        document.devices.iphone_address is None,
        document.devices.headphones_address is None,
        document.audio.virtual_sink_name is None,
        document.audio.output_codec is None,
        document.audio.headphone_disconnect_action is None,
        document.audio.allow_codec_fallback is None,
        document.connection.auto_reconnect is None,
        document.connection.retry_initial_seconds is None,
        document.connection.retry_max_seconds is None,
{
}

} // verus!
