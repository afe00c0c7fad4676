//! The settings of the bridge: their defaults and their rules.
use crate::clock;
use crate::clock::ClockAnswer;
use crate::gain::Gain;
use crate::text;
use vstd::prelude::*;
use vstd::string::*;

verus! {

/// Addresses of fixed devices. They are read from old settings and ignored.
#[derive(Debug)]
pub struct Devices {
    pub iphone_address: String,
    pub headphones_address: String,
}

/// What is done to the audio streams.
#[derive(Debug)]
pub struct Audio {
    pub virtual_sink_name: String,
    pub output_codec: String,
    pub allow_codec_fallback: bool,
    pub phone_gain: Gain,
    pub desktop_gain: Gain,
    pub master_gain: Gain,
    pub phone_mute: bool,
    pub desktop_mute: bool,
    pub master_mute: bool,
    pub routing_enabled: bool,
    pub headphone_disconnect_action: String,
}

/// How long BlueZ may take, and how long to wait between attempts to connect a source.
#[derive(Clone, Copy, Debug, PartialEq, Eq, Structural)]
pub struct Bluetooth {
    pub dbus_timeout_seconds: u64,
    pub a2dp_connect_delay_seconds: u64,
    pub a2dp_retry_delay_seconds: u64,
}

/// Reconnect settings. They are read from old settings and ignored.
#[derive(Clone, Copy, Debug, PartialEq, Eq, Structural)]
pub struct Connection {
    pub auto_reconnect: bool,
    pub retry_initial_seconds: u64,
    pub retry_max_seconds: u64,
}

/// All settings.
#[derive(Debug)]
pub struct Config {
    pub devices: Devices,
    pub audio: Audio,
    pub bluetooth: Bluetooth,
    pub connection: Connection,
}

/// One of the timers of the Bluetooth settings.
#[derive(Clone, Copy, Debug, PartialEq, Eq, Structural)]
pub enum Timer {
    DbusTimeout,
    A2dpConnectDelay,
    A2dpRetryDelay,
}

/// Why settings, or the places that hold them, are refused.
#[derive(Clone, Copy, Debug, PartialEq, Eq, Structural)]
pub enum ConfigError {
    RootUser,
    RelativeConfigHome,
    HomeUnset,
    RelativeHome,
    IndirectPath,
    UnsafeDirectory,
    UnsafeFile,
    FileTooLarge,
    ForeignTarget,
    GainOutOfRange,
    TimerZero,
    TimerRange(Timer),
}

/// Which timers of the Bluetooth settings the clock can reach from now.
#[derive(Clone, Copy, Debug, PartialEq, Eq, Structural)]
pub struct TimerSupport {
    pub dbus_timeout: bool,
    pub a2dp_connect_delay: bool,
    pub a2dp_retry_delay: bool,
}

impl Devices {
    /// No address is set.
    pub open spec fn unset(self) -> bool {
        self.iphone_address@.len() == 0 && self.headphones_address@.len() == 0
    }
}

impl Default for Devices {
    fn default() -> (r: Self)
        ensures
            r.unset(),
    {
        Devices { iphone_address: String::new(), headphones_address: String::new() }
    }
}

impl Clone for Devices {
    fn clone(&self) -> (r: Self)
        ensures
            r == *self,
    {
        Devices {
            iphone_address: self.iphone_address.clone(),
            headphones_address: self.headphones_address.clone(),
        }
    }
}

impl Audio {
    /// The settings that only a mixer used are at their defaults.
    pub open spec fn mixer_defaults(self) -> bool {
        &&& self.virtual_sink_name@ == "bluetooth-audio-bridge"@
        &&& self.output_codec@ == "aac"@
        &&& !self.allow_codec_fallback
        &&& self.headphone_disconnect_action@ == "silence"@
    }

    /// Every stream keeps its level, nothing is muted and forwarding is on.
    pub open spec fn open_defaults(self) -> bool {
        &&& self.phone_gain.bits == crate::gain::ONE
        &&& self.desktop_gain.bits == crate::gain::ONE
        &&& self.master_gain.bits == crate::gain::ONE
        &&& !self.phone_mute
        &&& !self.desktop_mute
        &&& !self.master_mute
        &&& self.routing_enabled
    }

    /// The settings that are written: gains, mutes and forwarding.
    pub open spec fn same_controls(self, other: Audio) -> bool {
        &&& self.phone_gain == other.phone_gain
        &&& self.desktop_gain == other.desktop_gain
        &&& self.master_gain == other.master_gain
        &&& self.phone_mute == other.phone_mute
        &&& self.desktop_mute == other.desktop_mute
        &&& self.master_mute == other.master_mute
        &&& self.routing_enabled == other.routing_enabled
    }

    /// Every gain is a finite number from zero to one.
    pub open spec fn gains_in_range(self) -> bool {
        &&& self.phone_gain.in_range()
        &&& self.desktop_gain.in_range()
        &&& self.master_gain.in_range()
    }
}

impl Default for Audio {
    fn default() -> (r: Self)
        ensures
            r.mixer_defaults(),
            r.open_defaults(),
            r.gains_in_range(),
    {
        Audio {
            virtual_sink_name: String::from_str("bluetooth-audio-bridge"),
            output_codec: String::from_str("aac"),
            allow_codec_fallback: false,
            phone_gain: Gain::unity(),
            desktop_gain: Gain::unity(),
            master_gain: Gain::unity(),
            phone_mute: false,
            desktop_mute: false,
            master_mute: false,
            routing_enabled: true,
            headphone_disconnect_action: String::from_str("silence"),
        }
    }
}

impl Clone for Audio {
    fn clone(&self) -> (r: Self)
        ensures
            r == *self,
    {
        Audio {
            virtual_sink_name: self.virtual_sink_name.clone(),
            output_codec: self.output_codec.clone(),
            allow_codec_fallback: self.allow_codec_fallback,
            phone_gain: self.phone_gain,
            desktop_gain: self.desktop_gain,
            master_gain: self.master_gain,
            phone_mute: self.phone_mute,
            desktop_mute: self.desktop_mute,
            master_mute: self.master_mute,
            routing_enabled: self.routing_enabled,
            headphone_disconnect_action: self.headphone_disconnect_action.clone(),
        }
    }
}

impl Default for Connection {
    fn default() -> (r: Self)
        ensures
            r == (Connection {
                auto_reconnect: true,
                retry_initial_seconds: 1,
                retry_max_seconds: 30,
            }),
    {
        Connection { auto_reconnect: true, retry_initial_seconds: 1, retry_max_seconds: 30 }
    }
}

impl Clone for Config {
    fn clone(&self) -> (r: Self)
        ensures
            r == *self,
    {
        Config {
            devices: self.devices.clone(),
            audio: self.audio.clone(),
            bluetooth: self.bluetooth,
            connection: self.connection,
        }
    }
}

/// The settings file that an installation starts from.
pub const DEFAULT_CONFIG: &'static str = "[audio]
phone_gain = 1.0
desktop_gain = 1.0
master_gain = 1.0
phone_mute = false
desktop_mute = false
master_mute = false
routing_enabled = true

[bluetooth]
dbus_timeout_seconds = 5
a2dp_connect_delay_seconds = 2
a2dp_retry_delay_seconds = 30
";

/// The integer that a TOML document holds in one of its tables: nothing where the text is no
/// TOML document, where it has no such table or key, or where the value is no integer.
pub uninterp spec fn toml_integer(text: Seq<char>, table: Seq<char>, key: Seq<char>) -> Option<i64>;

/// `toml::from_str` into a table, then `get` twice and `as_integer`: the integer under `key` in
/// the table `table` of the document. What the TOML grammar makes of a text is named, not
/// stated.
#[verifier::external_body]
fn read_toml_integer(text: &str, table: &str, key: &str) -> (r: Option<i64>)
    ensures
        r == toml_integer(text@, table@, key@),
{
    let document: toml::Table = toml::from_str(text).ok()?;
    document.get(table)?.get(key)?.as_integer()
}

impl Bluetooth {
    /// The settings that three integers give: all of them must be there, none below zero.
    pub open spec fn of_integers(dbus: Option<i64>, connect: Option<i64>, retry: Option<i64>) -> Option<
        Bluetooth,
    > {
        match (dbus, connect, retry) {
            (Some(d), Some(c), Some(r)) => if d >= 0 && c >= 0 && r >= 0 {
                Some(
                    Bluetooth {
                        dbus_timeout_seconds: d as u64,
                        a2dp_connect_delay_seconds: c as u64,
                        a2dp_retry_delay_seconds: r as u64,
                    },
                )
            } else {
                None
            },
            _ => None,
        }
    }

    /// Takes the settings from three integers of a document.
    pub fn from_integers(dbus: Option<i64>, connect: Option<i64>, retry: Option<i64>) -> (r: Option<
        Bluetooth,
    >)
        ensures
            r == Self::of_integers(dbus, connect, retry),
    {
        match (dbus, connect, retry) {
            (Some(d), Some(c), Some(r)) => {
                if d >= 0 && c >= 0 && r >= 0 {
                    Some(
                        Bluetooth {
                            dbus_timeout_seconds: d as u64,
                            a2dp_connect_delay_seconds: c as u64,
                            a2dp_retry_delay_seconds: r as u64,
                        },
                    )
                } else {
                    None
                }
            },
            _ => None,
        }
    }

    /// Takes the settings from the table `bluetooth` of a TOML document. Nothing comes of a
    /// document that lacks one of them or holds no nonnegative integer for it.
    pub fn bundled(document: &str) -> (r: Option<Bluetooth>)
        ensures
            r == Self::of_integers(
                toml_integer(document@, "bluetooth"@, "dbus_timeout_seconds"@),
                toml_integer(document@, "bluetooth"@, "a2dp_connect_delay_seconds"@),
                toml_integer(document@, "bluetooth"@, "a2dp_retry_delay_seconds"@),
            ),
    {
        let dbus = read_toml_integer(document, "bluetooth", "dbus_timeout_seconds");
        let connect = read_toml_integer(document, "bluetooth", "a2dp_connect_delay_seconds");
        let retry = read_toml_integer(document, "bluetooth", "a2dp_retry_delay_seconds");
        Bluetooth::from_integers(dbus, connect, retry)
    }

    /// The clock was asked about each of these timers, all from one reading, and `timers` are its
    /// answers.
    pub open spec fn answered(self, timers: TimerSupport) -> bool {
        exists|d: ClockAnswer, c: ClockAnswer, r: ClockAnswer|
            #![trigger d.asked(), c.asked(), r.asked()]
            {
                &&& d.asked() == self.dbus_timeout_seconds
                &&& c.asked() == self.a2dp_connect_delay_seconds
                &&& r.asked() == self.a2dp_retry_delay_seconds
                &&& d.since() == c.since() && c.since() == r.since()
                &&& timers == (TimerSupport {
                    dbus_timeout: d.reached(),
                    a2dp_connect_delay: c.reached(),
                    a2dp_retry_delay: r.reached(),
                })
            }
    }

    /// Asks the clock which timers it can reach. It reaches every timer of no seconds; the other
    /// answers depend on the machine and the time.
    pub fn timer_support(&self) -> (r: TimerSupport)
        ensures
            self.answered(r),
            self.dbus_timeout_seconds == 0 ==> r.dbus_timeout,
            self.a2dp_connect_delay_seconds == 0 ==> r.a2dp_connect_delay,
            self.a2dp_retry_delay_seconds == 0 ==> r.a2dp_retry_delay,
    {
        let now = std::time::Instant::now();
        let dbus = clock::clock_reaches(&now, self.dbus_timeout_seconds);
        let connect = clock::clock_reaches(&now, self.a2dp_connect_delay_seconds);
        let retry = clock::clock_reaches(&now, self.a2dp_retry_delay_seconds);
        TimerSupport {
            dbus_timeout: dbus.is_reached(),
            a2dp_connect_delay: connect.is_reached(),
            a2dp_retry_delay: retry.is_reached(),
        }
    }
}

/// Refuses a gain that is no finite number from zero to one.
pub fn validate_gain(value: Gain) -> (r: Result<(), ConfigError>)
    ensures
        r == (if value.in_range() {
            Ok::<(), ConfigError>(())
        } else {
            Err(ConfigError::GainOutOfRange)
        }),
{
    if value.is_valid() {
        Ok(())
    } else {
        Err(ConfigError::GainOutOfRange)
    }
}

impl Config {
    /// New settings with the given Bluetooth timing.
    pub open spec fn is_new(self, timing: Bluetooth) -> bool {
        &&& self.devices.unset()
        &&& self.audio.mixer_defaults()
        &&& self.audio.open_defaults()
        &&& self.bluetooth == timing
        &&& self.connection == (Connection {
            auto_reconnect: true,
            retry_initial_seconds: 1,
            retry_max_seconds: 30,
        })
    }

    /// New settings, with the Bluetooth timing of the bundled document. Nothing comes of a
    /// document without that timing.
    pub fn new(document: &str) -> (r: Option<Config>)
        ensures
            match Bluetooth::of_integers(
                toml_integer(document@, "bluetooth"@, "dbus_timeout_seconds"@),
                toml_integer(document@, "bluetooth"@, "a2dp_connect_delay_seconds"@),
                toml_integer(document@, "bluetooth"@, "a2dp_retry_delay_seconds"@),
            ) {
                Some(timing) => r matches Some(c) && c.is_new(timing),
                None => r is None,
            },
    {
        match Bluetooth::bundled(document) {
            Some(timing) => Some(Config::with_timing(timing)),
            None => None,
        }
    }

    /// New settings with the given Bluetooth timing.
    pub fn with_timing(timing: Bluetooth) -> (r: Config)
        ensures
            r.is_new(timing),
            r.audio.gains_in_range(),
    {
        Config {
            devices: Devices::default(),
            audio: Audio::default(),
            bluetooth: timing,
            connection: Connection::default(),
        }
    }

    /// What is wrong with the settings, given which timers the clock can reach: first the gains,
    /// then the timers that must not be zero, then the timers in order.
    pub open spec fn verdict(self, timers: TimerSupport) -> Result<(), ConfigError> {
        if !self.audio.gains_in_range() {
            Err(ConfigError::GainOutOfRange)
        } else if self.bluetooth.dbus_timeout_seconds == 0
            || self.bluetooth.a2dp_retry_delay_seconds == 0 {
            Err(ConfigError::TimerZero)
        } else if !timers.dbus_timeout {
            Err(ConfigError::TimerRange(Timer::DbusTimeout))
        } else if !timers.a2dp_connect_delay {
            Err(ConfigError::TimerRange(Timer::A2dpConnectDelay))
        } else if !timers.a2dp_retry_delay {
            Err(ConfigError::TimerRange(Timer::A2dpRetryDelay))
        } else {
            Ok(())
        }
    }

    /// The settings hold to every rule that does not depend on the clock.
    pub open spec fn sound(self) -> bool {
        &&& self.audio.gains_in_range()
        &&& self.bluetooth.dbus_timeout_seconds != 0
        &&& self.bluetooth.a2dp_retry_delay_seconds != 0
    }

    /// Checks the settings, given which timers the clock can reach.
    pub fn check(&self, timers: TimerSupport) -> (r: Result<(), ConfigError>)
        ensures
            r == self.verdict(timers),
    {
        if !self.audio.phone_gain.is_valid() || !self.audio.desktop_gain.is_valid()
            || !self.audio.master_gain.is_valid() {
            return Err(ConfigError::GainOutOfRange);
        }
        if self.bluetooth.dbus_timeout_seconds == 0 || self.bluetooth.a2dp_retry_delay_seconds
            == 0 {
            return Err(ConfigError::TimerZero);
        }
        if !timers.dbus_timeout {
            return Err(ConfigError::TimerRange(Timer::DbusTimeout));
        }
        if !timers.a2dp_connect_delay {
            return Err(ConfigError::TimerRange(Timer::A2dpConnectDelay));
        }
        if !timers.a2dp_retry_delay {
            return Err(ConfigError::TimerRange(Timer::A2dpRetryDelay));
        }
        Ok(())
    }

    /// Checks the settings against the clock as it stands.
    pub fn validate(&self) -> (r: Result<(), ConfigError>)
        ensures
            exists|timers: TimerSupport|
                self.bluetooth.answered(timers) && r == #[trigger] self.verdict(timers),
            r is Ok ==> self.sound(),
            !self.audio.gains_in_range() ==> r == Err::<(), ConfigError>(
                ConfigError::GainOutOfRange,
            ),
            self.audio.gains_in_range() && !self.sound() ==> r == Err::<(), ConfigError>(
                ConfigError::TimerZero,
            ),
            self.sound() ==> r is Ok || r matches Err(ConfigError::TimerRange(_)),
            self.bluetooth.a2dp_connect_delay_seconds == 0 ==> r != Err::<(), ConfigError>(
                ConfigError::TimerRange(Timer::A2dpConnectDelay),
            ),
    {
        let timers = self.bluetooth.timer_support();
        let r = self.check(timers);
        assert(r == self.verdict(timers));
        r
    }
}

/// The name of a timer among the settings.
pub open spec fn timer_name(timer: Timer) -> Seq<char> {
    match timer {
        Timer::DbusTimeout => "dbus_timeout_seconds"@,
        Timer::A2dpConnectDelay => "a2dp_connect_delay_seconds"@,
        Timer::A2dpRetryDelay => "a2dp_retry_delay_seconds"@,
    }
}

/// The text of an error about the file or directory at `place`.
pub open spec fn config_text(error: ConfigError, place: Seq<u8>) -> Seq<char> {
    match error {
        ConfigError::RootUser => "Run Bluetooth Audio Bridge as the desktop user, not root"@,
        ConfigError::RelativeConfigHome => "XDG_CONFIG_HOME must be an absolute path"@,
        ConfigError::HomeUnset => "HOME is not set"@,
        ConfigError::RelativeHome => "HOME must be an absolute path"@,
        ConfigError::IndirectPath => "Config path must name a file and must not contain '..'"@,
        ConfigError::UnsafeDirectory => text::lossy(place) + " must be a user-owned directory with mode 0700"@,
        ConfigError::UnsafeFile => text::lossy(place) + " must be a user-owned regular file with mode 0600"@,
        ConfigError::FileTooLarge => "Config is larger than 64 KiB"@,
        ConfigError::ForeignTarget => "Refusing to replace a symlink or a file owned by another user"@,
        ConfigError::GainOutOfRange => "Gain must be a finite number between 0 and 1"@,
        ConfigError::TimerZero => "bluetooth.dbus_timeout_seconds and bluetooth.a2dp_retry_delay_seconds must be greater than zero"@,
        ConfigError::TimerRange(timer) => "bluetooth."@ + timer_name(timer)
            + " exceeds the supported timer duration"@,
    }
}

impl ConfigError {
    /// The text of the error, about the file or directory at the given path.
    pub fn message(&self, place: &[u8]) -> (r: String)
        ensures
            r@ == config_text(*self, place@),
    {
        match self {
            ConfigError::RootUser => String::from_str("Run Bluetooth Audio Bridge as the desktop user, not root"),
            ConfigError::RelativeConfigHome => String::from_str("XDG_CONFIG_HOME must be an absolute path"),
            ConfigError::HomeUnset => String::from_str("HOME is not set"),
            ConfigError::RelativeHome => String::from_str("HOME must be an absolute path"),
            ConfigError::IndirectPath => String::from_str("Config path must name a file and must not contain '..'"),
            ConfigError::UnsafeDirectory => text::lossy_text(place).concat(" must be a user-owned directory with mode 0700"),
            ConfigError::UnsafeFile => text::lossy_text(place).concat(" must be a user-owned regular file with mode 0600"),
            ConfigError::FileTooLarge => String::from_str("Config is larger than 64 KiB"),
            ConfigError::ForeignTarget => String::from_str("Refusing to replace a symlink or a file owned by another user"),
            ConfigError::GainOutOfRange => String::from_str("Gain must be a finite number between 0 and 1"),
            ConfigError::TimerZero => String::from_str("bluetooth.dbus_timeout_seconds and bluetooth.a2dp_retry_delay_seconds must be greater than zero"),
            ConfigError::TimerRange(timer) => String::from_str("bluetooth.").concat(
                match timer {
                    Timer::DbusTimeout => "dbus_timeout_seconds",
                    Timer::A2dpConnectDelay => "a2dp_connect_delay_seconds",
                    Timer::A2dpRetryDelay => "a2dp_retry_delay_seconds",
                },
            ).concat(" exceeds the supported timer duration"),
        }
    }
}

/// The text for a settings file that cannot be opened.
pub fn unreadable_message(place: &[u8]) -> (r: String)
    ensures
        r@ == "Cannot read "@ + text::lossy(place@)
            + "; run 'bluetooth-audio-bridge config init' first"@,
{
    String::from_str("Cannot read ").concat(text::lossy_text(place).as_str()).concat(
        "; run 'bluetooth-audio-bridge config init' first",
    )
}

/// New settings leave every level at one, mute nothing, forward, name no device, hold the mixer's
/// old defaults, and take over the given timing.
pub proof fn new_settings_are_open(config: Config, timing: Bluetooth)
    requires
        config.is_new(timing),
    ensures
        config.audio.phone_gain.bits == 0x3f80_0000,
        config.audio.desktop_gain.bits == 0x3f80_0000,
        config.audio.master_gain.bits == 0x3f80_0000,
        !config.audio.phone_mute && !config.audio.desktop_mute && !config.audio.master_mute,
        config.audio.routing_enabled,
        config.devices.iphone_address@.len() == 0 && config.devices.headphones_address@.len() == 0,
        config.audio.virtual_sink_name@ == "bluetooth-audio-bridge"@,
        config.audio.output_codec@ == "aac"@,
        !config.audio.allow_codec_fallback,
        config.audio.headphone_disconnect_action@ == "silence"@,
        config.bluetooth.dbus_timeout_seconds == timing.dbus_timeout_seconds,
        config.bluetooth.a2dp_connect_delay_seconds == timing.a2dp_connect_delay_seconds,
        config.bluetooth.a2dp_retry_delay_seconds == timing.a2dp_retry_delay_seconds,
        config.connection.auto_reconnect && config.connection.retry_initial_seconds == 1
            && config.connection.retry_max_seconds == 30,
{
}

/// Three integers give a timing exactly if all are there and none is below zero, each for its own
/// setting.
pub proof fn timing_takes_each_integer(dbus: Option<i64>, connect: Option<i64>, retry: Option<i64>)
    ensures
        dbus is None || connect is None || retry is None ==> Bluetooth::of_integers(
            dbus,
            connect,
            retry,
        ) is None,
        dbus matches Some(d) && d < 0 ==> Bluetooth::of_integers(dbus, connect, retry) is None,
        connect matches Some(c) && c < 0 ==> Bluetooth::of_integers(dbus, connect, retry) is None,
        retry matches Some(r) && r < 0 ==> Bluetooth::of_integers(dbus, connect, retry) is None,
        dbus is Some && connect is Some && retry is Some && dbus->0 >= 0 && connect->0 >= 0
            && retry->0 >= 0 ==> (Bluetooth::of_integers(dbus, connect, retry) matches Some(b)
            && b.dbus_timeout_seconds == dbus->0 && b.a2dp_connect_delay_seconds == connect->0
            && b.a2dp_retry_delay_seconds == retry->0),
{
}

/// Settings are accepted exactly if all three gains are from zero to one, the two timers that
/// must run are not zero, and the clock reaches all three.
pub proof fn settings_are_accepted_by_every_rule(config: Config, timers: TimerSupport)
    ensures
        config.verdict(timers) is Ok <==> {
            &&& config.audio.phone_gain.in_range()
            &&& config.audio.desktop_gain.in_range()
            &&& config.audio.master_gain.in_range()
            &&& config.bluetooth.dbus_timeout_seconds > 0
            &&& config.bluetooth.a2dp_retry_delay_seconds > 0
            &&& timers.dbus_timeout
            &&& timers.a2dp_connect_delay
            &&& timers.a2dp_retry_delay
        },
        config.sound() <==> {
            &&& config.audio.phone_gain.in_range()
            &&& config.audio.desktop_gain.in_range()
            &&& config.audio.master_gain.in_range()
            &&& config.bluetooth.dbus_timeout_seconds > 0
            &&& config.bluetooth.a2dp_retry_delay_seconds > 0
        },
{
}

/// Each rule that is broken has its error, and the earlier rule comes first: gains, then timers
/// of no seconds, then the timers in order.
pub proof fn broken_rules_have_their_errors(config: Config, timers: TimerSupport)
    ensures
        ({
            let gains = config.audio.phone_gain.in_range() && config.audio.desktop_gain.in_range()
                && config.audio.master_gain.in_range();
            let running = config.bluetooth.dbus_timeout_seconds > 0
                && config.bluetooth.a2dp_retry_delay_seconds > 0;
            let error = config.verdict(timers);
            &&& !gains <==> error == Err::<(), ConfigError>(ConfigError::GainOutOfRange)
            &&& gains && !running <==> error == Err::<(), ConfigError>(ConfigError::TimerZero)
            &&& gains && running && !timers.dbus_timeout <==> error == Err::<(), ConfigError>(
                ConfigError::TimerRange(Timer::DbusTimeout),
            )
            &&& gains && running && timers.dbus_timeout && !timers.a2dp_connect_delay <==> error
                == Err::<(), ConfigError>(ConfigError::TimerRange(Timer::A2dpConnectDelay))
            &&& gains && running && timers.dbus_timeout && timers.a2dp_connect_delay
                && !timers.a2dp_retry_delay <==> error == Err::<(), ConfigError>(
                ConfigError::TimerRange(Timer::A2dpRetryDelay),
            )
        }),
{
}

/// What the clock answered is about the seconds of each timer itself.
pub proof fn answers_are_about_each_timer(bluetooth: Bluetooth, timers: TimerSupport)
    requires
        bluetooth.answered(timers),
    ensures
        exists|a: ClockAnswer|
            #[trigger] a.asked() == bluetooth.dbus_timeout_seconds && a.reached()
                == timers.dbus_timeout,
        exists|a: ClockAnswer|
            #[trigger] a.asked() == bluetooth.a2dp_connect_delay_seconds && a.reached()
                == timers.a2dp_connect_delay,
        exists|a: ClockAnswer|
            #[trigger] a.asked() == bluetooth.a2dp_retry_delay_seconds && a.reached()
                == timers.a2dp_retry_delay,
{
}

/// The errors about a place name it; no other text depends on it.
pub proof fn errors_name_the_place(error: ConfigError, place: Seq<u8>, other: Seq<u8>)
    ensures
        config_text(ConfigError::UnsafeDirectory, place) == text::lossy(place)
            + " must be a user-owned directory with mode 0700"@,
        config_text(ConfigError::UnsafeFile, place) == text::lossy(place)
            + " must be a user-owned regular file with mode 0600"@,
        error != ConfigError::UnsafeDirectory && error != ConfigError::UnsafeFile ==> config_text(
            error,
            place,
        ) == config_text(error, other),
        config_text(ConfigError::GainOutOfRange, place)
            == "Gain must be a finite number between 0 and 1"@,
        config_text(ConfigError::TimerZero, place)
            == "bluetooth.dbus_timeout_seconds and bluetooth.a2dp_retry_delay_seconds must be greater than zero"@,
        config_text(ConfigError::TimerRange(Timer::DbusTimeout), place) == "bluetooth."@
            + "dbus_timeout_seconds"@ + " exceeds the supported timer duration"@,
        config_text(ConfigError::TimerRange(Timer::A2dpConnectDelay), place) == "bluetooth."@
            + "a2dp_connect_delay_seconds"@ + " exceeds the supported timer duration"@,
        config_text(ConfigError::TimerRange(Timer::A2dpRetryDelay), place) == "bluetooth."@
            + "a2dp_retry_delay_seconds"@ + " exceeds the supported timer duration"@,
{
}

/// The groups of settings that rules and defaults speak of are made of these settings.
pub proof fn groups_of_settings(audio: Audio, other: Audio, devices: Devices)
    ensures
        audio.open_defaults() <==> {
            &&& audio.phone_gain.bits == 0x3f80_0000
            &&& audio.desktop_gain.bits == 0x3f80_0000
            &&& audio.master_gain.bits == 0x3f80_0000
            &&& !audio.phone_mute
            &&& !audio.desktop_mute
            &&& !audio.master_mute
            &&& audio.routing_enabled
        },
        audio.mixer_defaults() <==> {
            &&& audio.virtual_sink_name@ == "bluetooth-audio-bridge"@
            &&& audio.output_codec@ == "aac"@
            &&& !audio.allow_codec_fallback
            &&& audio.headphone_disconnect_action@ == "silence"@
        },
        audio.same_controls(other) <==> {
            &&& audio.phone_gain == other.phone_gain
            &&& audio.desktop_gain == other.desktop_gain
            &&& audio.master_gain == other.master_gain
            &&& audio.phone_mute == other.phone_mute
            &&& audio.desktop_mute == other.desktop_mute
            &&& audio.master_mute == other.master_mute
            &&& audio.routing_enabled == other.routing_enabled
        },
        audio.gains_in_range() <==> audio.phone_gain.in_range() && audio.desktop_gain.in_range()
            && audio.master_gain.in_range(),
        devices.unset() <==> devices.iphone_address@.len() == 0
            && devices.headphones_address@.len() == 0,
{
}

} // verus!
