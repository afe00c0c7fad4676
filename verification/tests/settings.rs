//! Settings: defaults, rules, documents and the places that hold them.
use bluetooth_audio_bridge::config::{
    unreadable_message, validate_gain, Bluetooth, Config, ConfigError, Timer, TimerSupport,
    DEFAULT_CONFIG,
};
use bluetooth_audio_bridge::document::{
    AudioDocument, BluetoothDocument, ConfigDocument, ConnectionDocument, DevicesDocument,
};
use bluetooth_audio_bridge::gain::Gain;
use bluetooth_audio_bridge::storage::{
    check_config_file, check_replacement, config_home, config_path, ensure_user, private_dir,
    save_step, standing, temporary_name, DirEvent, DirStep, Environment, FileFacts, Lookup,
    PlaceError, SaveStep, Standing,
};

const TIMING: Bluetooth = Bluetooth {
    dbus_timeout_seconds: 5,
    a2dp_connect_delay_seconds: 2,
    a2dp_retry_delay_seconds: 30,
};

const REACHABLE: TimerSupport =
    TimerSupport { dbus_timeout: true, a2dp_connect_delay: true, a2dp_retry_delay: true };

fn gain(value: f32) -> Gain {
    Gain { bits: value.to_bits() }
}

fn empty_document() -> ConfigDocument {
    ConfigDocument {
        devices: DevicesDocument { iphone_address: None, headphones_address: None },
        audio: AudioDocument {
            virtual_sink_name: None,
            output_codec: None,
            allow_codec_fallback: None,
            phone_gain: None,
            desktop_gain: None,
            master_gain: None,
            phone_mute: None,
            desktop_mute: None,
            master_mute: None,
            routing_enabled: None,
            headphone_disconnect_action: None,
        },
        bluetooth: BluetoothDocument {
            dbus_timeout_seconds: None,
            a2dp_connect_delay_seconds: None,
            a2dp_retry_delay_seconds: None,
        },
        connection: ConnectionDocument {
            auto_reconnect: None,
            retry_initial_seconds: None,
            retry_max_seconds: None,
        },
    }
}

fn facts() -> FileFacts {
    FileFacts {
        is_file: true,
        is_dir: false,
        is_socket: false,
        uid: 1000,
        mode: 0o100600,
        len: 10,
        device: 1,
        inode: 2,
    }
}

fn directory() -> FileFacts {
    FileFacts { is_file: false, is_dir: true, mode: 0o40700, ..facts() }
}

fn started_in(current_dir: Option<&str>, xdg: Option<&str>, home: Option<&str>) -> Environment {
    Environment {
        current_dir: match current_dir {
            Some(dir) => Ok(dir.as_bytes().to_vec()),
            None => Err("No such file or directory (os error 2)".to_string()),
        },
        xdg_config_home: xdg.map(|s| s.as_bytes().to_vec()),
        home: home.map(|s| s.as_bytes().to_vec()),
    }
}

#[test]
fn bundled_timing_is_read_from_the_document() {
    assert_eq!(Bluetooth::bundled(DEFAULT_CONFIG), Some(TIMING));
    let other = "[bluetooth]\ndbus_timeout_seconds = 7\na2dp_connect_delay_seconds = 0\na2dp_retry_delay_seconds = 0x1f\n";
    assert_eq!(
        Bluetooth::bundled(other),
        Some(Bluetooth {
            dbus_timeout_seconds: 7,
            a2dp_connect_delay_seconds: 0,
            a2dp_retry_delay_seconds: 31
        })
    );
}

#[test]
fn documents_without_timing_give_none() {
    for document in [
        "",
        "not toml",
        "[bluetooth]\ndbus_timeout_seconds = 5\na2dp_connect_delay_seconds = 2\n",
        "[bluetooth]\ndbus_timeout_seconds = -5\na2dp_connect_delay_seconds = 2\na2dp_retry_delay_seconds = 30\n",
        "[bluetooth]\ndbus_timeout_seconds = 5.0\na2dp_connect_delay_seconds = 2\na2dp_retry_delay_seconds = 30\n",
        "[bluetooth]\ndbus_timeout_seconds = \"5\"\na2dp_connect_delay_seconds = 2\na2dp_retry_delay_seconds = 30\n",
        "bluetooth = 3\n",
    ] {
        assert_eq!(Bluetooth::bundled(document), None, "{}", document);
        assert!(Config::new(document).is_none());
    }
    assert_eq!(Bluetooth::from_integers(Some(1), Some(-1), Some(2)), None);
    assert_eq!(Bluetooth::from_integers(None, Some(1), Some(2)), None);
}

#[test]
fn new_settings_keep_levels_and_forward() {
    let config = Config::new(DEFAULT_CONFIG).unwrap();
    assert_eq!(f32::from_bits(config.audio.phone_gain.bits), 1.0);
    assert_eq!(f32::from_bits(config.audio.desktop_gain.bits), 1.0);
    assert_eq!(f32::from_bits(config.audio.master_gain.bits), 1.0);
    assert!(!config.audio.phone_mute && !config.audio.desktop_mute && !config.audio.master_mute);
    assert!(config.audio.routing_enabled);
    assert_eq!(config.audio.virtual_sink_name, "bluetooth-audio-bridge");
    assert_eq!(config.audio.output_codec, "aac");
    assert!(!config.audio.allow_codec_fallback);
    assert_eq!(config.audio.headphone_disconnect_action, "silence");
    assert_eq!(config.devices.iphone_address, "");
    assert_eq!(config.devices.headphones_address, "");
    assert_eq!(config.bluetooth, TIMING);
    assert!(config.connection.auto_reconnect);
    assert_eq!(config.connection.retry_initial_seconds, 1);
    assert_eq!(config.connection.retry_max_seconds, 30);
    assert_eq!(config.validate(), Ok(()));
}

#[test]
fn gains_are_finite_numbers_from_zero_to_one() {
    let mut samples = vec![
        0.0f32, -0.0, 1.0, 0.4, 0.5, 0.8, -0.1, 1.0000001, 0.99999994, 2.0, -1.0, f32::NAN,
        f32::INFINITY, f32::NEG_INFINITY, f32::MIN_POSITIVE, f32::MAX, f32::MIN,
    ];
    let mut bits: u32 = 0;
    loop {
        samples.push(f32::from_bits(bits));
        match bits.checked_add(65521) {
            Some(next) => bits = next,
            None => break,
        }
    }
    for value in samples {
        let expected = value.is_finite() && (0.0..=1.0).contains(&value);
        assert_eq!(gain(value).is_valid(), expected, "{}", value);
        let verdict = if expected { Ok(()) } else { Err(ConfigError::GainOutOfRange) };
        assert_eq!(validate_gain(gain(value)), verdict);
    }
    assert_eq!(Gain::unity(), gain(1.0));
}

#[test]
fn rules_are_checked_in_order() {
    let mut config = Config::with_timing(TIMING);
    assert_eq!(config.check(REACHABLE), Ok(()));
    let none =
        TimerSupport { dbus_timeout: false, a2dp_connect_delay: false, a2dp_retry_delay: false };
    assert_eq!(config.check(none), Err(ConfigError::TimerRange(Timer::DbusTimeout)));
    assert_eq!(
        config.check(TimerSupport { dbus_timeout: true, ..none }),
        Err(ConfigError::TimerRange(Timer::A2dpConnectDelay))
    );
    assert_eq!(
        config.check(TimerSupport { a2dp_retry_delay: false, ..REACHABLE }),
        Err(ConfigError::TimerRange(Timer::A2dpRetryDelay))
    );
    config.bluetooth.a2dp_connect_delay_seconds = 0;
    assert_eq!(config.check(REACHABLE), Ok(()));
    config.bluetooth.a2dp_retry_delay_seconds = 0;
    assert_eq!(config.check(none), Err(ConfigError::TimerZero));
    config.bluetooth.a2dp_retry_delay_seconds = 1;
    config.bluetooth.dbus_timeout_seconds = 0;
    assert_eq!(config.check(none), Err(ConfigError::TimerZero));
    config.audio.master_gain = gain(1.5);
    assert_eq!(config.check(none), Err(ConfigError::GainOutOfRange));
}

#[test]
fn timers_beyond_the_clock_are_refused() {
    let mut config = Config::with_timing(TIMING);
    config.bluetooth.a2dp_connect_delay_seconds = u64::MAX;
    assert_eq!(config.validate(), Err(ConfigError::TimerRange(Timer::A2dpConnectDelay)));
    let support = config.bluetooth.timer_support();
    assert!(support.dbus_timeout && !support.a2dp_connect_delay && support.a2dp_retry_delay);
    assert_eq!(
        config.save().err(),
        Some(ConfigError::TimerRange(Timer::A2dpConnectDelay))
    );
    let mut document = empty_document();
    document.bluetooth.dbus_timeout_seconds = Some(u64::MAX);
    assert_eq!(
        Config::load(document, &TIMING).err(),
        Some(ConfigError::TimerRange(Timer::DbusTimeout))
    );
    config.bluetooth.a2dp_connect_delay_seconds = 0;
    assert!(config.bluetooth.timer_support().a2dp_connect_delay);
    assert_eq!(config.validate(), Ok(()));
}

#[test]
fn empty_documents_read_as_new_settings() {
    let read = Config::load(empty_document(), &TIMING).unwrap();
    assert_eq!(format!("{:?}", read), format!("{:?}", Config::with_timing(TIMING)));
}

#[test]
fn written_settings_are_read_back() {
    let mut config = Config::with_timing(TIMING);
    config.audio.phone_gain = gain(0.5);
    config.audio.desktop_gain = gain(0.25);
    config.audio.master_gain = gain(0.0);
    config.audio.phone_mute = true;
    config.audio.master_mute = true;
    config.audio.routing_enabled = false;
    config.bluetooth.dbus_timeout_seconds = 9;
    let before = format!("{:?}", config);
    let document = config.save().unwrap();
    let other = Bluetooth {
        dbus_timeout_seconds: 1,
        a2dp_connect_delay_seconds: 1,
        a2dp_retry_delay_seconds: 1,
    };
    let read = Config::load_checked(document, &other, REACHABLE).unwrap();
    assert_eq!(format!("{:?}", read), before);
}

#[test]
fn legacy_settings_are_read_and_not_written() {
    let mut document = empty_document();
    document.devices.iphone_address = Some("AA:BB".to_string());
    document.devices.headphones_address = Some("CC:DD".to_string());
    document.audio.virtual_sink_name = Some("sink".to_string());
    document.audio.output_codec = Some("sbc".to_string());
    document.audio.allow_codec_fallback = Some(true);
    document.audio.headphone_disconnect_action = Some("speaker".to_string());
    document.audio.phone_gain = Some(gain(0.5));
    document.connection.auto_reconnect = Some(false);
    document.connection.retry_initial_seconds = Some(3);
    document.connection.retry_max_seconds = Some(4);
    let config = Config::load(document, &TIMING).unwrap();
    assert_eq!(config.devices.iphone_address, "AA:BB");
    assert_eq!(config.devices.headphones_address, "CC:DD");
    assert_eq!(config.audio.virtual_sink_name, "sink");
    assert_eq!(config.audio.output_codec, "sbc");
    assert!(config.audio.allow_codec_fallback);
    assert_eq!(config.audio.headphone_disconnect_action, "speaker");
    assert!(!config.connection.auto_reconnect);
    assert_eq!(config.connection.retry_initial_seconds, 3);
    assert_eq!(config.connection.retry_max_seconds, 4);
    let written = config.document();
    assert!(written.devices.iphone_address.is_none());
    assert!(written.devices.headphones_address.is_none());
    assert!(written.audio.virtual_sink_name.is_none());
    assert!(written.audio.output_codec.is_none());
    assert!(written.audio.allow_codec_fallback.is_none());
    assert!(written.audio.headphone_disconnect_action.is_none());
    assert!(written.connection.auto_reconnect.is_none());
    assert!(written.connection.retry_initial_seconds.is_none());
    assert!(written.connection.retry_max_seconds.is_none());
    assert_eq!(written.audio.phone_gain, Some(gain(0.5)));
    assert_eq!(written.audio.routing_enabled, Some(true));
    assert_eq!(written.bluetooth.a2dp_retry_delay_seconds, Some(30));
}

#[test]
fn documents_that_break_the_rules_are_refused() {
    let mut document = empty_document();
    document.audio.desktop_gain = Some(gain(f32::NAN));
    assert_eq!(Config::load(document, &TIMING).err(), Some(ConfigError::GainOutOfRange));
    let mut document = empty_document();
    document.bluetooth.a2dp_retry_delay_seconds = Some(0);
    assert_eq!(Config::load(document, &TIMING).err(), Some(ConfigError::TimerZero));
    let mut config = Config::with_timing(TIMING);
    config.audio.phone_gain = gain(-1.0);
    assert_eq!(config.save().err(), Some(ConfigError::GainOutOfRange));
}

#[test]
fn errors_about_settings_have_texts() {
    let place = b"/home/u/config.toml";
    for (error, text) in [
        (ConfigError::RootUser, "Run Bluetooth Audio Bridge as the desktop user, not root"),
        (ConfigError::RelativeConfigHome, "XDG_CONFIG_HOME must be an absolute path"),
        (ConfigError::HomeUnset, "HOME is not set"),
        (ConfigError::RelativeHome, "HOME must be an absolute path"),
        (ConfigError::IndirectPath, "Config path must name a file and must not contain '..'"),
        (
            ConfigError::UnsafeDirectory,
            "/home/u/config.toml must be a user-owned directory with mode 0700",
        ),
        (
            ConfigError::UnsafeFile,
            "/home/u/config.toml must be a user-owned regular file with mode 0600",
        ),
        (ConfigError::FileTooLarge, "Config is larger than 64 KiB"),
        (
            ConfigError::ForeignTarget,
            "Refusing to replace a symlink or a file owned by another user",
        ),
        (ConfigError::GainOutOfRange, "Gain must be a finite number between 0 and 1"),
        (
            ConfigError::TimerZero,
            "bluetooth.dbus_timeout_seconds and bluetooth.a2dp_retry_delay_seconds must be greater than zero",
        ),
        (
            ConfigError::TimerRange(Timer::DbusTimeout),
            "bluetooth.dbus_timeout_seconds exceeds the supported timer duration",
        ),
        (
            ConfigError::TimerRange(Timer::A2dpConnectDelay),
            "bluetooth.a2dp_connect_delay_seconds exceeds the supported timer duration",
        ),
        (
            ConfigError::TimerRange(Timer::A2dpRetryDelay),
            "bluetooth.a2dp_retry_delay_seconds exceeds the supported timer duration",
        ),
    ] {
        assert_eq!(error.message(place), text);
    }
    assert_eq!(
        unreadable_message(place),
        "Cannot read /home/u/config.toml; run 'bluetooth-audio-bridge config init' first"
    );
    assert_eq!(
        ConfigError::UnsafeFile.message(b"/x\xff"),
        "/x\u{fffd} must be a user-owned regular file with mode 0600"
    );
}

#[test]
fn root_is_refused() {
    assert_eq!(ensure_user(0), Err(ConfigError::RootUser));
    assert_eq!(ensure_user(1000), Ok(1000));
}

#[test]
fn settings_live_below_xdg_or_home() {
    let both = started_in(None, Some("/xdg"), Some("/home/u"));
    assert_eq!(config_home(&both), Ok(b"/xdg".to_vec()));
    let empty = started_in(None, Some(""), Some("/home/u"));
    assert_eq!(config_home(&empty), Ok(b"/home/u/.config".to_vec()));
    let relative = started_in(None, Some("xdg"), Some("/home/u"));
    assert_eq!(config_home(&relative), Err(ConfigError::RelativeConfigHome));
    assert_eq!(config_home(&started_in(None, None, None)), Err(ConfigError::HomeUnset));
    assert_eq!(
        config_home(&started_in(None, None, Some("home"))),
        Err(ConfigError::RelativeHome)
    );
}

#[test]
fn settings_file_is_found_and_checked() {
    let here = started_in(Some("/work"), Some("/xdg"), Some("/home/u"));
    let text = |error: PlaceError| error.message(b"");
    assert_eq!(
        config_path(None, &here).map_err(text),
        Ok(b"/xdg/bluetooth-audio-bridge/config.toml".to_vec())
    );
    let given = |p: &str| config_path(Some(p.as_bytes().to_vec()), &here).map_err(text);
    assert_eq!(given("/etc/a.toml"), Ok(b"/etc/a.toml".to_vec()));
    assert_eq!(given("a.toml"), Ok(b"/work/a.toml".to_vec()));
    assert_eq!(given("./a.toml"), Ok(b"/work/./a.toml".to_vec()));
    for indirect in ["../a.toml", "/a/../b", "/"] {
        assert_eq!(
            given(indirect),
            Err("Config path must name a file and must not contain '..'".to_string())
        );
    }
}

#[test]
fn missing_current_directory_is_told_in_the_words_of_the_system() {
    let nowhere = started_in(None, None, None);
    match config_path(Some(b"a.toml".to_vec()), &nowhere) {
        Err(error) => {
            assert!(matches!(error, PlaceError::System(_)));
            assert_eq!(error.message(b""), "No such file or directory (os error 2)");
        }
        Ok(path) => panic!("{:?}", path),
    }
    assert_eq!(
        config_path(Some(b"/etc/a.toml".to_vec()), &nowhere).unwrap(),
        b"/etc/a.toml".to_vec()
    );
    match config_path(None, &nowhere) {
        Err(error) => {
            assert!(matches!(error, PlaceError::Refused(ConfigError::HomeUnset)));
            assert_eq!(error.message(b""), "HOME is not set");
        }
        Ok(path) => panic!("{:?}", path),
    }
    let at_home = started_in(None, None, Some("/home/u"));
    assert_eq!(
        config_path(None, &at_home).unwrap(),
        b"/home/u/.config/bluetooth-audio-bridge/config.toml".to_vec()
    );
}

#[test]
fn things_on_disk_are_trusted_by_kind_owner_and_mode() {
    assert_eq!(standing(true, &facts(), 1000, true), Standing::Trusted);
    assert_eq!(standing(false, &facts(), 0, true), Standing::Unsafe);
    assert_eq!(standing(true, &facts(), 0, true), Standing::RootUser);
    assert_eq!(standing(true, &facts(), 1001, false), Standing::Unsafe);
    let open = FileFacts { mode: 0o100640, ..facts() };
    assert_eq!(standing(true, &open, 1000, true), Standing::Unsafe);
    assert_eq!(standing(true, &open, 1000, false), Standing::Trusted);
}

#[test]
fn settings_files_are_private_and_small() {
    assert_eq!(check_config_file(&facts(), 1000), Ok(()));
    assert_eq!(check_config_file(&facts(), 0), Err(ConfigError::RootUser));
    assert_eq!(check_config_file(&directory(), 1000), Err(ConfigError::UnsafeFile));
    let limit = FileFacts { len: 65536, ..facts() };
    assert_eq!(check_config_file(&limit, 1000), Ok(()));
    let large = FileFacts { len: 65537, ..facts() };
    assert_eq!(check_config_file(&large, 1000), Err(ConfigError::FileTooLarge));
    let open = FileFacts { mode: 0o100604, ..large };
    assert_eq!(check_config_file(&open, 1000), Err(ConfigError::UnsafeFile));
}

#[test]
fn only_files_of_the_user_are_replaced() {
    assert_eq!(check_replacement(Lookup::Missing, 1000), Ok(()));
    assert_eq!(check_replacement(Lookup::Failed, 0), Ok(()));
    assert_eq!(check_replacement(Lookup::Found(facts()), 1000), Ok(()));
    assert_eq!(check_replacement(Lookup::Found(facts()), 0), Err(ConfigError::RootUser));
    assert_eq!(check_replacement(Lookup::Found(facts()), 5), Err(ConfigError::ForeignTarget));
    assert_eq!(
        check_replacement(Lookup::Found(directory()), 1000),
        Err(ConfigError::ForeignTarget)
    );
}

#[test]
fn private_directories_are_made_or_found() {
    let look = |found, parents_missing| DirEvent::Inspected { found, parents_missing };
    let step = private_dir(DirStep::Inspect, look(Lookup::Missing, true), 1000);
    assert_eq!(step, DirStep::CreateParents);
    let step = private_dir(step, DirEvent::Created, 1000);
    assert_eq!(step, DirStep::Create);
    assert_eq!(private_dir(step, DirEvent::Created, 1000), DirStep::Done);
    assert_eq!(private_dir(step, DirEvent::AlreadyExists, 1000), DirStep::Inspect);
    assert_eq!(private_dir(step, DirEvent::Failed, 1000), DirStep::Fail);
    assert_eq!(
        private_dir(DirStep::Inspect, look(Lookup::Missing, false), 1000),
        DirStep::Create
    );
    assert_eq!(
        private_dir(DirStep::Inspect, look(Lookup::Found(directory()), false), 1000),
        DirStep::Done
    );
    assert_eq!(
        private_dir(DirStep::Inspect, look(Lookup::Found(directory()), false), 0),
        DirStep::Refuse(ConfigError::RootUser)
    );
    let open = FileFacts { mode: 0o40755, ..directory() };
    assert_eq!(
        private_dir(DirStep::Inspect, look(Lookup::Found(open), false), 1000),
        DirStep::Refuse(ConfigError::UnsafeDirectory)
    );
    assert_eq!(
        private_dir(DirStep::Inspect, look(Lookup::Failed, false), 1000),
        DirStep::Fail
    );
    assert_eq!(private_dir(DirStep::CreateParents, DirEvent::AlreadyExists, 1000), DirStep::Fail);
}

#[test]
fn temporary_files_are_numbered() {
    assert_eq!(temporary_name(4321, 0), ".config-4321-0.tmp");
    assert_eq!(temporary_name(4321, 12), ".config-4321-12.tmp");
    assert_ne!(temporary_name(1, 1), temporary_name(1, 11));
}

#[test]
fn saves_replace_the_file_last() {
    let mut step = SaveStep::Write;
    for expected in
        [SaveStep::SyncFile, SaveStep::Rename, SaveStep::SyncDirectory, SaveStep::Saved]
    {
        step = save_step(step, true);
        assert_eq!(step, expected);
    }
    for failing in
        [SaveStep::Write, SaveStep::SyncFile, SaveStep::Rename, SaveStep::SyncDirectory]
    {
        assert_eq!(save_step(failing, false), SaveStep::Discard);
    }
    assert_eq!(save_step(SaveStep::Discard, true), SaveStep::Failed);
    assert_eq!(save_step(SaveStep::Discard, false), SaveStep::Failed);
    assert_eq!(save_step(SaveStep::Saved, false), SaveStep::Saved);
    assert_eq!(save_step(SaveStep::Failed, true), SaveStep::Failed);
}
