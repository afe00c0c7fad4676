//! Commands and the control socket.
use bluetooth_audio_bridge::config::{Bluetooth, Config, ConfigError, Timer, TimerSupport};
use bluetooth_audio_bridge::gain::Gain;
use bluetooth_audio_bridge::ipc::{
    admits, answer, apply_checked, apply_command, bind, frame_message, read_message, request,
    runtime_dir, BindEvent, BindStep, Channel, Command, CommandError, ControllerLock, Exchange,
    IpcError, RequestEvent, RequestStep, Response, SocketGuard, MAX_MESSAGE, READ_LIMIT,
};
use bluetooth_audio_bridge::json::Json;
use bluetooth_audio_bridge::storage::{FileFacts, Lookup};

const TIMING: Bluetooth = Bluetooth {
    dbus_timeout_seconds: 5,
    a2dp_connect_delay_seconds: 2,
    a2dp_retry_delay_seconds: 30,
};

const REACHABLE: TimerSupport =
    TimerSupport { dbus_timeout: true, a2dp_connect_delay: true, a2dp_retry_delay: true };

fn gain(value: f32) -> Gain {
    Gain { bits: value.to_bits() }
}

fn socket() -> FileFacts {
    FileFacts {
        is_file: false,
        is_dir: false,
        is_socket: true,
        uid: 1000,
        mode: 0o140600,
        len: 0,
        device: 8,
        inode: 9,
    }
}

fn lock_file() -> FileFacts {
    FileFacts { is_file: true, is_socket: false, mode: 0o100600, ..socket() }
}

#[test]
fn commands_set_what_they_name() {
    let mut config = Config::with_timing(TIMING);
    let changes = [
        Command::Volume { channel: Channel::Phone, value: gain(0.4) },
        Command::Volume { channel: Channel::Desktop, value: gain(0.5) },
        Command::Volume { channel: Channel::Master, value: gain(0.8) },
        Command::Mute { channel: Channel::Phone, muted: true },
        Command::Mute { channel: Channel::Desktop, muted: true },
        Command::Mute { channel: Channel::Master, muted: true },
        Command::Select { enabled: false },
    ];
    for command in &changes {
        assert_eq!(apply_command(&mut config, command), Ok(()));
        let once = format!("{:?}", config);
        assert_eq!(apply_command(&mut config, command), Ok(()));
        assert_eq!(format!("{:?}", config), once);
    }
    assert_eq!(config.audio.phone_gain, gain(0.4));
    assert_eq!(config.audio.desktop_gain, gain(0.5));
    assert_eq!(config.audio.master_gain, gain(0.8));
    assert!(config.audio.phone_mute && config.audio.desktop_mute && config.audio.master_mute);
    assert!(!config.audio.routing_enabled);
    assert_eq!(config.bluetooth, TIMING);
    assert_eq!(config.audio.output_codec, "aac");
}

#[test]
fn one_command_changes_one_setting() {
    let mut config = Config::with_timing(TIMING);
    let mut expected = Config::with_timing(TIMING);
    expected.audio.desktop_mute = true;
    assert_eq!(
        apply_command(&mut config, &Command::Mute { channel: Channel::Desktop, muted: true }),
        Ok(())
    );
    assert_eq!(format!("{:?}", config), format!("{:?}", expected));
}

#[test]
fn select_and_enable_are_the_same_setting() {
    for enabled in [true, false] {
        let mut selected = Config::with_timing(TIMING);
        let mut switched = Config::with_timing(TIMING);
        assert_eq!(apply_command(&mut selected, &Command::Select { enabled }), Ok(()));
        assert_eq!(apply_command(&mut switched, &Command::Enable { enabled }), Ok(()));
        assert_eq!(selected.audio.routing_enabled, enabled);
        assert_eq!(format!("{:?}", selected), format!("{:?}", switched));
    }
}

#[test]
fn refused_commands_change_nothing() {
    let before = format!("{:?}", Config::with_timing(TIMING));
    let mut config = Config::with_timing(TIMING);
    assert_eq!(apply_command(&mut config, &Command::Status), Err(CommandError::NotAChange));
    assert_eq!(apply_command(&mut config, &Command::ConfigShow), Err(CommandError::NotAChange));
    let loud = Command::Volume { channel: Channel::Master, value: gain(1.5) };
    assert_eq!(
        apply_command(&mut config, &loud),
        Err(CommandError::Invalid(ConfigError::GainOutOfRange))
    );
    assert_eq!(format!("{:?}", config), before);
    assert_eq!(
        CommandError::NotAChange.message(),
        "This command does not change configuration"
    );
    assert_eq!(
        CommandError::Invalid(ConfigError::GainOutOfRange).message(),
        "Gain must be a finite number between 0 and 1"
    );
}

#[test]
fn commands_are_refused_on_broken_settings() {
    let mut config = Config::with_timing(TIMING);
    let enable = Command::Enable { enabled: true };
    let slow = TimerSupport { a2dp_retry_delay: false, ..REACHABLE };
    assert_eq!(
        apply_checked(&mut config, &enable, slow),
        Err(CommandError::Invalid(ConfigError::TimerRange(Timer::A2dpRetryDelay)))
    );
    config.bluetooth.dbus_timeout_seconds = 0;
    assert_eq!(
        apply_checked(&mut config, &enable, REACHABLE),
        Err(CommandError::Invalid(ConfigError::TimerZero))
    );
}

#[test]
fn changes_are_there_after_a_restart() {
    let mut config = Config::with_timing(TIMING);
    let change = Command::Volume { channel: Channel::Desktop, value: gain(0.5) };
    assert_eq!(apply_command(&mut config, &change), Ok(()));
    let read = Config::load(config.save().unwrap(), &TIMING).unwrap();
    assert_eq!(read.audio.desktop_gain, gain(0.5));
    assert_eq!(read.audio.phone_gain, gain(1.0));
}

#[test]
fn messages_end_in_a_line_break() {
    let message = frame_message(b"{}".to_vec()).unwrap();
    assert_eq!(message, b"{}\n".to_vec());
    assert_eq!(read_message(message), Ok(b"{}\n".to_vec()));
    assert_eq!(read_message(b"{}".to_vec()), Err(IpcError::BadMessage));
    assert_eq!(read_message(Vec::new()), Err(IpcError::BadMessage));
    assert_eq!(read_message(b"\n".to_vec()), Ok(b"\n".to_vec()));
}

#[test]
fn messages_have_a_longest_length() {
    let longest = frame_message(vec![b'x'; MAX_MESSAGE - 1]).unwrap();
    assert_eq!(longest.len(), MAX_MESSAGE);
    assert!(read_message(longest).is_ok());
    assert!(frame_message(vec![b'x'; MAX_MESSAGE]).is_none());
    let mut long = vec![b'x'; MAX_MESSAGE];
    long.push(b'\n');
    assert_eq!(long.len(), READ_LIMIT);
    assert_eq!(read_message(long), Err(IpcError::BadMessage));
}

#[test]
fn connections_come_from_the_same_user() {
    assert!(admits(1000, 1000, true));
    assert!(!admits(1000, 1000, false));
    assert!(!admits(1001, 1000, true));
    assert!(!admits(0, 1000, true));
}

#[test]
fn connections_get_an_answer() {
    let done = answer(Exchange::Answered(Response::success("done", Some(Json::Bool(true)))));
    assert!(done.ok);
    assert_eq!(done.message, "done");
    assert!(matches!(done.data, Some(Json::Bool(true))));
    for (exchange, message) in [
        (Exchange::Unread("broken pipe".to_string()), "broken pipe"),
        (Exchange::Malformed, "Expected newline-terminated JSON no larger than 64 KiB"),
        (Exchange::Unparsed, "Invalid control request"),
        (Exchange::Stopped, "Controller stopped"),
    ] {
        let refused = answer(exchange);
        assert!(!refused.ok);
        assert_eq!(refused.message, message);
        assert!(refused.data.is_none());
    }
    assert_eq!(Response::error("no").message, "no");
}

#[test]
fn runtime_directories_are_below_the_session_directory() {
    assert_eq!(runtime_dir(None).err(), Some(IpcError::RuntimeUnset));
    assert_eq!(runtime_dir(Some(b"run".to_vec())).err(), Some(IpcError::RuntimeRelative));
    assert_eq!(runtime_dir(Some(Vec::new())).err(), Some(IpcError::RuntimeRelative));
    let dirs = runtime_dir(Some(b"/run/user/1000".to_vec())).unwrap();
    assert_eq!(dirs.base, b"/run/user/1000".to_vec());
    assert_eq!(dirs.directory, b"/run/user/1000/bt-audio-bridge".to_vec());
}

#[test]
fn locks_are_held_on_the_file_at_their_path() {
    assert_eq!(ControllerLock::check_file(&lock_file(), 1000), Ok(()));
    assert_eq!(ControllerLock::check_file(&lock_file(), 0), Err(IpcError::RootUser));
    assert_eq!(ControllerLock::check_file(&lock_file(), 7), Err(IpcError::UnsafeLock));
    assert_eq!(ControllerLock::check_file(&socket(), 1000), Err(IpcError::UnsafeLock));
    let open = FileFacts { mode: 0o100666, ..lock_file() };
    assert_eq!(ControllerLock::check_file(&open, 1000), Err(IpcError::UnsafeLock));
    let found = Lookup::Found(lock_file());
    assert_eq!(
        ControllerLock::acquire(&lock_file(), true, found),
        Ok(ControllerLock { device: 8, inode: 9 })
    );
    assert_eq!(ControllerLock::acquire(&lock_file(), false, found), Err(IpcError::LockBusy));
    for gone in [Lookup::Missing, Lookup::Failed] {
        assert_eq!(ControllerLock::acquire(&lock_file(), true, gone), Err(IpcError::LockRemoved));
    }
    for other in [
        FileFacts { inode: 10, ..lock_file() },
        FileFacts { device: 7, ..lock_file() },
        FileFacts { is_file: false, ..lock_file() },
    ] {
        assert_eq!(
            ControllerLock::acquire(&lock_file(), true, Lookup::Found(other)),
            Err(IpcError::LockChanged)
        );
    }
}

#[test]
fn only_the_own_socket_is_removed_at_the_end() {
    let guard = SocketGuard::new(b"/run/control.sock".to_vec(), &socket());
    assert_eq!(guard.path, b"/run/control.sock".to_vec());
    assert!(guard.removes(Lookup::Found(socket())));
    assert!(!guard.removes(Lookup::Found(FileFacts { inode: 1, ..socket() })));
    assert!(!guard.removes(Lookup::Found(FileFacts { device: 1, ..socket() })));
    assert!(!guard.removes(Lookup::Found(FileFacts { is_socket: false, ..socket() })));
    assert!(!guard.removes(Lookup::Missing));
    assert!(!guard.removes(Lookup::Failed));
}

#[test]
fn sockets_are_bound_where_nobody_listens() {
    let look = |found| bind(BindStep::Inspect, BindEvent::Inspected(found), 1000);
    assert_eq!(look(Lookup::Missing), BindStep::Bind);
    assert_eq!(look(Lookup::Failed), BindStep::Fail);
    assert_eq!(look(Lookup::Found(socket())), BindStep::Probe);
    assert_eq!(
        look(Lookup::Found(lock_file())),
        BindStep::Refuse(IpcError::UnsafeBindTarget)
    );
    assert_eq!(
        look(Lookup::Found(FileFacts { uid: 0, ..socket() })),
        BindStep::Refuse(IpcError::UnsafeBindTarget)
    );
    assert_eq!(
        bind(BindStep::Inspect, BindEvent::Inspected(Lookup::Found(socket())), 0),
        BindStep::Refuse(IpcError::RootUser)
    );
    let probed = |event| bind(BindStep::Probe, event, 1000);
    assert_eq!(probed(BindEvent::ConnectionRefused), BindStep::RemoveStale);
    assert_eq!(probed(BindEvent::NotFound), BindStep::Bind);
    assert_eq!(probed(BindEvent::OtherAnswer), BindStep::Refuse(IpcError::SocketInUse));
    assert_eq!(bind(BindStep::RemoveStale, BindEvent::Removed, 1000), BindStep::Bind);
    assert_eq!(bind(BindStep::RemoveStale, BindEvent::Failed, 1000), BindStep::Fail);
}

#[test]
fn requests_go_to_the_own_controller() {
    let look = |found| request(RequestStep::Inspect, RequestEvent::Inspected(found), 1000);
    assert_eq!(look(Lookup::Missing), RequestStep::Offline);
    assert_eq!(look(Lookup::Failed), RequestStep::Fail);
    assert_eq!(look(Lookup::Found(socket())), RequestStep::Connect);
    assert_eq!(
        look(Lookup::Found(FileFacts { mode: 0o140666, ..socket() })),
        RequestStep::Refuse(IpcError::UnsafeSocket)
    );
    assert_eq!(
        request(RequestStep::Inspect, RequestEvent::Inspected(Lookup::Found(socket())), 0),
        RequestStep::Refuse(IpcError::RootUser)
    );
    let connect = |event| request(RequestStep::Connect, event, 1000);
    assert_eq!(connect(RequestEvent::Connected(1000)), RequestStep::Exchange);
    assert_eq!(
        connect(RequestEvent::Connected(0)),
        RequestStep::Refuse(IpcError::ForeignSocket)
    );
    assert_eq!(connect(RequestEvent::ConnectionRefused), RequestStep::Offline);
    assert_eq!(connect(RequestEvent::NotFound), RequestStep::Offline);
    assert_eq!(connect(RequestEvent::Failed), RequestStep::Fail);
    assert_eq!(
        request(RequestStep::Connect, RequestEvent::Connected(0), 0),
        RequestStep::Refuse(IpcError::RootUser)
    );
}

#[test]
fn errors_of_the_socket_have_texts() {
    for (error, text) in [
        (IpcError::RootUser, "Run Bluetooth Audio Bridge as the desktop user, not root"),
        (IpcError::RuntimeUnset, "XDG_RUNTIME_DIR is not set; use a desktop user session"),
        (IpcError::RuntimeRelative, "XDG_RUNTIME_DIR must be absolute"),
        (IpcError::UnsafeLock, "Controller lock must be a user-owned regular file with mode 0600"),
        (
            IpcError::LockBusy,
            "Another controller is running or updating configuration; retry the command",
        ),
        (IpcError::LockRemoved, "Controller lock was removed during cleanup; retry the command"),
        (IpcError::LockChanged, "Controller lock changed during cleanup; retry the command"),
        (
            IpcError::UnsafeBindTarget,
            "Refusing to replace unsafe control socket /run/control.sock",
        ),
        (IpcError::SocketInUse, "Control socket is already in use; it has not been removed"),
        (IpcError::UnsafeSocket, "Refusing an unsafe control socket"),
        (IpcError::ForeignSocket, "Control socket belongs to another user"),
        (IpcError::BadMessage, "Expected newline-terminated JSON no larger than 64 KiB"),
        (IpcError::RequestTooLarge, "Request is too large"),
        (IpcError::ResponseTooLarge, "Response is too large"),
        (IpcError::InvalidRequest, "Invalid control request"),
        (IpcError::ControllerStopped, "Controller stopped"),
        (
            IpcError::TimedOut,
            "Controller request timed out; command outcome is unknown, query status before retrying",
        ),
    ] {
        assert_eq!(error.message(b"/run/control.sock"), text);
    }
}
