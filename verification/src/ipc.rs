//! The control socket: commands, answers, messages, and who may use it.
use crate::config::{Audio, Config, ConfigError, TimerSupport};
use crate::gain::Gain;
use crate::json::Json;
use crate::path;
use crate::storage;
use crate::text;
use crate::storage::{FileFacts, Lookup, Standing};
use vstd::prelude::*;
use vstd::string::*;
use vstd::utf8::*;

verus! {

/// The longest message on the control socket, its line break included.
pub const MAX_MESSAGE: usize = 65536;

/// How many bytes of a message are read at most: one more than it may have.
pub const READ_LIMIT: usize = 65537;

/// How many connections are served at a time.
pub const MAX_CONNECTIONS: usize = 16;

/// How long one exchange may take, in seconds.
pub const REQUEST_TIMEOUT_SECONDS: u64 = 4;

/// How long a socket that is already there may take to answer, in milliseconds.
pub const PROBE_TIMEOUT_MILLISECONDS: u64 = 300;

/// The byte that ends a message.
pub const LINE_BREAK: u8 = 10;

/// A group of streams whose level can be set.
#[derive(Clone, Copy, Debug, PartialEq, Eq, Structural)]
pub enum Channel {
    Phone,
    Desktop,
    Master,
}

/// What a client can ask of the controller.
#[derive(Clone, Copy, Debug, PartialEq, Eq, Structural)]
pub enum Command {
    Status,
    ConfigShow,
    Select { enabled: bool },
    Volume { channel: Channel, value: Gain },
    Mute { channel: Channel, muted: bool },
    Enable { enabled: bool },
}

/// A command for the controller that uses the settings file `config_path`.
#[derive(Debug)]
pub struct Request {
    pub config_path: Vec<u8>,
    pub command: Command,
}

/// The answer to a command.
#[derive(Debug)]
pub struct Response {
    pub ok: bool,
    pub message: String,
    pub data: Option<Json>,
}

impl Response {
    /// The command was carried out.
    pub fn success(message: &str, data: Option<Json>) -> (r: Response)
        ensures
            r.ok,
            r.message@ == message@,
            r.data == data,
    {
        Response { ok: true, message: String::from_str(message), data }
    }

    /// The command was not carried out.
    pub fn error(message: &str) -> (r: Response)
        ensures
            !r.ok,
            r.message@ == message@,
            r.data is None,
    {
        Response { ok: false, message: String::from_str(message), data: None }
    }
}

/// Why a command does not change the settings.
#[derive(Clone, Copy, Debug, PartialEq, Eq, Structural)]
pub enum CommandError {
    NotAChange,
    Invalid(ConfigError),
}

/// The text of an error.
pub open spec fn command_text(error: CommandError) -> Seq<char> {
    match error {
        CommandError::NotAChange => "This command does not change configuration"@,
        CommandError::Invalid(e) => crate::config::config_text(e, Seq::empty()),
    }
}

impl CommandError {
    /// The text of the error.
    pub fn message(&self) -> (r: String)
        ensures
            r@ == command_text(*self),
    {
        match self {
            CommandError::NotAChange => String::from_str(
                "This command does not change configuration",
            ),
            CommandError::Invalid(e) => {
                let nowhere: Vec<u8> = Vec::new();
                e.message(nowhere.as_slice())
            },
        }
    }
}

/// `audio` with another gain for a channel.
pub open spec fn with_gain(audio: Audio, channel: Channel, value: Gain) -> Audio {
    match channel {
        Channel::Phone => Audio { phone_gain: value, ..audio },
        Channel::Desktop => Audio { desktop_gain: value, ..audio },
        Channel::Master => Audio { master_gain: value, ..audio },
    }
}

/// `audio` with another mute for a channel.
pub open spec fn with_mute(audio: Audio, channel: Channel, muted: bool) -> Audio {
    match channel {
        Channel::Phone => Audio { phone_mute: muted, ..audio },
        Channel::Desktop => Audio { desktop_mute: muted, ..audio },
        Channel::Master => Audio { master_mute: muted, ..audio },
    }
}

/// The gain of a channel.
pub open spec fn gain_of(audio: Audio, channel: Channel) -> Gain {
    match channel {
        Channel::Phone => audio.phone_gain,
        Channel::Desktop => audio.desktop_gain,
        Channel::Master => audio.master_gain,
    }
}

/// The mute of a channel.
pub open spec fn mute_of(audio: Audio, channel: Channel) -> bool {
    match channel {
        Channel::Phone => audio.phone_mute,
        Channel::Desktop => audio.desktop_mute,
        Channel::Master => audio.master_mute,
    }
}

/// What the command alone says against itself, before the settings are looked at.
pub open spec fn objection(command: Command) -> Option<CommandError> {
    match command {
        Command::Status => Some(CommandError::NotAChange),
        Command::ConfigShow => Some(CommandError::NotAChange),
        Command::Volume { value, .. } => if value.in_range() {
            None
        } else {
            Some(CommandError::Invalid(ConfigError::GainOutOfRange))
        },
        _ => None,
    }
}

/// The settings after a command. A command with an objection leaves them alone.
pub open spec fn commanded(config: Config, command: Command) -> Config {
    if objection(command) is Some {
        config
    } else {
        match command {
            Command::Select { enabled } => Config {
                audio: Audio { routing_enabled: enabled, ..config.audio },
                ..config
            },
            Command::Enable { enabled } => Config {
                audio: Audio { routing_enabled: enabled, ..config.audio },
                ..config
            },
            Command::Volume { channel, value } => Config {
                audio: with_gain(config.audio, channel, value),
                ..config
            },
            Command::Mute { channel, muted } => Config {
                audio: with_mute(config.audio, channel, muted),
                ..config
            },
            _ => config,
        }
    }
}

/// What comes of a command: its objection, else what is wrong with the settings after it.
pub open spec fn command_verdict(config: Config, command: Command, timers: TimerSupport) -> Result<
    (),
    CommandError,
> {
    match objection(command) {
        Some(e) => Err(e),
        None => match commanded(config, command).verdict(timers) {
            Ok(_) => Ok(()),
            Err(e) => Err(CommandError::Invalid(e)),
        },
    }
}

/// Changes the settings as a command says, and refuses what has an objection.
fn change(config: &mut Config, command: &Command) -> (r: Result<(), CommandError>)
    ensures
        *final(config) == commanded(*old(config), *command),
        r == (match objection(*command) {
            Some(e) => Err::<(), CommandError>(e),
            None => Ok(()),
        }),
{
    match *command {
        Command::Select { enabled } => {
            config.audio.routing_enabled = enabled;
        },
        Command::Volume { channel, value } => {
            match crate::config::validate_gain(value) {
                Ok(()) => {},
                Err(e) => {
                    return Err(CommandError::Invalid(e));
                },
            }
            match channel {
                Channel::Phone => {
                    config.audio.phone_gain = value;
                },
                Channel::Desktop => {
                    config.audio.desktop_gain = value;
                },
                Channel::Master => {
                    config.audio.master_gain = value;
                },
            }
        },
        Command::Mute { channel, muted } => match channel {
            Channel::Phone => {
                config.audio.phone_mute = muted;
            },
            Channel::Desktop => {
                config.audio.desktop_mute = muted;
            },
            Channel::Master => {
                config.audio.master_mute = muted;
            },
        },
        Command::Enable { enabled } => {
            config.audio.routing_enabled = enabled;
        },
        Command::Status | Command::ConfigShow => {
            return Err(CommandError::NotAChange);
        },
    }
    Ok(())
}

/// Changes the settings as a command says and checks them, given which timers the clock can
/// reach.
pub fn apply_checked(config: &mut Config, command: &Command, timers: TimerSupport) -> (r: Result<
    (),
    CommandError,
>)
    ensures
        *final(config) == commanded(*old(config), *command),
        r == command_verdict(*old(config), *command, timers),
{
    match change(config, command) {
        Err(e) => Err(e),
        Ok(()) => match config.check(timers) {
            Ok(()) => Ok(()),
            Err(e) => Err(CommandError::Invalid(e)),
        },
    }
}

/// Changes the settings as a command says and checks them against the clock as it stands.
pub fn apply_command(config: &mut Config, command: &Command) -> (r: Result<(), CommandError>)
    ensures
        *final(config) == commanded(*old(config), *command),
        exists|timers: TimerSupport|
            old(config).bluetooth.answered(timers) && r == #[trigger] command_verdict(
                *old(config),
                *command,
                timers,
            ),
        objection(*command) matches Some(e) ==> r == Err::<(), CommandError>(e),
        r is Ok ==> final(config).sound(),
{
    let timers = config.bluetooth.timer_support();
    let r = apply_checked(config, command, timers);
    assert(r == command_verdict(*old(config), *command, timers));
    r
}

/// A command changes at most the one setting that it is about.
pub proof fn commands_change_one_setting(config: Config, command: Command)
    ensures
        ({
            let after = commanded(config, command);
            &&& after.devices == config.devices
            &&& after.bluetooth == config.bluetooth
            &&& after.connection == config.connection
            &&& after.audio.virtual_sink_name == config.audio.virtual_sink_name
            &&& after.audio.output_codec == config.audio.output_codec
            &&& after.audio.allow_codec_fallback == config.audio.allow_codec_fallback
            &&& after.audio.headphone_disconnect_action == config.audio.headphone_disconnect_action
            &&& forall|channel: Channel|
                gain_of(after.audio, channel) != #[trigger] gain_of(config.audio, channel)
                    ==> (command matches Command::Volume { channel: c, .. } && c == channel)
            &&& forall|channel: Channel|
                mute_of(after.audio, channel) != #[trigger] mute_of(config.audio, channel)
                    ==> (command matches Command::Mute { channel: c, .. } && c == channel)
            &&& after.audio.routing_enabled != config.audio.routing_enabled
                ==> command is Select || command is Enable
        }),
{
}

/// What a command sets is what is found afterwards.
pub proof fn commands_take_effect(config: Config, command: Command)
    requires
        objection(command) is None,
    ensures
        match command {
            Command::Select { enabled } => commanded(config, command).audio.routing_enabled
                == enabled,
            Command::Enable { enabled } => commanded(config, command).audio.routing_enabled
                == enabled,
            Command::Volume { channel, value } => gain_of(commanded(config, command).audio, channel)
                == value,
            Command::Mute { channel, muted } => mute_of(commanded(config, command).audio, channel)
                == muted,
            _ => true,
        },
{
}

/// Giving a command twice is giving it once.
pub proof fn commands_are_idempotent(config: Config, command: Command)
    ensures
        commanded(commanded(config, command), command) == commanded(config, command),
{
}

/// `select on`, `select off`, `enable` and `disable` control the same setting.
pub proof fn selecting_is_enabling(config: Config, enabled: bool, timers: TimerSupport)
    ensures
        commanded(config, Command::Select { enabled }) == commanded(
            config,
            Command::Enable { enabled },
        ),
        command_verdict(config, Command::Select { enabled }, timers) == command_verdict(
            config,
            Command::Enable { enabled },
            timers,
        ),
{
}

/// Settings that hold to the rules still do after any command, and a command without an
/// objection is refused on them only for a timer that the clock cannot reach.
pub proof fn commands_keep_settings_sound(config: Config, command: Command, timers: TimerSupport)
    requires
        config.sound(),
    ensures
        commanded(config, command).sound(),
        objection(command) is None ==> (command_verdict(config, command, timers) is Ok
            <==> config.verdict(timers) is Ok),
{
}

/// Why an exchange over the control socket is refused.
#[derive(Clone, Copy, Debug, PartialEq, Eq, Structural)]
pub enum IpcError {
    RootUser,
    RuntimeUnset,
    RuntimeRelative,
    UnsafeLock,
    LockBusy,
    LockRemoved,
    LockChanged,
    UnsafeBindTarget,
    SocketInUse,
    UnsafeSocket,
    ForeignSocket,
    BadMessage,
    RequestTooLarge,
    ResponseTooLarge,
    InvalidRequest,
    ControllerStopped,
    TimedOut,
}

/// A message as it is sent: the payload and a line break.
pub open spec fn framed(payload: Seq<u8>) -> Seq<u8> {
    payload.push(LINE_BREAK)
}

/// What is accepted as a message: bytes that end in a line break, no more than the limit.
pub open spec fn acceptable(bytes: Seq<u8>) -> bool {
    bytes.len() <= MAX_MESSAGE && bytes.len() > 0 && bytes.last() == LINE_BREAK
}

/// A message for a payload, unless it would be too long.
pub fn frame_message(payload: Vec<u8>) -> (r: Option<Vec<u8>>)
    ensures
        r is Some <==> payload@.len() < MAX_MESSAGE,
        r matches Some(bytes) ==> bytes@ == framed(payload@),
{
    if payload.len() >= MAX_MESSAGE {
        return None;
    }
    let mut bytes = payload;
    bytes.push(LINE_BREAK);
    Some(bytes)
}

/// The bytes that were read, if they are a message.
pub fn read_message(bytes: Vec<u8>) -> (r: Result<Vec<u8>, IpcError>)
    ensures
        r == (if acceptable(bytes@) {
            Ok::<Vec<u8>, IpcError>(bytes)
        } else {
            Err(IpcError::BadMessage)
        }),
{
    if bytes.len() > MAX_MESSAGE || bytes.len() == 0 || bytes[bytes.len() - 1] != LINE_BREAK {
        return Err(IpcError::BadMessage);
    }
    Ok(bytes)
}

/// Whatever is sent as a message is accepted as one, and gives back its payload. Reading up to
/// the first line break takes in the whole of it, where the payload has none.
pub proof fn sent_messages_are_accepted(payload: Seq<u8>)
    requires
        payload.len() < MAX_MESSAGE,
    ensures
        acceptable(framed(payload)),
        framed(payload).drop_last() == payload,
        framed(payload).len() < READ_LIMIT,
        !payload.contains(LINE_BREAK) ==> forall|i: int|
            0 <= i < framed(payload).len() - 1 ==> framed(payload)[i] != LINE_BREAK,
{
    assert(framed(payload).drop_last() =~= payload);
    if !payload.contains(LINE_BREAK) {
        assert forall|i: int| 0 <= i < framed(payload).len() - 1 implies framed(payload)[i]
            != LINE_BREAK by {
            assert(framed(payload)[i] == payload[i]);
        }
    }
}

/// Reading no more than the limit allows is enough to refuse a message that is too long.
pub proof fn long_messages_are_refused(bytes: Seq<u8>)
    requires
        bytes.len() >= READ_LIMIT,
    ensures
        !acceptable(bytes.take(READ_LIMIT as int)),
        !acceptable(bytes),
{
}

/// Whether a connection is served: it comes from the same user, and not too many are open.
pub fn admits(peer: u32, user: u32, slot_free: bool) -> (r: bool)
    ensures
        r == (peer == user && slot_free),
{
    peer == user && slot_free
}

/// What came of a connection before an answer to it is due.
#[derive(Debug)]
pub enum Exchange {
    /// Reading failed, with the reason.
    Unread(String),
    /// What was read is no message.
    Malformed,
    /// The message is no request.
    Unparsed,
    /// The controller stopped before it answered.
    Stopped,
    /// The controller answered.
    Answered(Response),
}

/// The answer is that of the controller, or says why there is none.
pub open spec fn answers(exchange: Exchange, response: Response) -> bool {
    match exchange {
        Exchange::Answered(given) => response == given,
        Exchange::Unread(reason) => !response.ok && response.data is None && response.message@
            == reason@,
        Exchange::Malformed => !response.ok && response.data is None && response.message@
            == ipc_text(IpcError::BadMessage, Seq::empty()),
        Exchange::Unparsed => !response.ok && response.data is None && response.message@
            == ipc_text(IpcError::InvalidRequest, Seq::empty()),
        Exchange::Stopped => !response.ok && response.data is None && response.message@
            == ipc_text(IpcError::ControllerStopped, Seq::empty()),
    }
}

/// The answer that a connection gets.
pub fn answer(exchange: Exchange) -> (r: Response)
    ensures
        answers(exchange, r),
{
    match exchange {
        Exchange::Answered(response) => response,
        Exchange::Unread(reason) => Response::error(reason.as_str()),
        Exchange::Malformed => Response::error(IpcError::BadMessage.message(&[]).as_str()),
        Exchange::Unparsed => Response::error(IpcError::InvalidRequest.message(&[]).as_str()),
        Exchange::Stopped => Response::error(IpcError::ControllerStopped.message(&[]).as_str()),
    }
}

/// The text of an error. Only that of an unsafe bind target names the path of the socket.
pub open spec fn ipc_text(error: IpcError, socket: Seq<u8>) -> Seq<char> {
    match error {
        IpcError::RootUser => "Run Bluetooth Audio Bridge as the desktop user, not root"@,
        IpcError::RuntimeUnset => "XDG_RUNTIME_DIR is not set; use a desktop user session"@,
        IpcError::RuntimeRelative => "XDG_RUNTIME_DIR must be absolute"@,
        IpcError::UnsafeLock =>
            "Controller lock must be a user-owned regular file with mode 0600"@,
        IpcError::LockBusy =>
            "Another controller is running or updating configuration; retry the command"@,
        IpcError::LockRemoved =>
            "Controller lock was removed during cleanup; retry the command"@,
        IpcError::LockChanged => "Controller lock changed during cleanup; retry the command"@,
        IpcError::UnsafeBindTarget => "Refusing to replace unsafe control socket "@ + text::lossy(
            socket,
        ),
        IpcError::SocketInUse => "Control socket is already in use; it has not been removed"@,
        IpcError::UnsafeSocket => "Refusing an unsafe control socket"@,
        IpcError::ForeignSocket => "Control socket belongs to another user"@,
        IpcError::BadMessage => "Expected newline-terminated JSON no larger than 64 KiB"@,
        IpcError::RequestTooLarge => "Request is too large"@,
        IpcError::ResponseTooLarge => "Response is too large"@,
        IpcError::InvalidRequest => "Invalid control request"@,
        IpcError::ControllerStopped => "Controller stopped"@,
        IpcError::TimedOut =>
            "Controller request timed out; command outcome is unknown, query status before retrying"@,
    }
}

impl IpcError {
    /// The text of the error, about the control socket at the given path.
    pub fn message(&self, socket: &[u8]) -> (r: String)
        ensures
            r@ == ipc_text(*self, socket@),
    {
        match self {
            IpcError::RootUser => String::from_str(
                "Run Bluetooth Audio Bridge as the desktop user, not root",
            ),
            IpcError::RuntimeUnset => String::from_str(
                "XDG_RUNTIME_DIR is not set; use a desktop user session",
            ),
            IpcError::RuntimeRelative => String::from_str("XDG_RUNTIME_DIR must be absolute"),
            IpcError::UnsafeLock => String::from_str(
                "Controller lock must be a user-owned regular file with mode 0600",
            ),
            IpcError::LockBusy => String::from_str(
                "Another controller is running or updating configuration; retry the command",
            ),
            IpcError::LockRemoved => String::from_str(
                "Controller lock was removed during cleanup; retry the command",
            ),
            IpcError::LockChanged => String::from_str(
                "Controller lock changed during cleanup; retry the command",
            ),
            IpcError::UnsafeBindTarget => String::from_str(
                "Refusing to replace unsafe control socket ",
            ).concat(text::lossy_text(socket).as_str()),
            IpcError::SocketInUse => String::from_str(
                "Control socket is already in use; it has not been removed",
            ),
            IpcError::UnsafeSocket => String::from_str("Refusing an unsafe control socket"),
            IpcError::ForeignSocket => String::from_str("Control socket belongs to another user"),
            IpcError::BadMessage => String::from_str(
                "Expected newline-terminated JSON no larger than 64 KiB",
            ),
            IpcError::RequestTooLarge => String::from_str("Request is too large"),
            IpcError::ResponseTooLarge => String::from_str("Response is too large"),
            IpcError::InvalidRequest => String::from_str("Invalid control request"),
            IpcError::ControllerStopped => String::from_str("Controller stopped"),
            IpcError::TimedOut => String::from_str(
                "Controller request timed out; command outcome is unknown, query status before retrying",
            ),
        }
    }
}

/// The directories for the lock and the socket: both must be made private, the first one first.
#[derive(Debug)]
pub struct RuntimeDirs {
    pub base: Vec<u8>,
    pub directory: Vec<u8>,
}

/// The directories below the one that the session names.
pub fn runtime_dir(xdg_runtime_dir: Option<Vec<u8>>) -> (r: Result<RuntimeDirs, IpcError>)
    ensures
        match xdg_runtime_dir {
            None => r == Err::<RuntimeDirs, IpcError>(IpcError::RuntimeUnset),
            Some(base) => if path::rooted(base@) {
                r matches Ok(dirs) && dirs.base@ == base@ && dirs.directory@ == path::joined(
                    base@,
                    encode_utf8("bt-audio-bridge"@),
                )
            } else {
                r == Err::<RuntimeDirs, IpcError>(IpcError::RuntimeRelative)
            },
        },
{
    match xdg_runtime_dir {
        None => Err(IpcError::RuntimeUnset),
        Some(base) => {
            if !path::is_absolute(base.as_slice()) {
                return Err(IpcError::RuntimeRelative);
            }
            let directory = path::join(base.as_slice(), "bt-audio-bridge".as_bytes());
            Ok(RuntimeDirs { base, directory })
        },
    }
}

/// The lock of the one controller: the identity of the file that carries it.
#[derive(Clone, Copy, Debug, PartialEq, Eq, Structural)]
pub struct ControllerLock {
    pub device: u64,
    pub inode: u64,
}

/// What the lock file must be before it is locked.
pub open spec fn lock_file_verdict(facts: FileFacts, user: u32) -> Result<(), IpcError> {
    match storage::standing_of(facts.is_file, facts, user, true) {
        Standing::Trusted => Ok(()),
        Standing::RootUser => Err(IpcError::RootUser),
        Standing::Unsafe => Err(IpcError::UnsafeLock),
    }
}

/// What comes of locking: the lock must be free, and the file that was locked must still be the
/// one at its path.
pub open spec fn lock_verdict(opened: FileFacts, locked: bool, current: Lookup) -> Result<
    ControllerLock,
    IpcError,
> {
    if !locked {
        Err(IpcError::LockBusy)
    } else {
        match current {
            Lookup::Found(facts) => if facts.is_file && facts.device == opened.device && facts.inode
                == opened.inode {
                Ok(ControllerLock { device: opened.device, inode: opened.inode })
            } else {
                Err(IpcError::LockChanged)
            },
            _ => Err(IpcError::LockRemoved),
        }
    }
}

impl ControllerLock {
    /// Whether the lock file may be locked.
    pub fn check_file(facts: &FileFacts, user: u32) -> (r: Result<(), IpcError>)
        ensures
            r == lock_file_verdict(*facts, user),
    {
        match storage::standing(facts.is_file, facts, user, true) {
            Standing::Trusted => Ok(()),
            Standing::RootUser => Err(IpcError::RootUser),
            Standing::Unsafe => Err(IpcError::UnsafeLock),
        }
    }

    /// Takes the lock, given whether the file could be locked and what is at its path now.
    pub fn acquire(opened: &FileFacts, locked: bool, current: Lookup) -> (r: Result<
        ControllerLock,
        IpcError,
    >)
        ensures
            r == lock_verdict(*opened, locked, current),
    {
        if !locked {
            return Err(IpcError::LockBusy);
        }
        match current {
            Lookup::Found(facts) => {
                if facts.is_file && facts.device == opened.device && facts.inode == opened.inode {
                    Ok(ControllerLock { device: opened.device, inode: opened.inode })
                } else {
                    Err(IpcError::LockChanged)
                }
            },
            _ => Err(IpcError::LockRemoved),
        }
    }
}

/// The controller's own socket: where it is and which one it is.
#[derive(Debug)]
pub struct SocketGuard {
    pub path: Vec<u8>,
    pub inode: u64,
    pub device: u64,
}

impl SocketGuard {
    /// Guards the socket that was just bound.
    pub fn new(path: Vec<u8>, facts: &FileFacts) -> (r: SocketGuard)
        ensures
            r.path == path,
            r.inode == facts.inode,
            r.device == facts.device,
    {
        SocketGuard { path, inode: facts.inode, device: facts.device }
    }

    /// What is at the path is the controller's own socket.
    pub open spec fn owns(self, found: Lookup) -> bool {
        found matches Lookup::Found(facts) && facts.is_socket && facts.inode == self.inode
            && facts.device == self.device
    }

    /// Whether what is at the path may be removed when the controller stops.
    pub fn removes(&self, found: Lookup) -> (r: bool)
        ensures
            r == self.owns(found),
    {
        match found {
            Lookup::Found(facts) => facts.is_socket && facts.inode == self.inode && facts.device
                == self.device,
            _ => false,
        }
    }
}

/// What to do next to bind the control socket.
#[derive(Clone, Copy, Debug, PartialEq, Eq, Structural)]
pub enum BindStep {
    /// Look at what is at the socket's path.
    Inspect,
    /// Try to connect to the socket that is there.
    Probe,
    /// Remove the socket that nobody listens on.
    RemoveStale,
    Bind,
    Refuse(IpcError),
    Fail,
}

/// What came of the last action.
#[derive(Clone, Copy, Debug, PartialEq, Eq, Structural)]
pub enum BindEvent {
    Inspected(Lookup),
    ConnectionRefused,
    NotFound,
    /// The connection was made, timed out or failed in another way.
    OtherAnswer,
    Removed,
    Failed,
}

/// The step that follows `step` after `event`.
pub open spec fn next_bind_step(step: BindStep, event: BindEvent, user: u32) -> BindStep {
    match (step, event) {
        (BindStep::Inspect, BindEvent::Inspected(Lookup::Found(facts))) => {
            match storage::standing_of(facts.is_socket, facts, user, false) {
                Standing::Trusted => BindStep::Probe,
                Standing::RootUser => BindStep::Refuse(IpcError::RootUser),
                Standing::Unsafe => BindStep::Refuse(IpcError::UnsafeBindTarget),
            }
        },
        (BindStep::Inspect, BindEvent::Inspected(Lookup::Missing)) => BindStep::Bind,
        (BindStep::Probe, BindEvent::ConnectionRefused) => BindStep::RemoveStale,
        (BindStep::Probe, BindEvent::NotFound) => BindStep::Bind,
        (BindStep::Probe, _) => BindStep::Refuse(IpcError::SocketInUse),
        (BindStep::RemoveStale, BindEvent::Removed) => BindStep::Bind,
        _ => BindStep::Fail,
    }
}

/// What to do next to bind the control socket, starting from `BindStep::Inspect`.
pub fn bind(step: BindStep, event: BindEvent, user: u32) -> (r: BindStep)
    ensures
        r == next_bind_step(step, event, user),
{
    match (step, event) {
        (BindStep::Inspect, BindEvent::Inspected(Lookup::Found(facts))) => {
            match storage::standing(facts.is_socket, &facts, user, false) {
                Standing::Trusted => BindStep::Probe,
                Standing::RootUser => BindStep::Refuse(IpcError::RootUser),
                Standing::Unsafe => BindStep::Refuse(IpcError::UnsafeBindTarget),
            }
        },
        (BindStep::Inspect, BindEvent::Inspected(Lookup::Missing)) => BindStep::Bind,
        (BindStep::Probe, BindEvent::ConnectionRefused) => BindStep::RemoveStale,
        (BindStep::Probe, BindEvent::NotFound) => BindStep::Bind,
        (BindStep::Probe, _) => BindStep::Refuse(IpcError::SocketInUse),
        (BindStep::RemoveStale, BindEvent::Removed) => BindStep::Bind,
        _ => BindStep::Fail,
    }
}

/// The step reached after the given events, oldest first.
pub open spec fn bind_progress(events: Seq<BindEvent>, user: u32) -> BindStep
    decreases events.len(),
{
    if events.len() == 0 {
        BindStep::Inspect
    } else {
        next_bind_step(bind_progress(events.drop_last(), user), events.last(), user)
    }
}

/// A socket is removed only if it is the user's own socket and a connection to it was refused.
pub proof fn only_stale_sockets_are_removed(events: Seq<BindEvent>, user: u32)
    requires
        bind_progress(events, user) == BindStep::RemoveStale,
    ensures
        events.len() == 2,
        events[1] == BindEvent::ConnectionRefused,
        events[0] matches BindEvent::Inspected(Lookup::Found(facts)) && facts.is_socket
            && facts.uid == user && user != 0,
{
    let before = events.drop_last();
    let first = before.drop_last();
    assert(bind_progress(before, user) == BindStep::Probe);
    assert(bind_progress(first, user) == BindStep::Inspect);
    if first.len() > 0 {
        assert(bind_progress(first, user) != BindStep::Inspect);
    }
    assert(before.last() == events[0]);
}

/// A socket is bound only where nothing was, where what was there went away, or where a socket
/// of the user's own that nobody listens on was removed.
pub proof fn live_sockets_are_left_alone(events: Seq<BindEvent>, user: u32)
    requires
        bind_progress(events, user) == BindStep::Bind,
    ensures
        events == seq![BindEvent::Inspected(Lookup::Missing)] || (events.len() == 2 && events[1]
            == BindEvent::NotFound) || (events.len() == 3 && events[1]
            == BindEvent::ConnectionRefused && events[2] == BindEvent::Removed),
        events.len() > 1 ==> (events[0] matches BindEvent::Inspected(Lookup::Found(facts))
            && facts.is_socket && facts.uid == user && user != 0),
{
    let before = events.drop_last();
    if bind_progress(before, user) == BindStep::Inspect {
        if before.len() > 0 {
            assert(bind_progress(before, user) != BindStep::Inspect);
        }
        assert(events =~= seq![events[0]]);
    } else if bind_progress(before, user) == BindStep::Probe {
        let first = before.drop_last();
        if first.len() > 0 {
            assert(bind_progress(first, user) != BindStep::Inspect);
        }
        assert(before.last() == events[0]);
    } else {
        only_stale_sockets_are_removed(before, user);
        assert(before[0] == events[0] && before[1] == events[1]);
    }
}

/// What to do next to send a request to the controller.
#[derive(Clone, Copy, Debug, PartialEq, Eq, Structural)]
pub enum RequestStep {
    /// Look at the control socket.
    Inspect,
    Connect,
    /// Send the request and read the answer.
    Exchange,
    /// There is no controller.
    Offline,
    Refuse(IpcError),
    Fail,
}

/// What came of the last action.
#[derive(Clone, Copy, Debug, PartialEq, Eq, Structural)]
pub enum RequestEvent {
    Inspected(Lookup),
    /// Connected to a process of that user.
    Connected(u32),
    ConnectionRefused,
    NotFound,
    Failed,
}

/// The step that follows `step` after `event`.
pub open spec fn next_request_step(step: RequestStep, event: RequestEvent, user: u32) -> RequestStep {
    match (step, event) {
        (RequestStep::Inspect, RequestEvent::Inspected(found)) => match found {
            Lookup::Found(facts) => match storage::standing_of(
                facts.is_socket,
                facts,
                user,
                true,
            ) {
                Standing::Trusted => RequestStep::Connect,
                Standing::RootUser => RequestStep::Refuse(IpcError::RootUser),
                Standing::Unsafe => RequestStep::Refuse(IpcError::UnsafeSocket),
            },
            Lookup::Missing => RequestStep::Offline,
            Lookup::Failed => RequestStep::Fail,
        },
        (RequestStep::Connect, RequestEvent::Connected(peer)) => if user == 0 {
            RequestStep::Refuse(IpcError::RootUser)
        } else if peer != user {
            RequestStep::Refuse(IpcError::ForeignSocket)
        } else {
            RequestStep::Exchange
        },
        (RequestStep::Connect, RequestEvent::ConnectionRefused) => RequestStep::Offline,
        (RequestStep::Connect, RequestEvent::NotFound) => RequestStep::Offline,
        _ => RequestStep::Fail,
    }
}

/// What to do next to send a request, starting from `RequestStep::Inspect`.
pub fn request(step: RequestStep, event: RequestEvent, user: u32) -> (r: RequestStep)
    ensures
        r == next_request_step(step, event, user),
{
    match (step, event) {
        (RequestStep::Inspect, RequestEvent::Inspected(found)) => match found {
            Lookup::Found(facts) => match storage::standing(facts.is_socket, &facts, user, true) {
                Standing::Trusted => RequestStep::Connect,
                Standing::RootUser => RequestStep::Refuse(IpcError::RootUser),
                Standing::Unsafe => RequestStep::Refuse(IpcError::UnsafeSocket),
            },
            Lookup::Missing => RequestStep::Offline,
            Lookup::Failed => RequestStep::Fail,
        },
        (RequestStep::Connect, RequestEvent::Connected(peer)) => match storage::ensure_user(user) {
            Err(_) => RequestStep::Refuse(IpcError::RootUser),
            Ok(uid) => {
                if peer != uid {
                    RequestStep::Refuse(IpcError::ForeignSocket)
                } else {
                    RequestStep::Exchange
                }
            },
        },
        (RequestStep::Connect, RequestEvent::ConnectionRefused) => RequestStep::Offline,
        (RequestStep::Connect, RequestEvent::NotFound) => RequestStep::Offline,
        _ => RequestStep::Fail,
    }
}

/// The step reached after the given events, oldest first.
pub open spec fn request_progress(events: Seq<RequestEvent>, user: u32) -> RequestStep
    decreases events.len(),
{
    if events.len() == 0 {
        RequestStep::Inspect
    } else {
        next_request_step(request_progress(events.drop_last(), user), events.last(), user)
    }
}

/// The controller counts as offline only when there is no socket, or when nobody listens on a
/// private socket of the user's own.
pub proof fn offline_means_no_controller(events: Seq<RequestEvent>, user: u32)
    requires
        request_progress(events, user) == RequestStep::Offline,
    ensures
        events == seq![RequestEvent::Inspected(Lookup::Missing)] || (events.len() == 2 && (events[1]
            == RequestEvent::ConnectionRefused || events[1] == RequestEvent::NotFound)),
        events.len() > 1 ==> (events[0] matches RequestEvent::Inspected(Lookup::Found(facts))
            && facts.is_socket && facts.uid == user && storage::private_mode(facts.mode)
            && user != 0),
{
    let before = events.drop_last();
    if request_progress(before, user) == RequestStep::Inspect {
        if before.len() > 0 {
            assert(request_progress(before, user) != RequestStep::Inspect);
        }
        assert(events =~= seq![events[0]]);
    } else {
        let first = before.drop_last();
        assert(request_progress(before, user) == RequestStep::Connect);
        if first.len() > 0 {
            assert(request_progress(first, user) != RequestStep::Inspect);
        }
        assert(before.last() == events[0]);
    }
}

/// Nothing is sent but over a private socket of the user's own, to a process of the same user.
pub proof fn requests_stay_with_the_user(events: Seq<RequestEvent>, user: u32)
    requires
        request_progress(events, user) == RequestStep::Exchange,
    ensures
        events.len() == 2,
        events[1] == RequestEvent::Connected(user),
        events[0] matches RequestEvent::Inspected(Lookup::Found(facts)) && facts.is_socket
            && facts.uid == user && storage::private_mode(facts.mode),
        user != 0,
{
    let before = events.drop_last();
    let first = before.drop_last();
    assert(request_progress(before, user) == RequestStep::Connect);
    assert(request_progress(first, user) == RequestStep::Inspect);
    if first.len() > 0 {
        assert(request_progress(first, user) != RequestStep::Inspect);
    }
    assert(before.last() == events[0]);
}

/// Muting or unmuting the phone streams is accepted on sound settings and changes that mute alone.
pub proof fn phone_is_muted_and_unmuted(config: Config, muted: bool, timers: TimerSupport)
    requires
        config.sound(),
        timers.dbus_timeout && timers.a2dp_connect_delay && timers.a2dp_retry_delay,
    ensures
        ({
            let command = Command::Mute { channel: Channel::Phone, muted };
            let after = commanded(config, command);
            &&& objection(command) is None
            &&& command_verdict(config, command, timers) == Ok::<(), CommandError>(())
            &&& after.sound()
            &&& after.bluetooth == config.bluetooth
            &&& after.devices == config.devices
            &&& after.connection == config.connection
            &&& after.audio.virtual_sink_name == config.audio.virtual_sink_name
            &&& after.audio.output_codec == config.audio.output_codec
            &&& after.audio.allow_codec_fallback == config.audio.allow_codec_fallback
            &&& after.audio.headphone_disconnect_action == config.audio.headphone_disconnect_action
            &&& after.audio.phone_mute == muted
            &&& after.audio.phone_gain == config.audio.phone_gain
            &&& after.audio.desktop_gain == config.audio.desktop_gain
            &&& after.audio.desktop_mute == config.audio.desktop_mute
            &&& after.audio.master_gain == config.audio.master_gain
            &&& after.audio.master_mute == config.audio.master_mute
            &&& after.audio.routing_enabled == config.audio.routing_enabled
        }),
{
}

/// Every gain from zero to one is accepted for the phone streams on sound settings and changes
/// that gain alone.
pub proof fn phone_volume_is_set(config: Config, value: Gain, timers: TimerSupport)
    requires
        config.sound(),
        timers.dbus_timeout && timers.a2dp_connect_delay && timers.a2dp_retry_delay,
        value.in_range(),
    ensures
        ({
            let command = Command::Volume { channel: Channel::Phone, value };
            let after = commanded(config, command);
            &&& objection(command) is None
            &&& command_verdict(config, command, timers) == Ok::<(), CommandError>(())
            &&& after.sound()
            &&& after.bluetooth == config.bluetooth
            &&& after.devices == config.devices
            &&& after.connection == config.connection
            &&& after.audio.virtual_sink_name == config.audio.virtual_sink_name
            &&& after.audio.output_codec == config.audio.output_codec
            &&& after.audio.allow_codec_fallback == config.audio.allow_codec_fallback
            &&& after.audio.headphone_disconnect_action == config.audio.headphone_disconnect_action
            &&& after.audio.phone_gain == value
            &&& after.audio.phone_mute == config.audio.phone_mute
            &&& after.audio.desktop_gain == config.audio.desktop_gain
            &&& after.audio.desktop_mute == config.audio.desktop_mute
            &&& after.audio.master_gain == config.audio.master_gain
            &&& after.audio.master_mute == config.audio.master_mute
            &&& after.audio.routing_enabled == config.audio.routing_enabled
        }),
{
}

/// Muting or unmuting the desktop streams is accepted on sound settings and changes that mute alone.
pub proof fn desktop_is_muted_and_unmuted(config: Config, muted: bool, timers: TimerSupport)
    requires
        config.sound(),
        timers.dbus_timeout && timers.a2dp_connect_delay && timers.a2dp_retry_delay,
    ensures
        ({
            let command = Command::Mute { channel: Channel::Desktop, muted };
            let after = commanded(config, command);
            &&& objection(command) is None
            &&& command_verdict(config, command, timers) == Ok::<(), CommandError>(())
            &&& after.sound()
            &&& after.bluetooth == config.bluetooth
            &&& after.devices == config.devices
            &&& after.connection == config.connection
            &&& after.audio.virtual_sink_name == config.audio.virtual_sink_name
            &&& after.audio.output_codec == config.audio.output_codec
            &&& after.audio.allow_codec_fallback == config.audio.allow_codec_fallback
            &&& after.audio.headphone_disconnect_action == config.audio.headphone_disconnect_action
            &&& after.audio.desktop_mute == muted
            &&& after.audio.phone_gain == config.audio.phone_gain
            &&& after.audio.phone_mute == config.audio.phone_mute
            &&& after.audio.desktop_gain == config.audio.desktop_gain
            &&& after.audio.master_gain == config.audio.master_gain
            &&& after.audio.master_mute == config.audio.master_mute
            &&& after.audio.routing_enabled == config.audio.routing_enabled
        }),
{
}

/// Every gain from zero to one is accepted for the desktop streams on sound settings and changes
/// that gain alone.
pub proof fn desktop_volume_is_set(config: Config, value: Gain, timers: TimerSupport)
    requires
        config.sound(),
        timers.dbus_timeout && timers.a2dp_connect_delay && timers.a2dp_retry_delay,
        value.in_range(),
    ensures
        ({
            let command = Command::Volume { channel: Channel::Desktop, value };
            let after = commanded(config, command);
            &&& objection(command) is None
            &&& command_verdict(config, command, timers) == Ok::<(), CommandError>(())
            &&& after.sound()
            &&& after.bluetooth == config.bluetooth
            &&& after.devices == config.devices
            &&& after.connection == config.connection
            &&& after.audio.virtual_sink_name == config.audio.virtual_sink_name
            &&& after.audio.output_codec == config.audio.output_codec
            &&& after.audio.allow_codec_fallback == config.audio.allow_codec_fallback
            &&& after.audio.headphone_disconnect_action == config.audio.headphone_disconnect_action
            &&& after.audio.desktop_gain == value
            &&& after.audio.phone_gain == config.audio.phone_gain
            &&& after.audio.phone_mute == config.audio.phone_mute
            &&& after.audio.desktop_mute == config.audio.desktop_mute
            &&& after.audio.master_gain == config.audio.master_gain
            &&& after.audio.master_mute == config.audio.master_mute
            &&& after.audio.routing_enabled == config.audio.routing_enabled
        }),
{
}

/// Muting or unmuting the master streams is accepted on sound settings and changes that mute alone.
pub proof fn master_is_muted_and_unmuted(config: Config, muted: bool, timers: TimerSupport)
    requires
        config.sound(),
        timers.dbus_timeout && timers.a2dp_connect_delay && timers.a2dp_retry_delay,
    ensures
        ({
            let command = Command::Mute { channel: Channel::Master, muted };
            let after = commanded(config, command);
            &&& objection(command) is None
            &&& command_verdict(config, command, timers) == Ok::<(), CommandError>(())
            &&& after.sound()
            &&& after.bluetooth == config.bluetooth
            &&& after.devices == config.devices
            &&& after.connection == config.connection
            &&& after.audio.virtual_sink_name == config.audio.virtual_sink_name
            &&& after.audio.output_codec == config.audio.output_codec
            &&& after.audio.allow_codec_fallback == config.audio.allow_codec_fallback
            &&& after.audio.headphone_disconnect_action == config.audio.headphone_disconnect_action
            &&& after.audio.master_mute == muted
            &&& after.audio.phone_gain == config.audio.phone_gain
            &&& after.audio.phone_mute == config.audio.phone_mute
            &&& after.audio.desktop_gain == config.audio.desktop_gain
            &&& after.audio.desktop_mute == config.audio.desktop_mute
            &&& after.audio.master_gain == config.audio.master_gain
            &&& after.audio.routing_enabled == config.audio.routing_enabled
        }),
{
}

/// Every gain from zero to one is accepted for the master streams on sound settings and changes
/// that gain alone.
pub proof fn master_volume_is_set(config: Config, value: Gain, timers: TimerSupport)
    requires
        config.sound(),
        timers.dbus_timeout && timers.a2dp_connect_delay && timers.a2dp_retry_delay,
        value.in_range(),
    ensures
        ({
            let command = Command::Volume { channel: Channel::Master, value };
            let after = commanded(config, command);
            &&& objection(command) is None
            &&& command_verdict(config, command, timers) == Ok::<(), CommandError>(())
            &&& after.sound()
            &&& after.bluetooth == config.bluetooth
            &&& after.devices == config.devices
            &&& after.connection == config.connection
            &&& after.audio.virtual_sink_name == config.audio.virtual_sink_name
            &&& after.audio.output_codec == config.audio.output_codec
            &&& after.audio.allow_codec_fallback == config.audio.allow_codec_fallback
            &&& after.audio.headphone_disconnect_action == config.audio.headphone_disconnect_action
            &&& after.audio.master_gain == value
            &&& after.audio.phone_gain == config.audio.phone_gain
            &&& after.audio.phone_mute == config.audio.phone_mute
            &&& after.audio.desktop_gain == config.audio.desktop_gain
            &&& after.audio.desktop_mute == config.audio.desktop_mute
            &&& after.audio.master_mute == config.audio.master_mute
            &&& after.audio.routing_enabled == config.audio.routing_enabled
        }),
{
}

/// Choosing forwarding on or off is accepted on sound settings and changes that alone.
pub proof fn forwarding_is_selected(config: Config, enabled: bool, timers: TimerSupport)
    requires
        config.sound(),
        timers.dbus_timeout && timers.a2dp_connect_delay && timers.a2dp_retry_delay,
    ensures
        ({
            let command = Command::Select { enabled };
            let after = commanded(config, command);
            &&& objection(command) is None
            &&& command_verdict(config, command, timers) == Ok::<(), CommandError>(())
            &&& after.sound()
            &&& after.bluetooth == config.bluetooth
            &&& after.devices == config.devices
            &&& after.connection == config.connection
            &&& after.audio.virtual_sink_name == config.audio.virtual_sink_name
            &&& after.audio.output_codec == config.audio.output_codec
            &&& after.audio.allow_codec_fallback == config.audio.allow_codec_fallback
            &&& after.audio.headphone_disconnect_action == config.audio.headphone_disconnect_action
            &&& after.audio.routing_enabled == enabled
            &&& after.audio.phone_gain == config.audio.phone_gain
            &&& after.audio.phone_mute == config.audio.phone_mute
            &&& after.audio.desktop_gain == config.audio.desktop_gain
            &&& after.audio.desktop_mute == config.audio.desktop_mute
            &&& after.audio.master_gain == config.audio.master_gain
            &&& after.audio.master_mute == config.audio.master_mute
        }),
{
}

/// Enabling or disabling forwarding is accepted on sound settings and changes that alone.
pub proof fn forwarding_is_enabled(config: Config, enabled: bool, timers: TimerSupport)
    requires
        config.sound(),
        timers.dbus_timeout && timers.a2dp_connect_delay && timers.a2dp_retry_delay,
    ensures
        ({
            let command = Command::Enable { enabled };
            let after = commanded(config, command);
            &&& objection(command) is None
            &&& command_verdict(config, command, timers) == Ok::<(), CommandError>(())
            &&& after.sound()
            &&& after.bluetooth == config.bluetooth
            &&& after.devices == config.devices
            &&& after.connection == config.connection
            &&& after.audio.virtual_sink_name == config.audio.virtual_sink_name
            &&& after.audio.output_codec == config.audio.output_codec
            &&& after.audio.allow_codec_fallback == config.audio.allow_codec_fallback
            &&& after.audio.headphone_disconnect_action == config.audio.headphone_disconnect_action
            &&& after.audio.routing_enabled == enabled
            &&& after.audio.phone_gain == config.audio.phone_gain
            &&& after.audio.phone_mute == config.audio.phone_mute
            &&& after.audio.desktop_gain == config.audio.desktop_gain
            &&& after.audio.desktop_mute == config.audio.desktop_mute
            &&& after.audio.master_gain == config.audio.master_gain
            &&& after.audio.master_mute == config.audio.master_mute
        }),
{
}


/// Exactly the looks at status and settings, and the volumes out of range, have an objection,
/// each its own.
pub proof fn objections_are_few(command: Command)
    ensures
        objection(command) == Some(CommandError::NotAChange) <==> command == Command::Status
            || command == Command::ConfigShow,
        objection(command) == Some(CommandError::Invalid(ConfigError::GainOutOfRange)) <==> (
        command matches Command::Volume { value, .. } && !value.in_range()),
        objection(command) is Some <==> command == Command::Status || command
            == Command::ConfigShow || (command matches Command::Volume { value, .. }
            && !value.in_range()),
{
}

/// A command with an objection is refused with it and leaves the settings alone; any other is
/// refused only for what is wrong with the settings after it.
pub proof fn refused_commands_change_nothing(config: Config, command: Command, timers: TimerSupport)
    ensures
        objection(command) matches Some(e) ==> commanded(config, command) == config
            && command_verdict(config, command, timers) == Err::<(), CommandError>(e),
        objection(command) is None && commanded(config, command).verdict(timers) is Ok
            ==> command_verdict(config, command, timers) == Ok::<(), CommandError>(()),
        objection(command) is None ==> (commanded(config, command).verdict(timers) matches Err(e)
            ==> command_verdict(config, command, timers) == Err::<(), CommandError>(
            CommandError::Invalid(e),
        )),
{
}

/// What a command sets does not depend on what the setting was before, nor on any other setting.
pub proof fn commands_do_not_look_at_the_settings(a: Config, b: Config, command: Command)
    requires
        objection(command) is None,
    ensures
        match command {
            Command::Select { .. } => commanded(a, command).audio.routing_enabled == commanded(
                b,
                command,
            ).audio.routing_enabled,
            Command::Enable { .. } => commanded(a, command).audio.routing_enabled == commanded(
                b,
                command,
            ).audio.routing_enabled,
            Command::Volume { channel: Channel::Phone, .. } => commanded(
                a,
                command,
            ).audio.phone_gain == commanded(b, command).audio.phone_gain,
            Command::Volume { channel: Channel::Desktop, .. } => commanded(
                a,
                command,
            ).audio.desktop_gain == commanded(b, command).audio.desktop_gain,
            Command::Volume { channel: Channel::Master, .. } => commanded(
                a,
                command,
            ).audio.master_gain == commanded(b, command).audio.master_gain,
            Command::Mute { channel: Channel::Phone, .. } => commanded(
                a,
                command,
            ).audio.phone_mute == commanded(b, command).audio.phone_mute,
            Command::Mute { channel: Channel::Desktop, .. } => commanded(
                a,
                command,
            ).audio.desktop_mute == commanded(b, command).audio.desktop_mute,
            Command::Mute { channel: Channel::Master, .. } => commanded(
                a,
                command,
            ).audio.master_mute == commanded(b, command).audio.master_mute,
            _ => true,
        },
{
}

/// A channel's gain and mute are those with its name.
pub proof fn channels_have_their_names(audio: Audio)
    ensures
        gain_of(audio, Channel::Phone) == audio.phone_gain,
        gain_of(audio, Channel::Desktop) == audio.desktop_gain,
        gain_of(audio, Channel::Master) == audio.master_gain,
        mute_of(audio, Channel::Phone) == audio.phone_mute,
        mute_of(audio, Channel::Desktop) == audio.desktop_mute,
        mute_of(audio, Channel::Master) == audio.master_mute,
{
}

/// The limits of the protocol.
pub proof fn limits_of_the_protocol()
    ensures
        MAX_MESSAGE == 65536,
        READ_LIMIT == 65537,
        MAX_CONNECTIONS == 16,
        REQUEST_TIMEOUT_SECONDS == 4,
        PROBE_TIMEOUT_MILLISECONDS == 300,
        LINE_BREAK == 10,
{
}

/// A message is accepted exactly if it has a byte, no more than the limit, and ends in a line
/// break. A sent one is its payload and a line break.
pub proof fn messages_are_lines(bytes: Seq<u8>)
    ensures
        acceptable(bytes) <==> 0 < bytes.len() <= 65536 && bytes[bytes.len() - 1] == 10,
        framed(bytes).len() == bytes.len() + 1,
        framed(bytes)[bytes.len() as int] == 10,
        forall|i: int| 0 <= i < bytes.len() ==> #[trigger] framed(bytes)[i] == bytes[i],
{
}

/// A connection gets the controller's answer unchanged, or an error with the reason and no data.
pub proof fn connections_are_answered(exchange: Exchange, response: Response)
    requires
        answers(exchange, response),
    ensures
        exchange matches Exchange::Answered(given) ==> response == given,
        !(exchange is Answered) ==> !response.ok && response.data is None,
        exchange matches Exchange::Unread(reason) ==> response.message@ == reason@,
        exchange is Malformed ==> response.message@
            == "Expected newline-terminated JSON no larger than 64 KiB"@,
        exchange is Unparsed ==> response.message@ == "Invalid control request"@,
        exchange is Stopped ==> response.message@ == "Controller stopped"@,
{
}

/// Only the refusal of a bind target names the socket, and it does so at its end.
pub proof fn bind_refusals_name_the_socket(error: IpcError, socket: Seq<u8>, other: Seq<u8>)
    ensures
        ipc_text(IpcError::UnsafeBindTarget, socket) == "Refusing to replace unsafe control socket "@
            + text::lossy(socket),
        error != IpcError::UnsafeBindTarget ==> ipc_text(error, socket) == ipc_text(error, other),
{
}

/// A command's error has the text of what is wrong.
pub proof fn command_errors_tell_what_is_wrong(error: ConfigError)
    ensures
        command_text(CommandError::NotAChange) == "This command does not change configuration"@,
        command_text(CommandError::Invalid(error)) == crate::config::config_text(
            error,
            Seq::empty(),
        ),
{
}

/// The lock file must be a private regular file of the user's own; root is told so about any
/// regular file.
pub proof fn lock_files_are_private(facts: FileFacts, user: u32)
    ensures
        lock_file_verdict(facts, user) == Ok::<(), IpcError>(()) <==> facts.is_file && user != 0
            && facts.uid == user && facts.mode % 64 == 0,
        lock_file_verdict(facts, user) == Err::<(), IpcError>(IpcError::RootUser) <==> facts.is_file
            && user == 0,
        lock_file_verdict(facts, user) matches Err(e) ==> e == IpcError::RootUser || e
            == IpcError::UnsafeLock,
{
    storage::private_modes_end_in_two_zeros(facts.mode);
}

/// The lock is had exactly if it was free and the regular file at its path is the one that was
/// locked; each way of not having it has its error.
pub proof fn locks_hold_the_file_at_the_path(opened: FileFacts, locked: bool, current: Lookup)
    ensures
        lock_verdict(opened, locked, current) is Ok <==> locked && (
        current matches Lookup::Found(facts) && facts.is_file && facts.device == opened.device
            && facts.inode == opened.inode),
        lock_verdict(opened, locked, current) matches Ok(lock) ==> lock.device == opened.device
            && lock.inode == opened.inode,
        lock_verdict(opened, locked, current) == Err::<ControllerLock, IpcError>(IpcError::LockBusy)
            <==> !locked,
        lock_verdict(opened, locked, current) == Err::<ControllerLock, IpcError>(
            IpcError::LockRemoved,
        ) <==> locked && !(current is Found),
        lock_verdict(opened, locked, current) == Err::<ControllerLock, IpcError>(
            IpcError::LockChanged,
        ) <==> locked && (current matches Lookup::Found(facts) && !(facts.is_file && facts.device
            == opened.device && facts.inode == opened.inode)),
{
}

/// A socket is the controller's own exactly if it is a socket with the same identity.
pub proof fn own_sockets_have_the_same_identity(guard: SocketGuard, found: Lookup)
    ensures
        guard.owns(found) <==> (found matches Lookup::Found(facts) && facts.is_socket && facts.inode
            == guard.inode && facts.device == guard.device),
{
}

/// Binding looks first: nothing there is bound over, a socket of the user's own is tried, and
/// anything else is refused. A tried socket is removed if the connection is refused, is bound
/// over if it went away, and is in use otherwise.
pub proof fn binding_goes_step_by_step(facts: FileFacts, event: BindEvent, user: u32)
    ensures
        next_bind_step(BindStep::Inspect, BindEvent::Inspected(Lookup::Missing), user)
            == BindStep::Bind,
        next_bind_step(BindStep::Inspect, BindEvent::Inspected(Lookup::Failed), user)
            == BindStep::Fail,
        ({
            let looked = next_bind_step(
                BindStep::Inspect,
                BindEvent::Inspected(Lookup::Found(facts)),
                user,
            );
            &&& looked == BindStep::Probe <==> facts.is_socket && user != 0 && facts.uid == user
            &&& looked == BindStep::Refuse(IpcError::RootUser) <==> facts.is_socket && user == 0
            &&& looked == BindStep::Refuse(IpcError::UnsafeBindTarget) <==> !facts.is_socket || (
            user != 0 && facts.uid != user)
        }),
        next_bind_step(BindStep::Probe, event, user) == (if event == BindEvent::ConnectionRefused {
            BindStep::RemoveStale
        } else if event == BindEvent::NotFound {
            BindStep::Bind
        } else {
            BindStep::Refuse(IpcError::SocketInUse)
        }),
        next_bind_step(BindStep::RemoveStale, event, user) == (if event == BindEvent::Removed {
            BindStep::Bind
        } else {
            BindStep::Fail
        }),
{
}

/// A request looks first: no socket is no controller, a private socket of the user's own is
/// connected to, and anything else is refused. What answers must be the same user's; nobody who
/// listens is no controller.
pub proof fn requesting_goes_step_by_step(facts: FileFacts, peer: u32, user: u32)
    ensures
        next_request_step(RequestStep::Inspect, RequestEvent::Inspected(Lookup::Missing), user)
            == RequestStep::Offline,
        next_request_step(RequestStep::Inspect, RequestEvent::Inspected(Lookup::Failed), user)
            == RequestStep::Fail,
        ({
            let looked = next_request_step(
                RequestStep::Inspect,
                RequestEvent::Inspected(Lookup::Found(facts)),
                user,
            );
            let own = facts.uid == user && facts.mode % 64 == 0;
            &&& looked == RequestStep::Connect <==> facts.is_socket && user != 0 && own
            &&& looked == RequestStep::Refuse(IpcError::RootUser) <==> facts.is_socket && user == 0
            &&& looked == RequestStep::Refuse(IpcError::UnsafeSocket) <==> !facts.is_socket || (user
                != 0 && !own)
        }),
        ({
            let answered = next_request_step(
                RequestStep::Connect,
                RequestEvent::Connected(peer),
                user,
            );
            &&& answered == RequestStep::Exchange <==> user != 0 && peer == user
            &&& answered == RequestStep::Refuse(IpcError::RootUser) <==> user == 0
            &&& answered == RequestStep::Refuse(IpcError::ForeignSocket) <==> user != 0 && peer
                != user
        }),
        next_request_step(RequestStep::Connect, RequestEvent::ConnectionRefused, user)
            == RequestStep::Offline,
        next_request_step(RequestStep::Connect, RequestEvent::NotFound, user)
            == RequestStep::Offline,
        next_request_step(RequestStep::Connect, RequestEvent::Failed, user) == RequestStep::Fail,
{
    storage::private_modes_end_in_two_zeros(facts.mode);
}

} // verus!
