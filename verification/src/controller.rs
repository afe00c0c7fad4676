//! The controller: what it does on a request, on a tick of its clock and when it stops.
use crate::audio::{Levels, RouteStatus, Status};
use crate::config::{Config, TimerSupport};
use crate::ipc;
use crate::gain::Gain;
use crate::ipc::{Channel, Command, CommandError, Request, Response};
use crate::json;
use crate::json::Json;
use crate::path;
use crate::text;
use vstd::arithmetic::power2::*;
use vstd::prelude::*;
use vstd::string::*;

verus! {

/// How often the engine is looked at, in milliseconds.
pub const TICK_MILLISECONDS: u64 = 100;

/// How many requests wait for the controller at most.
pub const REQUEST_QUEUE: usize = 16;

/// The longest wait before the engine is started again, in seconds.
pub const MAX_RETRY_SECONDS: u64 = 30;

/// The state of the audio as the controller reports it.
#[derive(Debug)]
pub struct AudioStatus {
    pub pipewire_connected: bool,
    pub routing_enabled: bool,
    pub policy_ready: bool,
    pub inputs_detected: u32,
    pub inputs_routed: u32,
    pub default_output_name: String,
    pub last_error: String,
    pub routes: Vec<RouteStatus>,
}

impl AudioStatus {
    /// Nothing is known.
    pub open spec fn unknown(self) -> bool {
        &&& !self.pipewire_connected
        &&& !self.routing_enabled
        &&& !self.policy_ready
        &&& self.inputs_detected == 0
        &&& self.inputs_routed == 0
        &&& self.default_output_name@.len() == 0
        &&& self.last_error@.len() == 0
        &&& self.routes@.len() == 0
    }

    /// The state that an engine's report gives.
    pub open spec fn of(status: Status) -> AudioStatus {
        AudioStatus {
            pipewire_connected: status.pipewire_connected,
            routing_enabled: status.routing_enabled,
            policy_ready: status.policy_ready,
            inputs_detected: status.inputs_detected,
            inputs_routed: status.inputs_routed,
            default_output_name: status.default_output_name,
            last_error: status.last_error,
            routes: status.routes,
        }
    }

    /// Every input that there is has been routed, and there is one.
    pub open spec fn settled(self) -> bool {
        self.pipewire_connected && self.inputs_detected > 0 && self.inputs_routed
            == self.inputs_detected
    }
}

impl Default for AudioStatus {
    fn default() -> (r: Self)
        ensures
            r.unknown(),
    {
        AudioStatus {
            pipewire_connected: false,
            routing_enabled: false,
            policy_ready: false,
            inputs_detected: 0,
            inputs_routed: 0,
            default_output_name: String::new(),
            last_error: String::new(),
            routes: Vec::new(),
        }
    }
}

impl From<Status> for AudioStatus {
    fn from(value: Status) -> (r: Self) {
        AudioStatus {
            pipewire_connected: value.pipewire_connected,
            routing_enabled: value.routing_enabled,
            policy_ready: value.policy_ready,
            inputs_detected: value.inputs_detected,
            inputs_routed: value.inputs_routed,
            default_output_name: value.default_output_name,
            last_error: value.last_error,
            routes: value.routes,
        }
    }
}

impl vstd::std_specs::convert::FromSpecImpl<Status> for AudioStatus {
    open spec fn obeys_from_spec() -> bool {
        true
    }

    open spec fn from_spec(value: Status) -> AudioStatus {
        AudioStatus::of(value)
    }
}

/// The levels that the settings ask for.
pub open spec fn levels_of(config: Config) -> Levels {
    Levels {
        phone_gain: config.audio.phone_gain,
        desktop_gain: config.audio.desktop_gain,
        master_gain: config.audio.master_gain,
        phone_mute: config.audio.phone_mute,
        desktop_mute: config.audio.desktop_mute,
        master_mute: config.audio.master_mute,
    }
}

/// The levels that the settings ask for.
pub fn levels(config: &Config) -> (r: Levels)
    ensures
        r == levels_of(*config),
        r.phone_gain == config.audio.phone_gain,
        r.desktop_gain == config.audio.desktop_gain,
        r.master_gain == config.audio.master_gain,
        r.phone_mute == config.audio.phone_mute,
        r.desktop_mute == config.audio.desktop_mute,
        r.master_mute == config.audio.master_mute,
{
    Levels {
        phone_gain: config.audio.phone_gain,
        desktop_gain: config.audio.desktop_gain,
        master_gain: config.audio.master_gain,
        phone_mute: config.audio.phone_mute,
        desktop_mute: config.audio.desktop_mute,
        master_mute: config.audio.master_mute,
    }
}

/// Something that the engine is told.
#[derive(Clone, Copy, Debug, PartialEq, Eq, Structural)]
pub enum Control {
    SetLevels(Levels),
    SetEnabled(bool),
}

/// What the engine is told to have the settings applied: both, in this order, the second whatever
/// comes of the first.
#[derive(Clone, Copy, Debug, PartialEq, Eq, Structural)]
pub struct ControlPlan {
    pub first: Control,
    pub second: Control,
}

/// Levels are set before routes are opened, and routes are closed before levels are set.
pub open spec fn plan_of(config: Config) -> ControlPlan {
    if config.audio.routing_enabled {
        ControlPlan {
            first: Control::SetLevels(levels_of(config)),
            second: Control::SetEnabled(true),
        }
    } else {
        ControlPlan {
            first: Control::SetEnabled(false),
            second: Control::SetLevels(levels_of(config)),
        }
    }
}

/// What the engine is told to have the settings applied.
pub fn control_plan(config: &Config) -> (r: ControlPlan)
    ensures
        r == plan_of(*config),
        config.audio.routing_enabled ==> r.second == Control::SetEnabled(true) && (
        r.first matches Control::SetLevels(l) && l.phone_gain == config.audio.phone_gain
            && l.desktop_gain == config.audio.desktop_gain
            && l.master_gain == config.audio.master_gain
            && l.phone_mute == config.audio.phone_mute
            && l.desktop_mute == config.audio.desktop_mute
            && l.master_mute == config.audio.master_mute),
        !config.audio.routing_enabled ==> r.first == Control::SetEnabled(false) && (
        r.second matches Control::SetLevels(l) && l.phone_gain == config.audio.phone_gain
            && l.desktop_gain == config.audio.desktop_gain
            && l.master_gain == config.audio.master_gain
            && l.phone_mute == config.audio.phone_mute
            && l.desktop_mute == config.audio.desktop_mute
            && l.master_mute == config.audio.master_mute),
{
    if config.audio.routing_enabled {
        ControlPlan {
            first: Control::SetLevels(levels(config)),
            second: Control::SetEnabled(true),
        }
    } else {
        ControlPlan {
            first: Control::SetEnabled(false),
            second: Control::SetLevels(levels(config)),
        }
    }
}

/// The error of the two controls: that of the route comes before that of the volume.
pub open spec fn control_error(volume: Result<(), String>, routing: Result<(), String>) -> Option<
    Seq<char>,
> {
    match (routing, volume) {
        (Err(e), _) => Some("Route update failed: "@ + e@),
        (Ok(_), Err(e)) => Some("Software volume update failed: "@ + e@),
        (Ok(_), Ok(_)) => None,
    }
}

/// The text of an error, if there is one.
pub open spec fn error_view(r: Result<(), String>) -> Option<Seq<char>> {
    match r {
        Ok(_) => None,
        Err(e) => Some(e@),
    }
}

/// What came of telling the engine both controls.
pub fn apply_controls(volume: Result<(), String>, routing: Result<(), String>) -> (r: Result<
    (),
    String,
>)
    ensures
        error_view(r) == control_error(volume, routing),
        r is Ok <==> routing is Ok && volume is Ok,
        routing matches Err(e) ==> (r matches Err(text) && text@ == "Route update failed: "@ + e@),
        routing is Ok ==> (volume matches Err(e) ==> (r matches Err(text) && text@
            == "Software volume update failed: "@ + e@)),
{
    match routing {
        Err(e) => Err(String::from_str("Route update failed: ").concat(e.as_str())),
        Ok(()) => match volume {
            Err(e) => Err(String::from_str("Software volume update failed: ").concat(e.as_str())),
            Ok(()) => Ok(()),
        },
    }
}

/// A kind of event in the log.
#[derive(Clone, Copy, Debug, PartialEq, Eq, Structural)]
pub enum Event {
    ControllerStarted,
    ControllerStopped,
    AudioControlError,
    AudioEngineCreated,
    AudioEngineError,
    AudioTickError,
    AudioShutdownError,
    BluetoothA2dpConnectError,
}

/// An event in the log.
#[derive(Debug)]
pub struct Diagnostic {
    pub event: Event,
    pub message: String,
}

/// The name of an event.
pub open spec fn event_name(event: Event) -> Seq<char> {
    match event {
        Event::ControllerStarted => "controller_started"@,
        Event::ControllerStopped => "controller_stopped"@,
        Event::AudioControlError => "audio_control_error"@,
        Event::AudioEngineCreated => "audio_engine_created"@,
        Event::AudioEngineError => "audio_engine_error"@,
        Event::AudioTickError => "audio_tick_error"@,
        Event::AudioShutdownError => "audio_shutdown_error"@,
        Event::BluetoothA2dpConnectError => "bluetooth_a2dp_connect_error"@,
    }
}

/// The line for an event: a JSON object with its name and its message.
pub open spec fn log_line(event: Event, message: Seq<char>) -> Seq<char> {
    "{"@ + (json::quoted("event"@) + ":"@ + json::quoted(event_name(event)) + ","@ + (json::quoted(
        "message"@,
    ) + ":"@ + json::quoted(message))) + "}"@
}

impl Diagnostic {
    /// An event with its message.
    pub fn new(event: Event, message: &str) -> (r: Diagnostic)
        ensures
            r.event == event,
            r.message@ == message@,
    {
        Diagnostic { event, message: String::from_str(message) }
    }

    /// The event is of that kind and says that.
    pub open spec fn is(self, event: Event, message: Seq<char>) -> bool {
        self.event == event && self.message@ == message
    }

    fn name(&self) -> (r: &'static str)
        ensures
            r@ == event_name(self.event),
    {
        match self.event {
            Event::ControllerStarted => "controller_started",
            Event::ControllerStopped => "controller_stopped",
            Event::AudioControlError => "audio_control_error",
            Event::AudioEngineCreated => "audio_engine_created",
            Event::AudioEngineError => "audio_engine_error",
            Event::AudioTickError => "audio_tick_error",
            Event::AudioShutdownError => "audio_shutdown_error",
            Event::BluetoothA2dpConnectError => "bluetooth_a2dp_connect_error",
        }
    }

    /// The line for the log.
    pub fn line(&self) -> (r: String)
        ensures
            r@ == log_line(self.event, self.message@),
    {
        let mut fields: Vec<(String, Json)> = Vec::new();
        fields.push((String::from_str("event"), Json::Text(String::from_str(self.name()))));
        fields.push((String::from_str("message"), Json::Text(self.message.clone())));
        let object = Json::Object(fields);
        let line = json::render(&object);
        proof {
            let f = object->Object_0@;
            assert(f.drop_last() =~= seq![f[0]]);
            assert(f.drop_last().len() == 1);
            reveal_with_fuel(json::rendered_fields, 3);
            reveal_with_fuel(json::rendered, 3);
        }
        line
    }
}

/// Every event takes one line of the log.
pub proof fn events_take_one_line(event: Event, message: Seq<char>)
    ensures
        json::one_line(log_line(event, message)),
{
    json::quoted_is_one_line("event"@);
    json::quoted_is_one_line("message"@);
    json::quoted_is_one_line(event_name(event));
    json::quoted_is_one_line(message);
    reveal_strlit("{");
    reveal_strlit("}");
    reveal_strlit(":");
    reveal_strlit(",");
}

/// A line of the log tells the message that it was written for.
pub proof fn lines_tell_their_messages(event: Event, a: Seq<char>, b: Seq<char>)
    requires
        log_line(event, a) == log_line(event, b),
    ensures
        a == b,
{
    let before = "{"@ + (json::quoted("event"@) + ":"@ + json::quoted(event_name(event)) + ","@ + (
    json::quoted("message"@) + ":"@));
    let x = log_line(event, a);
    let y = log_line(event, b);
    assert(x =~= before + json::quoted(a) + "}"@);
    assert(y =~= before + json::quoted(b) + "}"@);
    let n = before.len() as int;
    let end = "}"@.len() as int;
    assert(json::quoted(a) =~= x.subrange(n, x.len() - end));
    assert(json::quoted(b) =~= y.subrange(n, y.len() - end));
    json::quoted_is_injective(a, b);
}

/// What the controller keeps: the file that it uses, the settings, whether there is an engine,
/// what is known of the audio, when an engine may next be started (in nanoseconds on the clock),
/// how long it then waits (in seconds), the last error, and whether sources were last told that
/// forwarding works.
#[derive(Debug)]
pub struct Controller {
    pub path: Vec<u8>,
    pub config: Config,
    pub engine_running: bool,
    pub audio: AudioStatus,
    pub retry_at: u128,
    pub retry_delay: u64,
    pub error: String,
    pub a2dp_enabled: bool,
}

/// What a request asks for.
#[derive(Debug)]
pub enum RequestAction {
    /// Answer at once.
    Reply(Response),
    /// Answer with the status.
    ReportStatus,
    /// Answer with the settings.
    ShowConfig,
    /// Save these settings, then go on with `Controller::on_saved`.
    Save(Config),
}

/// What follows a save.
#[derive(Debug)]
pub enum SavedAction {
    /// Answer at once.
    Reply(Response),
    /// Tell the engine, then go on with `Controller::on_controls`.
    ApplyControls(ControlPlan),
}

/// What to do on a tick of the clock.
#[derive(Clone, Copy, Debug, PartialEq, Eq, Structural)]
pub enum TickStep {
    /// Start an engine, then go on with `Controller::on_engine_created` or
    /// `Controller::on_engine_failed`.
    CreateEngine,
    /// Have the engine do its work, then go on with `Controller::on_engine_tick`.
    TickEngine,
    Finished,
}

/// The answer says that it went wrong, and why.
pub open spec fn refuses(response: Response, message: Seq<char>) -> bool {
    !response.ok && response.message@ == message && response.data is None
}

/// The answer says that it went well, and nothing else.
pub open spec fn confirms(response: Response, message: Seq<char>) -> bool {
    response.ok && response.message@ == message && response.data is None
}

/// The wait that follows a wait: twice as long, up to the longest.
pub open spec fn next_delay(delay: u64) -> u64 {
    if delay * 2 <= MAX_RETRY_SECONDS {
        (delay * 2) as u64
    } else {
        MAX_RETRY_SECONDS
    }
}

/// The answer to a client of another controller.
pub open spec fn other_config_text(path: Seq<u8>) -> Seq<char> {
    "Controller uses "@ + text::lossy(path) + "; this command requested a different config"@
}

/// The answer to a change that was saved and needs nothing more.
pub open spec fn saved_text() -> Seq<char> {
    "Configuration saved; audio state is available through status"@
}

/// The answer to a change that was saved and could not be applied.
pub open spec fn unapplied_text(error: Seq<char>) -> Seq<char> {
    "Configuration saved, but a live control could not be applied: "@ + error
}

/// The action that a request asks for, given which timers the clock can reach.
pub open spec fn acts_on(
    controller: Controller,
    request: Request,
    timers: TimerSupport,
    action: RequestAction,
) -> bool {
    if !path::equivalent(request.config_path@, controller.path@) {
        action matches RequestAction::Reply(r) && refuses(r, other_config_text(controller.path@))
    } else {
        match request.command {
            Command::Status => action is ReportStatus,
            Command::ConfigShow => action is ShowConfig,
            command => match ipc::command_verdict(controller.config, command, timers) {
                Ok(_) => action == RequestAction::Save(
                    ipc::commanded(controller.config, command),
                ),
                Err(e) => action matches RequestAction::Reply(r) && refuses(
                    r,
                    ipc::command_text(e),
                ),
            },
        }
    }
}

impl Controller {
    /// The settings hold to the rules, the wait is a sensible one, and nothing is claimed of the
    /// audio while there is no engine.
    pub open spec fn wf(self) -> bool {
        &&& self.config.sound()
        &&& 1 <= self.retry_delay <= MAX_RETRY_SECONDS
        &&& !self.engine_running ==> self.audio.unknown()
    }

    /// A controller that has just been started.
    pub fn new(path: Vec<u8>, config: Config, now: u64) -> (r: Controller)
        requires
            config.sound(),
        ensures
            r.wf(),
            r.path == path,
            r.config == config,
            !r.engine_running,
            r.retry_at == now,
            r.retry_delay == 1,
            r.error@.len() == 0,
            !r.a2dp_enabled,
    {
        Controller {
            path,
            config,
            engine_running: false,
            audio: AudioStatus::default(),
            retry_at: now as u128,
            retry_delay: 1,
            error: String::new(),
            a2dp_enabled: false,
        }
    }

    /// The action that a request asks for, given which timers the clock can reach. The controller
    /// itself does not change.
    pub fn decide(&self, request: &Request, timers: TimerSupport) -> (r: RequestAction)
        ensures
            acts_on(*self, *request, timers, r),
    {
        if !path::same_path(request.config_path.as_slice(), self.path.as_slice()) {
            let message = String::from_str("Controller uses ").concat(
                text::lossy_text(self.path.as_slice()).as_str(),
            ).concat("; this command requested a different config");
            return RequestAction::Reply(Response::error(message.as_str()));
        }
        match request.command {
            Command::Status => RequestAction::ReportStatus,
            Command::ConfigShow => RequestAction::ShowConfig,
            command => {
                let mut updated = self.config.clone();
                match ipc::apply_checked(&mut updated, &command, timers) {
                    Err(e) => RequestAction::Reply(Response::error(e.message().as_str())),
                    Ok(()) => RequestAction::Save(updated),
                }
            },
        }
    }

    /// The action that a request asks for, with the clock as it stands.
    pub fn on_request(&self, request: &Request) -> (r: RequestAction)
        ensures
            exists|timers: TimerSupport|
                self.config.bluetooth.answered(timers) && #[trigger] acts_on(
                    *self,
                    *request,
                    timers,
                    r,
                ),
            r matches RequestAction::Save(updated) ==> updated.sound(),
    {
        let timers = self.config.bluetooth.timer_support();
        let r = self.decide(request, timers);
        assert(acts_on(*self, *request, timers, r));
        r
    }

    /// Takes up settings that were saved. Settings that could not be saved are not taken up.
    pub fn on_saved(&mut self, updated: Config, saved: Result<(), String>) -> (r: SavedAction)
        requires
            old(self).wf(),
            updated.sound(),
        ensures
            final(self).wf(),
            final(self).path == old(self).path,
            final(self).engine_running == old(self).engine_running,
            final(self).audio == old(self).audio,
            final(self).retry_at == old(self).retry_at,
            final(self).retry_delay == old(self).retry_delay,
            final(self).error == old(self).error,
            final(self).a2dp_enabled == old(self).a2dp_enabled,
            match saved {
                Err(e) => final(self).config == old(self).config && (r matches SavedAction::Reply(
                    response,
                ) && refuses(response, e@)),
                Ok(_) => final(self).config == updated && if old(self).engine_running {
                    r == SavedAction::ApplyControls(plan_of(updated))
                } else {
                    r matches SavedAction::Reply(response) && confirms(response, saved_text())
                },
            },
    {
        match saved {
            Err(e) => SavedAction::Reply(Response::error(e.as_str())),
            Ok(()) => {
                self.config = updated;
                if self.engine_running {
                    SavedAction::ApplyControls(control_plan(&self.config))
                } else {
                    SavedAction::Reply(
                        Response::success(
                            "Configuration saved; audio state is available through status",
                            None,
                        ),
                    )
                }
            },
        }
    }

    /// Takes up what came of telling the engine, and answers the request.
    pub fn on_controls(&mut self, outcome: Result<(), String>, status: Status) -> (r: (
        Response,
        Option<Diagnostic>,
    ))
        requires
            old(self).wf(),
            old(self).engine_running,
        ensures
            final(self).wf(),
            final(self).path == old(self).path,
            final(self).config == old(self).config,
            final(self).engine_running,
            final(self).audio == AudioStatus::of(status),
            final(self).retry_at == old(self).retry_at,
            final(self).retry_delay == old(self).retry_delay,
            final(self).a2dp_enabled == old(self).a2dp_enabled,
            match outcome {
                Err(e) => {
                    &&& final(self).error@ == e@
                    &&& refuses(r.0, unapplied_text(e@))
                    &&& r.1 matches Some(d) && d.is(Event::AudioControlError, e@)
                },
                Ok(_) => {
                    &&& final(self).error@.len() == 0
                    &&& confirms(r.0, saved_text())
                    &&& r.1 is None
                },
            },
    {
        self.audio = AudioStatus::from(status);
        match outcome {
            Err(e) => {
                let diagnostic = Diagnostic::new(Event::AudioControlError, e.as_str());
                let message = String::from_str(
                    "Configuration saved, but a live control could not be applied: ",
                ).concat(e.as_str());
                self.error = e;
                (Response::error(message.as_str()), Some(diagnostic))
            },
            Ok(()) => {
                self.error = String::new();
                (
                    Response::success(
                        "Configuration saved; audio state is available through status",
                        None,
                    ),
                    None,
                )
            },
        }
    }

    /// What a tick starts with: an engine is started when there is none and the wait is over.
    pub open spec fn first_step(self, now: u64) -> TickStep {
        if self.engine_running {
            TickStep::TickEngine
        } else if now >= self.retry_at {
            TickStep::CreateEngine
        } else {
            TickStep::Finished
        }
    }

    /// What a tick starts with.
    pub fn on_tick(&self, now: u64) -> (r: TickStep)
        ensures
            r == self.first_step(now),
    {
        if self.engine_running {
            TickStep::TickEngine
        } else if now as u128 >= self.retry_at {
            TickStep::CreateEngine
        } else {
            TickStep::Finished
        }
    }

    /// Takes up an engine that was started, with the error of its first controls. It is to do
    /// its work at once.
    pub fn on_engine_created(&mut self, control_error: Option<String>) -> (r: (
        TickStep,
        Vec<Diagnostic>,
    ))
        requires
            old(self).wf(),
            !old(self).engine_running,
        ensures
            final(self).wf(),
            final(self).path == old(self).path,
            final(self).config == old(self).config,
            final(self).engine_running,
            final(self).audio == old(self).audio,
            final(self).retry_at == old(self).retry_at,
            final(self).retry_delay == old(self).retry_delay,
            final(self).a2dp_enabled == old(self).a2dp_enabled,
            final(self).error@ == (match control_error {
                Some(e) => e@,
                None => Seq::empty(),
            }),
            r.0 == TickStep::TickEngine,
            ({
                let created =
                    "Waiting for Bluetooth audio and the output selected by Ubuntu"@;
                if final(self).error@.len() > 0 {
                    r.1@.len() == 2 && r.1@[0].is(Event::AudioControlError, final(self).error@)
                        && r.1@[1].is(Event::AudioEngineCreated, created)
                } else {
                    r.1@.len() == 1 && r.1@[0].is(Event::AudioEngineCreated, created)
                }
            }),
    {
        self.engine_running = true;
        self.error = match control_error {
            Some(e) => e,
            None => String::new(),
        };
        let mut diagnostics: Vec<Diagnostic> = Vec::new();
        if !self.error.as_str().is_empty() {
            diagnostics.push(Diagnostic::new(Event::AudioControlError, self.error.as_str()));
        }
        diagnostics.push(
            Diagnostic::new(
                Event::AudioEngineCreated,
                "Waiting for Bluetooth audio and the output selected by Ubuntu",
            ),
        );
        (TickStep::TickEngine, diagnostics)
    }

    /// The controller waits before the next engine, and longer after that.
    pub open spec fn waits(self, before: Controller, now: u64) -> bool {
        &&& self.retry_at == now + before.retry_delay * 1_000_000_000
        &&& self.retry_delay == next_delay(before.retry_delay)
    }

    fn wait(&mut self, now: u64)
        requires
            1 <= old(self).retry_delay <= MAX_RETRY_SECONDS,
        ensures
            final(self).waits(*old(self), now),
            1 <= final(self).retry_delay <= MAX_RETRY_SECONDS,
            final(self).path == old(self).path,
            final(self).config == old(self).config,
            final(self).engine_running == old(self).engine_running,
            final(self).audio == old(self).audio,
            final(self).error == old(self).error,
            final(self).a2dp_enabled == old(self).a2dp_enabled,
    {
        self.retry_at = now as u128 + self.retry_delay as u128 * 1_000_000_000u128;
        let doubled: u64 = self.retry_delay * 2;
        self.retry_delay = if doubled <= MAX_RETRY_SECONDS {
            doubled
        } else {
            MAX_RETRY_SECONDS
        };
    }

    /// Takes up that no engine could be started. The error is logged unless it is the last one.
    pub fn on_engine_failed(&mut self, error: String, now: u64) -> (r: (TickStep, Option<Diagnostic>))
        requires
            old(self).wf(),
            !old(self).engine_running,
        ensures
            final(self).wf(),
            final(self).path == old(self).path,
            final(self).config == old(self).config,
            !final(self).engine_running,
            final(self).audio == old(self).audio,
            final(self).a2dp_enabled == old(self).a2dp_enabled,
            final(self).error@ == error@,
            final(self).waits(*old(self), now),
            r.0 == TickStep::Finished,
            r.1 is Some <==> old(self).error@ != error@,
            r.1 matches Some(d) ==> d.is(Event::AudioEngineError, error@),
    {
        let diagnostic = if text::same(self.error.as_str(), error.as_str()) {
            None
        } else {
            Some(Diagnostic::new(Event::AudioEngineError, error.as_str()))
        };
        self.error = error;
        self.wait(now);
        (TickStep::Finished, diagnostic)
    }

    /// Takes up what came of the engine's work: its report, or the error that ends it.
    pub fn on_engine_tick(&mut self, outcome: Result<Status, String>, now: u64) -> (r: Option<
        Diagnostic,
    >)
        requires
            old(self).wf(),
            old(self).engine_running,
        ensures
            final(self).wf(),
            final(self).path == old(self).path,
            final(self).config == old(self).config,
            final(self).a2dp_enabled == old(self).a2dp_enabled,
            match outcome {
                Err(error) => {
                    &&& !final(self).engine_running
                    &&& final(self).audio.unknown()
                    &&& final(self).error@ == error@
                    &&& final(self).waits(*old(self), now)
                    &&& r is Some <==> old(self).error@ != error@
                    &&& r matches Some(d) ==> d.is(Event::AudioTickError, error@)
                },
                Ok(status) => {
                    &&& final(self).engine_running
                    &&& final(self).audio == AudioStatus::of(status)
                    &&& final(self).retry_at == old(self).retry_at
                    &&& final(self).retry_delay == (if AudioStatus::of(status).settled() {
                        1
                    } else {
                        old(self).retry_delay
                    })
                    &&& final(self).error@ == (if status.last_error@.len() == 0 {
                        Seq::empty()
                    } else {
                        old(self).error@
                    })
                    &&& r is None
                },
            },
    {
        match outcome {
            Err(error) => {
                let diagnostic = if text::same(self.error.as_str(), error.as_str()) {
                    None
                } else {
                    Some(Diagnostic::new(Event::AudioTickError, error.as_str()))
                };
                self.error = error;
                self.engine_running = false;
                self.audio = AudioStatus::default();
                self.wait(now);
                diagnostic
            },
            Ok(status) => {
                self.audio = AudioStatus::from(status);
                if self.audio.last_error.as_str().is_empty() {
                    self.error = String::new();
                }
                if self.audio.pipewire_connected && self.audio.inputs_detected > 0
                    && self.audio.inputs_routed == self.audio.inputs_detected {
                    self.retry_delay = 1;
                }
                None
            },
        }
    }

    /// Sources are to send audio: forwarding is on and there is something to forward it to.
    pub open spec fn wants_a2dp(self) -> bool {
        self.config.audio.routing_enabled && self.audio.pipewire_connected
    }

    /// After each event: what sources are to be told, if it has changed.
    pub fn publish(&mut self) -> (r: Option<bool>)
        requires
            old(self).wf(),
        ensures
            final(self).wf(),
            final(self).a2dp_enabled == old(self).wants_a2dp(),
            final(self).a2dp_enabled == (old(self).config.audio.routing_enabled && old(
                self,
            ).audio.pipewire_connected),
            r is Some <==> final(self).a2dp_enabled != old(self).a2dp_enabled,
            r matches Some(told) ==> told == final(self).a2dp_enabled,
            r == (if old(self).a2dp_enabled == old(self).wants_a2dp() {
                None::<bool>
            } else {
                Some(old(self).wants_a2dp())
            }),
            final(self).path == old(self).path,
            final(self).config == old(self).config,
            final(self).engine_running == old(self).engine_running,
            final(self).audio == old(self).audio,
            final(self).retry_at == old(self).retry_at,
            final(self).retry_delay == old(self).retry_delay,
            final(self).error == old(self).error,
    {
        let next = self.config.audio.routing_enabled && self.audio.pipewire_connected;
        if self.a2dp_enabled == next {
            return None;
        }
        self.a2dp_enabled = next;
        Some(next)
    }

    /// The controller stops: sources are told that forwarding is off, and the routes of the
    /// engine, if there is one, are to be closed before it is released.
    pub fn on_stop(&mut self) -> (r: Option<Control>)
        ensures
            !final(self).a2dp_enabled,
            !final(self).engine_running,
            r == (if old(self).engine_running {
                Some(Control::SetEnabled(false))
            } else {
                None
            }),
            final(self).path == old(self).path,
            final(self).config == old(self).config,
            final(self).audio == old(self).audio,
            final(self).retry_at == old(self).retry_at,
            final(self).retry_delay == old(self).retry_delay,
            final(self).error == old(self).error,
    {
        self.a2dp_enabled = false;
        if self.engine_running {
            self.engine_running = false;
            Some(Control::SetEnabled(false))
        } else {
            None
        }
    }
}

/// The log of a start.
pub fn start_diagnostic(path: &[u8]) -> (r: Diagnostic)
    ensures
        r.is(Event::ControllerStarted, text::lossy(path@)),
{
    Diagnostic::new(Event::ControllerStarted, text::lossy_text(path).as_str())
}

/// The log of a stop, with the error of closing the routes.
pub fn stop_diagnostics(closed: Result<(), String>) -> (r: Vec<Diagnostic>)
    ensures
        ({
            let stopped = "Project-owned audio resources released"@;
            match closed {
                Err(e) => r@.len() == 2 && r@[0].is(Event::AudioShutdownError, e@) && r@[1].is(
                    Event::ControllerStopped,
                    stopped,
                ),
                Ok(_) => r@.len() == 1 && r@[0].is(Event::ControllerStopped, stopped),
            }
        }),
{
    let mut diagnostics: Vec<Diagnostic> = Vec::new();
    if let Err(e) = closed {
        diagnostics.push(Diagnostic::new(Event::AudioShutdownError, e.as_str()));
    }
    diagnostics.push(
        Diagnostic::new(Event::ControllerStopped, "Project-owned audio resources released"),
    );
    diagnostics
}

/// A request is answered without a change of settings if it comes for another controller, asks
/// for nothing but a look, or is refused; otherwise the settings that are saved are those that
/// its command gives, and they hold to the rules.
pub proof fn only_sound_changes_are_saved(
    controller: Controller,
    request: Request,
    timers: TimerSupport,
    action: RequestAction,
)
    requires
        acts_on(controller, request, timers, action),
    ensures
        action matches RequestAction::Save(updated) ==> {
            &&& path::equivalent(request.config_path@, controller.path@)
            &&& ipc::objection(request.command) is None
            &&& updated == ipc::commanded(controller.config, request.command)
            &&& updated.sound()
        },
        !path::equivalent(request.config_path@, controller.path@) ==> (
        action matches RequestAction::Reply(r) && !r.ok),
        ipc::objection(request.command) matches Some(CommandError::Invalid(_)) ==> (
        action matches RequestAction::Reply(r) && !r.ok),
{
}

/// The wait after that many failures in a row, from the first wait of a second.
pub open spec fn delay_after(failures: nat) -> u64
    decreases failures,
{
    if failures == 0 {
        1
    } else {
        next_delay(delay_after((failures - 1) as nat))
    }
}

/// Waits double from one second up to the longest.
pub proof fn waits_double(failures: nat)
    ensures
        delay_after(failures) == (if pow2(failures) <= MAX_RETRY_SECONDS {
            pow2(failures) as u64
        } else {
            MAX_RETRY_SECONDS
        }),
        1 <= delay_after(failures) <= MAX_RETRY_SECONDS,
        failures > 0 ==> delay_after((failures - 1) as nat) <= delay_after(failures),
    decreases failures,
{
    lemma2_to64();
    if failures > 0 {
        waits_double((failures - 1) as nat);
        lemma_pow2_unfold(failures);
        lemma_pow2_pos((failures - 1) as nat);
    }
}

/// After a failure no engine is started before the wait is over, and one is started then.
pub proof fn engines_wait(before: Controller, after: Controller, failed: u64, now: u64)
    requires
        after.waits(before, failed),
        !after.engine_running,
    ensures
        now < failed + before.retry_delay * 1_000_000_000 ==> after.first_step(now)
            == TickStep::Finished,
        now >= failed + before.retry_delay * 1_000_000_000 ==> after.first_step(now)
            == TickStep::CreateEngine,
{
}

/// Without an engine, sources are never told to send audio.
pub proof fn sources_wait_for_an_engine(controller: Controller)
    requires
        controller.wf(),
        !controller.engine_running,
    ensures
        !controller.wants_a2dp(),
{
}

/// Routes are opened only once the levels are set, and closed before anything else.
pub proof fn levels_come_before_open_routes(config: Config)
    ensures
        plan_of(config).second == Control::SetEnabled(true) ==> plan_of(config).first
            == Control::SetLevels(levels_of(config)),
        plan_of(config).first != Control::SetEnabled(true),
        !config.audio.routing_enabled ==> plan_of(config).first == Control::SetEnabled(false),
        config.audio.routing_enabled ==> plan_of(config).second == Control::SetEnabled(true),
{
}

/// A failure to close or open routes is reported whatever comes of the volume.
pub proof fn route_errors_come_first(volume: Result<(), String>, routing: Result<(), String>)
    ensures
        control_error(volume, routing) is None <==> volume is Ok && routing is Ok,
        routing matches Err(e) ==> control_error(volume, routing) == Some(
            "Route update failed: "@ + e@,
        ),
{
}

/// Sources are told that forwarding works exactly while forwarding is on and PipeWire is
/// connected. Nothing else matters, the inputs that there are least of all: a source is asked so
/// that there is one.
pub proof fn sources_are_told_of_forwarding(controller: Controller)
    ensures
        controller.wants_a2dp() <==> controller.config.audio.routing_enabled
            && controller.audio.pipewire_connected,
{
}

/// Two controllers that agree on forwarding and on PipeWire tell sources the same.
pub proof fn sources_are_told_alike(a: Controller, b: Controller)
    requires
        a.config.audio.routing_enabled == b.config.audio.routing_enabled,
        a.audio.pipewire_connected == b.audio.pipewire_connected,
    ensures
        a.wants_a2dp() == b.wants_a2dp(),
{
}

/// The engine is told each gain and each mute as the settings hold it.
pub proof fn levels_are_those_of_the_settings(config: Config)
    ensures
        levels_of(config).phone_gain == config.audio.phone_gain,
        levels_of(config).desktop_gain == config.audio.desktop_gain,
        levels_of(config).master_gain == config.audio.master_gain,
        levels_of(config).phone_mute == config.audio.phone_mute,
        levels_of(config).desktop_mute == config.audio.desktop_mute,
        levels_of(config).master_mute == config.audio.master_mute,
{
}

/// A gain or a mute that is commanded for a channel is what the engine is told for that channel,
/// and what it is told for the others stays.
pub proof fn commanded_levels_reach_the_engine(config: Config, value: Gain, muted: bool)
    requires
        value.in_range(),
    ensures
        ({
            let after = levels_of(
                ipc::commanded(config, Command::Volume { channel: Channel::Phone, value }),
            );
            &&& after.phone_gain == value
            &&& after.desktop_gain == config.audio.desktop_gain
            &&& after.master_gain == config.audio.master_gain
            &&& after.phone_mute == config.audio.phone_mute
            &&& after.desktop_mute == config.audio.desktop_mute
            &&& after.master_mute == config.audio.master_mute
        }),
        ({
            let after = levels_of(
                ipc::commanded(config, Command::Volume { channel: Channel::Desktop, value }),
            );
            &&& after.desktop_gain == value
            &&& after.phone_gain == config.audio.phone_gain
            &&& after.master_gain == config.audio.master_gain
            &&& after.phone_mute == config.audio.phone_mute
            &&& after.desktop_mute == config.audio.desktop_mute
            &&& after.master_mute == config.audio.master_mute
        }),
        ({
            let after = levels_of(
                ipc::commanded(config, Command::Volume { channel: Channel::Master, value }),
            );
            &&& after.master_gain == value
            &&& after.phone_gain == config.audio.phone_gain
            &&& after.desktop_gain == config.audio.desktop_gain
            &&& after.phone_mute == config.audio.phone_mute
            &&& after.desktop_mute == config.audio.desktop_mute
            &&& after.master_mute == config.audio.master_mute
        }),
        ({
            let after = levels_of(
                ipc::commanded(config, Command::Mute { channel: Channel::Phone, muted }),
            );
            &&& after.phone_mute == muted
            &&& after.phone_gain == config.audio.phone_gain
            &&& after.desktop_gain == config.audio.desktop_gain
            &&& after.master_gain == config.audio.master_gain
            &&& after.desktop_mute == config.audio.desktop_mute
            &&& after.master_mute == config.audio.master_mute
        }),
        ({
            let after = levels_of(
                ipc::commanded(config, Command::Mute { channel: Channel::Desktop, muted }),
            );
            &&& after.desktop_mute == muted
            &&& after.phone_gain == config.audio.phone_gain
            &&& after.desktop_gain == config.audio.desktop_gain
            &&& after.master_gain == config.audio.master_gain
            &&& after.phone_mute == config.audio.phone_mute
            &&& after.master_mute == config.audio.master_mute
        }),
        ({
            let after = levels_of(
                ipc::commanded(config, Command::Mute { channel: Channel::Master, muted }),
            );
            &&& after.master_mute == muted
            &&& after.phone_gain == config.audio.phone_gain
            &&& after.desktop_gain == config.audio.desktop_gain
            &&& after.master_gain == config.audio.master_gain
            &&& after.phone_mute == config.audio.phone_mute
            &&& after.desktop_mute == config.audio.desktop_mute
        }),
{
}

/// Both controls are told, once each: the levels of the settings and whether to forward. To open
/// the routes the levels come first, to close them the routes do.
pub proof fn plans_tell_levels_and_forwarding(config: Config)
    ensures
        ({
            let plan = plan_of(config);
            let on = config.audio.routing_enabled;
            let (levels, switch) = if on {
                (plan.first, plan.second)
            } else {
                (plan.second, plan.first)
            };
            &&& switch == Control::SetEnabled(on)
            &&& levels is SetLevels
            &&& levels->SetLevels_0.phone_gain == config.audio.phone_gain
            &&& levels->SetLevels_0.desktop_gain == config.audio.desktop_gain
            &&& levels->SetLevels_0.master_gain == config.audio.master_gain
            &&& levels->SetLevels_0.phone_mute == config.audio.phone_mute
            &&& levels->SetLevels_0.desktop_mute == config.audio.desktop_mute
            &&& levels->SetLevels_0.master_mute == config.audio.master_mute
        }),
{
}

/// An error of a result is its text.
pub proof fn errors_show_their_texts(r: Result<(), String>)
    ensures
        r is Ok ==> error_view(r) is None,
        r matches Err(e) ==> error_view(r) == Some(e@),
{
}

/// The error of the volume is told only where the routes went well.
pub proof fn volume_errors_come_second(volume: Result<(), String>, routing: Result<(), String>)
    ensures
        routing is Ok ==> (volume matches Err(e) ==> control_error(volume, routing) == Some(
            "Software volume update failed: "@ + e@,
        )),
        routing is Ok && volume is Ok ==> control_error(volume, routing) is None,
        routing matches Err(e) ==> control_error(volume, routing) == Some(
            "Route update failed: "@ + e@,
        ),
{
}

/// The audio is reported as the engine reports it, and is settled exactly if PipeWire is
/// connected and every input of at least one is routed.
pub proof fn audio_is_what_the_engine_reports(status: Status)
    ensures
        AudioStatus::of(status).pipewire_connected == status.pipewire_connected,
        AudioStatus::of(status).routing_enabled == status.routing_enabled,
        AudioStatus::of(status).policy_ready == status.policy_ready,
        AudioStatus::of(status).inputs_detected == status.inputs_detected,
        AudioStatus::of(status).inputs_routed == status.inputs_routed,
        AudioStatus::of(status).default_output_name == status.default_output_name,
        AudioStatus::of(status).last_error == status.last_error,
        AudioStatus::of(status).routes == status.routes,
        AudioStatus::of(status).settled() <==> status.pipewire_connected && status.inputs_detected
            > 0 && status.inputs_routed == status.inputs_detected,
{
}

/// Of audio that is not known nothing is claimed.
pub proof fn unknown_audio_claims_nothing(audio: AudioStatus)
    ensures
        audio.unknown() <==> {
            &&& !audio.pipewire_connected
            &&& !audio.routing_enabled
            &&& !audio.policy_ready
            &&& audio.inputs_detected == 0
            &&& audio.inputs_routed == 0
            &&& audio.default_output_name@.len() == 0
            &&& audio.last_error@.len() == 0
            &&& audio.routes@.len() == 0
        },
{
}

/// After a failure the controller waits for its present wait, and the next wait is twice as long,
/// but no longer than half a minute.
pub proof fn waits_are_as_long_as_they_say(before: Controller, after: Controller, now: u64)
    requires
        before.wf(),
        after.waits(before, now),
    ensures
        after.retry_at == now + before.retry_delay * 1_000_000_000,
        before.retry_delay <= 15 ==> after.retry_delay == before.retry_delay * 2,
        before.retry_delay > 15 ==> after.retry_delay == 30,
{
}

/// A controller holds sound settings, waits between one and thirty seconds, and claims nothing of
/// the audio without an engine.
pub proof fn controllers_are_well_formed(controller: Controller)
    ensures
        controller.wf() <==> {
            &&& controller.config.sound()
            &&& 1 <= controller.retry_delay <= 30
            &&& controller.engine_running || controller.audio.unknown()
        },
{
}

/// On a tick an engine that runs does its work, and one that does not is started once its time
/// has come.
pub proof fn ticks_start_or_run_the_engine(controller: Controller, now: u64)
    ensures
        controller.first_step(now) == TickStep::TickEngine <==> controller.engine_running,
        controller.first_step(now) == TickStep::CreateEngine <==> !controller.engine_running && now
            >= controller.retry_at,
        controller.first_step(now) == TickStep::Finished <==> !controller.engine_running && now
            < controller.retry_at,
{
}

/// A request for this controller gets what it asks for: the status, the settings, or a change,
/// which is saved exactly if it has no objection and the changed settings are accepted, and is
/// refused with the reason otherwise. A request for another controller is refused.
pub proof fn requests_get_what_they_ask_for(
    controller: Controller,
    request: Request,
    timers: TimerSupport,
    action: RequestAction,
)
    requires
        acts_on(controller, request, timers, action),
    ensures
        ({
            let same = path::equivalent(request.config_path@, controller.path@);
            let change = !(request.command is Status) && !(request.command is ConfigShow);
            let updated = ipc::commanded(controller.config, request.command);
            let fine = ipc::objection(request.command) is None && updated.verdict(timers) is Ok;
            &&& action is ReportStatus <==> same && request.command is Status
            &&& action is ShowConfig <==> same && request.command is ConfigShow
            &&& action is Save <==> same && change && fine
            &&& action is Save ==> action->Save_0 == updated
            &&& action is Reply ==> !action->Reply_0.ok && action->Reply_0.data is None
            &&& !same ==> action is Reply && action->Reply_0.message@ == "Controller uses "@
                + text::lossy(controller.path@) + "; this command requested a different config"@
            &&& same && change && ipc::objection(request.command) is Some ==> action is Reply
                && action->Reply_0.message@ == ipc::command_text(
                ipc::objection(request.command)->0,
            )
            &&& same && change && ipc::objection(request.command) is None && updated.verdict(
                timers,
            ) is Err ==> action is Reply && action->Reply_0.message@ == ipc::command_text(
                CommandError::Invalid(updated.verdict(timers)->Err_0),
            )
        }),
{
    ipc::objections_are_few(request.command);
}

/// The answers to a change say that it was saved, or that it was saved and could not be applied.
pub proof fn answers_to_changes(response: Response, message: Seq<char>, error: Seq<char>)
    ensures
        refuses(response, message) <==> !response.ok && response.message@ == message
            && response.data is None,
        confirms(response, message) <==> response.ok && response.message@ == message
            && response.data is None,
        saved_text() == "Configuration saved; audio state is available through status"@,
        unapplied_text(error)
            == "Configuration saved, but a live control could not be applied: "@ + error,
{
}

/// A logged event has the kind and the message that it says.
pub proof fn events_are_what_they_say(diagnostic: Diagnostic, event: Event, message: Seq<char>)
    ensures
        diagnostic.is(event, message) <==> diagnostic.event == event && diagnostic.message@
            == message,
        log_line(event, message) == "{"@ + (json::quoted("event"@) + ":"@ + json::quoted(
            event_name(event),
        ) + ","@ + (json::quoted("message"@) + ":"@ + json::quoted(message))) + "}"@,
{
}

/// The controller's own times and limits.
pub proof fn times_of_the_controller()
    ensures
        TICK_MILLISECONDS == 100,
        REQUEST_QUEUE == 16,
        MAX_RETRY_SECONDS == 30,
{
}

} // verus!
