//! What passes between the controller and the native audio engine.
use crate::gain::Gain;
use crate::text;
use vstd::prelude::*;
use vstd::slice::*;
use vstd::string::*;

verus! {

/// The levels that the engine applies to the groups of streams.
#[derive(Clone, Copy, Debug, PartialEq, Eq, Structural)]
pub struct Levels {
    pub phone_gain: Gain,
    pub desktop_gain: Gain,
    pub master_gain: Gain,
    pub phone_mute: bool,
    pub desktop_mute: bool,
    pub master_mute: bool,
}

/// The levels as the engine takes them: a mute is a byte, one for muted.
#[derive(Clone, Copy, Debug, PartialEq, Eq, Structural)]
pub struct NativeLevels {
    pub phone_gain: Gain,
    pub desktop_gain: Gain,
    pub master_gain: Gain,
    pub phone_mute: u8,
    pub desktop_mute: u8,
    pub master_mute: u8,
}

/// What the engine reports of itself.
#[derive(Debug)]
pub struct Status {
    pub pipewire_connected: bool,
    pub routing_enabled: bool,
    pub policy_ready: bool,
    pub inputs_detected: u32,
    pub inputs_routed: u32,
    pub default_output_name: String,
    pub last_error: String,
    pub routes: Vec<RouteStatus>,
}

/// What the engine reports of one input.
#[derive(Debug)]
pub struct RouteStatus {
    pub input_name: String,
    pub input_address: String,
    pub output_name: String,
    pub ready: bool,
    pub codec: String,
    pub sample_rate: u32,
    pub channels: u32,
    pub last_error: String,
}

/// The engine's report as it gives it: flags are bytes, texts are zero-terminated buffers.
#[derive(Debug)]
pub struct NativeStatus {
    pub pipewire_connected: u8,
    pub routing_enabled: u8,
    pub policy_ready: u8,
    pub inputs_detected: u32,
    pub inputs_routed: u32,
    pub default_output_name: Vec<u8>,
    pub last_error: Vec<u8>,
}

/// The engine's report of one input as it gives it.
#[derive(Debug)]
pub struct NativeRouteStatus {
    pub input_name: Vec<u8>,
    pub input_address: Vec<u8>,
    pub output_name: Vec<u8>,
    pub ready: u8,
    pub codec: Vec<u8>,
    pub sample_rate: u32,
    pub channels: u32,
    pub last_error: Vec<u8>,
}

/// The bytes before the first zero.
pub open spec fn until_zero(raw: Seq<u8>) -> Seq<u8>
    decreases raw.len(),
{
    if raw.len() == 0 || raw[0] == 0 {
        Seq::empty()
    } else {
        seq![raw[0]] + until_zero(raw.drop_first())
    }
}

/// The text in a zero-terminated buffer.
pub open spec fn buffer_text(raw: Seq<u8>) -> Seq<char> {
    text::lossy(until_zero(raw))
}

proof fn until_zero_of_prefix(raw: Seq<u8>, n: int)
    requires
        0 <= n <= raw.len(),
        forall|i: int| 0 <= i < n ==> raw[i] != 0,
        n < raw.len() ==> raw[n] == 0,
    ensures
        until_zero(raw) == raw.take(n),
    decreases n,
{
    if n == 0 {
        assert(raw.take(0) =~= Seq::<u8>::empty());
    } else {
        assert(raw[0] != 0);
        assert forall|i: int| 0 <= i < n - 1 implies raw.drop_first()[i] != 0 by {
            assert(raw.drop_first()[i] == raw[i + 1]);
        }
        until_zero_of_prefix(raw.drop_first(), n - 1);
        assert(raw.take(n) =~= seq![raw[0]] + raw.drop_first().take(n - 1));
    }
}

/// The text in a zero-terminated buffer.
pub fn native_text(raw: &[u8]) -> (r: String)
    ensures
        r@ == buffer_text(raw@),
{
    let mut n: usize = 0;
    while n < raw.len() && raw[n] != 0
        invariant
            n <= raw@.len(),
            forall|i: int| 0 <= i < n ==> raw@[i] != 0,
        decreases raw@.len() - n,
    {
        n = n + 1;
    }
    proof {
        until_zero_of_prefix(raw@, n as int);
    }
    text::lossy_text(slice_subrange(raw, 0, n))
}

/// What a call into the engine came to: zero is success, anything else comes with a text.
pub fn native_result(code: i32, error: &[u8]) -> (r: Result<(), String>)
    ensures
        r is Ok <==> code == 0,
        r matches Err(message) ==> message@ == buffer_text(error@),
{
    if code == 0 {
        Ok(())
    } else {
        Err(native_text(error))
    }
}

/// The byte for a flag.
pub open spec fn flag_byte(flag: bool) -> u8 {
    if flag {
        1
    } else {
        0
    }
}

fn byte_of(flag: bool) -> (r: u8)
    ensures
        r == flag_byte(flag),
{
    if flag {
        1
    } else {
        0
    }
}

impl Levels {
    /// The levels as the engine takes them.
    pub fn native(&self) -> (r: NativeLevels)
        ensures
            r == (NativeLevels {
                phone_gain: self.phone_gain,
                desktop_gain: self.desktop_gain,
                master_gain: self.master_gain,
                phone_mute: flag_byte(self.phone_mute),
                desktop_mute: flag_byte(self.desktop_mute),
                master_mute: flag_byte(self.master_mute),
            }),
    {
        NativeLevels {
            phone_gain: self.phone_gain,
            desktop_gain: self.desktop_gain,
            master_gain: self.master_gain,
            phone_mute: byte_of(self.phone_mute),
            desktop_mute: byte_of(self.desktop_mute),
            master_mute: byte_of(self.master_mute),
        }
    }
}

impl RouteStatus {
    /// The report says what the engine gave.
    pub open spec fn reports(self, native: NativeRouteStatus) -> bool {
        &&& self.input_name@ == buffer_text(native.input_name@)
        &&& self.input_address@ == buffer_text(native.input_address@)
        &&& self.output_name@ == buffer_text(native.output_name@)
        &&& self.ready == (native.ready != 0)
        &&& self.codec@ == buffer_text(native.codec@)
        &&& self.sample_rate == native.sample_rate
        &&& self.channels == native.channels
        &&& self.last_error@ == buffer_text(native.last_error@)
    }

    /// The report of one input.
    pub fn from_native(native: &NativeRouteStatus) -> (r: RouteStatus)
        ensures
            r.reports(*native),
    {
        RouteStatus {
            input_name: native_text(native.input_name.as_slice()),
            input_address: native_text(native.input_address.as_slice()),
            output_name: native_text(native.output_name.as_slice()),
            ready: native.ready != 0,
            codec: native_text(native.codec.as_slice()),
            sample_rate: native.sample_rate,
            channels: native.channels,
            last_error: native_text(native.last_error.as_slice()),
        }
    }
}

/// The inputs that the engine gave a report of, in order.
pub open spec fn given(routes: Seq<Option<NativeRouteStatus>>) -> Seq<NativeRouteStatus>
    decreases routes.len(),
{
    if routes.len() == 0 {
        Seq::empty()
    } else {
        match routes.last() {
            Some(route) => given(routes.drop_last()).push(route),
            None => given(routes.drop_last()),
        }
    }
}

impl Status {
    /// The report says what the engine gave, of the inputs those that it could report.
    pub open spec fn reports(
        self,
        native: NativeStatus,
        routes: Seq<Option<NativeRouteStatus>>,
    ) -> bool {
        &&& self.pipewire_connected == (native.pipewire_connected != 0)
        &&& self.routing_enabled == (native.routing_enabled != 0)
        &&& self.policy_ready == (native.policy_ready != 0)
        &&& self.inputs_detected == native.inputs_detected
        &&& self.inputs_routed == native.inputs_routed
        &&& self.default_output_name@ == buffer_text(native.default_output_name@)
        &&& self.last_error@ == buffer_text(native.last_error@)
        &&& self.routes@.len() == given(routes).len()
        &&& forall|i: int|
            0 <= i < self.routes@.len() ==> (#[trigger] self.routes@[i]).reports(given(routes)[i])
    }

    /// The report, from what the engine gave for itself and for each of its inputs. An input
    /// that it could not report is left out.
    pub fn from_native(native: &NativeStatus, routes: &Vec<Option<NativeRouteStatus>>) -> (r: Status)
        ensures
            r.reports(*native, routes@),
    {
        let mut reported: Vec<RouteStatus> = Vec::new();
        let mut i: usize = 0;
        while i < routes.len()
            invariant
                i <= routes@.len(),
                reported@.len() == given(routes@.take(i as int)).len(),
                forall|k: int|
                    0 <= k < reported@.len() ==> (#[trigger] reported@[k]).reports(
                        given(routes@.take(i as int))[k],
                    ),
            decreases routes@.len() - i,
        {
            proof {
                assert(routes@.take(i + 1).drop_last() =~= routes@.take(i as int));
                assert(routes@.take(i + 1).last() == routes@[i as int]);
            }
            match &routes[i] {
                Some(route) => {
                    reported.push(RouteStatus::from_native(route));
                },
                None => {},
            }
            i = i + 1;
        }
        assert(routes@.take(routes@.len() as int) =~= routes@);
        Status {
            pipewire_connected: native.pipewire_connected != 0,
            routing_enabled: native.routing_enabled != 0,
            policy_ready: native.policy_ready != 0,
            inputs_detected: native.inputs_detected,
            inputs_routed: native.inputs_routed,
            default_output_name: native_text(native.default_output_name.as_slice()),
            last_error: native_text(native.last_error.as_slice()),
            routes: reported,
        }
    }
}

/// The text in a buffer is what its bytes before the first zero stand for.
pub proof fn buffers_end_at_the_first_zero(raw: Seq<u8>, n: int)
    requires
        0 <= n <= raw.len(),
        forall|i: int| 0 <= i < n ==> raw[i] != 0,
        n < raw.len() ==> raw[n] == 0,
    ensures
        until_zero(raw) == raw.take(n),
        buffer_text(raw) == text::lossy(raw.take(n)),
{
    until_zero_of_prefix(raw, n);
}

/// The report of an input holds each thing that the engine gave under its own name.
pub proof fn inputs_are_reported_by_name(report: RouteStatus, native: NativeRouteStatus)
    requires
        report.reports(native),
    ensures
        report.input_name@ == text::lossy(until_zero(native.input_name@)),
        report.input_address@ == text::lossy(until_zero(native.input_address@)),
        report.output_name@ == text::lossy(until_zero(native.output_name@)),
        report.ready == (native.ready != 0),
        report.codec@ == text::lossy(until_zero(native.codec@)),
        report.sample_rate == native.sample_rate,
        report.channels == native.channels,
        report.last_error@ == text::lossy(until_zero(native.last_error@)),
{
}

/// The engine's report holds each thing that it gave under its own name.
pub proof fn engines_are_reported_by_name(
    report: Status,
    native: NativeStatus,
    routes: Seq<Option<NativeRouteStatus>>,
)
    requires
        report.reports(native, routes),
    ensures
        report.pipewire_connected == (native.pipewire_connected != 0),
        report.routing_enabled == (native.routing_enabled != 0),
        report.policy_ready == (native.policy_ready != 0),
        report.inputs_detected == native.inputs_detected,
        report.inputs_routed == native.inputs_routed,
        report.default_output_name@ == text::lossy(until_zero(native.default_output_name@)),
        report.last_error@ == text::lossy(until_zero(native.last_error@)),
        report.routes@.len() == given(routes).len(),
        forall|i: int|
            0 <= i < report.routes@.len() ==> (#[trigger] report.routes@[i]).reports(
                given(routes)[i],
            ),
{
}

/// Of the inputs those with a report are kept, in order, and no others.
pub proof fn inputs_with_a_report_are_kept(
    a: Seq<Option<NativeRouteStatus>>,
    b: Seq<Option<NativeRouteStatus>>,
    route: NativeRouteStatus,
)
    ensures
        given(a + b) == given(a) + given(b),
        given(seq![Some(route)]) == seq![route],
        given(seq![None::<NativeRouteStatus>]).len() == 0,
    decreases b.len(),
{
    let none = seq![None::<NativeRouteStatus>];
    let one = seq![Some(route)];
    assert(none.drop_last() =~= Seq::<Option<NativeRouteStatus>>::empty());
    assert(one.drop_last() =~= Seq::<Option<NativeRouteStatus>>::empty());
    assert(given(none.drop_last()).len() == 0);
    assert(given(one.drop_last()).len() == 0);
    assert(given(one) =~= seq![route]);
    if b.len() == 0 {
        assert(a + b =~= a);
        assert(given(a) + given(b) =~= given(a));
    } else {
        inputs_with_a_report_are_kept(a, b.drop_last(), route);
        assert((a + b).drop_last() =~= a + b.drop_last());
        assert((a + b).last() == b.last());
        assert(given(a + b) =~= given(a) + given(b));
    }
}

/// A flag is one for set and zero for unset.
pub proof fn flags_are_bytes(flag: bool)
    ensures
        flag ==> flag_byte(flag) == 1,
        !flag ==> flag_byte(flag) == 0,
{
}

} // verus!
