//! When a connected source that sends no audio is asked to, and what is reported of it.
use crate::bluetooth::{BluetoothStatus, Device, Source};
use crate::config::Bluetooth;
use crate::text;
use vstd::prelude::*;
use vstd::string::*;

verus! {

/// How often BlueZ is looked at, in seconds.
pub const MONITOR_INTERVAL_SECONDS: u64 = 2;

/// A source that has been seen without audio: when it may next be asked, in nanoseconds on the
/// clock, and why it last failed.
#[derive(Debug)]
pub struct A2dpRetry {
    path: String,
    next_attempt: u128,
    last_error: String,
}

/// The sources that have been seen without audio, by their paths on the bus.
#[derive(Debug)]
pub struct RetryTable {
    entries: Vec<A2dpRetry>,
}

/// What is remembered of a source.
pub struct RetryView {
    pub next_attempt: int,
    pub last_error: Seq<char>,
}

/// What came of asking a source.
#[derive(Debug)]
pub enum Attempt {
    /// It was asked, or did not need to be.
    Completed,
    /// Asking failed, with the reason.
    Failed(String),
    TimedOut,
}

impl A2dpRetry {
    spec fn remembered(self) -> RetryView {
        RetryView { next_attempt: self.next_attempt as int, last_error: self.last_error@ }
    }
}

spec fn find(entries: Seq<A2dpRetry>, path: Seq<char>) -> Option<RetryView>
    decreases entries.len(),
{
    if entries.len() == 0 {
        None
    } else {
        match find(entries.drop_last(), path) {
            Some(r) => Some(r),
            None => if entries.last().path@ == path {
                Some(entries.last().remembered())
            } else {
                None
            },
        }
    }
}

spec fn table_of(entries: Seq<A2dpRetry>) -> Map<Seq<char>, RetryView> {
    Map::new(|p: Seq<char>| find(entries, p) is Some, |p: Seq<char>| find(entries, p)->0)
}

impl View for RetryTable {
    type V = Map<Seq<char>, RetryView>;

    closed spec fn view(&self) -> Map<Seq<char>, RetryView> {
        table_of(self.entries@)
    }
}

/// Nanoseconds in a number of seconds.
pub open spec fn nanoseconds(seconds: u64) -> int {
    seconds as int * 1_000_000_000
}

/// The time that many seconds after `now`.
fn later(now: u64, seconds: u64) -> (r: u128)
    ensures
        r == now + nanoseconds(seconds),
{
    now as u128 + seconds as u128 * 1_000_000_000u128
}

/// The paths of the sources.
pub open spec fn paths(sources: Seq<Source>) -> Set<Seq<char>> {
    Set::new(|p: Seq<char>| exists|i: int| 0 <= i < sources.len() && (#[trigger] sources[i]).path@ == p)
}

/// The table once a source has been seen: one that is new may be asked after the connect delay.
pub open spec fn seen(
    table: Map<Seq<char>, RetryView>,
    path: Seq<char>,
    now: u64,
    timing: Bluetooth,
) -> Map<Seq<char>, RetryView> {
    if table.contains_key(path) {
        table
    } else {
        table.insert(
            path,
            RetryView {
                next_attempt: now + nanoseconds(timing.a2dp_connect_delay_seconds),
                last_error: Seq::empty(),
            },
        )
    }
}

/// Going through the sources from `from` on: the table after it, and the first of them that is
/// to be asked now. Nothing is asked while forwarding is off.
pub open spec fn advanced(
    table: Map<Seq<char>, RetryView>,
    enabled: bool,
    now: u64,
    timing: Bluetooth,
    sources: Seq<Source>,
    from: int,
) -> (Map<Seq<char>, RetryView>, Option<int>)
    decreases sources.len() - from,
{
    if from >= sources.len() || !enabled {
        (table, None)
    } else {
        let path = sources[from].path@;
        let after = seen(table, path, now, timing);
        if now < after[path].next_attempt {
            advanced(after, enabled, now, timing, sources, from + 1)
        } else {
            (after, Some(from))
        }
    }
}

/// The error that an attempt leaves behind, empty for none.
pub open spec fn attempt_error(attempt: Attempt, address: Seq<char>) -> Seq<char> {
    match attempt {
        Attempt::Completed => Seq::empty(),
        Attempt::Failed(reason) => "Cannot connect incoming A2DP for "@ + address + ": "@ + reason@,
        Attempt::TimedOut => "Incoming A2DP connection timed out for "@ + address,
    }
}

/// The error that is remembered of a source, empty for none.
pub open spec fn error_of(table: Map<Seq<char>, RetryView>, path: Seq<char>) -> Seq<char> {
    if table.contains_key(path) {
        table[path].last_error
    } else {
        Seq::empty()
    }
}

/// The errors that are remembered of the sources, in their order.
pub open spec fn errors_of(table: Map<Seq<char>, RetryView>, sources: Seq<Source>) -> Seq<Seq<char>>
    decreases sources.len(),
{
    if sources.len() == 0 {
        Seq::empty()
    } else {
        let before = errors_of(table, sources.drop_last());
        let error = error_of(table, sources.last().path@);
        if error.len() > 0 {
            before.push(error)
        } else {
            before
        }
    }
}

/// The texts one behind the other, with `; ` between them.
pub open spec fn listed(parts: Seq<Seq<char>>) -> Seq<char>
    decreases parts.len(),
{
    if parts.len() == 0 {
        Seq::empty()
    } else if parts.len() == 1 {
        parts[0]
    } else {
        listed(parts.drop_last()) + "; "@ + parts.last()
    }
}

proof fn table_of_push(entries: Seq<A2dpRetry>, e: A2dpRetry)
    ensures
        table_of(entries.push(e)) == (if table_of(entries).contains_key(e.path@) {
            table_of(entries)
        } else {
            table_of(entries).insert(e.path@, e.remembered())
        }),
{
    assert(entries.push(e).drop_last() =~= entries);
    let t = table_of(entries.push(e));
    assert forall|p: Seq<char>| #[trigger] find(entries.push(e), p) == (match find(entries, p) {
        Some(r) => Some(r),
        None => if e.path@ == p {
            Some(e.remembered())
        } else {
            None
        },
    }) by {}
    assert(t =~= (if table_of(entries).contains_key(e.path@) {
        table_of(entries)
    } else {
        table_of(entries).insert(e.path@, e.remembered())
    }));
}

proof fn find_of_update(entries: Seq<A2dpRetry>, i: int, e: A2dpRetry, p: Seq<char>)
    requires
        0 <= i < entries.len(),
        entries[i].path@ == e.path@,
        forall|k: int| 0 <= k < i ==> (#[trigger] entries[k]).path@ != e.path@,
    ensures
        find(entries.update(i, e), p) == (if p == e.path@ {
            Some(e.remembered())
        } else {
            find(entries, p)
        }),
        find(entries, e.path@) is Some,
    decreases entries.len(),
{
    let front = entries.drop_last();
    if i == entries.len() - 1 {
        assert(entries.update(i, e).drop_last() =~= front);
        find_of_absent(front, e.path@);
    } else {
        assert(entries.update(i, e).drop_last() =~= front.update(i, e));
        find_of_update(front, i, e, p);
    }
}

proof fn find_of_absent(entries: Seq<A2dpRetry>, p: Seq<char>)
    requires
        forall|k: int| 0 <= k < entries.len() ==> (#[trigger] entries[k]).path@ != p,
    ensures
        find(entries, p) is None,
    decreases entries.len(),
{
    if entries.len() > 0 {
        let front = entries.drop_last();
        assert forall|k: int| 0 <= k < front.len() implies (#[trigger] front[k]).path@ != p by {
            assert(front[k] == entries[k]);
        }
        find_of_absent(front, p);
    }
}

proof fn find_of_first(entries: Seq<A2dpRetry>, i: int)
    requires
        0 <= i < entries.len(),
        forall|k: int| 0 <= k < i ==> (#[trigger] entries[k]).path@ != entries[i].path@,
    ensures
        find(entries, entries[i].path@) == Some(entries[i].remembered()),
    decreases entries.len(),
{
    let front = entries.drop_last();
    if i == entries.len() - 1 {
        find_of_absent(front, entries[i].path@);
    } else {
        assert(front[i] == entries[i]);
        find_of_first(front, i);
    }
}

fn copy_text(s: &String) -> (r: String)
    ensures
        r@ == s@,
{
    s.clone()
}

/// Whether a path is that of one of the sources.
fn is_among(path: &str, sources: &Vec<Source>) -> (r: bool)
    ensures
        r == paths(sources@).contains(path@),
{
    let mut i: usize = 0;
    while i < sources.len()
        invariant
            i <= sources@.len(),
            forall|k: int| 0 <= k < i ==> (#[trigger] sources@[k]).path@ != path@,
        decreases sources@.len() - i,
    {
        if text::same(sources[i].path.as_str(), path) {
            assert(sources@[i as int].path@ == path@);
            return true;
        }
        i = i + 1;
    }
    false
}

impl RetryTable {
    /// A table without sources.
    pub fn new() -> (r: RetryTable)
        ensures
            r@ == Map::<Seq<char>, RetryView>::empty(),
    {
        let r = RetryTable { entries: Vec::new() };
        assert(r@ =~= Map::<Seq<char>, RetryView>::empty());
        r
    }

    /// The position of a source in the table.
    fn position(&self, path: &str) -> (r: Option<usize>)
        ensures
            match r {
                Some(i) => i < self.entries@.len() && self.entries@[i as int].path@ == path@
                    && self@.contains_key(path@) && self@[path@]
                    == self.entries@[i as int].remembered() && forall|k: int|
                    0 <= k < i ==> (#[trigger] self.entries@[k]).path@ != path@,
                None => !self@.contains_key(path@),
            },
    {
        let mut i: usize = 0;
        while i < self.entries.len()
            invariant
                i <= self.entries@.len(),
                forall|k: int| 0 <= k < i ==> (#[trigger] self.entries@[k]).path@ != path@,
            decreases self.entries@.len() - i,
        {
            if text::same(self.entries[i].path.as_str(), path) {
                proof {
                    find_of_first(self.entries@, i as int);
                }
                return Some(i);
            }
            i = i + 1;
        }
        proof {
            find_of_absent(self.entries@, path@);
        }
        None
    }

    /// Starts a round: sources that are gone are forgotten, and all of them while forwarding is
    /// off. Says whether there is a round.
    pub fn begin(&mut self, enabled: bool, sources: &Vec<Source>) -> (r: bool)
        ensures
            r == enabled,
            final(self)@ == (if enabled {
                old(self)@.restrict(paths(sources@))
            } else {
                Map::empty()
            }),
    {
        if !enabled {
            self.entries = Vec::new();
            assert(self@ =~= Map::<Seq<char>, RetryView>::empty());
            return false;
        }
        let mut kept: Vec<A2dpRetry> = Vec::new();
        let mut i: usize = 0;
        assert(table_of(kept@) =~= table_of(self.entries@.take(0)).restrict(paths(sources@)));
        while i < self.entries.len()
            invariant
                i <= self.entries@.len(),
                self.entries@ == old(self).entries@,
                table_of(kept@) == table_of(self.entries@.take(i as int)).restrict(
                    paths(sources@),
                ),
            decreases self.entries@.len() - i,
        {
            let entry = &self.entries[i];
            let ghost e = *entry;
            proof {
                assert(self.entries@.take(i + 1) =~= self.entries@.take(i as int).push(e));
                table_of_push(self.entries@.take(i as int), e);
            }
            if is_among(entry.path.as_str(), sources) {
                let copy = A2dpRetry {
                    path: copy_text(&entry.path),
                    next_attempt: entry.next_attempt,
                    last_error: copy_text(&entry.last_error),
                };
                proof {
                    table_of_push(kept@, copy);
                }
                kept.push(copy);
            }
            i = i + 1;
            assert(table_of(kept@) =~= table_of(self.entries@.take(i as int)).restrict(
                paths(sources@),
            ));
        }
        assert(self.entries@.take(i as int) =~= self.entries@);
        self.entries = kept;
        true
    }

    /// Goes through the sources from `from` on, remembers those that are new, and gives the
    /// position of the first that is to be asked now.
    pub fn connect_missing_sources(
        &mut self,
        enabled: bool,
        now: u64,
        timing: &Bluetooth,
        sources: &Vec<Source>,
        from: usize,
    ) -> (r: Option<usize>)
        ensures
            ({
                let (table, next) = advanced(
                    old(self)@,
                    enabled,
                    now,
                    *timing,
                    sources@,
                    from as int,
                );
                &&& final(self)@ == table
                &&& r is Some <==> next is Some
                &&& r matches Some(i) ==> next == Some(i as int) && from <= i < sources@.len()
            }),
    {
        if !enabled {
            return None;
        }
        let ghost whole = advanced(old(self)@, enabled, now, *timing, sources@, from as int);
        let mut i: usize = from;
        while i < sources.len()
            invariant
                enabled,
                from <= i,
                whole == advanced(old(self)@, enabled, now, *timing, sources@, from as int),
                whole == advanced(self@, enabled, now, *timing, sources@, i as int),
            decreases sources@.len() - i,
        {
            let source = &sources[i];
            let ghost before = self@;
            let next: u128 = match self.position(source.path.as_str()) {
                Some(k) => self.entries[k].next_attempt,
                None => {
                    let entry = A2dpRetry {
                        path: copy_text(&source.path),
                        next_attempt: later(now, timing.a2dp_connect_delay_seconds),
                        last_error: String::new(),
                    };
                    let at: u128 = entry.next_attempt;
                    proof {
                        table_of_push(self.entries@, entry);
                    }
                    self.entries.push(entry);
                    at
                },
            };
            assert(self@ == seen(before, source.path@, now, *timing));
            if now as u128 >= next {
                return Some(i);
            }
            i = i + 1;
        }
        None
    }

    /// Remembers what came of asking a source, which may be asked again after the retry delay.
    /// Gives the error to report: a new one, or one that differs from the last.
    pub fn record(&mut self, source: &Source, attempt: Attempt, now: u64, timing: &Bluetooth) -> (r:
        Option<String>)
        ensures
            final(self)@ == old(self)@.insert(
                source.path@,
                RetryView {
                    next_attempt: now + nanoseconds(timing.a2dp_retry_delay_seconds),
                    last_error: attempt_error(attempt, source.address@),
                },
            ),
            r is Some <==> attempt_error(attempt, source.address@).len() > 0 && attempt_error(
                attempt,
                source.address@,
            ) != error_of(old(self)@, source.path@),
            r matches Some(error) ==> error@ == attempt_error(attempt, source.address@),
            final(self)@.contains_key(source.path@),
            final(self)@[source.path@].next_attempt == now + timing.a2dp_retry_delay_seconds
                * 1_000_000_000,
            forall|p: Seq<char>|
                p != source.path@ ==> (#[trigger] final(self)@.contains_key(p) <==> old(
                    self,
                )@.contains_key(p)),
    {
        let error = match &attempt {
            Attempt::Completed => String::new(),
            Attempt::Failed(reason) => String::from_str("Cannot connect incoming A2DP for ").concat(
                source.address.as_str(),
            ).concat(": ").concat(reason.as_str()),
            Attempt::TimedOut => String::from_str(
                "Incoming A2DP connection timed out for ",
            ).concat(source.address.as_str()),
        };
        let at = later(now, timing.a2dp_retry_delay_seconds);
        let entry = A2dpRetry {
            path: copy_text(&source.path),
            next_attempt: at,
            last_error: copy_text(&error),
        };
        let ghost remembered = entry.remembered();
        let known: bool = match self.position(source.path.as_str()) {
            Some(k) => {
                let known = text::same(self.entries[k].last_error.as_str(), error.as_str());
                proof {
                    assert forall|p: Seq<char>| #[trigger]
                        find(self.entries@.update(k as int, entry), p) == (if p == source.path@ {
                            Some(remembered)
                        } else {
                            find(self.entries@, p)
                        }) by {
                        find_of_update(self.entries@, k as int, entry, p);
                    }
                }
                self.entries[k] = entry;
                known
            },
            None => {
                proof {
                    table_of_push(self.entries@, entry);
                }
                self.entries.push(entry);
                error.as_str().is_empty()
            },
        };
        assert(self@ =~= old(self)@.insert(source.path@, remembered));
        if error.as_str().is_empty() || known {
            None
        } else {
            Some(error)
        }
    }

    /// The errors that are remembered of the sources, as one text.
    pub fn summary(&self, sources: &Vec<Source>) -> (r: String)
        ensures
            r@ == listed(errors_of(self@, sources@)),
    {
        let mut out = String::new();
        let mut count: usize = 0;
        let mut i: usize = 0;
        while i < sources.len()
            invariant
                i <= sources@.len(),
                count <= i,
                count == errors_of(self@, sources@.take(i as int)).len(),
                out@ == listed(errors_of(self@, sources@.take(i as int))),
            decreases sources@.len() - i,
        {
            proof {
                assert(sources@.take(i + 1).drop_last() =~= sources@.take(i as int));
                assert(sources@.take(i + 1).last() == sources@[i as int]);
            }
            let ghost before = errors_of(self@, sources@.take(i as int));
            if let Some(k) = self.position(sources[i].path.as_str()) {
                let error = self.entries[k].last_error.as_str();
                if !error.is_empty() {
                    proof {
                        assert(before.push(error@).drop_last() =~= before);
                        if count == 0 {
                            assert(out@ + error@ =~= error@);
                        }
                    }
                    if count > 0 {
                        out.append("; ");
                    }
                    out.append(error);
                    count = count + 1;
                }
            }
            i = i + 1;
        }
        assert(sources@.take(sources@.len() as int) =~= sources@);
        out
    }
}

/// Whether a source is asked once its properties have been read again.
pub fn should_connect(paired: bool, connected: bool, enabled: bool) -> (r: bool)
    ensures
        r == (paired && connected && enabled),
{
    paired && connected && enabled
}

/// What came of looking at BlueZ.
#[derive(Debug)]
pub enum Observation {
    Devices(Vec<Device>),
    /// Looking failed, with the reason.
    Failed(String),
    TimedOut,
}

impl BluetoothStatus {
    /// Nothing is known.
    pub open spec fn unknown(self) -> bool {
        !self.available && self.devices@.len() == 0 && self.last_error@.len() == 0
    }

    /// The status after an observation: the devices and the errors of the sources, or only why
    /// there are none.
    pub open spec fn follows(self, observation: Observation, errors: Seq<char>) -> bool {
        match observation {
            Observation::Devices(devices) => self.available && self.devices == devices
                && self.last_error@ == errors,
            Observation::Failed(reason) => !self.available && self.devices@.len() == 0
                && self.last_error@ == "BlueZ unavailable: "@ + reason@,
            Observation::TimedOut => !self.available && self.devices@.len() == 0
                && self.last_error@ == "BlueZ snapshot timed out"@,
        }
    }
}

impl Default for BluetoothStatus {
    fn default() -> (r: Self)
        ensures
            r.unknown(),
    {
        BluetoothStatus { available: false, devices: Vec::new(), last_error: String::new() }
    }
}

/// The status after an observation, and whether the connection to the bus is kept.
pub fn monitor(observation: Observation, errors: &str) -> (r: (BluetoothStatus, bool))
    ensures
        r.0.follows(observation, errors@),
        r.1 <==> observation is Devices,
{
    match observation {
        Observation::Devices(devices) => (
            BluetoothStatus { available: true, devices, last_error: String::from_str(errors) },
            true,
        ),
        Observation::Failed(reason) => (
            BluetoothStatus {
                available: false,
                devices: Vec::new(),
                last_error: String::from_str("BlueZ unavailable: ").concat(reason.as_str()),
            },
            false,
        ),
        Observation::TimedOut => (
            BluetoothStatus {
                available: false,
                devices: Vec::new(),
                last_error: String::from_str("BlueZ snapshot timed out"),
            },
            false,
        ),
    }
}

/// A source that is asked has been due: the table already held it, and its time had come, or it
/// is new and the connect delay is zero.
pub proof fn attempts_are_due(
    table: Map<Seq<char>, RetryView>,
    enabled: bool,
    now: u64,
    timing: Bluetooth,
    sources: Seq<Source>,
    from: int,
)
    requires
        0 <= from,
    ensures
        advanced(table, enabled, now, timing, sources, from).1 matches Some(i) ==> {
            let path = sources[i].path@;
            &&& enabled
            &&& from <= i < sources.len()
            &&& if table.contains_key(path) {
                table[path].next_attempt <= now
            } else {
                timing.a2dp_connect_delay_seconds == 0
            }
        },
    decreases sources.len() - from,
{
    if from < sources.len() && enabled {
        let path = sources[from].path@;
        let after = seen(table, path, now, timing);
        if now < after[path].next_attempt {
            attempts_are_due(after, enabled, now, timing, sources, from + 1);
        }
    }
}

/// Going through the sources forgets none, changes nothing that was remembered, and adds only
/// sources that were not remembered, to be asked after the connect delay.
pub proof fn advancing_keeps_what_is_remembered(
    table: Map<Seq<char>, RetryView>,
    enabled: bool,
    now: u64,
    timing: Bluetooth,
    sources: Seq<Source>,
    from: int,
    path: Seq<char>,
)
    requires
        0 <= from,
    ensures
        ({
            let after = advanced(table, enabled, now, timing, sources, from).0;
            &&& table.contains_key(path) ==> after.contains_key(path) && after[path] == table[path]
            &&& after.contains_key(path) && !table.contains_key(path) ==> after[path]
                == (RetryView {
                next_attempt: now + nanoseconds(timing.a2dp_connect_delay_seconds),
                last_error: Seq::empty(),
            }) && paths(sources).contains(path)
        }),
    decreases sources.len() - from,
{
    if from < sources.len() && enabled {
        let p = sources[from].path@;
        let after = seen(table, p, now, timing);
        assert(paths(sources).contains(p));
        if now < after[p].next_attempt {
            advancing_keeps_what_is_remembered(after, enabled, now, timing, sources, from + 1, path);
        }
    }
}

/// A source whose time has come is asked, after those before it whose time has come too.
pub proof fn due_sources_are_asked(
    table: Map<Seq<char>, RetryView>,
    now: u64,
    timing: Bluetooth,
    sources: Seq<Source>,
    from: int,
    i: int,
)
    requires
        0 <= from <= i < sources.len(),
        table.contains_key(sources[i].path@),
        table[sources[i].path@].next_attempt <= now,
    ensures
        advanced(table, true, now, timing, sources, from).1 matches Some(k) && from <= k <= i,
    decreases sources.len() - from,
{
    let path = sources[from].path@;
    let after = seen(table, path, now, timing);
    if now < after[path].next_attempt {
        assert(path != sources[i].path@);
        due_sources_are_asked(after, now, timing, sources, from + 1, i);
    }
}

/// Once a source has been asked, it is not asked again before the retry delay is over.
pub proof fn attempts_keep_their_distance(
    table: Map<Seq<char>, RetryView>,
    path: Seq<char>,
    error: Seq<char>,
    asked: u64,
    now: u64,
    timing: Bluetooth,
    sources: Seq<Source>,
    from: int,
)
    requires
        0 <= from,
        now < asked + nanoseconds(timing.a2dp_retry_delay_seconds),
    ensures
        ({
            let recorded = table.insert(
                path,
                RetryView {
                    next_attempt: asked + nanoseconds(timing.a2dp_retry_delay_seconds),
                    last_error: error,
                },
            );
            advanced(recorded, true, now, timing, sources, from).1 matches Some(i)
                ==> sources[i].path@ != path
        }),
{
    let recorded = table.insert(
        path,
        RetryView {
            next_attempt: asked + nanoseconds(timing.a2dp_retry_delay_seconds),
            last_error: error,
        },
    );
    attempts_are_due(recorded, true, now, timing, sources, from);
}

/// A source that has just been seen for the first time is given the connect delay before it is
/// asked.
pub proof fn new_sources_are_left_alone(
    table: Map<Seq<char>, RetryView>,
    path: Seq<char>,
    first: u64,
    now: u64,
    timing: Bluetooth,
    sources: Seq<Source>,
    from: int,
)
    requires
        0 <= from,
        !table.contains_key(path),
        now < first + nanoseconds(timing.a2dp_connect_delay_seconds),
    ensures
        advanced(seen(table, path, first, timing), true, now, timing, sources, from).1 matches Some(
            i,
        ) ==> sources[i].path@ != path,
{
    attempts_are_due(seen(table, path, first, timing), true, now, timing, sources, from);
}

/// Going through the sources leaves every one that was gone through in the table: all of them
/// where none is to be asked, else those up to the one that is.
pub proof fn sources_gone_through_are_remembered(
    table: Map<Seq<char>, RetryView>,
    now: u64,
    timing: Bluetooth,
    sources: Seq<Source>,
    from: int,
    i: int,
)
    requires
        0 <= from <= i < sources.len(),
    ensures
        ({
            let (after, next) = advanced(table, true, now, timing, sources, from);
            match next {
                None => after.contains_key(sources[i].path@),
                Some(k) => i <= k ==> after.contains_key(sources[i].path@),
            }
        }),
    decreases sources.len() - from,
{
    let path = sources[from].path@;
    let after = seen(table, path, now, timing);
    if now < after[path].next_attempt {
        if i == from {
            advancing_keeps_what_is_remembered(after, true, now, timing, sources, from + 1, path);
        } else {
            sources_gone_through_are_remembered(after, now, timing, sources, from + 1, i);
        }
    }
}

/// Asking a source once: when it was found to be due, when it was done and what error it left.
pub struct Asking {
    pub at: u64,
    pub ended: u64,
    pub error: Seq<char>,
}

/// A round while forwarding is on: its sources, the askings in order, and the time at which the
/// sources behind the last one asked were gone through.
pub struct Round {
    pub sources: Seq<Source>,
    pub askings: Seq<Asking>,
    pub last: u64,
}

/// What happens to a source: it is met without being remembered, or it is asked.
pub enum Moment {
    Met { at: u64 },
    Asked { at: u64, ended: u64 },
}

/// What comes of rounds: whether they can go that way, the table after them, and what happens to
/// one source in them.
pub struct Course {
    pub possible: bool,
    pub table: Map<Seq<char>, RetryView>,
    pub moments: Seq<Moment>,
}

/// Going through the sources met the one at `path`, or did not.
pub open spec fn meeting(
    before: Map<Seq<char>, RetryView>,
    after: Map<Seq<char>, RetryView>,
    now: u64,
    path: Seq<char>,
) -> Seq<Moment> {
    if !before.contains_key(path) && after.contains_key(path) {
        seq![Moment::Met { at: now }]
    } else {
        Seq::empty()
    }
}

/// A round from the source at `from` on, as `RetryTable::connect_missing_sources` and
/// `RetryTable::record` take turns in it. It is possible where each asking is that of the source
/// found to be due, and none is found to be due after the last.
pub open spec fn round_from(
    table: Map<Seq<char>, RetryView>,
    timing: Bluetooth,
    round: Round,
    from: int,
    path: Seq<char>,
) -> Course
    decreases round.askings.len(),
{
    if round.askings.len() == 0 {
        let (after, next) = advanced(table, true, round.last, timing, round.sources, from);
        Course {
            possible: next is None,
            table: after,
            moments: meeting(table, after, round.last, path),
        }
    } else {
        let asking = round.askings[0];
        let (after, next) = advanced(table, true, asking.at, timing, round.sources, from);
        match next {
            None => Course { possible: false, table: after, moments: Seq::empty() },
            Some(k) => {
                let asked = round.sources[k].path@;
                let recorded = after.insert(
                    asked,
                    RetryView {
                        next_attempt: asking.ended + nanoseconds(timing.a2dp_retry_delay_seconds),
                        last_error: asking.error,
                    },
                );
                let met = meeting(table, after, asking.at, path);
                let rest = round_from(
                    recorded,
                    timing,
                    Round { askings: round.askings.drop_first(), ..round },
                    k + 1,
                    path,
                );
                Course {
                    possible: rest.possible,
                    table: rest.table,
                    moments: (if asked == path {
                        met.push(Moment::Asked { at: asking.at, ended: asking.ended })
                    } else {
                        met
                    }) + rest.moments,
                }
            },
        }
    }
}

/// A whole round, which `RetryTable::begin` starts.
pub open spec fn round_of(
    table: Map<Seq<char>, RetryView>,
    timing: Bluetooth,
    round: Round,
    path: Seq<char>,
) -> Course {
    round_from(table.restrict(paths(round.sources)), timing, round, 0, path)
}

/// Rounds one after the other on one table.
pub open spec fn run_of(
    table: Map<Seq<char>, RetryView>,
    timing: Bluetooth,
    rounds: Seq<Round>,
    path: Seq<char>,
) -> Course
    decreases rounds.len(),
{
    if rounds.len() == 0 {
        Course { possible: true, table, moments: Seq::empty() }
    } else {
        let before = run_of(table, timing, rounds.drop_last(), path);
        let last = round_of(before.table, timing, rounds.last(), path);
        Course {
            possible: before.possible && last.possible,
            table: last.table,
            moments: before.moments + last.moments,
        }
    }
}

/// The time before which a source is not asked, after what last happened to it.
pub open spec fn due_after(moment: Moment, timing: Bluetooth) -> int {
    match moment {
        Moment::Met { at } => at + nanoseconds(timing.a2dp_connect_delay_seconds),
        Moment::Asked { ended, .. } => ended + nanoseconds(timing.a2dp_retry_delay_seconds),
    }
}

/// What happens to a source at that place is that it is asked, and no sooner than what happened
/// before it allows.
pub open spec fn asked_in_time(moments: Seq<Moment>, i: int, timing: Bluetooth) -> bool {
    moments[i] matches Moment::Asked { at, .. } && due_after(moments[i - 1], timing) <= at
}

/// A source is met first and only once; from then on it is asked, no sooner than the connect
/// delay after it was met and no sooner than the retry delay after it was last asked.
pub open spec fn spaced(moments: Seq<Moment>, timing: Bluetooth) -> bool {
    &&& moments.len() > 0 ==> moments[0] is Met
    &&& forall|i: int| 1 <= i < moments.len() ==> #[trigger] asked_in_time(moments, i, timing)
}

proof fn spaced_with_one_more(moments: Seq<Moment>, moment: Moment, timing: Bluetooth)
    requires
        spaced(moments, timing),
        if moments.len() == 0 {
            moment is Met
        } else {
            moment matches Moment::Asked { at, .. } && due_after(moments.last(), timing) <= at
        },
    ensures
        spaced(moments.push(moment), timing),
{
    let more = moments.push(moment);
    assert forall|i: int| 1 <= i < more.len() implies #[trigger] asked_in_time(
        more,
        i,
        timing,
    ) by {
        if i < moments.len() {
            assert(asked_in_time(moments, i, timing));
        }
    }
}

/// The table remembers a source exactly if something has happened to it, with the time that
/// follows from what happened last.
spec fn tracks(
    table: Map<Seq<char>, RetryView>,
    path: Seq<char>,
    moments: Seq<Moment>,
    timing: Bluetooth,
) -> bool {
    &&& table.contains_key(path) <==> moments.len() > 0
    &&& moments.len() > 0 ==> table[path].next_attempt == due_after(moments.last(), timing)
}

proof fn round_keeps_the_distance(
    table: Map<Seq<char>, RetryView>,
    timing: Bluetooth,
    round: Round,
    from: int,
    path: Seq<char>,
    before: Seq<Moment>,
)
    requires
        0 <= from,
        tracks(table, path, before, timing),
        spaced(before, timing),
        round_from(table, timing, round, from, path).possible,
    ensures
        ({
            let course = round_from(table, timing, round, from, path);
            &&& tracks(course.table, path, before + course.moments, timing)
            &&& spaced(before + course.moments, timing)
        }),
    decreases round.askings.len(),
{
    let course = round_from(table, timing, round, from, path);
    let now = if round.askings.len() == 0 {
        round.last
    } else {
        round.askings[0].at
    };
    let (after, next) = advanced(table, true, now, timing, round.sources, from);
    let met = meeting(table, after, now, path);
    advancing_keeps_what_is_remembered(table, true, now, timing, round.sources, from, path);
    attempts_are_due(table, true, now, timing, round.sources, from);
    let seen_so_far = before + met;
    if met.len() > 0 {
        spaced_with_one_more(before, Moment::Met { at: now }, timing);
        assert(seen_so_far =~= before.push(Moment::Met { at: now }));
    } else {
        assert(seen_so_far =~= before);
    }
    assert(tracks(after, path, seen_so_far, timing));
    if round.askings.len() > 0 {
        let k = next->0;
        let asking = round.askings[0];
        let asked = round.sources[k].path@;
        let recorded = after.insert(
            asked,
            RetryView {
                next_attempt: asking.ended + nanoseconds(timing.a2dp_retry_delay_seconds),
                last_error: asking.error,
            },
        );
        let fewer = Round { askings: round.askings.drop_first(), ..round };
        let rest = round_from(recorded, timing, fewer, k + 1, path);
        sources_gone_through_are_remembered(table, now, timing, round.sources, from, k);
        let moment = Moment::Asked { at: asking.at, ended: asking.ended };
        let here = if asked == path {
            met.push(moment)
        } else {
            met
        };
        let now_before = before + here;
        if asked == path {
            spaced_with_one_more(seen_so_far, moment, timing);
            assert(now_before =~= seen_so_far.push(moment));
        }
        assert(tracks(recorded, path, now_before, timing));
        round_keeps_the_distance(recorded, timing, fewer, k + 1, path, now_before);
        assert(before + course.moments =~= now_before + rest.moments);
    }
}

proof fn round_remembers(
    table: Map<Seq<char>, RetryView>,
    timing: Bluetooth,
    round: Round,
    from: int,
    path: Seq<char>,
)
    requires
        0 <= from,
        forall|p: Seq<char>| #[trigger]
            table.contains_key(p) ==> paths(round.sources).contains(p),
        forall|i: int|
            0 <= i < from && i < round.sources.len() ==> table.contains_key(
                (#[trigger] round.sources[i]).path@,
            ),
        round_from(table, timing, round, from, path).possible,
    ensures
        round_from(table, timing, round, from, path).table.dom() == paths(round.sources),
    decreases round.askings.len(),
{
    let now = if round.askings.len() == 0 {
        round.last
    } else {
        round.askings[0].at
    };
    let (after, next) = advanced(table, true, now, timing, round.sources, from);
    assert forall|p: Seq<char>| #[trigger] after.contains_key(p) implies paths(
        round.sources,
    ).contains(p) by {
        advancing_keeps_what_is_remembered(table, true, now, timing, round.sources, from, p);
    }
    attempts_are_due(table, true, now, timing, round.sources, from);
    let gone: int = if next is Some {
        next->0 + 1
    } else {
        round.sources.len() as int
    };
    assert forall|i: int| 0 <= i < gone implies after.contains_key(
        (#[trigger] round.sources[i]).path@,
    ) by {
        let p = round.sources[i].path@;
        advancing_keeps_what_is_remembered(table, true, now, timing, round.sources, from, p);
        if i >= from {
            sources_gone_through_are_remembered(table, now, timing, round.sources, from, i);
        }
    }
    if round.askings.len() == 0 {
        assert(after.dom() =~= paths(round.sources));
    } else {
        let k = next->0;
        let asking = round.askings[0];
        let recorded = after.insert(
            round.sources[k].path@,
            RetryView {
                next_attempt: asking.ended + nanoseconds(timing.a2dp_retry_delay_seconds),
                last_error: asking.error,
            },
        );
        let fewer = Round { askings: round.askings.drop_first(), ..round };
        assert(paths(round.sources).contains(round.sources[k].path@));
        round_remembers(recorded, timing, fewer, k + 1, path);
    }
}

/// A finished round leaves exactly its sources in the table, whatever was in it before.
pub proof fn rounds_leave_their_sources(
    table: Map<Seq<char>, RetryView>,
    timing: Bluetooth,
    round: Round,
    path: Seq<char>,
)
    requires
        round_of(table, timing, round, path).possible,
    ensures
        round_of(table, timing, round, path).table.dom() == paths(round.sources),
{
    round_remembers(table.restrict(paths(round.sources)), timing, round, 0, path);
}

proof fn run_keeps_the_distance(
    table: Map<Seq<char>, RetryView>,
    timing: Bluetooth,
    rounds: Seq<Round>,
    path: Seq<char>,
)
    requires
        !table.contains_key(path),
        forall|i: int|
            0 <= i < rounds.len() ==> paths((#[trigger] rounds[i]).sources).contains(path),
        run_of(table, timing, rounds, path).possible,
    ensures
        ({
            let course = run_of(table, timing, rounds, path);
            &&& tracks(course.table, path, course.moments, timing)
            &&& spaced(course.moments, timing)
        }),
    decreases rounds.len(),
{
    if rounds.len() > 0 {
        let earlier = rounds.drop_last();
        assert forall|i: int| 0 <= i < earlier.len() implies paths(
            (#[trigger] earlier[i]).sources,
        ).contains(path) by {
            assert(earlier[i] == rounds[i]);
        }
        run_keeps_the_distance(table, timing, earlier, path);
        let before = run_of(table, timing, earlier, path);
        let round = rounds.last();
        assert(paths(rounds[rounds.len() - 1].sources).contains(path));
        let kept = before.table.restrict(paths(round.sources));
        assert(tracks(kept, path, before.moments, timing));
        round_keeps_the_distance(kept, timing, round, 0, path, before.moments);
    }
}

/// Over a run of rounds with forwarding on throughout, a source that is in every one of them and
/// was not remembered before the first is met in the first and never again, is first asked no
/// sooner than the connect delay after it was met, and is asked again no sooner than the retry
/// delay after it was last asked, however that ended. Afterwards exactly the sources of the last
/// round are remembered.
pub proof fn sources_are_asked_at_a_distance(
    table: Map<Seq<char>, RetryView>,
    timing: Bluetooth,
    rounds: Seq<Round>,
    path: Seq<char>,
)
    requires
        rounds.len() > 0,
        !table.contains_key(path),
        forall|i: int|
            0 <= i < rounds.len() ==> paths((#[trigger] rounds[i]).sources).contains(path),
        run_of(table, timing, rounds, path).possible,
    ensures
        run_of(table, timing, rounds, path).moments.len() > 0,
        spaced(run_of(table, timing, rounds, path).moments, timing),
        round_of(table, timing, rounds[0], path).moments.len() > 0,
        run_of(table, timing, rounds, path).moments[0] == round_of(
            table,
            timing,
            rounds[0],
            path,
        ).moments[0],
        run_of(table, timing, rounds, path).table.dom() == paths(rounds.last().sources),
    decreases rounds.len(),
{
    run_keeps_the_distance(table, timing, rounds, path);
    let earlier = rounds.drop_last();
    let before = run_of(table, timing, earlier, path);
    rounds_leave_their_sources(before.table, timing, rounds.last(), path);
    assert(paths(rounds[rounds.len() - 1].sources).contains(path));
    if rounds.len() == 1 {
        assert(before.moments + round_of(table, timing, rounds[0], path).moments =~= round_of(
            table,
            timing,
            rounds[0],
            path,
        ).moments);
    } else {
        assert forall|i: int| 0 <= i < earlier.len() implies paths(
            (#[trigger] earlier[i]).sources,
        ).contains(path) by {
            assert(earlier[i] == rounds[i]);
        }
        sources_are_asked_at_a_distance(table, timing, earlier, path);
    }
}

/// A second has a thousand million nanoseconds, and BlueZ is looked at every two seconds.
pub proof fn times_of_the_monitor(seconds: u64)
    ensures
        nanoseconds(seconds) == seconds * 1_000_000_000,
        MONITOR_INTERVAL_SECONDS == 2,
{
}

/// A path is one of the sources' exactly if a source, at whatever place, has it.
pub proof fn paths_are_those_of_the_sources(sources: Seq<Source>, path: Seq<char>, i: int)
    ensures
        0 <= i < sources.len() && sources[i].path@ == path ==> paths(sources).contains(path),
        (forall|k: int| 0 <= k < sources.len() ==> (#[trigger] sources[k]).path@ != path)
            ==> !paths(sources).contains(path),
{
}

/// A source that is seen for the first time may be asked after the connect delay and has no
/// error; one that is remembered stays as it is, and so do the others.
pub proof fn new_sources_get_the_connect_delay(
    table: Map<Seq<char>, RetryView>,
    path: Seq<char>,
    now: u64,
    timing: Bluetooth,
    other: Seq<char>,
)
    ensures
        ({
            let after = seen(table, path, now, timing);
            &&& table.contains_key(path) ==> after == table
            &&& after.contains_key(path)
            &&& !table.contains_key(path) ==> after[path].next_attempt == now
                + timing.a2dp_connect_delay_seconds * 1_000_000_000
                && after[path].last_error.len() == 0
            &&& other != path ==> (after.contains_key(other) <==> table.contains_key(other))
            &&& other != path && table.contains_key(other) ==> after[other] == table[other]
        }),
{
}

/// While forwarding is off, nothing is asked and nothing is remembered anew.
pub proof fn nothing_is_asked_while_off(
    table: Map<Seq<char>, RetryView>,
    now: u64,
    timing: Bluetooth,
    sources: Seq<Source>,
    from: int,
)
    ensures
        advanced(table, false, now, timing, sources, from) == (table, None::<int>),
        from >= sources.len() ==> advanced(table, true, now, timing, sources, from) == (
            table,
            None::<int>,
        ),
{
}

/// The source that is asked is the first that is due: none of those gone through before it is.
pub proof fn earlier_sources_are_not_due(
    table: Map<Seq<char>, RetryView>,
    now: u64,
    timing: Bluetooth,
    sources: Seq<Source>,
    from: int,
    i: int,
)
    requires
        0 <= from <= i < sources.len(),
    ensures
        ({
            let (after, next) = advanced(table, true, now, timing, sources, from);
            let path = sources[i].path@;
            &&& next is None || i < next->0 ==> after.contains_key(path) && now
                < after[path].next_attempt
            &&& next is Some && i == next->0 ==> after.contains_key(path)
                && after[path].next_attempt <= now
        }),
    decreases sources.len() - from,
{
    let path = sources[from].path@;
    let after = seen(table, path, now, timing);
    if now < after[path].next_attempt {
        if i == from {
            advancing_keeps_what_is_remembered(after, true, now, timing, sources, from + 1, path);
            attempts_are_due(after, true, now, timing, sources, from + 1);
        } else {
            earlier_sources_are_not_due(after, now, timing, sources, from + 1, i);
            attempts_are_due(after, true, now, timing, sources, from + 1);
        }
    }
}

/// An attempt leaves no error where it was completed, and one that names the address where it
/// failed or took too long.
pub proof fn attempts_leave_their_errors(attempt: Attempt, address: Seq<char>)
    ensures
        attempt is Completed ==> attempt_error(attempt, address).len() == 0,
        attempt matches Attempt::Failed(reason) ==> attempt_error(attempt, address)
            == "Cannot connect incoming A2DP for "@ + address + ": "@ + reason@,
        attempt is TimedOut ==> attempt_error(attempt, address)
            == "Incoming A2DP connection timed out for "@ + address,
{
}

/// The errors of sources are those remembered of each, in order, without the empty ones.
pub proof fn errors_come_in_the_order_of_the_sources(
    table: Map<Seq<char>, RetryView>,
    a: Seq<Source>,
    b: Seq<Source>,
    source: Source,
)
    ensures
        errors_of(table, a + b) == errors_of(table, a) + errors_of(table, b),
        table.contains_key(source.path@) && table[source.path@].last_error.len() > 0 ==> errors_of(
            table,
            seq![source],
        ) == seq![table[source.path@].last_error],
        !table.contains_key(source.path@) || table[source.path@].last_error.len() == 0
            ==> errors_of(table, seq![source]).len() == 0,
        error_of(table, source.path@) == (if table.contains_key(source.path@) {
            table[source.path@].last_error
        } else {
            Seq::empty()
        }),
    decreases b.len(),
{
    let one = seq![source];
    assert(one.drop_last() =~= Seq::<Source>::empty());
    assert(errors_of(table, one.drop_last()) =~= Seq::<Seq<char>>::empty());
    if table.contains_key(source.path@) && table[source.path@].last_error.len() > 0 {
        assert(errors_of(table, one) =~= seq![table[source.path@].last_error]);
    }
    if b.len() == 0 {
        assert(a + b =~= a);
        assert(errors_of(table, a) + errors_of(table, b) =~= errors_of(table, a));
    } else {
        errors_come_in_the_order_of_the_sources(table, a, b.drop_last(), source);
        assert((a + b).drop_last() =~= a + b.drop_last());
        assert((a + b).last() == b.last());
        assert(errors_of(table, a + b) =~= errors_of(table, a) + errors_of(table, b));
    }
}

/// A list of texts has each of them once, with a separator between two and nothing else.
pub proof fn lists_have_separators_between(parts: Seq<Seq<char>>, part: Seq<char>)
    ensures
        listed(Seq::<Seq<char>>::empty()).len() == 0,
        listed(seq![part]) == part,
        parts.len() > 0 ==> listed(parts.push(part)) == listed(parts) + "; "@ + part,
{
    assert(parts.push(part).drop_last() =~= parts);
}

/// The status shows the devices and the errors of the sources, or only why there are none.
pub proof fn statuses_follow_observations(
    status: BluetoothStatus,
    observation: Observation,
    errors: Seq<char>,
)
    requires
        status.follows(observation, errors),
    ensures
        status.available <==> observation is Devices,
        observation matches Observation::Devices(devices) ==> status.devices == devices
            && status.last_error@ == errors,
        !(observation is Devices) ==> status.devices@.len() == 0,
        observation matches Observation::Failed(reason) ==> status.last_error@
            == "BlueZ unavailable: "@ + reason@,
        observation is TimedOut ==> status.last_error@ == "BlueZ snapshot timed out"@,
{
}

/// After it was met a source is due after the connect delay, after it was asked after the retry
/// delay.
pub proof fn sources_are_due_after_their_delays(at: u64, ended: u64, timing: Bluetooth)
    ensures
        due_after(Moment::Met { at }, timing) == at + timing.a2dp_connect_delay_seconds
            * 1_000_000_000,
        due_after(Moment::Asked { at, ended }, timing) == ended + timing.a2dp_retry_delay_seconds
            * 1_000_000_000,
{
}

} // verus!
