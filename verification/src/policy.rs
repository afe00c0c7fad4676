//! The optional input rule: which files carry it and what they must declare.
use crate::config::ConfigError;
use crate::path;
use crate::storage;
use crate::storage::{Environment, Lookup};
use crate::text;
use crate::text::Span;
use vstd::prelude::*;
use vstd::string::*;
use vstd::utf8::*;

verus! {

/// The largest rule file that is read, in bytes.
pub const MAX_POLICY_BYTES: u64 = 65536;

/// `s` without any number of leading `--`.
pub open spec fn without_dashes(s: Seq<char>) -> Seq<char>
    decreases s.len(),
{
    if s.len() >= 2 && s[0] == '-' && s[1] == '-' {
        without_dashes(s.skip(2))
    } else {
        s
    }
}

/// `s` without any number of leading `#`.
pub open spec fn without_hashes(s: Seq<char>) -> Seq<char>
    decreases s.len(),
{
    if s.len() >= 1 && s[0] == '#' {
        without_hashes(s.skip(1))
    } else {
        s
    }
}

/// What a line says once its comment sign and the white space around it are gone.
pub open spec fn bare(line: Seq<char>) -> Seq<char> {
    text::trimmed(without_hashes(without_dashes(text::trimmed(line))))
}

/// The characters from `i` to `j` are a whole line.
pub open spec fn is_line(s: Seq<char>, i: int, j: int) -> bool {
    &&& 0 <= i <= j <= s.len()
    &&& i == 0 || s[i - 1] == '\n'
    &&& j == s.len() || s[j] == '\n'
    &&& forall|k: int| i <= k < j ==> s[k] != '\n'
}

/// One of the lines says `marker`.
pub open spec fn declares(s: Seq<char>, marker: Seq<char>) -> bool {
    exists|i: int, j: int| #[trigger] is_line(s, i, j) && bare(s.subrange(i, j)) == marker
}

/// The text is a rule of this project in its present form.
pub open spec fn is_policy(s: Seq<char>) -> bool {
    &&& declares(s, "BLUETOOTH_AUDIO_BRIDGE_POLICY=1"@)
    &&& declares(s, "BLUETOOTH_AUDIO_BRIDGE_SCOPE=a2dp-source"@)
    &&& declares(s, "BLUETOOTH_AUDIO_BRIDGE_ROUTE=system-output"@)
}

/// Narrows a span to what is left without leading `--` and then `#`.
fn strip_span(s: &Vec<char>, span: Span) -> (r: Span)
    requires
        span.within(s@),
    ensures
        r.within(s@),
        r.of(s@) == without_hashes(without_dashes(span.of(s@))),
{
    let to: usize = span.to;
    let mut from: usize = span.from;
    while to - from >= 2 && s[from] == '-' && s[from + 1] == '-'
        invariant
            span.from <= from <= to,
            to == span.to,
            to <= s@.len(),
            without_dashes(s@.subrange(from as int, to as int)) == without_dashes(span.of(s@)),
        decreases to - from,
    {
        proof {
            let cur = s@.subrange(from as int, to as int);
            assert(cur[0] == s@[from as int] && cur[1] == s@[from + 1]);
            assert(cur.skip(2) =~= s@.subrange(from + 2, to as int));
        }
        from = from + 2;
    }
    let ghost rest = s@.subrange(from as int, to as int);
    assert(rest == without_dashes(span.of(s@))) by {
        if rest.len() >= 2 {
            assert(rest[0] == s@[from as int] && rest[1] == s@[from + 1]);
        }
    }
    while from < to && s[from] == '#'
        invariant
            from <= to,
            to <= s@.len(),
            without_hashes(s@.subrange(from as int, to as int)) == without_hashes(rest),
        decreases to - from,
    {
        proof {
            let cur = s@.subrange(from as int, to as int);
            assert(cur[0] == s@[from as int]);
            assert(cur.skip(1) =~= s@.subrange(from + 1, to as int));
        }
        from = from + 1;
    }
    assert(s@.subrange(from as int, to as int) == without_hashes(rest)) by {
        let cur = s@.subrange(from as int, to as int);
        if cur.len() >= 1 {
            assert(cur[0] == s@[from as int]);
        }
    }
    Span { from, to }
}

/// The end of the line that starts at `from`.
fn line_end(s: &Vec<char>, from: usize) -> (r: usize)
    requires
        from <= s@.len(),
        from == 0 || s@[from - 1] == '\n',
    ensures
        from <= r <= s@.len(),
        is_line(s@, from as int, r as int),
{
    let mut to: usize = from;
    while to < s.len() && s[to] != '\n'
        invariant
            from <= to <= s@.len(),
            forall|k: int| from <= k < to ==> s@[k] != '\n',
        decreases s@.len() - to,
    {
        to = to + 1;
    }
    to
}

/// Whether one of the lines says `marker`.
fn has_marker(s: &Vec<char>, marker: &str) -> (r: bool)
    ensures
        r == declares(s@, marker@),
{
    let mut from: usize = 0;
    loop
        invariant
            from <= s@.len(),
            from == 0 || s@[from - 1] == '\n',
            forall|i: int, j: int|
                #[trigger] is_line(s@, i, j) && i < from ==> bare(s@.subrange(i, j)) != marker@,
        decreases s@.len() - from,
    {
        let to = line_end(s, from);
        let line = Span { from, to };
        let inner = text::trim_span(s, line);
        let stripped = strip_span(s, inner);
        let content = text::trim_span(s, stripped);
        if text::span_is(s, content, marker) {
            assert(is_line(s@, from as int, to as int));
            return true;
        }
        proof {
            assert forall|i: int, j: int| #[trigger]
                is_line(s@, i, j) && i <= to implies bare(s@.subrange(i, j)) != marker@ by {
                if i >= from {
                    if i > from {
                        assert(s@[i - 1] == '\n');
                        assert(false);
                    }
                    if j < to {
                        assert(s@[j] == '\n');
                        assert(false);
                    }
                    if j > to {
                        assert(s@[to as int] == '\n');
                        assert(false);
                    }
                }
            }
        }
        if to == s.len() {
            return false;
        }
        from = to + 1;
    }
}

/// Whether the text is a rule of this project in its present form.
pub fn policy_text_accepted(content: &str) -> (r: bool)
    ensures
        r == is_policy(content@),
{
    let s = text::chars_of(content);
    has_marker(&s, "BLUETOOTH_AUDIO_BRIDGE_POLICY=1") && has_marker(
        &s,
        "BLUETOOTH_AUDIO_BRIDGE_SCOPE=a2dp-source",
    ) && has_marker(&s, "BLUETOOTH_AUDIO_BRIDGE_ROUTE=system-output")
}

/// A file that may be read for the rule: a small regular file of the user's own.
pub open spec fn readable_policy(found: Lookup, user: u32) -> bool {
    found matches Lookup::Found(facts) && facts.is_file && facts.uid == user && facts.len
        <= MAX_POLICY_BYTES
}

/// Whether a file may be read for the rule.
pub fn policy_file_eligible(found: Lookup, user: u32) -> (r: bool)
    ensures
        r == readable_policy(found, user),
{
    match found {
        Lookup::Found(facts) => facts.is_file && facts.uid == user && facts.len
            <= MAX_POLICY_BYTES,
        _ => false,
    }
}

/// The places where the rule may be: one for each supported version of WirePlumber.
pub fn policy_places(environment: &Environment) -> (r: Result<Vec<Vec<u8>>, ConfigError>)
    ensures
        match environment.settings_home() {
            Err(e) => r == Err::<Vec<Vec<u8>>, ConfigError>(e),
            Ok(home) => r matches Ok(places) && path::views(places@) == seq![
                path::joined(
                    home,
                    encode_utf8(
                        "wireplumber/bluetooth.lua.d/90-bluetooth-audio-bridge-phone.lua"@,
                    ),
                ),
                path::joined(
                    home,
                    encode_utf8(
                        "wireplumber/wireplumber.conf.d/90-bluetooth-audio-bridge-phone.conf"@,
                    ),
                ),
            ],
        },
{
    match storage::config_home(environment) {
        Err(e) => Err(e),
        Ok(home) => {
            let lua = path::join(
                home.as_slice(),
                "wireplumber/bluetooth.lua.d/90-bluetooth-audio-bridge-phone.lua".as_bytes(),
            );
            let conf = path::join(
                home.as_slice(),
                "wireplumber/wireplumber.conf.d/90-bluetooth-audio-bridge-phone.conf".as_bytes(),
            );
            let mut places: Vec<Vec<u8>> = Vec::new();
            places.push(lua);
            places.push(conf);
            Ok(places)
        },
    }
}

/// A place where the rule may be, and what could be read there.
#[derive(Debug)]
pub struct PolicyFile {
    pub found: Lookup,
    pub content: Option<String>,
}

impl PolicyFile {
    /// The file carries the rule.
    pub open spec fn carries_policy(self, user: u32) -> bool {
        readable_policy(self.found, user) && (self.content matches Some(c) && is_policy(c@))
    }
}

/// Whether one of the files carries the rule. To root none does.
pub fn phone_policy_file_present(user: u32, files: &Vec<PolicyFile>) -> (r: bool)
    ensures
        r == (user != 0 && exists|i: int|
            0 <= i < files@.len() && (#[trigger] files@[i]).carries_policy(user)),
{
    if storage::ensure_user(user).is_err() {
        return false;
    }
    let mut i: usize = 0;
    while i < files.len()
        invariant
            user != 0,
            i <= files@.len(),
            forall|k: int| 0 <= k < i ==> !(#[trigger] files@[k]).carries_policy(user),
        decreases files@.len() - i,
    {
        if policy_file_eligible(files[i].found, user) {
            if let Some(content) = &files[i].content {
                if policy_text_accepted(content.as_str()) {
                    assert(files@[i as int].carries_policy(user));
                    return true;
                }
            }
        }
        i = i + 1;
    }
    false
}

/// Leading pairs of dashes are taken away, as many as there are and nothing else.
pub proof fn dashes_are_taken_in_pairs(s: Seq<char>) -> (n: int)
    ensures
        0 <= n && 2 * n <= s.len(),
        without_dashes(s) == s.skip(2 * n),
        forall|i: int| 0 <= i < 2 * n ==> #[trigger] s[i] == '-',
        !(2 * n + 1 < s.len() && s[2 * n] == '-' && s[2 * n + 1] == '-'),
    decreases s.len(),
{
    if s.len() >= 2 && s[0] == '-' && s[1] == '-' {
        let rest = s.skip(2);
        let n = dashes_are_taken_in_pairs(rest);
        assert(rest.skip(2 * n) =~= s.skip(2 * (n + 1)));
        assert forall|i: int| 0 <= i < 2 * (n + 1) implies #[trigger] s[i] == '-' by {
            if i >= 2 {
                assert(rest[i - 2] == s[i]);
            }
        }
        if 2 * (n + 1) + 1 < s.len() {
            assert(rest[2 * n] == s[2 * (n + 1)]);
            assert(rest[2 * n + 1] == s[2 * (n + 1) + 1]);
        }
        n + 1
    } else {
        assert(s.skip(0) =~= s);
        0
    }
}

/// Leading number signs are taken away, as many as there are and nothing else.
pub proof fn number_signs_are_taken(s: Seq<char>) -> (n: int)
    ensures
        0 <= n <= s.len(),
        without_hashes(s) == s.skip(n),
        forall|i: int| 0 <= i < n ==> #[trigger] s[i] == '#',
        n < s.len() ==> s[n] != '#',
    decreases s.len(),
{
    if s.len() >= 1 && s[0] == '#' {
        let rest = s.skip(1);
        let n = number_signs_are_taken(rest);
        assert(rest.skip(n) =~= s.skip(n + 1));
        assert forall|i: int| 0 <= i < n + 1 implies #[trigger] s[i] == '#' by {
            if i >= 1 {
                assert(rest[i - 1] == s[i]);
            }
        }
        if n < rest.len() {
            assert(rest[n] == s[n + 1]);
        }
        n + 1
    } else {
        assert(s.skip(0) =~= s);
        0
    }
}

/// What a line says is what is left of it once white space, dashes, number signs and white space
/// again are taken away.
pub proof fn lines_say_what_is_left(line: Seq<char>)
    ensures
        bare(line) == text::trimmed(without_hashes(without_dashes(text::trimmed(line)))),
{
}

/// A text declares what any of its lines says: what a first text declares it still declares with
/// further lines behind or before it, and a single line declares what it says.
pub proof fn any_line_declares(s: Seq<char>, other: Seq<char>, marker: Seq<char>)
    ensures
        declares(s, marker) ==> declares(s + seq!['\n'] + other, marker),
        declares(s, marker) ==> declares(other + seq!['\n'] + s, marker),
        (forall|k: int| 0 <= k < s.len() ==> s[k] != '\n') ==> (declares(s, marker) <==> bare(s)
            == marker),
{
    if declares(s, marker) {
        let (i, j) = choose|i: int, j: int| #[trigger]
            is_line(s, i, j) && bare(s.subrange(i, j)) == marker;
        let more = s + seq!['\n'] + other;
        assert(more.subrange(i, j) =~= s.subrange(i, j));
        assert forall|k: int| i <= k < j implies more[k] != '\n' by {
            assert(more[k] == s[k]);
        }
        assert(is_line(more, i, j));
        let n = other.len() + 1;
        let after = other + seq!['\n'] + s;
        assert(after.subrange(i + n, j + n) =~= s.subrange(i, j));
        assert forall|k: int| i + n <= k < j + n implies after[k] != '\n' by {
            assert(after[k] == s[k - n]);
        }
        assert(is_line(after, i + n, j + n));
    }
    if forall|k: int| 0 <= k < s.len() ==> s[k] != '\n' {
        assert(s.subrange(0, s.len() as int) =~= s);
        assert(is_line(s, 0, s.len() as int));
        assert forall|i: int, j: int| #[trigger] is_line(s, i, j) implies i == 0 && j
            == s.len() by {
            if i > 0 {
                assert(s[i - 1] == '\n');
            }
            if j < s.len() {
                assert(s[j] == '\n');
            }
        }
    }
}

/// What two texts declare together is what one of them declares.
pub proof fn nothing_else_is_declared(a: Seq<char>, b: Seq<char>, marker: Seq<char>)
    requires
        declares(a + seq!['\n'] + b, marker),
    ensures
        declares(a, marker) || declares(b, marker),
{
    let s = a + seq!['\n'] + b;
    let n = a.len() as int;
    let (i, j) = choose|i: int, j: int| #[trigger]
        is_line(s, i, j) && bare(s.subrange(i, j)) == marker;
    assert(s[n] == '\n');
    if j <= n {
        assert(a.subrange(i, j) =~= s.subrange(i, j));
        if j < n {
            assert(a[j] == s[j]);
        }
        if i > 0 {
            assert(a[i - 1] == s[i - 1]);
        }
        assert forall|k: int| i <= k < j implies a[k] != '\n' by {
            assert(a[k] == s[k]);
        }
        assert(is_line(a, i, j));
    } else {
        assert(i > n) by {
            if i <= n {
                assert(s[n] != '\n');
            }
        }
        let x = i - n - 1;
        let y = j - n - 1;
        assert(b.subrange(x, y) =~= s.subrange(i, j));
        if y < b.len() {
            assert(b[y] == s[j]);
        }
        if x > 0 {
            assert(b[x - 1] == s[i - 1]);
        }
        assert forall|k: int| x <= k < y implies b[k] != '\n' by {
            assert(b[k] == s[k + n + 1]);
        }
        assert(is_line(b, x, y));
    }
}

/// A text is a rule exactly if it declares all three markers.
pub proof fn rules_declare_all_markers(s: Seq<char>)
    ensures
        is_policy(s) <==> declares(s, "BLUETOOTH_AUDIO_BRIDGE_POLICY=1"@) && declares(
            s,
            "BLUETOOTH_AUDIO_BRIDGE_SCOPE=a2dp-source"@,
        ) && declares(s, "BLUETOOTH_AUDIO_BRIDGE_ROUTE=system-output"@),
{
}

/// A file carries the rule exactly if it is a small regular file of the user's own whose text
/// could be read and is a rule.
pub proof fn files_carry_the_rule(file: PolicyFile, user: u32)
    ensures
        readable_policy(file.found, user) <==> (file.found matches Lookup::Found(facts)
            && facts.is_file && facts.uid == user && facts.len <= 65536),
        file.carries_policy(user) <==> (file.found matches Lookup::Found(facts) && facts.is_file
            && facts.uid == user && facts.len <= 65536) && (file.content matches Some(c)
            && is_policy(c@)),
{
}

} // verus!
