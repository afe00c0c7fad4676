//! Text handling: the pieces of string work that the rest of the library is stated over.
use vstd::prelude::*;
use vstd::string::*;
use vstd::utf8::*;

verus! {

/// `String::push`: the standard library documents that the character is appended to the end.
pub assume_specification[ String::push ](s: &mut String, c: char)
    ensures
        final(s)@ == old(s)@.push(c),
;

/// The views of strings.
pub open spec fn texts(v: Seq<String>) -> Seq<Seq<char>> {
    v.map_values(|s: String| s@)
}

/// The characters of a string, one per position.
pub fn chars_of(s: &str) -> (r: Vec<char>)
    ensures
        r@ == s@,
{
    let mut out: Vec<char> = Vec::new();
    for c in it: s.chars()
        invariant
            it.seq() == s@,
            out@ == s@.take(it.index() as int),
    {
        out.push(c);
    }
    out
}

/// Whether two strings hold the same characters.
pub fn same(a: &str, b: &str) -> (r: bool)
    ensures
        r == (a@ == b@),
{
    let x = chars_of(a);
    let y = chars_of(b);
    if x.len() != y.len() {
        return false;
    }
    let mut i: usize = 0;
    while i < x.len()
        invariant
            x@ == a@,
            y@ == b@,
            x@.len() == y@.len(),
            i <= x@.len(),
            forall|k: int| 0 <= k < i ==> x@[k] == y@[k],
        decreases x@.len() - i,
    {
        if x[i] != y[i] {
            return false;
        }
        i = i + 1;
    }
    assert(a@ =~= b@);
    true
}

/// The characters with the Unicode property White_Space.
pub open spec fn is_space(c: char) -> bool {
    ||| 0x9 <= c as u32 <= 0xd
    ||| c as u32 == 0x20
    ||| c as u32 == 0x85
    ||| c as u32 == 0xa0
    ||| c as u32 == 0x1680
    ||| 0x2000 <= c as u32 <= 0x200a
    ||| 0x2028 <= c as u32 <= 0x2029
    ||| c as u32 == 0x202f
    ||| c as u32 == 0x205f
    ||| c as u32 == 0x3000
}

/// Whether a character is white space.
pub fn space(c: char) -> (r: bool)
    ensures
        r == is_space(c),
{
    let n: u32 = c as u32;
    (0x9 <= n && n <= 0xd) || n == 0x20 || n == 0x85 || n == 0xa0 || n == 0x1680 || (0x2000 <= n
        && n <= 0x200a) || (0x2028 <= n && n <= 0x2029) || n == 0x202f || n == 0x205f || n
        == 0x3000
}

/// `s` without its leading white space.
pub open spec fn trim_left(s: Seq<char>) -> Seq<char>
    decreases s.len(),
{
    if s.len() > 0 && is_space(s[0]) {
        trim_left(s.drop_first())
    } else {
        s
    }
}

/// `s` without its trailing white space.
pub open spec fn trim_right(s: Seq<char>) -> Seq<char>
    decreases s.len(),
{
    if s.len() > 0 && is_space(s.last()) {
        trim_right(s.drop_last())
    } else {
        s
    }
}

/// `s` without white space at either end.
pub open spec fn trimmed(s: Seq<char>) -> Seq<char> {
    trim_right(trim_left(s))
}

/// Nothing is left of white space when it is trimmed.
pub proof fn blanks_are_trimmed(s: Seq<char>)
    requires
        forall|i: int| 0 <= i < s.len() ==> is_space(#[trigger] s[i]),
    ensures
        trimmed(s) == Seq::<char>::empty(),
    decreases s.len(),
{
    if s.len() > 0 {
        assert forall|i: int| 0 <= i < s.drop_first().len() implies is_space(
            #[trigger] s.drop_first()[i],
        ) by {
            assert(s.drop_first()[i] == s[i + 1]);
        }
        blanks_are_trimmed(s.drop_first());
        assert(is_space(s[0]));
    }
}

/// A contiguous part of a character sequence, by its two ends.
pub struct Span {
    pub from: usize,
    pub to: usize,
}

impl Span {
    /// The characters of `s` that the span covers.
    pub open spec fn of(self, s: Seq<char>) -> Seq<char> {
        s.subrange(self.from as int, self.to as int)
    }

    /// The span lies within `s`.
    pub open spec fn within(self, s: Seq<char>) -> bool {
        self.from <= self.to <= s.len()
    }
}

/// Narrows a span so that it covers what is left after trimming.
pub fn trim_span(s: &Vec<char>, span: Span) -> (r: Span)
    requires
        span.within(s@),
    ensures
        r.within(s@),
        r.of(s@) == trimmed(span.of(s@)),
{
    let mut from: usize = span.from;
    let mut to: usize = span.to;
    while from < to && space(s[from])
        invariant
            span.from <= from <= to,
            to == span.to,
            to <= s@.len(),
            trim_left(s@.subrange(from as int, to as int)) == trim_left(span.of(s@)),
        decreases to - from,
    {
        proof {
            let cur = s@.subrange(from as int, to as int);
            assert(cur[0] == s@[from as int]);
            assert(cur.drop_first() =~= s@.subrange(from + 1, to as int));
        }
        from = from + 1;
    }
    let ghost left = s@.subrange(from as int, to as int);
    assert(left == trim_left(span.of(s@))) by {
        if left.len() > 0 {
            assert(left[0] == s@[from as int]);
        }
    }
    while from < to && space(s[to - 1])
        invariant
            from <= to <= s@.len(),
            trim_right(s@.subrange(from as int, to as int)) == trim_right(left),
        decreases to - from,
    {
        proof {
            let cur = s@.subrange(from as int, to as int);
            assert(cur.last() == s@[to - 1]);
            assert(cur.drop_last() =~= s@.subrange(from as int, to - 1));
        }
        to = to - 1;
    }
    assert(s@.subrange(from as int, to as int) == trim_right(left)) by {
        let cur = s@.subrange(from as int, to as int);
        if cur.len() > 0 {
            assert(cur.last() == s@[to - 1]);
        }
    }
    Span { from, to }
}

/// `c` with `A` to `Z` turned into `a` to `z`.
pub open spec fn lower(c: char) -> char {
    if 'A' <= c && c <= 'Z' {
        (c as u32 + 32) as char
    } else {
        c
    }
}

/// `c` with `a` to `z` turned into `A` to `Z`.
pub open spec fn upper(c: char) -> char {
    if 'a' <= c && c <= 'z' {
        (c as u32 - 32) as char
    } else {
        c
    }
}

/// Turns one ASCII letter into lower case and leaves every other character alone.
pub fn lower_char(c: char) -> (r: char)
    ensures
        r == lower(c),
{
    if 'A' <= c && c <= 'Z' {
        let b: u8 = c as u8;
        (b + 32) as char
    } else {
        c
    }
}

/// Turns one ASCII letter into upper case and leaves every other character alone.
pub fn upper_char(c: char) -> (r: char)
    ensures
        r == upper(c),
{
    if 'a' <= c && c <= 'z' {
        let b: u8 = c as u8;
        (b - 32) as char
    } else {
        c
    }
}

/// Every ASCII letter of `s` in lower case.
pub open spec fn lowered(s: Seq<char>) -> Seq<char> {
    s.map_values(|c: char| lower(c))
}

/// Every ASCII letter of `s` in upper case.
pub open spec fn uppered(s: Seq<char>) -> Seq<char> {
    s.map_values(|c: char| upper(c))
}

/// `s` in ASCII upper case.
pub fn ascii_upper(s: &str) -> (r: String)
    ensures
        r@ == uppered(s@),
{
    let mut out = String::new();
    for c in it: s.chars()
        invariant
            it.seq() == s@,
            out@ == uppered(s@.take(it.index() as int)),
    {
        out.push(upper_char(c));
        assert(out@ =~= uppered(s@.take(it.index() + 1)));
    }
    assert(s@.take(s@.len() as int) =~= s@);
    out
}

/// The characters of a span as a string in ASCII lower case.
pub fn lower_span(s: &Vec<char>, span: Span) -> (r: String)
    requires
        span.within(s@),
    ensures
        r@ == lowered(span.of(s@)),
{
    let mut out = String::new();
    let mut i: usize = span.from;
    while i < span.to
        invariant
            span.from <= i <= span.to,
            span.to <= s@.len(),
            out@ == lowered(s@.subrange(span.from as int, i as int)),
        decreases span.to - i,
    {
        out.push(lower_char(s[i]));
        i = i + 1;
        assert(out@ =~= lowered(s@.subrange(span.from as int, i as int)));
    }
    out
}

/// Whether two strings are equal when ASCII letters are compared without regard to case.
pub fn same_ignoring_case(a: &str, b: &str) -> (r: bool)
    ensures
        r == (lowered(a@) == lowered(b@)),
{
    let x = chars_of(a);
    let y = chars_of(b);
    if x.len() != y.len() {
        assert(lowered(a@).len() != lowered(b@).len());
        return false;
    }
    let mut i: usize = 0;
    while i < x.len()
        invariant
            x@ == a@,
            y@ == b@,
            x@.len() == y@.len(),
            i <= x@.len(),
            forall|k: int| 0 <= k < i ==> lower(x@[k]) == lower(y@[k]),
        decreases x@.len() - i,
    {
        if lower_char(x[i]) != lower_char(y[i]) {
            assert(lowered(a@)[i as int] != lowered(b@)[i as int]);
            return false;
        }
        i = i + 1;
    }
    assert(lowered(a@) =~= lowered(b@));
    true
}

/// Whether the characters of a span are exactly those of `word`.
pub fn span_is(s: &Vec<char>, span: Span, word: &str) -> (r: bool)
    requires
        span.within(s@),
    ensures
        r == (span.of(s@) == word@),
{
    let w = chars_of(word);
    if w.len() != span.to - span.from {
        return false;
    }
    let mut i: usize = 0;
    while i < w.len()
        invariant
            w@ == word@,
            span.within(s@),
            w@.len() == span.to - span.from,
            i <= w@.len(),
            forall|k: int| 0 <= k < i ==> #[trigger] w@[k] == s@[span.from + k],
        decreases w@.len() - i,
    {
        if w[i] != s[span.from + i] {
            assert(span.of(s@)[i as int] == s@[span.from + i]);
            return false;
        }
        i = i + 1;
    }
    assert(span.of(s@) =~= word@);
    true
}

/// Lexicographic order on bytes, a sequence coming before each of its extensions.
pub open spec fn bytes_le(a: Seq<u8>, b: Seq<u8>) -> bool
    decreases a.len(),
{
    if a.len() == 0 {
        true
    } else if b.len() == 0 {
        false
    } else {
        a[0] < b[0] || (a[0] == b[0] && bytes_le(a.drop_first(), b.drop_first()))
    }
}

/// The order of strings: that of the bytes which encode them.
pub open spec fn text_le(a: Seq<char>, b: Seq<char>) -> bool {
    bytes_le(encode_utf8(a), encode_utf8(b))
}

/// Of two byte sequences one comes first.
pub proof fn bytes_le_total(a: Seq<u8>, b: Seq<u8>)
    ensures
        bytes_le(a, b) || bytes_le(b, a),
    decreases a.len(),
{
    if a.len() > 0 && b.len() > 0 && a[0] == b[0] {
        bytes_le_total(a.drop_first(), b.drop_first());
    }
}

/// The order on byte sequences is transitive.
pub proof fn bytes_le_transitive(a: Seq<u8>, b: Seq<u8>, c: Seq<u8>)
    requires
        bytes_le(a, b),
        bytes_le(b, c),
    ensures
        bytes_le(a, c),
    decreases a.len(),
{
    if a.len() > 0 && b.len() > 0 && c.len() > 0 && a[0] == b[0] && b[0] == c[0] {
        bytes_le_transitive(a.drop_first(), b.drop_first(), c.drop_first());
    }
}

/// Two byte sequences that come before each other are equal.
pub proof fn bytes_le_antisymmetric(a: Seq<u8>, b: Seq<u8>)
    requires
        bytes_le(a, b),
        bytes_le(b, a),
    ensures
        a == b,
    decreases a.len(),
{
    if a.len() > 0 && b.len() > 0 {
        bytes_le_antisymmetric(a.drop_first(), b.drop_first());
        assert(a =~= seq![a[0]] + a.drop_first());
        assert(b =~= seq![b[0]] + b.drop_first());
    } else {
        assert(a =~= b);
    }
}

/// Two strings with the same encoding are equal.
pub proof fn encoding_is_injective(a: Seq<char>, b: Seq<char>)
    requires
        encode_utf8(a) == encode_utf8(b),
    ensures
        a == b,
{
    encode_utf8_decode_utf8(a);
    encode_utf8_decode_utf8(b);
}

/// Whether `a` comes before `b` or equals it.
pub fn comes_before_or_equals(a: &str, b: &str) -> (r: bool)
    ensures
        r == text_le(a@, b@),
{
    let x = a.as_bytes();
    let y = b.as_bytes();
    let mut i: usize = 0;
    assert(x@.skip(0) =~= x@);
    assert(y@.skip(0) =~= y@);
    while i < x.len()
        invariant
            i <= x@.len(),
            i <= y@.len(),
            x@ == encode_utf8(a@),
            y@ == encode_utf8(b@),
            bytes_le(x@.skip(i as int), y@.skip(i as int)) == text_le(a@, b@),
        decreases x@.len() - i,
    {
        if i == y.len() {
            return false;
        }
        proof {
            assert(x@.skip(i as int)[0] == x@[i as int]);
            assert(y@.skip(i as int)[0] == y@[i as int]);
            assert(x@.skip(i as int).drop_first() =~= x@.skip(i + 1));
            assert(y@.skip(i as int).drop_first() =~= y@.skip(i + 1));
        }
        if x[i] < y[i] {
            return true;
        }
        if x[i] > y[i] {
            return false;
        }
        i = i + 1;
    }
    true
}

/// What `String::from_utf8_lossy` makes of the bytes.
pub uninterp spec fn lossy(bytes: Seq<u8>) -> Seq<char>;

/// `String::from_utf8_lossy`. Valid UTF-8 comes back as the characters that it encodes. What
/// stands for an invalid sequence is named, not stated.
#[verifier::external_body]
pub(crate) fn lossy_text(bytes: &[u8]) -> (r: String)
    ensures
        r@ == lossy(bytes@),
        valid_utf8(bytes@) ==> r@ == decode_utf8(bytes@),
{
    String::from_utf8_lossy(bytes).into_owned()
}

/// The decimal digits of `n`, most significant first, without leading zeros.
pub open spec fn decimal(n: nat) -> Seq<char>
    decreases n,
{
    if n < 10 {
        seq![digit(n)]
    } else {
        decimal(n / 10).push(digit(n % 10))
    }
}

/// The digit for a number below ten.
pub open spec fn digit(n: nat) -> char {
    (('0' as u32) + n) as char
}

/// `n` in decimal.
pub fn decimal_text(n: u64) -> (r: String)
    ensures
        r@ == decimal(n as nat),
    decreases n,
{
    let mut out = if n < 10 {
        String::new()
    } else {
        decimal_text(n / 10)
    };
    let d: u8 = (n % 10) as u8;
    out.push((48 + d) as char);
    out
}

/// The value that a digit stands for is below ten and determines the digit.
proof fn digit_is_injective(a: nat, b: nat)
    requires
        a < 10,
        b < 10,
        digit(a) == digit(b),
    ensures
        a == b,
{
}

/// Different numbers have different decimal texts.
pub proof fn decimal_is_injective(a: nat, b: nat)
    requires
        decimal(a) == decimal(b),
    ensures
        a == b,
    decreases a,
{
    if a >= 10 && b >= 10 {
        assert(decimal(a).drop_last() =~= decimal(a / 10));
        assert(decimal(b).drop_last() =~= decimal(b / 10));
        assert(decimal(a).last() == digit(a % 10));
        assert(decimal(b).last() == digit(b % 10));
        decimal_is_injective(a / 10, b / 10);
        digit_is_injective(a % 10, b % 10);
    } else if a < 10 && b < 10 {
        assert(decimal(a)[0] == digit(a));
        assert(decimal(b)[0] == digit(b));
        digit_is_injective(a, b);
    } else if a < 10 {
        decimal_has_a_digit(b / 10);
        assert(decimal(b).len() == decimal(b / 10).len() + 1);
    } else {
        decimal_has_a_digit(a / 10);
        assert(decimal(a).len() == decimal(a / 10).len() + 1);
    }
}

proof fn decimal_has_a_digit(n: nat)
    ensures
        decimal(n).len() >= 1,
    decreases n,
{
    if n >= 10 {
        decimal_has_a_digit(n / 10);
    }
}

/// The views of strings stand one for one at their places.
pub proof fn texts_keep_their_places(v: Seq<String>, i: int)
    requires
        0 <= i < v.len(),
    ensures
        texts(v).len() == v.len(),
        texts(v)[i] == v[i]@,
{
}

/// Only the twenty-six letters change case, each into its counterpart, and every character of a
/// text keeps its place.
pub proof fn letters_change_case_in_place(s: Seq<char>, i: int)
    requires
        0 <= i < s.len(),
    ensures
        lowered(s).len() == s.len(),
        uppered(s).len() == s.len(),
        65 <= s[i] as u32 <= 90 ==> lowered(s)[i] as u32 == s[i] as u32 + 32,
        !(65 <= s[i] as u32 <= 90) ==> lowered(s)[i] == s[i],
        97 <= s[i] as u32 <= 122 ==> uppered(s)[i] as u32 == s[i] as u32 - 32,
        !(97 <= s[i] as u32 <= 122) ==> uppered(s)[i] == s[i],
{
}

/// Texts that differ only in the case of letters are the same in lower case.
pub proof fn case_is_ignored(s: Seq<char>)
    ensures
        lowered(uppered(s)) == lowered(s),
        lowered(lowered(s)) == lowered(s),
        uppered(lowered(s)) == uppered(s),
{
    assert forall|c: char| #[trigger] lower(upper(c)) == lower(c) by {
        case_of_a_character(c);
    }
    assert forall|c: char| #[trigger] lower(lower(c)) == lower(c) by {
        case_of_a_character(c);
    }
    assert forall|c: char| #[trigger] upper(lower(c)) == upper(c) by {
        case_of_a_character(c);
    }
    assert(lowered(uppered(s)) =~= lowered(s));
    assert(lowered(lowered(s)) =~= lowered(s));
    assert(uppered(lowered(s)) =~= uppered(s));
}

proof fn case_of_a_character(c: char)
    ensures
        lower(upper(c)) == lower(c),
        lower(lower(c)) == lower(c),
        upper(lower(c)) == upper(c),
{
    if 'a' <= c && c <= 'z' {
        assert(upper(c) as u32 == c as u32 - 32);
        assert(lower(upper(c)) as u32 == c as u32);
    }
    if 'A' <= c && c <= 'Z' {
        assert(lower(c) as u32 == c as u32 + 32);
        assert(upper(lower(c)) as u32 == c as u32);
    }
}

/// Trimming takes white space from both ends, all of it there and nothing else.
pub proof fn trimming_takes_what_is_outside(s: Seq<char>) -> (r: (int, int))
    ensures
        0 <= r.0 <= r.1 <= s.len(),
        trimmed(s) == s.subrange(r.0, r.1),
        forall|i: int| 0 <= i < r.0 ==> is_space(#[trigger] s[i]),
        forall|i: int| r.1 <= i < s.len() ==> is_space(#[trigger] s[i]),
        r.0 < r.1 ==> !is_space(s[r.0]) && !is_space(s[r.1 - 1]),
{
    let i = left_of(s);
    let rest = s.skip(i);
    let j = right_of(rest);
    assert(rest.take(j) =~= s.subrange(i, i + j));
    assert forall|k: int| i + j <= k < s.len() implies is_space(#[trigger] s[k]) by {
        assert(rest[k - i] == s[k]);
    }
    if j > 0 {
        assert(rest[j - 1] == s[i + j - 1]);
    }
    (i, i + j)
}

proof fn left_of(s: Seq<char>) -> (i: int)
    ensures
        0 <= i <= s.len(),
        trim_left(s) == s.skip(i),
        forall|k: int| 0 <= k < i ==> is_space(#[trigger] s[k]),
        i < s.len() ==> !is_space(s[i]),
    decreases s.len(),
{
    if s.len() > 0 && is_space(s[0]) {
        let rest = s.drop_first();
        let i = left_of(rest);
        assert(rest.skip(i) =~= s.skip(i + 1));
        assert forall|k: int| 0 <= k < i + 1 implies is_space(#[trigger] s[k]) by {
            if k > 0 {
                assert(rest[k - 1] == s[k]);
            }
        }
        if i < rest.len() {
            assert(rest[i] == s[i + 1]);
        }
        i + 1
    } else {
        assert(s.skip(0) =~= s);
        0
    }
}

proof fn right_of(s: Seq<char>) -> (j: int)
    ensures
        0 <= j <= s.len(),
        trim_right(s) == s.take(j),
        forall|k: int| j <= k < s.len() ==> is_space(#[trigger] s[k]),
        j > 0 ==> !is_space(s[j - 1]),
    decreases s.len(),
{
    if s.len() > 0 && is_space(s.last()) {
        let rest = s.drop_last();
        let j = right_of(rest);
        assert(rest.take(j) =~= s.take(j));
        assert forall|k: int| j <= k < s.len() implies is_space(#[trigger] s[k]) by {
            if k < rest.len() {
                assert(rest[k] == s[k]);
            }
        }
        if j > 0 {
            assert(rest[j - 1] == s[j - 1]);
        }
        j
    } else {
        assert(s.take(s.len() as int) =~= s);
        s.len() as int
    }
}

/// The white space characters are those of Unicode, and no others.
pub proof fn white_space_is_that_of_unicode(c: char)
    ensures
        is_space(c) <==> {
            let n = c as u32;
            (9 <= n <= 13) || n == 32 || n == 133 || n == 160 || n == 5760 || (8192 <= n <= 8202)
                || n == 8232 || n == 8233 || n == 8239 || n == 8287 || n == 12288
        },
{
}

/// The first byte in which two sequences differ decides which comes first; without one, the
/// shorter comes first.
pub proof fn first_difference_decides(a: Seq<u8>, b: Seq<u8>, n: int)
    requires
        0 <= n <= a.len(),
        n <= b.len(),
        forall|i: int| 0 <= i < n ==> a[i] == b[i],
    ensures
        n == a.len() ==> bytes_le(a, b),
        n == b.len() && n < a.len() ==> !bytes_le(a, b),
        n < a.len() && n < b.len() && a[n] < b[n] ==> bytes_le(a, b),
        n < a.len() && n < b.len() && a[n] > b[n] ==> !bytes_le(a, b),
    decreases n,
{
    if n > 0 {
        let x = a.drop_first();
        let y = b.drop_first();
        assert forall|i: int| 0 <= i < n - 1 implies x[i] == y[i] by {
            assert(x[i] == a[i + 1] && y[i] == b[i + 1]);
        }
        first_difference_decides(x, y, n - 1);
    }
}

/// Strings come in the order of the bytes that encode them.
pub proof fn strings_come_in_the_order_of_their_bytes(a: Seq<char>, b: Seq<char>)
    ensures
        text_le(a, b) <==> bytes_le(encode_utf8(a), encode_utf8(b)),
{
}

/// The number that decimal digits stand for.
pub open spec fn number_of(digits: Seq<char>) -> int
    decreases digits.len(),
{
    if digits.len() == 0 {
        0
    } else {
        number_of(digits.drop_last()) * 10 + (digits.last() as u32 - 48)
    }
}

/// Reading the decimal text of a number gives the number; the text has nothing but digits, and no
/// leading zero unless it is zero.
pub proof fn decimal_reads_back(n: nat)
    ensures
        number_of(decimal(n)) == n,
        decimal(n).len() > 0,
        forall|i: int| 0 <= i < decimal(n).len() ==> 48 <= (#[trigger] decimal(n)[i]) as u32 <= 57,
        n > 0 ==> decimal(n)[0] as u32 > 48,
        n == 0 ==> decimal(n).len() == 1,
    decreases n,
{
    if n >= 10 {
        let front = n / 10;
        decimal_reads_back(front);
        assert(decimal(n).drop_last() =~= decimal(front));
        assert(decimal(n).last() as u32 == 48 + n % 10);
        assert(decimal(n)[0] == decimal(front)[0]);
        assert forall|i: int| 0 <= i < decimal(n).len() implies 48 <= (#[trigger] decimal(
            n,
        )[i]) as u32 <= 57 by {
            if i < decimal(front).len() {
                assert(decimal(n)[i] == decimal(front)[i]);
            }
        }
    } else {
        assert(decimal(n) == seq![digit(n)]);
        assert(decimal(n).drop_last() =~= Seq::<char>::empty());
        assert(decimal(n).last() as u32 == 48 + n);
        assert(number_of(decimal(n).drop_last()) == 0);
    }
}

} // verus!
