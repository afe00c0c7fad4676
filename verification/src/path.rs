//! Unix paths as the bytes that name them.
use vstd::prelude::*;
use vstd::string::*;

verus! {

/// The byte that separates the parts of a path.
pub const SEPARATOR: u8 = 47;

/// The byte of which `.` and `..` are made.
pub const DOT: u8 = 46;

/// The path starts at the root.
pub open spec fn rooted(p: Seq<u8>) -> bool {
    p.len() > 0 && p[0] == SEPARATOR
}

/// How many bytes come before the first separator.
pub open spec fn head_len(p: Seq<u8>) -> nat
    decreases p.len(),
{
    if p.len() == 0 || p[0] == SEPARATOR {
        0
    } else {
        1 + head_len(p.drop_first())
    }
}

/// The part of the path before its first separator.
pub open spec fn head(p: Seq<u8>) -> Seq<u8> {
    p.take(head_len(p) as int)
}

/// The part of the path behind its first separator, nothing where it has none.
pub open spec fn tail(p: Seq<u8>) -> Seq<u8> {
    if head_len(p) < p.len() {
        p.skip(head_len(p) as int + 1)
    } else {
        Seq::empty()
    }
}

/// The part `.`.
pub open spec fn current_dir() -> Seq<u8> {
    seq![DOT]
}

/// The part `..`.
pub open spec fn parent_dir() -> Seq<u8> {
    seq![DOT, DOT]
}

/// The part counts as a component: it is neither empty nor `.`.
pub open spec fn counts(part: Seq<u8>) -> bool {
    part.len() > 0 && part != current_dir()
}

/// The components of a path in order. Repeated separators and `.` parts leave nothing behind.
pub open spec fn components(p: Seq<u8>) -> Seq<Seq<u8>>
    decreases p.len(),
    via components_decreases
{
    if p.len() == 0 {
        Seq::empty()
    } else if counts(head(p)) {
        seq![head(p)] + components(tail(p))
    } else {
        components(tail(p))
    }
}

#[via_fn]
proof fn components_decreases(p: Seq<u8>) {
    head_len_bound(p);
}

proof fn head_len_bound(p: Seq<u8>)
    ensures
        head_len(p) <= p.len(),
        forall|i: int| 0 <= i < head_len(p) ==> p[i] != SEPARATOR,
        head_len(p) < p.len() ==> p[head_len(p) as int] == SEPARATOR,
    decreases p.len(),
{
    if p.len() > 0 && p[0] != SEPARATOR {
        head_len_bound(p.drop_first());
        assert forall|i: int| 0 <= i < head_len(p) implies p[i] != SEPARATOR by {
            if i > 0 {
                assert(p[i] == p.drop_first()[i - 1]);
            }
        }
        if head_len(p) < p.len() {
            assert(p[head_len(p) as int] == p.drop_first()[head_len(p) - 1]);
        }
    }
}

/// Two paths name the same place: both or neither start at the root, both or neither start with
/// `.`, and their components agree.
pub open spec fn equivalent(a: Seq<u8>, b: Seq<u8>) -> bool {
    &&& rooted(a) == rooted(b)
    &&& (head(a) == current_dir()) == (head(b) == current_dir())
    &&& components(a) == components(b)
}

/// The path that `suffix` names when it is looked up from `base`.
pub open spec fn joined(base: Seq<u8>, suffix: Seq<u8>) -> Seq<u8> {
    if rooted(suffix) {
        suffix
    } else if base.len() == 0 || base.last() == SEPARATOR {
        base + suffix
    } else {
        base.push(SEPARATOR) + suffix
    }
}

/// The path ends in a name and never steps up to a parent directory.
pub open spec fn names_file_directly(p: Seq<u8>) -> bool {
    components(p).len() > 0 && !components(p).contains(parent_dir())
}

/// Whether two byte slices are equal.
pub fn same_bytes(a: &[u8], b: &[u8]) -> (r: bool)
    ensures
        r == (a@ == b@),
{
    if a.len() != b.len() {
        return false;
    }
    let mut i: usize = 0;
    while i < a.len()
        invariant
            a@.len() == b@.len(),
            i <= a@.len(),
            forall|k: int| 0 <= k < i ==> a@[k] == b@[k],
        decreases a@.len() - i,
    {
        if a[i] != b[i] {
            return false;
        }
        i = i + 1;
    }
    assert(a@ =~= b@);
    true
}

/// A copy of the bytes.
pub fn copy_bytes(a: &[u8]) -> (r: Vec<u8>)
    ensures
        r@ == a@,
{
    let mut out: Vec<u8> = Vec::new();
    append_bytes(&mut out, a);
    assert(out@ =~= a@);
    out
}

/// Appends a slice to a vector.
pub fn append_bytes(out: &mut Vec<u8>, a: &[u8])
    ensures
        final(out)@ == old(out)@ + a@,
{
    let ghost before = out@;
    let mut i: usize = 0;
    assert(before + a@.take(0) =~= before);
    while i < a.len()
        invariant
            i <= a@.len(),
            out@ == before + a@.take(i as int),
        decreases a@.len() - i,
    {
        out.push(a[i]);
        i = i + 1;
        assert(out@ =~= before + a@.take(i as int));
    }
    assert(a@.take(a@.len() as int) =~= a@);
}

/// Whether the path starts at the root.
pub fn is_absolute(p: &[u8]) -> (r: bool)
    ensures
        r == rooted(p@),
{
    p.len() > 0 && p[0] == SEPARATOR
}

/// Joins two paths.
pub fn join(base: &[u8], suffix: &[u8]) -> (r: Vec<u8>)
    ensures
        r@ == joined(base@, suffix@),
{
    if is_absolute(suffix) {
        return copy_bytes(suffix);
    }
    let mut out = copy_bytes(base);
    if base.len() > 0 && base[base.len() - 1] != SEPARATOR {
        out.push(SEPARATOR);
    }
    append_bytes(&mut out, suffix);
    out
}

/// The views of a vector of byte vectors.
pub open spec fn views(parts: Seq<Vec<u8>>) -> Seq<Seq<u8>> {
    parts.map_values(|v: Vec<u8>| v@)
}

/// The first part of the bytes from `from` on.
fn part_end(p: &[u8], from: usize) -> (r: usize)
    requires
        from <= p@.len(),
    ensures
        from <= r <= p@.len(),
        r == from + head_len(p@.skip(from as int)),
    decreases p@.len() - from,
{
    if from == p.len() || p[from] == SEPARATOR {
        from
    } else {
        assert(p@.skip(from as int).drop_first() =~= p@.skip(from + 1));
        part_end(p, from + 1)
    }
}

/// A copy of a contiguous part of the bytes.
fn copy_part(p: &[u8], from: usize, to: usize) -> (r: Vec<u8>)
    requires
        from <= to <= p@.len(),
    ensures
        r@ == p@.subrange(from as int, to as int),
{
    let mut out: Vec<u8> = Vec::new();
    let mut i: usize = from;
    while i < to
        invariant
            from <= i <= to,
            to <= p@.len(),
            out@ == p@.subrange(from as int, i as int),
        decreases to - i,
    {
        out.push(p[i]);
        i = i + 1;
        assert(out@ =~= p@.subrange(from as int, i as int));
    }
    out
}

/// The components of a path.
pub fn split(p: &[u8]) -> (r: Vec<Vec<u8>>)
    ensures
        views(r@) == components(p@),
{
    let mut out: Vec<Vec<u8>> = Vec::new();
    let mut i: usize = 0;
    assert(p@.skip(0) =~= p@);
    assert(views(out@) + components(p@.skip(0)) =~= components(p@));
    while i < p.len()
        invariant
            i <= p@.len(),
            views(out@) + components(p@.skip(i as int)) == components(p@),
        decreases p@.len() - i,
    {
        let ghost rest = p@.skip(i as int);
        let ghost before = views(out@);
        let end = part_end(p, i);
        let part = copy_part(p, i, end);
        proof {
            head_len_bound(rest);
            assert(part@ =~= head(rest));
        }
        let ghost taken = part@;
        if part.len() > 0 && !(part.len() == 1 && part[0] == DOT) {
            assert(taken != current_dir());
            out.push(part);
            assert(views(out@) =~= before.push(taken));
            assert(before.push(taken) + components(tail(rest)) =~= before + (seq![taken]
                + components(tail(rest))));
        } else {
            assert(!counts(taken)) by {
                if taken.len() > 0 {
                    assert(taken =~= current_dir());
                }
            }
        }
        if end < p.len() {
            i = end + 1;
            assert(tail(rest) =~= p@.skip(i as int));
        } else {
            i = p.len();
            assert(tail(rest) =~= p@.skip(i as int));
        }
    }
    assert(p@.skip(i as int) =~= Seq::<u8>::empty());
    assert(views(out@) + components(p@.skip(i as int)) =~= views(out@));
    out
}

/// Whether the first part of the path is `.`.
fn starts_at_current(p: &[u8]) -> (r: bool)
    ensures
        r == (head(p@) == current_dir()),
{
    assert(p@.skip(0) =~= p@);
    let end = part_end(p, 0);
    proof {
        head_len_bound(p@);
        if end == 1 && p@[0] == DOT {
            assert(head(p@) =~= current_dir());
        } else if head(p@) == current_dir() {
            assert(head(p@)[0] == DOT);
            assert(head(p@).len() == 1);
        }
    }
    end == 1 && p[0] == DOT
}

/// Whether two paths name the same place.
pub fn same_path(a: &[u8], b: &[u8]) -> (r: bool)
    ensures
        r == equivalent(a@, b@),
{
    if is_absolute(a) != is_absolute(b) || starts_at_current(a) != starts_at_current(b) {
        return false;
    }
    let x = split(a);
    let y = split(b);
    if x.len() != y.len() {
        assert(views(x@).len() != views(y@).len());
        return false;
    }
    let mut i: usize = 0;
    while i < x.len()
        invariant
            views(x@) == components(a@),
            views(y@) == components(b@),
            x@.len() == y@.len(),
            i <= x@.len(),
            forall|k: int| 0 <= k < i ==> #[trigger] views(x@)[k] == views(y@)[k],
        decreases x@.len() - i,
    {
        if !same_bytes(x[i].as_slice(), y[i].as_slice()) {
            assert(views(x@)[i as int] != views(y@)[i as int]);
            return false;
        }
        assert(views(x@)[i as int] == views(y@)[i as int]);
        i = i + 1;
    }
    assert(views(x@) =~= views(y@));
    true
}

/// Whether the path ends in a name and never steps up to a parent directory.
pub fn is_direct_file_path(p: &[u8]) -> (r: bool)
    ensures
        r == names_file_directly(p@),
{
    let parts = split(p);
    let mut i: usize = 0;
    while i < parts.len()
        invariant
            views(parts@) == components(p@),
            i <= parts@.len(),
            forall|k: int| 0 <= k < i ==> views(parts@)[k] != parent_dir(),
        decreases parts@.len() - i,
    {
        let part = &parts[i];
        if part.len() == 2 && part[0] == DOT && part[1] == DOT {
            assert(part@ =~= parent_dir());
            assert(views(parts@)[i as int] == parent_dir());
            return false;
        }
        assert(views(parts@)[i as int] != parent_dir());
        i = i + 1;
    }
    assert(parts@.len() == components(p@).len());
    parts.len() > 0
}

/// Naming the same place is an equivalence.
pub proof fn equivalence_of_paths(a: Seq<u8>, b: Seq<u8>, c: Seq<u8>)
    ensures
        equivalent(a, a),
        equivalent(a, b) ==> equivalent(b, a),
        equivalent(a, b) && equivalent(b, c) ==> equivalent(a, c),
{
}

/// A path looked up from an absolute base is absolute.
pub proof fn join_keeps_root(base: Seq<u8>, suffix: Seq<u8>)
    requires
        rooted(base),
    ensures
        rooted(joined(base, suffix)),
{
}

/// An absolute path replaces the base that it is looked up from.
pub proof fn join_with_absolute(base: Seq<u8>, suffix: Seq<u8>)
    requires
        rooted(suffix),
    ensures
        joined(base, suffix) == suffix,
{
}

/// The parts on both sides of a separator contribute their components one behind the other.
pub proof fn separators_separate(a: Seq<u8>, b: Seq<u8>)
    ensures
        components(a + seq![47u8] + b) == components(a) + components(b),
    decreases a.len(),
{
    let whole = a + seq![47u8] + b;
    head_len_bound(a);
    let n = head_len(a) as int;
    if n < a.len() {
        head_of_extension(a, seq![47u8] + b);
        assert(whole =~= a + (seq![47u8] + b));
        assert(head(whole) =~= head(a));
        assert(tail(whole) =~= tail(a) + seq![47u8] + b);
        separators_separate(tail(a), b);
        assert(components(whole) =~= components(a) + components(b));
    } else {
        head_of_whole(a, b);
        assert(head(whole) =~= a);
        assert(tail(whole) =~= b);
        if a.len() > 0 {
            assert(head(a) =~= a);
            assert(tail(a) =~= Seq::<u8>::empty());
            assert(components(tail(a)) =~= Seq::<Seq<u8>>::empty());
        }
        assert(components(whole) =~= components(a) + components(b));
    }
}

proof fn head_of_extension(a: Seq<u8>, b: Seq<u8>)
    requires
        head_len(a) < a.len(),
    ensures
        head_len(a + b) == head_len(a),
    decreases a.len(),
{
    if a.len() > 0 && a[0] != SEPARATOR {
        assert((a + b).drop_first() =~= a.drop_first() + b);
        head_of_extension(a.drop_first(), b);
    }
}

proof fn head_of_whole(a: Seq<u8>, b: Seq<u8>)
    requires
        head_len(a) == a.len(),
    ensures
        head_len(a + seq![47u8] + b) == a.len(),
    decreases a.len(),
{
    let whole = a + seq![47u8] + b;
    if a.len() > 0 {
        assert(whole.drop_first() =~= a.drop_first() + seq![47u8] + b);
        head_of_whole(a.drop_first(), b);
    } else {
        assert(whole[0] == 47);
    }
}

/// A part without separators is its own component, unless it is empty or a single dot.
pub proof fn parts_are_components(part: Seq<u8>)
    requires
        forall|i: int| 0 <= i < part.len() ==> part[i] != 47,
    ensures
        part.len() == 0 || part == seq![46u8] ==> components(part).len() == 0,
        part.len() > 0 && part != seq![46u8] ==> components(part) == seq![part],
{
    head_len_bound(part);
    assert(head(part) =~= part);
    assert(tail(part) =~= Seq::<u8>::empty());
    assert(components(tail(part)) =~= Seq::<Seq<u8>>::empty());
    if part.len() > 0 && part != seq![46u8] {
        assert(components(part) =~= seq![part]);
    }
}

/// A path is absolute exactly if its first byte is a separator.
pub proof fn absolute_paths_start_with_a_separator(p: Seq<u8>)
    ensures
        rooted(p) <==> p.len() > 0 && p[0] == 47,
{
}

/// A joined path is the suffix alone where that is absolute; else it is the base, then the
/// suffix, with a separator between them unless the base is empty or ends in one. Its components
/// are those of both.
pub proof fn joined_paths_hold_both(base: Seq<u8>, suffix: Seq<u8>)
    ensures
        suffix.len() > 0 && suffix[0] == 47 ==> joined(base, suffix) == suffix,
        !(suffix.len() > 0 && suffix[0] == 47) ==> {
            &&& base.len() == 0 || base.last() == 47 ==> joined(base, suffix) == base + suffix
            &&& base.len() > 0 && base.last() != 47 ==> joined(base, suffix) == base + seq![47u8]
                + suffix
            &&& components(joined(base, suffix)) == components(base) + components(suffix)
        },
{
    if !(suffix.len() > 0 && suffix[0] == 47) {
        if base.len() == 0 {
            assert(base + suffix =~= suffix);
            assert(components(base) + components(suffix) =~= components(suffix));
        } else if base.last() == 47 {
            let front = base.drop_last();
            assert(base + suffix =~= front + seq![47u8] + suffix);
            separators_separate(front, suffix);
            separators_separate(front, Seq::empty());
            assert(front + seq![47u8] + Seq::<u8>::empty() =~= base);
            assert(components(front) + components(Seq::<u8>::empty()) =~= components(front));
        } else {
            assert(base.push(SEPARATOR) + suffix =~= base + seq![47u8] + suffix);
            separators_separate(base, suffix);
        }
    }
}

/// Absolute paths name the same place exactly if their components agree; an absolute and a
/// relative one never do, nor does a relative one that starts with a dot and one that does not.
pub proof fn places_are_told_by_components(a: Seq<u8>, b: Seq<u8>)
    ensures
        rooted(a) && rooted(b) ==> (equivalent(a, b) <==> components(a) == components(b)),
        rooted(a) != rooted(b) ==> !equivalent(a, b),
        equivalent(a, b) ==> components(a) == components(b),
        !rooted(a) && !rooted(b) && components(a) == components(b) ==> (equivalent(a, b) <==> (
        head(a) == seq![46u8]) == (head(b) == seq![46u8])),
{
    if rooted(a) {
        assert(head(a).len() == 0);
    }
    if rooted(b) {
        assert(head(b).len() == 0);
    }
}

/// The head of a path is what comes before its first separator.
pub proof fn head_comes_before_the_separator(p: Seq<u8>)
    ensures
        head(p).len() <= p.len(),
        head(p) == p.take(head(p).len() as int),
        forall|i: int| 0 <= i < head(p).len() ==> p[i] != 47,
        head(p).len() < p.len() ==> p[head(p).len() as int] == 47,
{
    head_len_bound(p);
}

/// Doubled separators and single dots within a path do not matter.
pub proof fn repeated_separators_do_not_matter(a: Seq<u8>, b: Seq<u8>)
    requires
        rooted(a),
    ensures
        equivalent(a + seq![47u8] + b, a + seq![47u8, 47u8] + b),
        equivalent(a + seq![47u8] + b, a + seq![47u8, 46u8, 47u8] + b),
{
    let plain = a + seq![47u8] + b;
    let doubled = a + seq![47u8, 47u8] + b;
    let dotted = a + seq![47u8, 46u8, 47u8] + b;
    separators_separate(a, b);
    assert(doubled =~= a + seq![47u8] + (Seq::<u8>::empty() + seq![47u8] + b));
    separators_separate(a, Seq::<u8>::empty() + seq![47u8] + b);
    separators_separate(Seq::<u8>::empty(), b);
    assert(components(Seq::<u8>::empty()) + components(b) =~= components(b));
    assert(dotted =~= a + seq![47u8] + (seq![46u8] + seq![47u8] + b));
    separators_separate(a, seq![46u8] + seq![47u8] + b);
    separators_separate(seq![46u8], b);
    parts_are_components(seq![46u8]);
    assert(components(seq![46u8]) + components(b) =~= components(b));
    places_are_told_by_components(plain, doubled);
    places_are_told_by_components(plain, dotted);
}

/// A path names a file directly exactly if it has a component and none of them steps up.
pub proof fn direct_paths_have_names_only(p: Seq<u8>)
    ensures
        names_file_directly(p) <==> components(p).len() > 0 && forall|i: int|
            0 <= i < components(p).len() ==> #[trigger] components(p)[i] != seq![46u8, 46u8],
{
}

/// The views of byte vectors stand one for one at their places.
pub proof fn views_keep_their_places(parts: Seq<Vec<u8>>, i: int)
    requires
        0 <= i < parts.len(),
    ensures
        views(parts).len() == parts.len(),
        views(parts)[i] == parts[i]@,
{
}

} // verus!
