//! Comparison of release version strings such as `v0.2.1` and `0.3.0`.
use vstd::prelude::*;
use crate::text::chars_of;

verus! {

/// The string without one leading `v`, if it has one.
pub open spec fn strip_v(s: Seq<char>) -> Seq<char> {
    if s.len() > 0 && s[0] == 'v' {
        s.drop_first()
    } else {
        s
    }
}

/// The pieces of `s` between `.` separators, as `str::split('.')` yields them:
/// never empty, and `k` dots give `k + 1` pieces.
pub open spec fn split_dots(s: Seq<char>) -> Seq<Seq<char>>
    decreases s.len(),
{
    if s.len() == 0 {
        seq![Seq::empty()]
    } else {
        let init = split_dots(s.drop_last());
        if s.last() == '.' {
            init.push(Seq::empty())
        } else {
            init.update(init.len() - 1, init.last().push(s.last()))
        }
    }
}

/// Whether `c` is an ASCII decimal digit.
pub open spec fn is_digit(c: char) -> bool {
    '0' <= c <= '9'
}

/// The number a run of decimal digits denotes.
pub open spec fn digits_value(d: Seq<char>) -> nat
    decreases d.len(),
{
    if d.len() == 0 {
        0
    } else {
        digits_value(d.drop_last()) * 10 + (d.last() as int - '0' as int) as nat
    }
}

/// Whether every character of `d` is a decimal digit.
pub open spec fn all_digits(d: Seq<char>) -> bool {
    forall|i: int| 0 <= i < d.len() ==> is_digit(#[trigger] d[i])
}

/// The characters after an optional leading `+`.
pub open spec fn unsigned_part(s: Seq<char>) -> Seq<char> {
    if s.len() > 0 && s[0] == '+' {
        s.drop_first()
    } else {
        s
    }
}

/// `str::parse::<u32>`: an optional `+` followed by one or more decimal digits
/// whose value fits in a `u32`; anything else is rejected.
pub open spec fn spec_parse_u32(s: Seq<char>) -> Option<u32> {
    let d = unsigned_part(s);
    if d.len() > 0 && all_digits(d) && digits_value(d) <= u32::MAX {
        Some(digits_value(d) as u32)
    } else {
        None
    }
}

/// The `i`-th numeric component of a split version; missing or unparsable components count as 0.
pub open spec fn version_component(parts: Seq<Seq<char>>, i: int) -> u32 {
    if 0 <= i < parts.len() {
        match spec_parse_u32(parts[i]) {
            Some(v) => v,
            None => 0,
        }
    } else {
        0
    }
}

/// The `(major, minor, patch)` triple a version string denotes.
pub open spec fn spec_parse_version(s: Seq<char>) -> (u32, u32, u32) {
    let parts = split_dots(strip_v(s));
    (version_component(parts, 0), version_component(parts, 1), version_component(parts, 2))
}

/// Lexicographic order on `(major, minor, patch)`.
pub open spec fn triple_less(a: (u32, u32, u32), b: (u32, u32, u32)) -> bool {
    a.0 < b.0 || (a.0 == b.0 && (a.1 < b.1 || (a.1 == b.1 && a.2 < b.2)))
}

/// Whether `latest` denotes a later version than `current`.
pub open spec fn spec_is_newer_version(current: Seq<char>, latest: Seq<char>) -> bool {
    triple_less(spec_parse_version(current), spec_parse_version(latest))
}

/// The value of a digit run never shrinks when more digits follow.
proof fn lemma_digits_value_prefix(d: Seq<char>, k: int)
    requires
        0 <= k <= d.len(),
        forall|i: int| 0 <= i < d.len() ==> is_digit(#[trigger] d[i]),
    ensures
        digits_value(d.take(k)) <= digits_value(d),
    decreases d.len(),
{
    if k < d.len() {
        let init = d.drop_last();
        assert forall|i: int| 0 <= i < init.len() implies is_digit(#[trigger] init[i]) by {
            assert(init[i] == d[i]);
        }
        lemma_digits_value_prefix(init, k);
        assert(init.take(k) =~= d.take(k));
    } else {
        assert(d.take(k) =~= d);
    }
}

/// `str::parse::<u32>` on a run of characters.
fn parse_u32(s: &Vec<char>) -> (r: Option<u32>)
    ensures
        r == spec_parse_u32(s@),
{
    let ghost d = unsigned_part(s@);
    let start: usize = if s.len() > 0 && s[0] == '+' {
        1
    } else {
        0
    };
    assert(d =~= s@.subrange(start as int, s@.len() as int));
    if start >= s.len() {
        return None;
    }
    let mut value: u64 = 0;
    let mut i: usize = start;
    while i < s.len()
        invariant
            start <= i <= s.len(),
            d == s@.subrange(start as int, s@.len() as int),
            d == unsigned_part(s@),
            value == digits_value(s@.subrange(start as int, i as int)),
            value <= u32::MAX,
            forall|j: int| start <= j < i ==> is_digit(#[trigger] s@[j]),
        decreases s.len() - i,
    {
        let c = s[i];
        if !('0' <= c && c <= '9') {
            assert(!is_digit(d[i - start]));
            return None;
        }
        let digit: u64 = (c as u32 - '0' as u32) as u64;
        value = value * 10 + digit;
        assert(s@.subrange(start as int, i + 1).drop_last() =~= s@.subrange(
            start as int,
            i as int,
        ));
        if value > 0xffff_ffffu64 {
            proof {
                if forall|j: int| 0 <= j < d.len() ==> is_digit(#[trigger] d[j]) {
                    lemma_digits_value_prefix(d, i + 1 - start);
                    assert(d.take(i + 1 - start) =~= s@.subrange(start as int, i + 1));
                }
            }
            return None;
        }
        i = i + 1;
    }
    assert(forall|j: int| 0 <= j < d.len() ==> is_digit(#[trigger] d[j])) by {
        assert forall|j: int| 0 <= j < d.len() implies is_digit(#[trigger] d[j]) by {
            assert(d[j] == s@[j + start]);
        }
    }
    Some(value as u32)
}

/// The pieces of a run of characters between `.` separators.
fn split_dots_exec(s: &Vec<char>) -> (r: Vec<Vec<char>>)
    ensures
        r@.map_values(|p: Vec<char>| p@) == split_dots(s@),
{
    let mut pieces: Vec<Vec<char>> = Vec::new();
    let mut cur: Vec<char> = Vec::new();
    let mut i: usize = 0;
    assert(s@.take(0) =~= Seq::<char>::empty());
    assert(pieces@.map_values(|p: Vec<char>| p@).push(cur@) =~= split_dots(s@.take(0)));
    while i < s.len()
        invariant
            i <= s.len(),
            pieces@.map_values(|p: Vec<char>| p@).push(cur@) == split_dots(s@.take(i as int)),
        decreases s.len() - i,
    {
        let c = s[i];
        let ghost before = pieces@.map_values(|p: Vec<char>| p@).push(cur@);
        assert(s@.take(i + 1).drop_last() =~= s@.take(i as int));
        if c == '.' {
            let done = cur;
            pieces.push(done);
            cur = Vec::new();
            assert(pieces@.map_values(|p: Vec<char>| p@).push(cur@) =~= before.push(
                Seq::empty(),
            ));
        } else {
            cur.push(c);
            assert(pieces@.map_values(|p: Vec<char>| p@).push(cur@) =~= before.update(
                before.len() - 1,
                before.last().push(c),
            ));
        }
        i = i + 1;
    }
    assert(s@.take(s.len() as int) =~= s@);
    pieces.push(cur);
    pieces
}

/// The `i`-th numeric component of a split version, 0 when missing or unparsable.
fn component(parts: &Vec<Vec<char>>, i: usize) -> (r: u32)
    ensures
        r == version_component(parts@.map_values(|p: Vec<char>| p@), i as int),
{
    if i < parts.len() {
        let ghost views = parts@.map_values(|p: Vec<char>| p@);
        assert(views[i as int] == parts@[i as int]@);
        match parse_u32(&parts[i]) {
            Some(v) => v,
            None => 0,
        }
    } else {
        0
    }
}

/// The `(major, minor, patch)` triple of a version string, with a leading `v` stripped.
pub fn parse_version(s: &str) -> (r: (u32, u32, u32))
    ensures
        r == spec_parse_version(s@),
{
    let mut chars = chars_of(s);
    if chars.len() > 0 && chars[0] == 'v' {
        chars.remove(0);
        assert(chars@ =~= strip_v(s@));
    }
    let parts = split_dots_exec(&chars);
    (component(&parts, 0), component(&parts, 1), component(&parts, 2))
}

/// Compare two semver-ish version strings (e.g. `v0.2.1` vs `0.3.0`): `true`
/// if `latest` is newer than `current`. A leading `v` is stripped.
pub fn is_newer_version(current: &str, latest: &str) -> (r: bool)
    ensures
        r == spec_is_newer_version(current@, latest@),
{
    let c = parse_version(current);
    let l = parse_version(latest);
    c.0 < l.0 || (c.0 == l.0 && (c.1 < l.1 || (c.1 == l.1 && c.2 < l.2)))
}

/// No version is newer than itself.
pub proof fn lemma_not_newer_than_itself(v: Seq<char>)
    ensures
        !spec_is_newer_version(v, v),
{
}

/// Of two versions, at most one is newer than the other.
pub proof fn lemma_newer_asymmetric(a: Seq<char>, b: Seq<char>)
    requires
        spec_is_newer_version(a, b),
    ensures
        !spec_is_newer_version(b, a),
{
}

/// Being newer is transitive.
pub proof fn lemma_newer_transitive(a: Seq<char>, b: Seq<char>, c: Seq<char>)
    requires
        spec_is_newer_version(a, b),
        spec_is_newer_version(b, c),
    ensures
        spec_is_newer_version(a, c),
{
}

/// Any two versions are comparable: one is newer, or both denote the same
/// `(major, minor, patch)`.
pub proof fn lemma_newer_total(a: Seq<char>, b: Seq<char>)
    ensures
        spec_is_newer_version(a, b) || spec_is_newer_version(b, a) || spec_parse_version(a)
            == spec_parse_version(b),
{
}

/// A leading `v` is ignored: `v` followed by a version that does not itself
/// start with `v` denotes the same version, in either position of a comparison.
pub proof fn lemma_leading_v_ignored(s: Seq<char>, other: Seq<char>)
    requires
        !(s.len() > 0 && s[0] == 'v'),
    ensures
        spec_parse_version(seq!['v'] + s) == spec_parse_version(s),
        spec_is_newer_version(seq!['v'] + s, other) == spec_is_newer_version(s, other),
        spec_is_newer_version(other, seq!['v'] + s) == spec_is_newer_version(other, s),
{
    assert((seq!['v'] + s).drop_first() =~= s);
}

/// A version is newer exactly when its major number is greater, or the majors
/// are equal and its minor number is greater, or both are equal and its patch
/// number is greater.
pub proof fn lemma_newer_is_lexicographic(current: Seq<char>, latest: Seq<char>)
    ensures
        spec_is_newer_version(current, latest) <==> ({
            let (c_major, c_minor, c_patch) = spec_parse_version(current);
            let (l_major, l_minor, l_patch) = spec_parse_version(latest);
            ||| c_major < l_major
            ||| c_major == l_major && c_minor < l_minor
            ||| c_major == l_major && c_minor == l_minor && c_patch < l_patch
        }),
{
}

/// A piece without a dot is not split.
proof fn lemma_split_no_dot(a: Seq<char>)
    requires
        forall|i: int| 0 <= i < a.len() ==> a[i] != '.',
    ensures
        split_dots(a) == seq![a],
    decreases a.len(),
{
    if a.len() > 0 {
        lemma_split_no_dot(a.drop_last());
        assert(a.drop_last().push(a.last()) =~= a);
        assert(seq![a.drop_last()].update(0, a.drop_last().push(a.last())) =~= seq![a]);
    } else {
        assert(a =~= Seq::<char>::empty());
    }
}

/// Appending characters without a dot extends the last piece.
proof fn lemma_split_extend(x: Seq<char>, y: Seq<char>)
    requires
        forall|i: int| 0 <= i < y.len() ==> y[i] != '.',
    ensures
        split_dots(x + y) == split_dots(x).update(
            split_dots(x).len() - 1,
            split_dots(x).last() + y,
        ),
        split_dots(x).len() >= 1,
    decreases y.len(),
{
    lemma_split_len(x);
    if y.len() == 0 {
        assert(x + y =~= x);
        assert(split_dots(x).last() + y =~= split_dots(x).last());
        assert(split_dots(x).update(split_dots(x).len() - 1, split_dots(x).last())
            =~= split_dots(x));
    } else {
        let y0 = y.drop_last();
        lemma_split_extend(x, y0);
        assert((x + y).drop_last() =~= x + y0);
        assert((x + y).last() == y.last());
        assert((split_dots(x).last() + y0).push(y.last()) =~= split_dots(x).last() + y);
        let p = split_dots(x);
        let q = p.update(p.len() - 1, p.last() + y0);
        assert(q.update(q.len() - 1, q.last().push(y.last())) =~= p.update(
            p.len() - 1,
            p.last() + y,
        ));
    }
}

/// A split never comes out empty.
proof fn lemma_split_len(x: Seq<char>)
    ensures
        split_dots(x).len() >= 1,
    decreases x.len(),
{
    if x.len() > 0 {
        lemma_split_len(x.drop_last());
    }
}

/// The pieces of `x` followed by a dot are those of `x` and an empty one.
proof fn lemma_split_dot(x: Seq<char>)
    ensures
        split_dots(x.push('.')) == split_dots(x).push(Seq::empty()),
{
    assert(x.push('.').drop_last() =~= x);
}

/// A run of digits without a sign parses as the number it denotes, when that fits in a `u32`.
proof fn lemma_parse_digits(a: Seq<char>)
    requires
        a.len() > 0,
        all_digits(a),
        digits_value(a) <= u32::MAX,
    ensures
        spec_parse_u32(a) == Some(digits_value(a) as u32),
{
    assert(is_digit(a[0]));
}

/// `major.minor.patch`, each a run of decimal digits that fits in a `u32`,
/// parses to those three numbers, and so does the same text after a `v`.
pub proof fn lemma_parse_version_components(major: Seq<char>, minor: Seq<char>, patch: Seq<char>)
    requires
        major.len() > 0 && all_digits(major) && digits_value(major) <= u32::MAX,
        minor.len() > 0 && all_digits(minor) && digits_value(minor) <= u32::MAX,
        patch.len() > 0 && all_digits(patch) && digits_value(patch) <= u32::MAX,
    ensures
        spec_parse_version(major + seq!['.'] + minor + seq!['.'] + patch) == (
            digits_value(major) as u32,
            digits_value(minor) as u32,
            digits_value(patch) as u32,
        ),
        spec_parse_version(seq!['v'] + major + seq!['.'] + minor + seq!['.'] + patch)
            == spec_parse_version(major + seq!['.'] + minor + seq!['.'] + patch),
{
    let s = major + seq!['.'] + minor + seq!['.'] + patch;
    assert forall|i: int| 0 <= i < major.len() implies major[i] != '.' by {
        assert(is_digit(major[i]));
    }
    assert forall|i: int| 0 <= i < minor.len() implies minor[i] != '.' by {
        assert(is_digit(minor[i]));
    }
    assert forall|i: int| 0 <= i < patch.len() implies patch[i] != '.' by {
        assert(is_digit(patch[i]));
    }
    lemma_split_no_dot(major);
    lemma_split_dot(major);
    assert(major + seq!['.'] =~= major.push('.'));
    lemma_split_extend(major.push('.'), minor);
    assert(seq![major].push(Seq::<char>::empty()).update(1, Seq::<char>::empty() + minor)
        =~= seq![major, minor]);
    let x2 = major.push('.') + minor;
    lemma_split_dot(x2);
    assert(x2 + seq!['.'] =~= x2.push('.'));
    lemma_split_extend(x2.push('.'), patch);
    assert(seq![major, minor].push(Seq::<char>::empty()).update(2, Seq::<char>::empty() + patch)
        =~= seq![major, minor, patch]);
    assert(s =~= x2.push('.') + patch);
    assert(is_digit(major[0]));
    assert(strip_v(s) == s);
    let parts = split_dots(s);
    assert(parts =~= seq![major, minor, patch]);
    lemma_parse_digits(major);
    lemma_parse_digits(minor);
    lemma_parse_digits(patch);
    lemma_leading_v_ignored(s, s);
    assert(seq!['v'] + major + seq!['.'] + minor + seq!['.'] + patch =~= seq!['v'] + s);
}

} // verus!
