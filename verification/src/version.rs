//! Dotted version numbers and their order.

use crate::text::{chars_of, lemma_run_len, pieces, run_end};
use vstd::prelude::*;
use vstd::slice::slice_subrange;

verus! {

/// Whether `c` is one of the ten decimal digits.
pub open spec fn is_digit(c: char) -> bool {
    '0' <= c <= '9'
}

/// What the decimal digits `s` stand for.
pub open spec fn digits_value(s: Seq<char>) -> nat
    decreases s.len(),
{
    if s.len() == 0 {
        0
    } else {
        digits_value(s.drop_last()) * 10 + (s.last() as nat - '0' as nat) as nat
    }
}

/// Whether `s` is made of decimal digits alone.
pub open spec fn all_digits(s: Seq<char>) -> bool {
    forall|i: int| 0 <= i < s.len() ==> is_digit(#[trigger] s[i])
}

/// The number that a component of a version stands for: an optional `+`, then
/// one decimal digit or more, which together are no more than `u32::MAX`.
/// Anything else is no number.
pub open spec fn component_value(s: Seq<char>) -> Option<u32> {
    let digits = if s.len() > 0 && s[0] == '+' {
        s.skip(1)
    } else {
        s
    };
    if digits.len() > 0 && all_digits(digits) && digits_value(digits) <= u32::MAX {
        Some(digits_value(digits) as u32)
    } else {
        None
    }
}

/// The numbers among `parts`, in order; a part that is no number is left out.
pub open spec fn numbers(parts: Seq<Seq<char>>) -> Seq<u32>
    decreases parts.len(),
{
    if parts.len() == 0 {
        Seq::empty()
    } else {
        match component_value(parts[0]) {
            Some(n) => seq![n] + numbers(parts.skip(1)),
            None => numbers(parts.skip(1)),
        }
    }
}

/// The numbers of a version: those of its parts between dots.
pub open spec fn components(version: Seq<char>) -> Seq<u32> {
    numbers(pieces(version, '.'))
}

/// The component of `v` at place `i`; zero where `v` has none.
pub open spec fn part(v: Seq<u32>, i: int) -> int {
    if 0 <= i < v.len() {
        v[i] as int
    } else {
        0
    }
}

/// Whether `a` is a later version than `b`: at the first place where the two
/// differ, `a` has the greater component.
pub open spec fn newer(a: Seq<u32>, b: Seq<u32>) -> bool {
    exists|i: int|
        0 <= i && #[trigger] part(a, i) > part(b, i) && forall|j: int|
            0 <= j < i ==> #[trigger] part(a, j) == part(b, j)
}

/// No version is later than itself.
pub proof fn lemma_newer_irreflexive(a: Seq<u32>)
    ensures
        !newer(a, a),
{
}

/// Of two versions, at most one is later than the other.
pub proof fn lemma_newer_asymmetric(a: Seq<u32>, b: Seq<u32>)
    requires
        newer(a, b),
    ensures
        !newer(b, a),
{
    let i = choose|i: int|
        0 <= i && #[trigger] part(a, i) > part(b, i) && forall|j: int|
            0 <= j < i ==> #[trigger] part(a, j) == part(b, j);
    assert forall|k: int| 0 <= k && #[trigger] part(b, k) > part(a, k) implies !(forall|j: int|
        0 <= j < k ==> #[trigger] part(b, j) == part(a, j)) by {}
}

/// Later than a later version is later.
pub proof fn lemma_newer_transitive(a: Seq<u32>, b: Seq<u32>, c: Seq<u32>)
    requires
        newer(a, b),
        newer(b, c),
    ensures
        newer(a, c),
{
    let i = choose|i: int|
        0 <= i && #[trigger] part(a, i) > part(b, i) && forall|j: int|
            0 <= j < i ==> #[trigger] part(a, j) == part(b, j);
    let k = choose|k: int|
        0 <= k && #[trigger] part(b, k) > part(c, k) && forall|j: int|
            0 <= j < k ==> #[trigger] part(b, j) == part(c, j);
    let m = if i <= k {
        i
    } else {
        k
    };
    assert(part(a, m) > part(c, m));
    assert forall|j: int| 0 <= j < m implies #[trigger] part(a, j) == part(c, j) by {}
}

/// A zero at the end of a version changes nothing: the number that a
/// version lacks at its end counts as zero.
pub proof fn lemma_trailing_zero(a: Seq<u32>, b: Seq<u32>)
    ensures
        newer(a.push(0), b) == newer(a, b),
        newer(a, b.push(0)) == newer(a, b),
{
    assert forall|i: int| #[trigger] part(a.push(0), i) == part(a, i) by {}
    assert forall|i: int| #[trigger] part(b.push(0), i) == part(b, i) by {}
    if newer(a, b) {
        let i = choose|i: int|
            0 <= i && #[trigger] part(a, i) > part(b, i) && forall|j: int|
                0 <= j < i ==> #[trigger] part(a, j) == part(b, j);
        assert(part(a.push(0), i) > part(b, i));
        assert forall|j: int| 0 <= j < i implies #[trigger] part(a.push(0), j) == part(b, j) by {}
        assert forall|j: int| 0 <= j < i implies #[trigger] part(a, j) == part(b.push(0), j) by {}
    }
    if newer(a.push(0), b) {
        let i = choose|i: int|
            0 <= i && #[trigger] part(a.push(0), i) > part(b, i) && forall|j: int|
                0 <= j < i ==> #[trigger] part(a.push(0), j) == part(b, j);
        assert forall|j: int| 0 <= j < i implies #[trigger] part(a, j) == part(b, j) by {
            assert(part(a.push(0), j) == part(b, j));
        }
    }
    if newer(a, b.push(0)) {
        let i = choose|i: int|
            0 <= i && #[trigger] part(a, i) > part(b.push(0), i) && forall|j: int|
                0 <= j < i ==> #[trigger] part(a, j) == part(b.push(0), j);
        assert forall|j: int| 0 <= j < i implies #[trigger] part(a, j) == part(b, j) by {}
    }
}

/// More digits never make the number smaller.
proof fn lemma_digits_grow(s: Seq<char>, n: int)
    requires
        0 <= n <= s.len(),
    ensures
        digits_value(s.take(n)) <= digits_value(s),
    decreases s.len() - n,
{
    if n == s.len() {
        assert(s.take(n) == s);
    } else {
        lemma_digits_grow(s, n + 1);
        assert(s.take(n + 1).drop_last() == s.take(n));
    }
}

/// Reads a component of a version as a number.
pub fn parse_component(s: &[char]) -> (value: Option<u32>)
    ensures
        value == component_value(s@),
{
    let start: usize = if s.len() > 0 && s[0] == '+' {
        1
    } else {
        0
    };
    let digits = slice_subrange(s, start, s.len());
    assert(start == 0 ==> digits@ == s@);
    if digits.len() == 0 {
        return None;
    }
    let mut value: u64 = 0;
    let mut i: usize = 0;
    while i < digits.len()
        invariant
            i <= digits@.len(),
            component_value(s@) == if all_digits(digits@) && digits_value(digits@) <= u32::MAX {
                Some(digits_value(digits@) as u32)
            } else {
                None
            },
            all_digits(digits@.take(i as int)),
            value == digits_value(digits@.take(i as int)),
            value <= u32::MAX,
        decreases digits@.len() - i,
    {
        let c = digits[i];
        let ghost before = digits@.take(i as int);
        let ghost upto = digits@.take(i + 1);
        assert(upto.drop_last() == before);
        if !('0' <= c && c <= '9') {
            return None;
        }
        value = value * 10 + (c as u64 - '0' as u64);
        if value > u32::MAX as u64 {
            proof {
                lemma_digits_grow(digits@, i + 1);
            }
            return None;
        }
        assert forall|k: int| 0 <= k < upto.len() implies is_digit(#[trigger] upto[k]) by {}
        i += 1;
    }
    assert(digits@.take(i as int) == digits@);
    Some(value as u32)
}

/// The numbers of a version.
pub fn parse_version(s: &[char]) -> (parts: Vec<u32>)
    ensures
        parts@ == components(s@),
{
    let mut parts: Vec<u32> = Vec::new();
    let mut from: usize = 0;
    assert(s@.skip(0) == s@);
    loop
        invariant_except_break
            from <= s@.len(),
            components(s@) == parts@ + numbers(pieces(s@.skip(from as int), '.')),
        ensures
            parts@ == components(s@),
        decreases s@.len() - from,
    {
        let end = run_end(s, from, '.');
        let value = parse_component(slice_subrange(s, from, end));
        let ghost rest = s@.skip(from as int);
        let ghost before = parts@;
        proof {
            assert(rest.take(end - from) == s@.subrange(from as int, end as int));
            lemma_run_len(rest, '.');
        }
        if let Some(n) = value {
            parts.push(n);
        }
        if end == s.len() {
            proof {
                assert(pieces(rest, '.').skip(1) == Seq::<Seq<char>>::empty());
                assert(numbers(Seq::<Seq<char>>::empty()) == Seq::<u32>::empty());
            }
            break ;
        }
        proof {
            assert(rest.skip(end - from + 1) == s@.skip(end + 1));
            let all = pieces(rest, '.');
            assert(all.skip(1) == pieces(s@.skip(end + 1), '.'));
            if value is Some {
                assert(before + (seq![value->0] + numbers(all.skip(1))) == before.push(value->0)
                    + numbers(all.skip(1)));
            }
        }
        from = end + 1;
    }
    parts
}

/// Tells whether the version `latest` is later than `current`, both given by
/// their characters.
pub fn later_version(latest: &[char], current: &[char]) -> (later: bool)
    ensures
        later == newer(components(latest@), components(current@)),
{
    let a = parse_version(latest);
    let b = parse_version(current);
    let n = if a.len() > b.len() {
        a.len()
    } else {
        b.len()
    };
    let mut i: usize = 0;
    while i < n
        invariant
            i <= n,
            n >= a@.len(),
            n >= b@.len(),
            a@ == components(latest@),
            b@ == components(current@),
            forall|j: int| 0 <= j < i ==> #[trigger] part(a@, j) == part(b@, j),
        decreases n - i,
    {
        let l: u32 = if i < a.len() {
            a[i]
        } else {
            0
        };
        let c: u32 = if i < b.len() {
            b[i]
        } else {
            0
        };
        assert(l == part(a@, i as int) && c == part(b@, i as int));
        if l > c {
            return true;
        }
        if l < c {
            assert(!newer(a@, b@)) by {
                assert forall|k: int| 0 <= k && #[trigger] part(a@, k) > part(b@, k) implies !(
                forall|j: int| 0 <= j < k ==> #[trigger] part(a@, j) == part(b@, j)) by {}
            }
            return false;
        }
        i += 1;
    }
    assert(!newer(a@, b@)) by {
        assert forall|k: int| 0 <= k implies !(#[trigger] part(a@, k) > part(b@, k)) by {}
    }
    false
}

/// Tells whether `latest` is a later version than `current`. The two are
/// compared number by number from the left; a number that one of them lacks
/// at its end counts as zero.
pub fn version_compare(latest: &str, current: &str) -> (later: bool)
    ensures
        later == newer(components(latest@), components(current@)),
{
    let a = chars_of(latest);
    let b = chars_of(current);
    later_version(a.as_slice(), b.as_slice())
}

} // verus!
