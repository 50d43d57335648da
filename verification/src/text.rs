//! Text as sequences of characters: the searches and cuts that the rest of the
//! library is written with, each with the mathematical function it computes.

use vstd::prelude::*;
use vstd::slice::slice_subrange;

verus! {

/// The contents of a list of strings.
pub open spec fn texts(v: Seq<String>) -> Seq<Seq<char>> {
    v.map_values(|s: String| s@)
}

/// The contents of a list of string slices.
pub open spec fn slices(v: Seq<&str>) -> Seq<Seq<char>> {
    v.map_values(|s: &str| s@)
}

/// Whether `c` has the Unicode property `White_Space`.
pub open spec fn is_space(c: char) -> bool {
    let n = c as u32;
    ||| 0x09 <= n <= 0x0d
    ||| n == 0x20
    ||| n == 0x85
    ||| n == 0xa0
    ||| n == 0x1680
    ||| 0x2000 <= n <= 0x200a
    ||| n == 0x2028
    ||| n == 0x2029
    ||| n == 0x202f
    ||| n == 0x205f
    ||| n == 0x3000
}

/// `s` without its leading white space.
pub open spec fn trim_start(s: Seq<char>) -> Seq<char>
    decreases s.len(),
{
    if s.len() > 0 && is_space(s[0]) {
        trim_start(s.skip(1))
    } else {
        s
    }
}

/// `s` without its trailing white space.
pub open spec fn trim_end(s: Seq<char>) -> Seq<char>
    decreases s.len(),
{
    if s.len() > 0 && is_space(s.last()) {
        trim_end(s.drop_last())
    } else {
        s
    }
}

/// `s` without its leading and trailing white space.
pub open spec fn trimmed(s: Seq<char>) -> Seq<char> {
    trim_end(trim_start(s))
}

/// Whether `needle` stands in `hay` at position `at`.
pub open spec fn occurs_at(needle: Seq<char>, hay: Seq<char>, at: int) -> bool {
    0 <= at && at + needle.len() <= hay.len() && hay.subrange(at, at + needle.len()) == needle
}

/// Whether `needle` stands somewhere in `hay`.
pub open spec fn occurs_in(needle: Seq<char>, hay: Seq<char>) -> bool {
    exists|at: int| occurs_at(needle, hay, at)
}

/// `lines` with `sep` between each two neighbours.
pub open spec fn joined(lines: Seq<Seq<char>>, sep: Seq<char>) -> Seq<char>
    decreases lines.len(),
{
    if lines.len() == 0 {
        Seq::empty()
    } else if lines.len() == 1 {
        lines[0]
    } else {
        lines[0] + sep + joined(lines.skip(1), sep)
    }
}

/// How many characters of `s` stand before its first `stop`; all of them
/// where there is none.
pub open spec fn run_len(s: Seq<char>, stop: char) -> nat
    decreases s.len(),
{
    if s.len() == 0 || s[0] == stop {
        0
    } else {
        1 + run_len(s.skip(1), stop)
    }
}

/// The pieces that `sep` cuts `s` into: one more than `sep` occurs in `s`.
pub open spec fn pieces(s: Seq<char>, sep: char) -> Seq<Seq<char>>
    decreases s.len(),
{
    let n = run_len(s, sep);
    if n >= s.len() {
        seq![s]
    } else {
        seq![s.take(n as int)] + pieces(s.skip(n as int + 1), sep)
    }
}

/// `line` without the carriage return at its end, if it has one.
pub open spec fn without_cr(line: Seq<char>) -> Seq<char> {
    if line.len() > 0 && line.last() == '\r' {
        line.drop_last()
    } else {
        line
    }
}

/// The lines of `s`. A line ends with a line feed, or with a carriage return
/// and a line feed; neither belongs to the line. What follows the last line
/// feed is a line too, as it stands, unless it is empty.
pub open spec fn lines_of(s: Seq<char>) -> Seq<Seq<char>>
    decreases s.len(),
{
    if s.len() == 0 {
        Seq::empty()
    } else {
        let n = run_len(s, '\n');
        if n >= s.len() {
            seq![s]
        } else {
            seq![without_cr(s.take(n as int))] + lines_of(s.skip(n as int + 1))
        }
    }
}

/// A run stops at the first `stop` and holds none.
pub proof fn lemma_run_len(s: Seq<char>, stop: char)
    ensures
        run_len(s, stop) <= s.len(),
        run_len(s, stop) < s.len() ==> s[run_len(s, stop) as int] == stop,
        forall|k: int| 0 <= k < run_len(s, stop) ==> s[k] != stop,
    decreases s.len(),
{
    if s.len() > 0 && s[0] != stop {
        lemma_run_len(s.skip(1), stop);
        assert forall|k: int| 0 <= k < run_len(s, stop) implies s[k] != stop by {
            if k > 0 {
                assert(s.skip(1)[k - 1] == s[k]);
            }
        }
    }
}

/// A stretch without `stop` that ends at a `stop`, or at the end of `s`, is
/// the run.
pub proof fn lemma_run_len_is(s: Seq<char>, stop: char, n: nat)
    requires
        n <= s.len(),
        n < s.len() ==> s[n as int] == stop,
        forall|k: int| 0 <= k < n ==> s[k] != stop,
    ensures
        run_len(s, stop) == n,
    decreases s.len(),
{
    if n > 0 {
        let rest = s.skip(1);
        assert forall|k: int| 0 <= k < n - 1 implies rest[k] != stop by {}
        lemma_run_len_is(rest, stop, (n - 1) as nat);
    }
}

/// What is left of `s` without its leading white space is the end of `s`,
/// and begins with no white space.
pub proof fn lemma_trim_start(s: Seq<char>)
    ensures
        trim_start(s).len() <= s.len(),
        trim_start(s) == s.skip(s.len() - trim_start(s).len()),
        trim_start(s).len() > 0 ==> !is_space(trim_start(s)[0]),
    decreases s.len(),
{
    if s.len() > 0 && is_space(s[0]) {
        let rest = s.skip(1);
        lemma_trim_start(rest);
        assert(rest.skip(rest.len() - trim_start(rest).len()) == s.skip(
            s.len() - trim_start(s).len(),
        ));
    }
}

/// What is left of `s` without its trailing white space is the beginning of
/// `s`, and ends with no white space.
pub proof fn lemma_trim_end(s: Seq<char>)
    ensures
        trim_end(s).len() <= s.len(),
        trim_end(s) == s.take(trim_end(s).len() as int),
        trim_end(s).len() > 0 ==> !is_space(trim_end(s).last()),
    decreases s.len(),
{
    if s.len() > 0 && is_space(s.last()) {
        let rest = s.drop_last();
        lemma_trim_end(rest);
    }
}

/// A trimmed text is a stretch of the text it was made from, has no white
/// space at either end, and stays as it is when trimmed again.
pub proof fn lemma_trimmed(s: Seq<char>)
    ensures
        exists|from: int|
            0 <= from && from + trimmed(s).len() <= s.len() && trimmed(s) == #[trigger] s.subrange(
                from,
                from + trimmed(s).len(),
            ),
        trimmed(s).len() > 0 ==> !is_space(trimmed(s)[0]) && !is_space(trimmed(s).last()),
        trimmed(trimmed(s)) == trimmed(s),
{
    let a = trim_start(s);
    let t = trimmed(s);
    lemma_trim_start(s);
    lemma_trim_end(a);
    let from = s.len() - a.len();
    assert(t == s.subrange(from, from + t.len()));
}

/// No line holds a line feed.
pub proof fn lemma_lines_hold_no_line_feed(s: Seq<char>)
    ensures
        forall|i: int, k: int|
            0 <= i < lines_of(s).len() && 0 <= k < lines_of(s)[i].len() ==> #[trigger] lines_of(
                s,
            )[i][k] != '\n',
    decreases s.len(),
{
    if s.len() > 0 {
        let n = run_len(s, '\n');
        lemma_run_len(s, '\n');
        if n < s.len() {
            let rest = s.skip(n as int + 1);
            lemma_lines_hold_no_line_feed(rest);
            assert forall|i: int, k: int|
                0 <= i < lines_of(s).len() && 0 <= k < lines_of(s)[i].len() implies #[trigger] lines_of(
                s,
            )[i][k] != '\n' by {
                if i > 0 {
                    assert(lines_of(s)[i] == lines_of(rest)[i - 1]);
                }
            }
        }
    }
}

/// Whether a line comes back as it is when it is written out with others,
/// one to a line, and read again: it is not empty, holds no line feed, and
/// does not end with a carriage return.
pub open spec fn survives_joining(line: Seq<char>) -> bool {
    &&& line.len() > 0
    &&& line.last() != '\r'
    &&& forall|k: int| 0 <= k < line.len() ==> line[k] != '\n'
}

/// Lines that are written out one to a line are read back as they were.
pub proof fn lemma_lines_of_joined(lines: Seq<Seq<char>>)
    requires
        forall|i: int| 0 <= i < lines.len() ==> survives_joining(#[trigger] lines[i]),
    ensures
        lines_of(joined(lines, "\n"@)) == lines,
    decreases lines.len(),
{
    reveal_strlit("\n");
    let text = joined(lines, "\n"@);
    if lines.len() == 1 {
        lemma_run_len_is(text, '\n', text.len());
    } else if lines.len() > 1 {
        let first = lines[0];
        let rest = lines.skip(1);
        assert forall|i: int| 0 <= i < rest.len() implies survives_joining(#[trigger] rest[i]) by {}
        lemma_lines_of_joined(rest);
        assert forall|k: int| 0 <= k < first.len() implies text[k] != '\n' by {}
        lemma_run_len_is(text, '\n', first.len());
        assert(text.take(first.len() as int) == first);
        assert(text.skip(first.len() as int + 1) == joined(rest, "\n"@));
    }
}

/// The characters of a string, in order.
pub fn chars_of(s: &str) -> (v: Vec<char>)
    ensures
        v@ == s@,
{
    broadcast use vstd::string::axiom_spec_iter;

    let mut v: Vec<char> = Vec::new();
    for c in it: s.chars()
        invariant
            it.seq() == s@,
            v@ == s@.take(it.index()),
    {
        v.push(c);
    }
    v
}

/// Tells whether `c` is white space.
pub fn is_whitespace(c: char) -> (b: bool)
    ensures
        b == is_space(c),
{
    let n: u32 = c as u32;
    (0x09 <= n && n <= 0x0d) || n == 0x20 || n == 0x85 || n == 0xa0 || n == 0x1680 || (0x2000 <= n
        && n <= 0x200a) || n == 0x2028 || n == 0x2029 || n == 0x202f || n == 0x205f || n == 0x3000
}

/// The bounds of `s` without the white space at its two ends.
pub fn trim_bounds(s: &[char]) -> (bounds: (usize, usize))
    ensures
        bounds.0 <= bounds.1 <= s@.len(),
        s@.subrange(bounds.0 as int, bounds.1 as int) == trimmed(s@),
{
    let n = s.len();
    let mut from: usize = 0;
    assert(s@.skip(0) == s@);
    while from < n && is_whitespace(s[from])
        invariant
            from <= n == s@.len(),
            trim_start(s@) == trim_start(s@.skip(from as int)),
        decreases n - from,
    {
        assert(s@.skip(from as int).skip(1) == s@.skip(from + 1));
        from += 1;
    }
    let mut to: usize = n;
    while to > from && is_whitespace(s[to - 1])
        invariant
            from <= to <= n == s@.len(),
            trim_end(s@.skip(from as int)) == trim_end(s@.subrange(from as int, to as int)),
        decreases to,
    {
        assert(s@.subrange(from as int, to as int).drop_last() == s@.subrange(
            from as int,
            to - 1,
        ));
        to -= 1;
    }
    (from, to)
}

/// Where the run of `s` that starts at `from` comes to its end: at the first
/// `stop` from there on, or at the end of `s`.
pub fn run_end(s: &[char], from: usize, stop: char) -> (end: usize)
    requires
        from <= s@.len(),
    ensures
        from <= end <= s@.len(),
        end - from == run_len(s@.skip(from as int), stop),
{
    let mut end: usize = from;
    while end < s.len() && s[end] != stop
        invariant
            from <= end <= s@.len(),
            forall|k: int| from <= k < end ==> s@[k] != stop,
        decreases s@.len() - end,
    {
        end += 1;
    }
    proof {
        lemma_run_len_is(s@.skip(from as int), stop, (end - from) as nat);
    }
    end
}

/// Tells whether `s` starts with `prefix`.
pub fn has_prefix(s: &[char], prefix: &[char]) -> (b: bool)
    ensures
        b == prefix@.is_prefix_of(s@),
{
    if prefix.len() > s.len() {
        return false;
    }
    let mut i: usize = 0;
    while i < prefix.len()
        invariant
            i <= prefix@.len() <= s@.len(),
            forall|k: int| 0 <= k < i ==> s@[k] == prefix@[k],
        decreases prefix@.len() - i,
    {
        if s[i] != prefix[i] {
            return false;
        }
        i += 1;
    }
    true
}

/// Tells whether `s` ends with `suffix`.
pub fn has_suffix(s: &[char], suffix: &[char]) -> (b: bool)
    ensures
        b == suffix@.is_suffix_of(s@),
{
    if suffix.len() > s.len() {
        return false;
    }
    let start = s.len() - suffix.len();
    has_prefix(slice_subrange(s, start, s.len()), suffix)
}

/// Tells whether `needle` stands somewhere in `hay`.
pub fn contains(hay: &[char], needle: &[char]) -> (b: bool)
    ensures
        b == occurs_in(needle@, hay@),
{
    if needle.len() > hay.len() {
        return false;
    }
    let last = hay.len() - needle.len();
    let mut at: usize = 0;
    while at <= last
        invariant
            at <= last + 1,
            last == hay@.len() - needle@.len(),
            forall|k: int| 0 <= k < at ==> !occurs_at(needle@, hay@, k),
        decreases last + 1 - at,
    {
        let here = slice_subrange(hay, at, hay.len());
        if has_prefix(here, needle) {
            assert(here@.subrange(0, needle@.len() as int) == hay@.subrange(
                at as int,
                at + needle@.len(),
            ));
            assert(occurs_at(needle@, hay@, at as int));
            return true;
        }
        assert(!occurs_at(needle@, hay@, at as int)) by {
            assert(here@.subrange(0, needle@.len() as int) == hay@.subrange(
                at as int,
                at + needle@.len(),
            ));
        }
        at += 1;
    }
    false
}

/// The text between two positions of `s`, counted in characters.
pub fn cut<'a>(s: &'a str, from: usize, to: usize) -> (piece: &'a str)
    requires
        from <= to <= s@.len(),
    ensures
        piece@ == s@.subrange(from as int, to as int),
{
    s.substring_char(from, to)
}

/// Tells whether two strings are the same.
pub fn str_eq(a: &str, b: &str) -> (same: bool)
    ensures
        same == (a@ == b@),
{
    let x = String::from_str(a);
    let y = String::from_str(b);
    x == y
}

/// One string made of two.
pub fn glue(a: &str, b: &str) -> (both: String)
    ensures
        both@ == a@ + b@,
{
    String::from_str(a).concat(b)
}

/// `lines` with `sep` between each two neighbours.
pub fn join(lines: &Vec<&str>, sep: &str) -> (text: String)
    ensures
        text@ == joined(slices(lines@), sep@),
{
    let mut text = String::new();
    if lines.len() == 0 {
        return text;
    }
    text.append(lines[0]);
    let mut i: usize = 1;
    let ghost all = slices(lines@);
    while i < lines.len()
        invariant
            1 <= i <= lines@.len(),
            all == slices(lines@),
            joined(all, sep@) == if i == lines@.len() {
                text@
            } else {
                text@ + sep@ + joined(all.skip(i as int), sep@)
            },
        decreases lines@.len() - i,
    {
        assert(all.skip(i as int).skip(1) == all.skip(i + 1));
        text.append(sep);
        text.append(lines[i]);
        i += 1;
    }
    text
}

/// The strings of a list, borrowed.
pub fn borrowed<'a>(list: &'a Vec<String>) -> (all: Vec<&'a str>)
    ensures
        slices(all@) == texts(list@),
{
    let mut all: Vec<&'a str> = Vec::new();
    let mut i: usize = 0;
    while i < list.len()
        invariant
            i <= list@.len(),
            all@.len() == i,
            forall|k: int| 0 <= k < i ==> (#[trigger] all@[k])@ == list@[k]@,
        decreases list@.len() - i,
    {
        all.push(list[i].as_str());
        i += 1;
    }
    all
}

/// The strings of a list, each as a string of its own.
pub fn owned(list: &Vec<&str>) -> (all: Vec<String>)
    ensures
        texts(all@) == slices(list@),
{
    let mut all: Vec<String> = Vec::new();
    let mut i: usize = 0;
    while i < list.len()
        invariant
            i <= list@.len(),
            all@.len() == i,
            forall|k: int| 0 <= k < i ==> (#[trigger] all@[k])@ == list@[k]@,
        decreases list@.len() - i,
    {
        all.push(String::from_str(list[i]));
        i += 1;
    }
    all
}

} // verus!
