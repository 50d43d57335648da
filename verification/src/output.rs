//! What the packer printed: the lines worth showing, and the diagnosis of a
//! failure.

use crate::text::{
    chars_of, contains, cut, glue, has_prefix, join, joined,
    lemma_lines_hold_no_line_feed, lemma_lines_of_joined, lemma_trimmed, lines_of, occurs_in,
    run_end, slices, survives_joining, trim_bounds, trimmed, without_cr,
};
use vstd::prelude::*;
use vstd::slice::slice_subrange;

verus! {

/// A known failure of the packer: the markers that give it away, and what to
/// tell the user.
#[derive(Debug, PartialEq, Eq)]
pub struct Rule {
    pub markers: Vec<&'static str>,
    pub message: &'static str,
}

/// The markers and the message of each rule of a list.
pub open spec fn rule_pairs(rules: Seq<Rule>) -> Seq<(Seq<Seq<char>>, Seq<char>)> {
    rules.map_values(|r: Rule| (slices(r.markers@), r.message@))
}

/// How the lines begin that the packer prints on every run.
pub open spec fn ignored_prefixes() -> Seq<Seq<char>> {
    seq![
        "---"@,
        "File size"@,
        "Ratio"@,
        "Format"@,
        "Name"@,
        "Ultimate Packer"@,
        "Copyright"@,
        "UPX "@,
    ]
}

/// Whether `line` begins with one of `prefixes`.
pub open spec fn begins_with_one_of(line: Seq<char>, prefixes: Seq<Seq<char>>) -> bool {
    exists|i: int| 0 <= i < prefixes.len() && (#[trigger] prefixes[i]).is_prefix_of(line)
}

/// Whether a line, already trimmed, is worth showing: it is not empty and
/// does not begin as the lines do that the packer prints on every run.
pub open spec fn is_noteworthy(line: Seq<char>) -> bool {
    line.len() > 0 && !begins_with_one_of(line, ignored_prefixes())
}

/// The lines among `lines` that are worth showing, each trimmed, in order.
pub open spec fn keep_noteworthy(lines: Seq<Seq<char>>) -> Seq<Seq<char>>
    decreases lines.len(),
{
    if lines.len() == 0 {
        Seq::empty()
    } else if is_noteworthy(trimmed(lines[0])) {
        seq![trimmed(lines[0])] + keep_noteworthy(lines.skip(1))
    } else {
        keep_noteworthy(lines.skip(1))
    }
}

/// The lines of `text` that are worth showing, each trimmed, in order.
pub open spec fn noteworthy_lines(text: Seq<char>) -> Seq<Seq<char>> {
    keep_noteworthy(lines_of(text))
}

/// What a report of success says of the lines worth showing: nothing where
/// there are none, else a heading and the lines.
pub open spec fn log_note(lines: Seq<Seq<char>>) -> Seq<char> {
    if lines.len() == 0 {
        Seq::empty()
    } else {
        "\n\nUPX 输出:\n"@ + joined(lines, "\n"@)
    }
}

/// What a report of success says of the packer's output.
pub open spec fn output_note(stdout: Seq<char>, stderr: Seq<char>) -> Seq<char> {
    log_note(noteworthy_lines(stdout + stderr))
}

/// The known failures, in the order in which they are tried.
pub open spec fn error_rules() -> Seq<(Seq<Seq<char>>, Seq<char>)> {
    seq![
        (
            seq!["AlreadyPackedException"@, "already packed"@],
            "[错误] 文件已经被 UPX 加壳过了\n\n解决方案:\n  - 如果要重新压缩，请先使用「脱壳解压」功能\n  - 或者选择其他未加壳的文件"@,
        ),
        (
            seq!["NotPackedException"@, "not packed"@],
            "[错误] 文件未被 UPX 加壳，无法脱壳\n\n解决方案:\n  - 请确认文件是否使用 UPX 加壳\n  - 或者选择「加壳压缩」功能"@,
        ),
        (
            seq!["CantPackException"@],
            "[错误] 无法压缩此文件\n\n可能原因:\n  - 文件格式不支持\n  - 文件已损坏\n  - 文件受保护（尝试启用「强制压缩」选项）"@,
        ),
        (
            seq!["OverlayException"@],
            "[错误] 文件包含附加数据（Overlay）\n\n解决方案:\n  - 某些文件在末尾附加了额外数据\n  - 尝试启用「强制压缩」选项\n  - 或使用其他工具移除附加数据"@,
        ),
        (
            seq!["IOException"@, "can't open"@],
            "[错误] 文件访问失败\n\n可能原因:\n  - 文件被其他程序占用\n  - 文件权限不足\n  - 文件路径包含特殊字符"@,
        ),
        (
            seq!["NotCompressibleException"@],
            "[错误] 文件无法压缩\n\n可能原因:\n  - 文件已经高度压缩\n  - 压缩后反而会变大\n  - UPX 自动跳过了此文件"@,
        ),
    ]
}

/// Whether one of `markers` stands somewhere in `text`.
pub open spec fn any_occurs(markers: Seq<Seq<char>>, text: Seq<char>) -> bool {
    exists|i: int| 0 <= i < markers.len() && occurs_in(#[trigger] markers[i], text)
}

/// The place of the first rule of which a marker stands in `text`.
pub open spec fn first_match(rules: Seq<(Seq<Seq<char>>, Seq<char>)>, text: Seq<char>) -> Option<
    int,
>
    decreases rules.len(),
{
    if rules.len() == 0 {
        None
    } else if any_occurs(rules[0].0, text) {
        Some(0)
    } else {
        match first_match(rules.skip(1), text) {
            Some(k) => Some(k + 1),
            None => None,
        }
    }
}

/// What to say of a failure where no rule applies: the lines worth showing
/// under a heading, or a short message where there are none.
pub open spec fn generic_failure(text: Seq<char>) -> Seq<char> {
    let lines = noteworthy_lines(text);
    if lines.len() == 0 {
        "[错误] UPX 处理失败\n\n请检查文件是否正常，或尝试其他选项"@
    } else {
        "[错误] UPX 处理失败\n\n错误信息:\n"@ + joined(lines, "\n"@)
    }
}

/// The diagnosis of a failed run: the message of the first rule of which a
/// marker stands in what the packer printed, else the generic failure.
pub open spec fn diagnosis(stdout: Seq<char>, stderr: Seq<char>) -> Seq<char> {
    let text = stdout + stderr;
    match first_match(error_rules(), text) {
        Some(k) => error_rules()[k].1,
        None => generic_failure(text),
    }
}

/// The first matching rule is the first of which a marker stands in the
/// text, and there is none exactly when no rule has such a marker.
pub proof fn lemma_first_match(rules: Seq<(Seq<Seq<char>>, Seq<char>)>, text: Seq<char>)
    ensures
        match first_match(rules, text) {
            Some(k) => {
                &&& 0 <= k < rules.len()
                &&& any_occurs(rules[k].0, text)
                &&& forall|j: int| 0 <= j < k ==> !any_occurs((#[trigger] rules[j]).0, text)
            },
            None => forall|j: int| 0 <= j < rules.len() ==> !any_occurs((#[trigger] rules[j]).0, text),
        },
    decreases rules.len(),
{
    if rules.len() > 0 && !any_occurs(rules[0].0, text) {
        let rest = rules.skip(1);
        lemma_first_match(rest, text);
        match first_match(rest, text) {
            Some(k) => {
                assert forall|j: int| 0 <= j < k + 1 implies !any_occurs(
                    (#[trigger] rules[j]).0,
                    text,
                ) by {
                    if j > 0 {
                        assert(rest[j - 1] == rules[j]);
                    }
                }
            },
            None => {
                assert forall|j: int| 0 <= j < rules.len() implies !any_occurs(
                    (#[trigger] rules[j]).0,
                    text,
                ) by {
                    if j > 0 {
                        assert(rest[j - 1] == rules[j]);
                    }
                }
            },
        }
    }
}

/// The first rule that matches decides: where a marker of rule `k` stands in
/// what the packer printed and no marker of an earlier rule does, the
/// diagnosis is the message of rule `k`, whatever else the text holds.
pub proof fn lemma_first_rule_wins(stdout: Seq<char>, stderr: Seq<char>, k: int)
    requires
        0 <= k < error_rules().len(),
        any_occurs(error_rules()[k].0, stdout + stderr),
        forall|j: int| 0 <= j < k ==> !any_occurs((#[trigger] error_rules()[j]).0, stdout + stderr),
    ensures
        diagnosis(stdout, stderr) == error_rules()[k].1,
{
    lemma_first_match(error_rules(), stdout + stderr);
}

/// A file that is packed already is diagnosed as such, whatever else the
/// packer printed: the rule for it is tried first.
pub proof fn lemma_already_packed_wins(stdout: Seq<char>, stderr: Seq<char>)
    requires
        occurs_in("AlreadyPackedException"@, stdout + stderr) || occurs_in(
            "already packed"@,
            stdout + stderr,
        ),
    ensures
        diagnosis(stdout, stderr) == error_rules()[0].1,
{
    lemma_first_rule_wins(stdout, stderr, 0);
}

/// Where no rule applies the diagnosis is the generic failure.
pub proof fn lemma_fallback(stdout: Seq<char>, stderr: Seq<char>)
    requires
        forall|j: int|
            0 <= j < error_rules().len() ==> !any_occurs(
                (#[trigger] error_rules()[j]).0,
                stdout + stderr,
            ),
    ensures
        diagnosis(stdout, stderr) == generic_failure(stdout + stderr),
{
    lemma_first_match(error_rules(), stdout + stderr);
}

/// Each line that is kept is one of the lines, trimmed, and is worth showing.
pub proof fn lemma_kept_lines(lines: Seq<Seq<char>>)
    ensures
        forall|i: int|
            0 <= i < keep_noteworthy(lines).len() ==> is_noteworthy(
                #[trigger] keep_noteworthy(lines)[i],
            ) && exists|j: int|
                0 <= j < lines.len() && keep_noteworthy(lines)[i] == trimmed(#[trigger] lines[j]),
    decreases lines.len(),
{
    if lines.len() > 0 {
        let rest = lines.skip(1);
        lemma_kept_lines(rest);
        let kept = keep_noteworthy(lines);
        assert forall|i: int| 0 <= i < kept.len() implies is_noteworthy(#[trigger] kept[i])
            && exists|j: int| 0 <= j < lines.len() && kept[i] == trimmed(#[trigger] lines[j]) by {
            if !is_noteworthy(trimmed(lines[0])) || i > 0 {
                let r: int = if is_noteworthy(trimmed(lines[0])) {
                    i - 1
                } else {
                    i
                };
                let j = choose|j: int|
                    0 <= j < rest.len() && keep_noteworthy(rest)[r] == trimmed(#[trigger] rest[j]);
                assert(rest[j] == lines[j + 1]);
            }
        }
    }
}

/// Lines that are trimmed and worth showing are all kept, as they are.
pub proof fn lemma_keep_all(lines: Seq<Seq<char>>)
    requires
        forall|i: int|
            0 <= i < lines.len() ==> is_noteworthy(#[trigger] lines[i]) && trimmed(lines[i])
                == lines[i],
    ensures
        keep_noteworthy(lines) == lines,
    decreases lines.len(),
{
    if lines.len() > 0 {
        let rest = lines.skip(1);
        assert forall|i: int| 0 <= i < rest.len() implies is_noteworthy(#[trigger] rest[i])
            && trimmed(rest[i]) == rest[i] by {}
        lemma_keep_all(rest);
    }
}

/// Filtering what the filter gave changes nothing: the lines worth showing,
/// written out one to a line and filtered again, are the same lines.
pub proof fn lemma_filter_is_idempotent(text: Seq<char>)
    ensures
        noteworthy_lines(joined(noteworthy_lines(text), "\n"@)) == noteworthy_lines(text),
{
    let lines = lines_of(text);
    let kept = noteworthy_lines(text);
    lemma_kept_lines(lines);
    lemma_lines_hold_no_line_feed(text);
    assert forall|i: int| 0 <= i < kept.len() implies survives_joining(#[trigger] kept[i])
        && is_noteworthy(kept[i]) && trimmed(kept[i]) == kept[i] by {
        let j = choose|j: int| 0 <= j < lines.len() && kept[i] == trimmed(#[trigger] lines[j]);
        lemma_trimmed(lines[j]);
        let from = choose|from: int|
            0 <= from && from + trimmed(lines[j]).len() <= lines[j].len() && trimmed(lines[j])
                == #[trigger] lines[j].subrange(from, from + trimmed(lines[j]).len());
        assert forall|k: int| 0 <= k < kept[i].len() implies kept[i][k] != '\n' by {}
    }
    lemma_lines_of_joined(kept);
    lemma_keep_all(kept);
}

/// The prefixes of the lines that are never shown.
pub fn ignored_prefix_table() -> (table: Vec<&'static str>)
    ensures
        slices(table@) == ignored_prefixes(),
{
    let table = vec![
        "---",
        "File size",
        "Ratio",
        "Format",
        "Name",
        "Ultimate Packer",
        "Copyright",
        "UPX ",
    ];
    table
}

/// The known failures, in the order in which they are tried.
pub fn error_rule_table() -> (table: Vec<Rule>)
    ensures
        rule_pairs(table@) == error_rules(),
{
    let mut table: Vec<Rule> = Vec::new();
    table.push(
        Rule {
            markers: vec!["AlreadyPackedException", "already packed"],
            message: "[错误] 文件已经被 UPX 加壳过了\n\n解决方案:\n  - 如果要重新压缩，请先使用「脱壳解压」功能\n  - 或者选择其他未加壳的文件",
        },
    );
    table.push(
        Rule {
            markers: vec!["NotPackedException", "not packed"],
            message: "[错误] 文件未被 UPX 加壳，无法脱壳\n\n解决方案:\n  - 请确认文件是否使用 UPX 加壳\n  - 或者选择「加壳压缩」功能",
        },
    );
    table.push(
        Rule {
            markers: vec!["CantPackException"],
            message: "[错误] 无法压缩此文件\n\n可能原因:\n  - 文件格式不支持\n  - 文件已损坏\n  - 文件受保护（尝试启用「强制压缩」选项）",
        },
    );
    table.push(
        Rule {
            markers: vec!["OverlayException"],
            message: "[错误] 文件包含附加数据（Overlay）\n\n解决方案:\n  - 某些文件在末尾附加了额外数据\n  - 尝试启用「强制压缩」选项\n  - 或使用其他工具移除附加数据",
        },
    );
    table.push(
        Rule {
            markers: vec!["IOException", "can't open"],
            message: "[错误] 文件访问失败\n\n可能原因:\n  - 文件被其他程序占用\n  - 文件权限不足\n  - 文件路径包含特殊字符",
        },
    );
    table.push(
        Rule {
            markers: vec!["NotCompressibleException"],
            message: "[错误] 文件无法压缩\n\n可能原因:\n  - 文件已经高度压缩\n  - 压缩后反而会变大\n  - UPX 自动跳过了此文件",
        },
    );
    proof {
        let pairs = rule_pairs(table@);
        let rules = error_rules();
        assert forall|i: int| 0 <= i < pairs.len() implies pairs[i] == rules[i] by {}
    }
    table
}

/// The characters of each string of a list.
pub fn chars_of_each(list: &Vec<&'static str>) -> (each: Vec<Vec<char>>)
    ensures
        each@.len() == list@.len(),
        forall|i: int| 0 <= i < list@.len() ==> (#[trigger] each@[i])@ == list@[i]@,
{
    let mut each: Vec<Vec<char>> = Vec::new();
    let mut i: usize = 0;
    while i < list.len()
        invariant
            i <= list@.len(),
            each@.len() == i,
            forall|k: int| 0 <= k < i ==> (#[trigger] each@[k])@ == list@[k]@,
        decreases list@.len() - i,
    {
        each.push(chars_of(list[i]));
        i += 1;
    }
    each
}

/// Tells whether `line` begins with one of `prefixes`.
pub fn begins_with_any(line: &[char], prefixes: &Vec<Vec<char>>) -> (b: bool)
    ensures
        b == begins_with_one_of(line@, prefixes@.map_values(|p: Vec<char>| p@)),
{
    let ghost views = prefixes@.map_values(|p: Vec<char>| p@);
    let mut i: usize = 0;
    while i < prefixes.len()
        invariant
            i <= prefixes@.len(),
            views == prefixes@.map_values(|p: Vec<char>| p@),
            forall|k: int| 0 <= k < i ==> !(#[trigger] views[k]).is_prefix_of(line@),
        decreases prefixes@.len() - i,
    {
        if has_prefix(line, prefixes[i].as_slice()) {
            assert(views[i as int].is_prefix_of(line@));
            return true;
        }
        i += 1;
    }
    false
}

/// Tells whether one of `markers` stands somewhere in `text`.
pub fn contains_any(text: &[char], markers: &Vec<Vec<char>>) -> (b: bool)
    ensures
        b == any_occurs(markers@.map_values(|p: Vec<char>| p@), text@),
{
    let ghost views = markers@.map_values(|p: Vec<char>| p@);
    let mut i: usize = 0;
    while i < markers.len()
        invariant
            i <= markers@.len(),
            views == markers@.map_values(|p: Vec<char>| p@),
            forall|k: int| 0 <= k < i ==> !occurs_in(#[trigger] views[k], text@),
        decreases markers@.len() - i,
    {
        if contains(text, markers[i].as_slice()) {
            assert(occurs_in(views[i as int], text@));
            return true;
        }
        i += 1;
    }
    false
}

/// The lines of `text` that are worth showing: each line is trimmed, and
/// left out where nothing remains of it or where it begins as the lines do
/// that the packer prints on every run.
pub fn filter_output_lines<'a>(text: &'a str) -> (lines: Vec<&'a str>)
    ensures
        slices(lines@) == noteworthy_lines(text@),
{
    let chars = chars_of(text);
    let s = chars.as_slice();
    let table = ignored_prefix_table();
    let prefixes = chars_of_each(&table);
    let mut lines: Vec<&'a str> = Vec::new();
    let mut from: usize = 0;
    assert(s@.skip(0) == s@);
    while from < s.len()
        invariant
            from <= s@.len(),
            s@ == text@,
            prefixes@.map_values(|p: Vec<char>| p@) == ignored_prefixes(),
            noteworthy_lines(text@) == slices(lines@) + keep_noteworthy(
                lines_of(s@.skip(from as int)),
            ),
        decreases s@.len() - from,
    {
        let ghost rest = s@.skip(from as int);
        let ghost before = slices(lines@);
        let end = run_end(s, from, '\n');
        let stop: usize = if end < s.len() && end > from && s[end - 1] == '\r' {
            end - 1
        } else {
            end
        };
        let line = slice_subrange(s, from, stop);
        let (a, b) = trim_bounds(line);
        let kept = slice_subrange(s, from + a, from + b);
        let next: usize = if end == s.len() {
            end
        } else {
            end + 1
        };
        proof {
            if end < s@.len() {
                assert(line@ == without_cr(rest.take(end - from)));
                assert(rest.skip(end - from + 1) == s@.skip(next as int));
            }
            assert(lines_of(rest).skip(1) == lines_of(s@.skip(next as int)));
            assert(kept@ == line@.subrange(a as int, b as int));
        }
        if b > a && !begins_with_any(kept, &prefixes) {
            lines.push(cut(text, from + a, from + b));
            assert(before + (seq![kept@] + keep_noteworthy(lines_of(s@.skip(next as int))))
                == before.push(kept@) + keep_noteworthy(lines_of(s@.skip(next as int))));
        }
        from = next;
    }
    lines
}

/// What a report of success says of the lines worth showing.
pub fn format_log(lines: &Vec<&str>) -> (note: String)
    ensures
        note@ == log_note(slices(lines@)),
{
    if lines.len() == 0 {
        return String::new();
    }
    let listed = join(lines, "\n");
    glue("\n\nUPX 输出:\n", listed.as_str())
}

/// What a report of success says of the packer's output.
pub fn format_upx_output(stdout: &str, stderr: &str) -> (note: String)
    ensures
        note@ == output_note(stdout@, stderr@),
{
    let combined = glue(stdout, stderr);
    let lines = filter_output_lines(combined.as_str());
    format_log(&lines)
}

/// The diagnosis of a failed run, from what the packer printed: the message
/// of the first known failure of which a marker stands in the text, else the
/// lines worth showing under a generic heading, or a short generic message
/// where there are none.
pub fn parse_upx_error(stdout: &str, stderr: &str) -> (message: String)
    ensures
        message@ == diagnosis(stdout@, stderr@),
{
    let combined = glue(stdout, stderr);
    let chars = chars_of(combined.as_str());
    let table = error_rule_table();
    let ghost rules = error_rules();
    let mut i: usize = 0;
    assert(rules.skip(0) == rules);
    while i < table.len()
        invariant
            i <= table@.len(),
            rule_pairs(table@) == rules,
            rules == error_rules(),
            chars@ == stdout@ + stderr@,
            first_match(rules, chars@) == match first_match(rules.skip(i as int), chars@) {
                Some(k) => Some(k + i),
                None => None,
            },
        decreases table@.len() - i,
    {
        let markers = chars_of_each(&table[i].markers);
        proof {
            assert(rules.skip(i as int).skip(1) == rules.skip(i + 1));
            assert(markers@.map_values(|p: Vec<char>| p@) =~= rules[i as int].0);
        }
        if contains_any(chars.as_slice(), &markers) {
            return String::from_str(table[i].message);
        }
        i += 1;
    }
    let lines = filter_output_lines(combined.as_str());
    if lines.len() == 0 {
        return String::from_str("[错误] UPX 处理失败\n\n请检查文件是否正常，或尝试其他选项");
    }
    let listed = join(&lines, "\n");
    glue("[错误] UPX 处理失败\n\n错误信息:\n", listed.as_str())
}

} // verus!
