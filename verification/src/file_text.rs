//! The hosts file as one text: cut into lines at each newline, rewritten, and
//! joined again with a newline between the lines.

use vstd::prelude::*;
use vstd::string::*;
use crate::docker_host::{DockerHost, HostRecord};
use crate::process_file::{process_hosts_file, reconcile};

verus! {

/// The lines of a text. A newline ends a line and starts the next one, so a
/// text with `n` newlines has `n + 1` lines, some of them possibly empty.
pub open spec fn lines_of(text: Seq<char>) -> Seq<Seq<char>>
    decreases text.len(),
    via lines_of_decreases
{
    match text.index_of_first('\n') {
        Some(at) => seq![text.subrange(0, at)] + lines_of(
            text.subrange(at + 1, text.len() as int),
        ),
        None => seq![text],
    }
}

#[via_fn]
proof fn lines_of_decreases(text: Seq<char>) {
    text.index_of_first_ensures('\n');
}

/// The text that lines make: the lines in their order, with one newline
/// between each line and the next.
pub open spec fn text_of(lines: Seq<Seq<char>>) -> Seq<char>
    decreases lines.len(),
{
    if lines.len() == 0 {
        Seq::empty()
    } else if lines.len() == 1 {
        lines[0]
    } else {
        lines[0] + seq!['\n'] + text_of(lines.drop_first())
    }
}

/// The hosts file rewritten as a text, for the records given.
pub open spec fn updated_text(text: Seq<char>, records: Seq<HostRecord>) -> Seq<char> {
    text_of(reconcile(lines_of(text), records))
}

/// A text without a newline is one line.
pub proof fn lemma_lines_of_single(text: Seq<char>)
    requires
        !text.contains('\n'),
    ensures
        lines_of(text) == seq![text],
{
    text.index_of_first_ensures('\n');
}

/// A text whose first newline stands at `at` is the line before it and then
/// the lines of what follows it.
pub proof fn lemma_lines_of_split(text: Seq<char>, at: int)
    requires
        0 <= at < text.len(),
        text[at] == '\n',
        forall|j: int| 0 <= j < at ==> text[j] != '\n',
    ensures
        lines_of(text) == seq![text.subrange(0, at)] + lines_of(
            text.subrange(at + 1, text.len() as int),
        ),
{
    text.index_of_first_ensures('\n');
}

/// A line added after others is joined to them by one newline.
pub proof fn lemma_text_of_push(lines: Seq<Seq<char>>, line: Seq<char>)
    requires
        lines.len() > 0,
    ensures
        text_of(lines.push(line)) == text_of(lines) + seq!['\n'] + line,
    decreases lines.len(),
{
    let all = lines.push(line);
    if lines.len() == 1 {
        assert(text_of(all.drop_first()) == line);
    } else {
        lemma_text_of_push(lines.drop_first(), line);
        assert(all.drop_first() =~= lines.drop_first().push(line));
    }
}

/// Cutting a text into lines loses nothing: joined again, the lines give the
/// text back.
pub proof fn lemma_text_of_lines_of(text: Seq<char>)
    ensures
        text_of(lines_of(text)) == text,
        lines_of(text).len() > 0,
    decreases text.len(),
{
    text.index_of_first_ensures('\n');
    match text.index_of_first('\n') {
        Some(at) => {
            let rest = text.subrange(at + 1, text.len() as int);
            lemma_text_of_lines_of(rest);
            let lines = seq![text.subrange(0, at)] + lines_of(rest);
            assert(lines.drop_first() =~= lines_of(rest));
        },
        None => {},
    }
}

/// Joining lines loses nothing either: where there is a line at all and no
/// line holds a newline, the joined text is cut into the same lines again.
pub proof fn lemma_lines_of_text_of(lines: Seq<Seq<char>>)
    requires
        lines.len() > 0,
        forall|i: int| 0 <= i < lines.len() ==> !(#[trigger] lines[i]).contains('\n'),
    ensures
        lines_of(text_of(lines)) == lines,
    decreases lines.len(),
{
    if lines.len() == 1 {
        lemma_lines_of_single(lines[0]);
    } else {
        let first = lines[0];
        let rest = lines.drop_first();
        let text = text_of(lines);
        lemma_lines_of_text_of(rest);
        lemma_lines_of_split(text, first.len() as int);
        assert(text.subrange(0, first.len() as int) =~= first);
        assert(text.subrange(first.len() as int + 1, text.len() as int) =~= text_of(rest));
    }
}

/// Cuts a text into its lines.
pub fn split_lines(text: &str) -> (lines: Vec<String>)
    ensures
        lines.deep_view() == lines_of(text@),
{
    let total = text.unicode_len();
    let mut lines: Vec<String> = Vec::new();
    let mut start: usize = 0;
    let mut at: usize = 0;
    assert(text@.subrange(0, total as int) =~= text@);
    for c in chars: text.chars()
        invariant
            total == text@.len(),
            chars.seq() == text@,
            at == chars.index(),
            start <= at <= total,
            forall|j: int| start <= j < at ==> text@[j] != '\n',
            lines_of(text@) == lines.deep_view() + lines_of(
                text@.subrange(start as int, total as int),
            ),
    {
        if c == '\n' {
            let ghost rest = text@.subrange(start as int, total as int);
            lines.push(String::from_str(text.substring_char(start, at)));
            proof {
                lemma_lines_of_split(rest, at - start);
                assert(rest.subrange(0, at - start) =~= text@.subrange(start as int, at as int));
                assert(rest.subrange(at - start + 1, rest.len() as int) =~= text@.subrange(
                    at + 1,
                    total as int,
                ));
            }
            start = at + 1;
        }
        at = at + 1;
    }
    let ghost rest = text@.subrange(start as int, total as int);
    lines.push(String::from_str(text.substring_char(start, total)));
    proof {
        lemma_lines_of_single(rest);
    }
    lines
}

/// Joins lines into one text, with a newline between each line and the next.
pub fn join_lines(lines: &[String]) -> (text: String)
    ensures
        text@ == text_of(lines.deep_view()),
{
    let mut text = String::new();
    let mut at: usize = 0;
    while at < lines.len()
        invariant
            at <= lines@.len(),
            text@ == text_of(lines.deep_view().take(at as int)),
        decreases lines@.len() - at,
    {
        let ghost joined = lines.deep_view().take(at as int);
        if at > 0 {
            proof {
                reveal_strlit("\n");
            }
            text.append("\n");
            proof {
                lemma_text_of_push(joined, lines.deep_view()[at as int]);
            }
        }
        text.append(lines[at].as_str());
        at = at + 1;
        assert(lines.deep_view().take(at as int) =~= joined.push(lines.deep_view()[at - 1]));
    }
    assert(lines.deep_view().take(at as int) =~= lines.deep_view());
    text
}

/// Rewrites the whole text of a hosts file for the hosts that are up now:
/// the text is cut into lines, the managed block is replaced or added, and
/// the lines are joined again.
pub fn update_hosts_text(contents: &str, docker_hosts: &[DockerHost]) -> (new_contents: String)
    ensures
        new_contents@ == updated_text(contents@, docker_hosts.deep_view()),
{
    let hosts_file = split_lines(contents);
    let mut borrowed: Vec<&str> = Vec::new();
    let mut at: usize = 0;
    while at < hosts_file.len()
        invariant
            at <= hosts_file@.len(),
            borrowed.deep_view() == hosts_file.deep_view().take(at as int),
        decreases hosts_file@.len() - at,
    {
        let ghost taken = borrowed.deep_view();
        borrowed.push(hosts_file[at].as_str());
        assert(borrowed.deep_view() =~= taken.push(hosts_file.deep_view()[at as int]));
        at = at + 1;
    }
    assert(borrowed.deep_view() =~= hosts_file.deep_view());
    let new_file = process_hosts_file(borrowed.as_slice(), docker_hosts);
    join_lines(new_file.as_slice())
}

} // verus!
