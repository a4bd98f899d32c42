//! Rewriting the lines of a hosts file: the managed block is taken out where
//! it stands and written anew at the end, and every other line is kept.

use vstd::prelude::*;
use vstd::string::*;
use crate::constants::{BEGIN_BLOCK, END_BLOCK, lemma_markers_differ};
use crate::docker_host::{DockerHost, HostRecord};

verus! {

/// `lines` but for those at the positions `first` to `last`, both included.
pub open spec fn without_range(lines: Seq<Seq<char>>, first: int, last: int) -> Seq<Seq<char>> {
    lines.subrange(0, first) + lines.subrange(last + 1, lines.len() as int)
}

/// Where the first opening marker and the first closing marker stand, each
/// searched for on its own over all of `lines`; nothing unless both occur.
pub open spec fn marker_positions(lines: Seq<Seq<char>>) -> Option<(int, int)> {
    match (lines.index_of_first(BEGIN_BLOCK@), lines.index_of_first(END_BLOCK@)) {
        (Some(begin), Some(end)) => Some((begin, end)),
        _ => None,
    }
}

/// The lines that a rewrite keeps. With both markers present, the lines from
/// one marker to the other are dropped, markers included, whichever of the
/// two comes first. With a marker missing, every line is kept.
pub open spec fn unmanaged_lines(lines: Seq<Seq<char>>) -> Seq<Seq<char>> {
    match marker_positions(lines) {
        Some((begin, end)) => if begin <= end {
            without_range(lines, begin, end)
        } else {
            without_range(lines, end, begin)
        },
        None => lines,
    }
}

/// The managed block for `records`: the opening marker, one line for each
/// record in the order given, and the closing marker.
pub open spec fn managed_block(records: Seq<HostRecord>) -> Seq<Seq<char>> {
    seq![BEGIN_BLOCK@] + records.map_values(|r: HostRecord| r.file_line()) + seq![END_BLOCK@]
}

/// The rewritten file: the lines that are kept, then the new managed block.
pub open spec fn reconcile(lines: Seq<Seq<char>>, records: Seq<HostRecord>) -> Seq<Seq<char>> {
    unmanaged_lines(lines) + managed_block(records)
}

/// Whether one of the two markers is among `lines`.
pub open spec fn has_marker(lines: Seq<Seq<char>>) -> bool {
    lines.contains(BEGIN_BLOCK@) || lines.contains(END_BLOCK@)
}

/// A line that stands at `at` and nowhere before it is the first of its kind.
pub proof fn lemma_first_position(lines: Seq<Seq<char>>, marker: Seq<char>, at: int)
    requires
        0 <= at < lines.len(),
        lines[at] == marker,
        forall|j: int| 0 <= j < at ==> lines[j] != marker,
    ensures
        lines.index_of_first(marker) == Some(at),
{
    lines.index_of_first_ensures(marker);
}

/// A line that stands nowhere has no first position.
pub proof fn lemma_no_position(lines: Seq<Seq<char>>, marker: Seq<char>)
    requires
        forall|j: int| 0 <= j < lines.len() ==> lines[j] != marker,
    ensures
        lines.index_of_first(marker) is None,
{
    lines.index_of_first_ensures(marker);
}

/// The position of the first line of `input` that equals `marker`.
fn first_position(input: &[String], marker: &str) -> (found: Option<usize>)
    ensures
        match found {
            Some(at) => input.deep_view().index_of_first(marker@) == Some(at as int),
            None => input.deep_view().index_of_first(marker@) is None,
        },
{
    let wanted = String::from_str(marker);
    let mut at: usize = 0;
    while at < input.len()
        invariant
            at <= input@.len(),
            wanted@ == marker@,
            forall|j: int| 0 <= j < at ==> input.deep_view()[j] != marker@,
        decreases input@.len() - at,
    {
        if input[at] == wanted {
            proof {
                lemma_first_position(input.deep_view(), marker@, at as int);
            }
            return Some(at);
        }
        at = at + 1;
    }
    proof {
        lemma_no_position(input.deep_view(), marker@);
    }
    None
}

/// Finds the managed block: the positions of the first opening marker and of
/// the first closing marker, when both are there.
pub fn find_positions(input: &[String]) -> (positions: Option<(usize, usize)>)
    ensures
        match positions {
            Some((begin, end)) => marker_positions(input.deep_view()) == Some(
                (begin as int, end as int),
            ),
            None => marker_positions(input.deep_view()) is None,
        },
{
    let begin_position = match first_position(input, BEGIN_BLOCK) {
        Some(at) => at,
        None => return None,
    };
    let end_position = match first_position(input, END_BLOCK) {
        Some(at) => at,
        None => return None,
    };
    Some((begin_position, end_position))
}

/// Copies borrowed lines into a file that can be edited.
pub fn copy_hosts_file(source_file: &[&str]) -> (file: Vec<String>)
    ensures
        file.deep_view() == source_file.deep_view(),
{
    let mut file: Vec<String> = Vec::new();
    let mut at: usize = 0;
    while at < source_file.len()
        invariant
            at <= source_file@.len(),
            file.deep_view() == source_file.deep_view().subrange(0, at as int),
        decreases source_file@.len() - at,
    {
        let ghost copied = file.deep_view();
        file.push(String::from_str(source_file[at]));
        assert(file.deep_view() =~= copied.push(source_file.deep_view()[at as int]));
        at = at + 1;
    }
    file
}

/// Takes out of `file` the lines between the positions `begin` and `end`,
/// both included, whichever of the two is the smaller.
pub fn delete_hosts_from_file(file: &mut Vec<String>, begin: usize, end: usize)
    requires
        begin < old(file).len(),
        end < old(file).len(),
    ensures
        final(file).deep_view() == if begin <= end {
            without_range(old(file).deep_view(), begin as int, end as int)
        } else {
            without_range(old(file).deep_view(), end as int, begin as int)
        },
{
    let (first, last) = if begin <= end {
        (begin, end)
    } else {
        (end, begin)
    };
    let mut rest = file.split_off(last + 1);
    file.truncate(first);
    file.append(&mut rest);
}

/// Writes the managed block for `docker_hosts` at the end of `file`.
pub fn append_hosts_to_file(file: &mut Vec<String>, docker_hosts: &[DockerHost])
    ensures
        final(file).deep_view() == old(file).deep_view() + managed_block(docker_hosts.deep_view()),
{
    let ghost lines = docker_hosts.deep_view().map_values(|r: HostRecord| r.file_line());
    file.push(String::from_str(BEGIN_BLOCK));
    let mut at: usize = 0;
    while at < docker_hosts.len()
        invariant
            at <= docker_hosts@.len(),
            lines == docker_hosts.deep_view().map_values(|r: HostRecord| r.file_line()),
            file.deep_view() == old(file).deep_view() + seq![BEGIN_BLOCK@] + lines.subrange(
                0,
                at as int,
            ),
        decreases docker_hosts@.len() - at,
    {
        let ghost written = file.deep_view();
        file.push(docker_hosts[at].into_file_line());
        assert(file.deep_view() =~= written.push(lines[at as int]));
        at = at + 1;
    }
    let ghost written = file.deep_view();
    file.push(String::from_str(END_BLOCK));
    assert(file.deep_view() =~= written.push(END_BLOCK@));
}

/// Rewrites a hosts file for the hosts that are up now.
///
/// Where the file holds both markers, the lines from one to the other are
/// dropped. All other lines stay as they are and in their order, and the new
/// block follows them: the markers around one line for each host.
pub fn process_hosts_file(source_file: &[&str], docker_hosts: &[DockerHost]) -> (new_file: Vec<
    String,
>)
    ensures
        new_file.deep_view() == reconcile(source_file.deep_view(), docker_hosts.deep_view()),
{
    let mut new_file = copy_hosts_file(source_file);
    let positions = find_positions(new_file.as_slice());
    match positions {
        Some((begin, end)) => {
            proof {
                new_file.deep_view().index_of_first_ensures(BEGIN_BLOCK@);
                new_file.deep_view().index_of_first_ensures(END_BLOCK@);
            }
            delete_hosts_from_file(&mut new_file, begin, end)
        },
        None => {},
    }
    append_hosts_to_file(&mut new_file, docker_hosts);
    new_file
}

/// Whether no record of `records` is written as a line that equals a marker.
pub open spec fn plain_records(records: Seq<HostRecord>) -> bool {
    forall|i: int|
        0 <= i < records.len() ==> (#[trigger] records[i]).file_line() != BEGIN_BLOCK@
            && records[i].file_line() != END_BLOCK@
}

/// The rewritten file depends on nothing but the lines and the records:
/// equal inputs give equal files.
pub proof fn lemma_reconcile_deterministic(
    lines: Seq<Seq<char>>,
    records: Seq<HostRecord>,
    other_lines: Seq<Seq<char>>,
    other_records: Seq<HostRecord>,
)
    requires
        lines == other_lines,
        records == other_records,
    ensures
        reconcile(lines, records) == reconcile(other_lines, other_records),
{
}

/// A file that lacks one of the two markers is kept whole, and the managed
/// block is written after its last line.
pub proof fn lemma_reconcile_appends(lines: Seq<Seq<char>>, records: Seq<HostRecord>)
    requires
        !lines.contains(BEGIN_BLOCK@) || !lines.contains(END_BLOCK@),
    ensures
        reconcile(lines, records) == lines + managed_block(records),
{
    lines.index_of_first_ensures(BEGIN_BLOCK@);
    lines.index_of_first_ensures(END_BLOCK@);
}

/// A block in the file is replaced. Where the first opening marker stands
/// after `before` and the first closing marker follows `inside`, the lines
/// from marker to marker go, `before` and `after` stay, and the new block is
/// written at the end.
pub proof fn lemma_reconcile_replaces(
    before: Seq<Seq<char>>,
    inside: Seq<Seq<char>>,
    after: Seq<Seq<char>>,
    records: Seq<HostRecord>,
)
    requires
        !has_marker(before),
        !inside.contains(END_BLOCK@),
    ensures
        reconcile(before + seq![BEGIN_BLOCK@] + inside + seq![END_BLOCK@] + after, records)
            == before + after + managed_block(records),
{
    let lines = before + seq![BEGIN_BLOCK@] + inside + seq![END_BLOCK@] + after;
    let begin = before.len() as int;
    let end = begin + 1 + inside.len();
    lemma_markers_differ();
    lemma_first_position(lines, BEGIN_BLOCK@, begin);
    lemma_first_position(lines, END_BLOCK@, end);
}

/// Markers in the wrong order enclose a block all the same. Where the first
/// closing marker stands after `before` and the first opening marker follows
/// `inside`, the lines from marker to marker go, and `before` and `after`
/// stay.
pub proof fn lemma_reconcile_replaces_inverted(
    before: Seq<Seq<char>>,
    inside: Seq<Seq<char>>,
    after: Seq<Seq<char>>,
    records: Seq<HostRecord>,
)
    requires
        !has_marker(before),
        !inside.contains(BEGIN_BLOCK@),
    ensures
        reconcile(before + seq![END_BLOCK@] + inside + seq![BEGIN_BLOCK@] + after, records)
            == before + after + managed_block(records),
{
    let lines = before + seq![END_BLOCK@] + inside + seq![BEGIN_BLOCK@] + after;
    let end = before.len() as int;
    let begin = end + 1 + inside.len();
    lemma_markers_differ();
    lemma_first_position(lines, BEGIN_BLOCK@, begin);
    lemma_first_position(lines, END_BLOCK@, end);
}

/// The block that a rewrite leaves is the one that the next rewrite finds.
/// Where the lines that are kept hold no marker and no record is written as
/// one, the rewritten file holds each marker once: the opening marker right
/// after the lines that were kept, the closing marker as the last line.
pub proof fn lemma_reconcile_leaves_one_block(lines: Seq<Seq<char>>, records: Seq<HostRecord>)
    requires
        !has_marker(unmanaged_lines(lines)),
        plain_records(records),
    ensures
        marker_positions(reconcile(lines, records)) == Some(
            (unmanaged_lines(lines).len() as int, reconcile(lines, records).len() - 1),
        ),
        unmanaged_lines(reconcile(lines, records)) == unmanaged_lines(lines),
        forall|i: int|
            0 <= i < reconcile(lines, records).len() && i != unmanaged_lines(lines).len()
                ==> reconcile(lines, records)[i] != BEGIN_BLOCK@,
        forall|i: int|
            0 <= i < reconcile(lines, records).len() - 1 ==> reconcile(lines, records)[i]
                != END_BLOCK@,
{
    let file = reconcile(lines, records);
    let begin = unmanaged_lines(lines).len() as int;
    let end = file.len() - 1;
    lemma_markers_differ();
    lemma_first_position(file, BEGIN_BLOCK@, begin);
    lemma_first_position(file, END_BLOCK@, end);
}

/// A rewrite leaves nothing of the block before it. Where the lines that are
/// kept hold no marker and no record of `earlier` is written as one,
/// rewriting for `earlier` and then for `records` gives the same file as
/// rewriting for `records` at once.
pub proof fn lemma_reconcile_overwrites(
    lines: Seq<Seq<char>>,
    earlier: Seq<HostRecord>,
    records: Seq<HostRecord>,
)
    requires
        !has_marker(unmanaged_lines(lines)),
        plain_records(earlier),
    ensures
        reconcile(reconcile(lines, earlier), records) == reconcile(lines, records),
{
    lemma_reconcile_leaves_one_block(lines, earlier);
}

/// Rewriting twice for the same records is rewriting once: with the block
/// already at the end of the file, a rewrite changes nothing.
pub proof fn lemma_reconcile_idempotent(lines: Seq<Seq<char>>, records: Seq<HostRecord>)
    requires
        !has_marker(unmanaged_lines(lines)),
        plain_records(records),
    ensures
        reconcile(reconcile(lines, records), records) == reconcile(lines, records),
{
    lemma_reconcile_overwrites(lines, records, records);
}

} // verus!
