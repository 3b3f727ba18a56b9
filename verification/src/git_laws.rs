//! What holds of every numstat and of every reading of a repository.

use vstd::prelude::*;

use crate::git;
use crate::text;
use crate::text_laws;

verus! {

proof fn lemma_totals_add(x: Seq<Seq<char>>, y: Seq<Seq<char>>)
    ensures
        git::total_churn(x + y) == git::total_churn(x) + git::total_churn(y),
        git::total_files(x + y) == git::total_files(x) + git::total_files(y),
    decreases x.len(),
{
    if x.len() == 0 {
        assert(x + y == y);
    } else {
        lemma_totals_add(x.drop_first(), y);
        assert((x + y).drop_first() == x.drop_first() + y);
        assert((x + y)[0] == x[0]);
    }
}

/// The lines of a text that has a line feed in it.
proof fn lemma_lines_split(a: Seq<char>, b: Seq<char>)
    ensures
        text::lines(a.push('\n') + b) == text::lines(a.push('\n')) + text::lines(b),
    decreases a.len(),
{
    let head = a.push('\n');
    let all = head + b;
    let end = text::position(a, '\n') as int;
    text::lemma_position_before(a, '\n', b);
    text::lemma_position_before(a, '\n', seq![]);
    assert(head + Seq::<char>::empty() == head);
    assert(all.take(end) == a.take(end));
    assert(head.take(end) == a.take(end));
    if end < a.len() {
        let rest = a.skip(end + 1);
        lemma_lines_split(rest, b);
        assert(all.skip(end + 1) == rest.push('\n') + b);
        assert(head.skip(end + 1) == rest.push('\n'));
    } else {
        assert(all.skip(end + 1) == b);
        assert(head.skip(end + 1) == Seq::<char>::empty());
        assert(text::lines(head.skip(end + 1)) == Seq::<Seq<char>>::empty());
    }
    assert(text::lines(all) == text::lines(head) + text::lines(b));
}

/// Each line of a numstat is counted for itself: cut at a line feed, the two parts
/// add up to the whole.
pub proof fn numstat_adds_up(a: Seq<char>, b: Seq<char>)
    ensures
        git::numstat_churn(a.push('\n') + b) == git::numstat_churn(a.push('\n'))
            + git::numstat_churn(b),
        git::numstat_files(a.push('\n') + b) == git::numstat_files(a.push('\n'))
            + git::numstat_files(b),
{
    lemma_lines_split(a, b);
    lemma_totals_add(text::lines(a.push('\n')), text::lines(b));
}

/// A text of white space alone reports no churn and no file.
pub proof fn blank_numstat_is_zero(gap: Seq<char>)
    requires
        text::is_blank(gap),
    ensures
        git::numstat_churn(gap) == 0,
        git::numstat_files(gap) == 0,
    decreases gap.len(),
{
    let end = text::position(gap, '\n') as int;
    if gap.len() > 0 && end < gap.len() {
        let rest = gap.skip(end + 1);
        assert forall|i: int| 0 <= i < rest.len() implies text::is_white_space(
            #[trigger] rest[i],
        ) by {
            assert(rest[i] == gap[i + end + 1]);
        }
        blank_numstat_is_zero(rest);
        let line = text::without_return(gap.take(end));
        assert forall|i: int| 0 <= i < line.len() implies text::is_white_space(
            #[trigger] line[i],
        ) by {
            assert(line[i] == gap[i]);
        }
        assert(text::lines(gap)[0] == line);
        assert(text::lines(gap).drop_first() == text::lines(rest));
    } else if gap.len() > 0 {
        assert(text::lines(gap)[0] == gap);
        assert(text::lines(gap).drop_first() == Seq::<Seq<char>>::empty());
        assert(git::total_churn(text::lines(gap).drop_first()) == 0);
        assert(git::total_files(text::lines(gap).drop_first()) == 0);
    }
}

/// A blank line in a numstat changes nothing.
pub proof fn numstat_ignores_blank_lines(a: Seq<char>, gap: Seq<char>, b: Seq<char>)
    requires
        text::is_blank(gap),
    ensures
        git::numstat_churn(a.push('\n') + gap.push('\n') + b) == git::numstat_churn(
            a.push('\n') + b,
        ),
        git::numstat_files(a.push('\n') + gap.push('\n') + b) == git::numstat_files(
            a.push('\n') + b,
        ),
{
    assert(a.push('\n') + gap.push('\n') + b == a.push('\n') + (gap.push('\n') + b));
    numstat_adds_up(a, gap.push('\n') + b);
    numstat_adds_up(a, b);
    numstat_adds_up(gap, b);
    assert(text::is_white_space('\n'));
    blank_numstat_is_zero(gap.push('\n'));
}

/// The line feed at the end of a numstat may be missing. (Behind a carriage return
/// it is part of the line end, and is not optional.)
pub proof fn last_line_feed_is_optional(out: Seq<char>)
    requires
        out.len() > 0 ==> out.last() != '\r',
    ensures
        git::numstat_churn(out.push('\n')) == git::numstat_churn(out),
        git::numstat_files(out.push('\n')) == git::numstat_files(out),
    decreases out.len(),
{
    let end = text::position(out, '\n') as int;
    text::lemma_position_before(out, '\n', seq![]);
    assert(out.push('\n') + Seq::<char>::empty() == out.push('\n'));
    if end < out.len() {
        let head = out.take(end);
        let rest = out.skip(end + 1);
        lemma_first_position(out, '\n');
        assert(out == head.push('\n') + rest);
        assert(out.push('\n') == head.push('\n') + rest.push('\n'));
        last_line_feed_is_optional(rest);
        numstat_adds_up(head, rest);
        numstat_adds_up(head, rest.push('\n'));
    } else if out.len() == 0 {
        assert(text::is_white_space('\n'));
        blank_numstat_is_zero(out);
        blank_numstat_is_zero(out.push('\n'));
    } else {
        assert(out.push('\n').take(end) == out);
        assert(out.push('\n').skip(end + 1) == Seq::<char>::empty());
        assert(text::lines(out.push('\n').skip(end + 1)) == Seq::<Seq<char>>::empty());
        assert(text::lines(out.push('\n')) == text::lines(out));
    }
}

proof fn lemma_first_position(s: Seq<char>, c: char)
    requires
        text::position(s, c) < s.len(),
    ensures
        s[text::position(s, c) as int] == c,
    decreases s.len(),
{
    if s[0] != c {
        lemma_first_position(s.drop_first(), c);
    }
}

/// The line that git writes for one file.
pub open spec fn numstat_line(added: Seq<char>, removed: Seq<char>, path: Seq<char>) -> Seq<char> {
    added.push('\t') + (removed.push('\t') + path)
}

proof fn lemma_one_line(added: Seq<char>, removed: Seq<char>, path: Seq<char>)
    requires
        added.len() > 0,
        !text::is_white_space(added[0]),
        forall|i: int| 0 <= i < added.len() ==> #[trigger] added[i] != '\t' && added[i] != '\n',
        forall|i: int| 0 <= i < removed.len() ==> #[trigger] removed[i] != '\t' && removed[i]
            != '\n',
        forall|i: int| 0 <= i < path.len() ==> #[trigger] path[i] != '\n',
    ensures
        git::numstat_files(numstat_line(added, removed, path)) == 1,
        git::numstat_churn(numstat_line(added, removed, path)) == git::reply_count(Some(added))
            + git::reply_count(Some(removed)),
{
    let line = numstat_line(added, removed, path);
    let tail = removed.push('\t') + path;
    assert forall|i: int| 0 <= i < line.len() implies #[trigger] line[i] != '\n' by {
        let k = added.len();
        let m = removed.len();
        if i < k {
            assert(line[i] == added[i]);
        } else if i > k && i - k - 1 < m {
            assert(line[i] == removed[i - k - 1]);
        } else if i > k + 1 + m {
            assert(line[i] == path[i - k - 1 - m - 1]);
        }
    }
    text::lemma_position_without(line, '\n');
    assert(text::lines(line) == seq![line]);
    assert(text::lines(line).drop_first() == Seq::<Seq<char>>::empty());
    assert(line[0] == added[0]);
    assert(!text::is_blank(line));
    text::lemma_position_without(added, '\t');
    text::lemma_position_before(added, '\t', tail);
    assert(line.take(added.len() as int) == added);
    assert(line.skip(added.len() as int + 1) == tail);
    text::lemma_position_without(removed, '\t');
    text::lemma_position_before(removed, '\t', path);
    assert(tail.take(removed.len() as int) == removed);
    assert(text::columns(line) == seq![added] + text::columns(tail));
    assert(text::columns(tail)[0] == removed);
    assert(text::columns(line)[1] == removed);
    assert(git::total_files(text::lines(line).drop_first()) == 0);
    assert(git::total_churn(text::lines(line).drop_first()) == 0);
}

/// What one line counts for: a line that trimming leaves something of is one file, and
/// its churn is the sum of the counts in its first two columns, of which a missing or
/// malformed one stands for zero. Further columns count for nothing.
pub proof fn line_counts_its_first_two_columns(
    first: Seq<char>,
    second: Seq<char>,
    rest: Seq<char>,
)
    requires
        forall|i: int| 0 <= i < first.len() ==> #[trigger] first[i] != '\t' && first[i] != '\n',
        forall|i: int| 0 <= i < second.len() ==> #[trigger] second[i] != '\t' && second[i] != '\n',
        forall|i: int| 0 <= i < rest.len() ==> #[trigger] rest[i] != '\n',
    ensures
        text::trimmed(first).len() > 0 ==> {
            &&& git::numstat_files(first) == 1
            &&& git::numstat_churn(first) == text::count(first).unwrap_or(0)
        },
        text::trimmed(first.push('\t') + second).len() > 0 ==> {
            &&& git::numstat_files(first.push('\t') + second) == 1
            &&& git::numstat_churn(first.push('\t') + second) == text::count(first).unwrap_or(0)
                + text::count(second).unwrap_or(0)
        },
        text::trimmed(first.push('\t') + (second.push('\t') + rest)).len() > 0 ==> {
            &&& git::numstat_files(first.push('\t') + (second.push('\t') + rest)) == 1
            &&& git::numstat_churn(first.push('\t') + (second.push('\t') + rest)) == text::count(
                first,
            ).unwrap_or(0) + text::count(second).unwrap_or(0)
        },
{
    let two = first.push('\t') + second;
    let tail = second.push('\t') + rest;
    let three = first.push('\t') + tail;
    assert forall|i: int| 0 <= i < two.len() implies #[trigger] two[i] != '\n' by {
        if i < first.len() {
            assert(two[i] == first[i]);
        } else if i > first.len() {
            assert(two[i] == second[i - first.len() - 1]);
        }
    }
    assert forall|i: int| 0 <= i < tail.len() implies #[trigger] tail[i] != '\n' by {
        if i < second.len() {
            assert(tail[i] == second[i]);
        } else if i > second.len() {
            assert(tail[i] == rest[i - second.len() - 1]);
        }
    }
    assert forall|i: int| 0 <= i < three.len() implies #[trigger] three[i] != '\n' by {
        if i < first.len() {
            assert(three[i] == first[i]);
        } else if i > first.len() {
            assert(three[i] == tail[i - first.len() - 1]);
        }
    }
    text_laws::tab_ends_column(first, second);
    text_laws::tab_ends_column(first, tail);
    text_laws::tab_ends_column(second, rest);
    assert(text::columns(two)[0] == first && text::columns(two)[1] == second);
    assert(text::columns(three)[0] == first);
    assert(text::columns(three)[1] == text::columns(tail)[0]);
    assert(text::columns(tail)[0] == second);
    lemma_single_line(first);
    lemma_single_line(two);
    lemma_single_line(three);
}

proof fn lemma_single_line(line: Seq<char>)
    requires
        forall|i: int| 0 <= i < line.len() ==> #[trigger] line[i] != '\n',
    ensures
        text::trimmed(line).len() > 0 ==> {
            &&& git::numstat_files(line) == 1
            &&& git::numstat_churn(line) == git::column_count(line, 0) + git::column_count(line, 1)
        },
{
    text_laws::blank_text_trims_to_nothing(line);
    text_laws::text_without_line_feed_is_one_line(line);
    if !text::is_blank(line) {
        assert(text::lines(line)[0] == line);
        assert(text::lines(line).drop_first() == Seq::<Seq<char>>::empty());
        assert(git::total_files(text::lines(line).drop_first()) == 0);
        assert(git::total_churn(text::lines(line).drop_first()) == 0);
    }
}

/// A numstat counts for what its first line counts for and what the others do, whether
/// the line ends in a line feed alone or with a carriage return before it.
pub proof fn numstat_counts_line_by_line(line: Seq<char>, rest: Seq<char>)
    requires
        forall|i: int| 0 <= i < line.len() ==> #[trigger] line[i] != '\n',
    ensures
        line.len() == 0 || line[line.len() - 1] != '\r' ==> {
            &&& git::numstat_churn(line.push('\n') + rest) == git::numstat_churn(line)
                + git::numstat_churn(rest)
            &&& git::numstat_files(line.push('\n') + rest) == git::numstat_files(line)
                + git::numstat_files(rest)
        },
        git::numstat_churn(line.push('\r').push('\n') + rest) == git::numstat_churn(line)
            + git::numstat_churn(rest),
        git::numstat_files(line.push('\r').push('\n') + rest) == git::numstat_files(line)
            + git::numstat_files(rest),
{
    text_laws::line_feed_ends_line(line, rest);
    text_laws::text_without_line_feed_is_one_line(line);
    lemma_totals_add(seq![line], text::lines(rest));
    if line.len() == 0 {
        let none = Seq::<Seq<char>>::empty();
        assert(text::is_blank(line));
        assert(seq![line].drop_first() == none);
        assert(git::total_churn(none) == 0 && git::total_files(none) == 0);
        assert(text::lines(line) == none);
    }
}

/// A text file counts for one file, with the lines added and the lines removed.
pub proof fn text_file_counts_its_lines(added: nat, removed: nat, path: Seq<char>)
    requires
        added <= u64::MAX,
        removed <= u64::MAX,
        forall|i: int| 0 <= i < path.len() ==> #[trigger] path[i] != '\n',
    ensures
        git::numstat_churn(numstat_line(text::decimal(added), text::decimal(removed), path))
            == added + removed,
        git::numstat_files(numstat_line(text::decimal(added), text::decimal(removed), path)) == 1,
{
    text::decimal_stands_for_its_number(added);
    text::decimal_stands_for_its_number(removed);
    text::count_reads_decimal(added);
    text::count_reads_decimal(removed);
    assert(text::is_digit(text::decimal(added)[0]));
    lemma_one_line(text::decimal(added), text::decimal(removed), path);
}

/// A binary file, for which git writes `-` twice, counts for one file without churn.
pub proof fn binary_file_adds_no_churn(path: Seq<char>)
    requires
        forall|i: int| 0 <= i < path.len() ==> #[trigger] path[i] != '\n',
    ensures
        git::numstat_churn(numstat_line(seq!['-'], seq!['-'], path)) == 0,
        git::numstat_files(numstat_line(seq!['-'], seq!['-'], path)) == 1,
{
    let dash = seq!['-'];
    assert(text::without_plus(dash) == dash);
    assert(!text::is_digit(dash[0]));
    assert(text::count(dash) is None);
    lemma_one_line(dash, dash, path);
}

/// Outside a repository the probe alone is run, and the counters are unavailable.
pub proof fn no_repository_is_unavailable(cwd: Seq<char>, replies: Seq<Option<Seq<char>>>)
    requires
        replies.len() > 0,
        replies[0] != Some("true"@),
    ensures
        git::read_action(cwd, replies) == git::ReadAction::Done(git::unavailable()),
{
    assert(git::gives_up(replies, 0));
}

/// On a detached HEAD, which names no branch, the counters are unavailable.
pub proof fn detached_head_is_unavailable(cwd: Seq<char>, replies: Seq<Option<Seq<char>>>)
    requires
        replies.len() > 1,
        replies[1] is None,
    ensures
        git::read_action(cwd, replies) == git::ReadAction::Done(git::unavailable()),
{
    assert(git::gives_up(replies, 1));
}

/// Whichever of the five commands fails, the counters are unavailable. In a
/// repository without commits that is the count of commits.
pub proof fn any_failure_is_unavailable(cwd: Seq<char>, replies: Seq<Option<Seq<char>>>, k: int)
    requires
        0 <= k < 5,
        k < replies.len(),
        replies[k] is None,
    ensures
        git::read_action(cwd, replies) == git::ReadAction::Done(git::unavailable()),
{
    assert(git::gives_up(replies, k));
}

/// A reading runs at most five commands.
pub proof fn reading_ends(cwd: Seq<char>, replies: Seq<Option<Seq<char>>>)
    ensures
        git::read_action(cwd, replies) is Run ==> replies.len() < 5,
{
}

/// Further replies change nothing once the counters are complete.
pub proof fn reading_is_settled(
    cwd: Seq<char>,
    replies: Seq<Option<Seq<char>>>,
    more: Seq<Option<Seq<char>>>,
)
    requires
        git::read_action(cwd, replies) is Done,
    ensures
        git::read_action(cwd, replies + more) == git::read_action(cwd, replies),
{
    let all = replies + more;
    if exists|k: int| 0 <= k < 5 && k < replies.len() && git::gives_up(replies, k) {
        let k = choose|k: int| 0 <= k < 5 && k < replies.len() && git::gives_up(replies, k);
        assert(all[k] == replies[k]);
        assert(git::gives_up(all, k));
    } else {
        assert forall|k: int| 0 <= k < 5 && k < all.len() implies !git::gives_up(all, k) by {
            assert(all[k] == replies[k]);
            assert(!git::gives_up(replies, k));
        }
        assert(all[2] == replies[2] && all[3] == replies[3] && all[4] == replies[4]);
    }
}

/// Where git has nothing to say, every counter is zero.
pub proof fn unavailable_is_all_zero()
    ensures
        git::unavailable().commit_count == 0,
        git::unavailable().merge_count == 0,
        git::unavailable().churn == 0,
        git::unavailable().files == 0,
        !git::unavailable().available,
{
}

/// Counters that a reading hands out are zero wherever they are unavailable.
pub proof fn counters_are_well_formed(cwd: Seq<char>, replies: Seq<Option<Seq<char>>>)
    ensures
        git::read_action(cwd, replies) matches git::ReadAction::Done(raw) ==> {
            &&& raw.well_formed()
            &&& !raw.available ==> raw.commit_count == 0 && raw.merge_count == 0 && raw.churn == 0
                && raw.files == 0
        },
{
}

/// Being well formed means that counters which are not available are zero.
pub proof fn well_formed_counters_are_zero_when_unavailable(raw: git::GitRaw)
    ensures
        raw.well_formed() <==> raw.available || (raw.commit_count == 0 && raw.merge_count == 0
            && raw.churn == 0 && raw.files == 0),
{
}

/// Counters are available exactly where all five commands succeeded, the first of
/// them with `true`.
pub proof fn available_means_five_successes(cwd: Seq<char>, replies: Seq<Option<Seq<char>>>)
    ensures
        git::read_action(cwd, replies) matches git::ReadAction::Done(raw) ==> (raw.available <==> {
            &&& replies.len() >= 5
            &&& replies[0] == Some("true"@)
            &&& replies[1] is Some
            &&& replies[2] is Some
            &&& replies[3] is Some
            &&& replies[4] is Some
        }),
{
    if replies.len() >= 5 {
        assert(forall|k: int| 0 <= k < 5 ==> (git::gives_up(replies, k) <==> (replies[k] is None || (k == 0
            && replies[0] != Some("true"@)))));
    }
    if git::read_action(cwd, replies) is Done {
        if exists|k: int| 0 <= k < 5 && k < replies.len() && git::gives_up(replies, k) {
        } else {
            assert(!git::gives_up(replies, 0));
            assert(!git::gives_up(replies, 1));
            assert(!git::gives_up(replies, 2));
            assert(!git::gives_up(replies, 3));
            assert(!git::gives_up(replies, 4));
        }
    }
}

/// As long as every command succeeds, the questions follow each other: is this a work
/// tree, which branch, how many commits, how many merges, which changes.
pub proof fn questions_follow_each_other(cwd: Seq<char>, replies: Seq<Option<Seq<char>>>)
    requires
        forall|k: int| 0 <= k < replies.len() ==> #[trigger] replies[k] is Some,
        replies.len() > 0 ==> replies[0] == Some("true"@),
    ensures
        replies.len() == 0 ==> git::read_action(cwd, replies) == git::ReadAction::Run(
            seq!["-C"@, cwd, "rev-parse"@, "--is-inside-work-tree"@],
        ),
        replies.len() == 1 ==> git::read_action(cwd, replies) == git::ReadAction::Run(
            seq!["-C"@, cwd, "symbolic-ref"@, "--quiet"@, "HEAD"@],
        ),
        replies.len() == 2 ==> git::read_action(cwd, replies) == git::ReadAction::Run(
            seq!["-C"@, cwd, "rev-list"@, "--count"@, "HEAD"@],
        ),
        replies.len() == 3 ==> git::read_action(cwd, replies) == git::ReadAction::Run(
            seq!["-C"@, cwd, "rev-list"@, "--count"@, "--merges"@, "HEAD"@],
        ),
        replies.len() == 4 ==> git::read_action(cwd, replies) == git::ReadAction::Run(
            seq!["-C"@, cwd, "diff"@, "HEAD"@, "--numstat"@],
        ),
        replies.len() >= 5 ==> git::read_action(cwd, replies) is Done,
{
    assert forall|k: int| 0 <= k < 5 && k < replies.len() implies !git::gives_up(replies, k) by {
        assert(replies[k] is Some);
    }
    let n = replies.len() as int;
    if n == 0 {
        assert(git::command(cwd, 0) == seq![
            "-C"@,
            cwd,
            "rev-parse"@,
            "--is-inside-work-tree"@,
        ]);
    } else if n == 1 {
        assert(git::command(cwd, 1) == seq!["-C"@, cwd, "symbolic-ref"@, "--quiet"@, "HEAD"@]);
    } else if n == 2 {
        assert(git::command(cwd, 2) == seq!["-C"@, cwd, "rev-list"@, "--count"@, "HEAD"@]);
    } else if n == 3 {
        assert(git::command(cwd, 3) == seq![
            "-C"@,
            cwd,
            "rev-list"@,
            "--count"@,
            "--merges"@,
            "HEAD"@,
        ]);
    } else if n == 4 {
        assert(git::command(cwd, 4) == seq!["-C"@, cwd, "diff"@, "HEAD"@, "--numstat"@]);
    }
}

/// The commit count is the number in the third reply, the merge count the number in
/// the fourth, and churn and files are those of the numstat in the fifth. A reply that
/// is no count stands for zero.
pub proof fn counters_are_the_numbers_replied(cwd: Seq<char>, replies: Seq<Option<Seq<char>>>)
    requires
        replies.len() >= 5,
        replies[0] == Some("true"@),
        forall|k: int| 0 <= k < 5 ==> #[trigger] replies[k] is Some,
        git::numstat_churn(replies[4]->0) <= u64::MAX,
        git::numstat_files(replies[4]->0) <= u64::MAX,
    ensures
        git::read_action(cwd, replies) matches git::ReadAction::Done(raw) && {
            &&& raw.available
            &&& text::count(replies[2]->0) matches Some(n) ==> raw.commit_count == n
            &&& text::count(replies[2]->0) is None ==> raw.commit_count == 0
            &&& text::count(replies[3]->0) matches Some(n) ==> raw.merge_count == n
            &&& text::count(replies[3]->0) is None ==> raw.merge_count == 0
            &&& raw.churn == git::numstat_churn(replies[4]->0)
            &&& raw.files == git::numstat_files(replies[4]->0)
        },
{
    assert forall|k: int| 0 <= k < 5 && k < replies.len() implies !git::gives_up(replies, k) by {
        assert(replies[k] is Some);
    }
    assert(replies[2] is Some && replies[3] is Some);
    text_laws::count_fits(replies[2]->0);
    text_laws::count_fits(replies[3]->0);
}

/// On a branch with `commits` commits and `merges` merges, of which git prints the
/// decimal text, a reading gives back these numbers.
pub proof fn printed_numbers_are_read_back(
    cwd: Seq<char>,
    branch: Seq<char>,
    commits: u64,
    merges: u64,
    numstat: Seq<char>,
)
    requires
        git::numstat_churn(numstat) <= u64::MAX,
        git::numstat_files(numstat) <= u64::MAX,
    ensures
        git::read_action(
            cwd,
            seq![
                Some("true"@),
                Some(branch),
                Some(text::decimal(commits as nat)),
                Some(text::decimal(merges as nat)),
                Some(numstat),
            ],
        ) matches git::ReadAction::Done(raw) && {
            &&& raw.available
            &&& raw.commit_count == commits
            &&& raw.merge_count == merges
            &&& raw.churn == git::numstat_churn(numstat)
            &&& raw.files == git::numstat_files(numstat)
        },
{
    let replies = seq![
        Some("true"@),
        Some(branch),
        Some(text::decimal(commits as nat)),
        Some(text::decimal(merges as nat)),
        Some(numstat),
    ];
    text::count_reads_decimal(commits as nat);
    text::count_reads_decimal(merges as nat);
    counters_are_the_numbers_replied(cwd, replies);
}

/// A reading may go on whenever the churn that it comes to count fits in 64 bits, and
/// before there is any.
pub proof fn reading_needs_only_a_fitting_churn(replies: Seq<Option<Seq<char>>>)
    ensures
        replies.len() < 5 ==> git::churn_fits(replies),
        replies.len() >= 5 && replies[4] is None ==> git::churn_fits(replies),
        replies.len() >= 5 && replies[4] is Some && git::numstat_churn(replies[4]->0) <= u64::MAX
            ==> git::churn_fits(replies),
        replies.len() >= 5 && (replies[0] is None || replies[1] is None || replies[2] is None
            || replies[3] is None || replies[0] != Some("true"@)) ==> git::churn_fits(replies),
{
    if replies.len() >= 5 {
        assert(replies[0] is None ==> git::gives_up(replies, 0));
        assert(replies[0] != Some("true"@) ==> git::gives_up(replies, 0));
        assert(replies[1] is None ==> git::gives_up(replies, 1));
        assert(replies[2] is None ==> git::gives_up(replies, 2));
        assert(replies[3] is None ==> git::gives_up(replies, 3));
        assert(replies[4] is None ==> git::gives_up(replies, 4));
    }
}

/// No reply is lost or changed on its way into a reading, and no argument or counter
/// on its way out.
pub proof fn replies_and_steps_are_kept(replies: Seq<Option<String>>, step: git::ReadStep)
    ensures
        git::reply_texts(replies).len() == replies.len(),
        forall|i: int|
            0 <= i < replies.len() ==> {
                &&& (#[trigger] replies[i] is Some <==> git::reply_texts(replies)[i] is Some)
                &&& replies[i] is Some ==> git::reply_texts(replies)[i]->0 == replies[i]->0@
            },
        match step {
            git::ReadStep::Run(args) => step@ is Run && step@->Run_0.len() == args@.len() && (forall|
                i: int,
            |
                0 <= i < args@.len() ==> step@->Run_0[i] == (#[trigger] args@[i])@),
            git::ReadStep::Done(raw) => step@ is Done && step@->Done_0 == raw,
        },
{
}

/// A run that succeeds and prints a text replies that text without the white space
/// around it.
pub proof fn printed_text_is_replied_trimmed(
    output: git::GitOutput,
    before: Seq<char>,
    inner: Seq<char>,
    after: Seq<char>,
)
    requires
        output.success,
        output.stdout@ == vstd::utf8::encode_utf8(before + inner + after),
        forall|i: int| 0 <= i < before.len() ==> text::is_white_space(#[trigger] before[i]),
        forall|i: int| 0 <= i < after.len() ==> text::is_white_space(#[trigger] after[i]),
        inner.len() > 0,
        !text::is_white_space(inner[0]),
        !text::is_white_space(inner[inner.len() - 1]),
    ensures
        git::git_reply(Some(output)) == Some(inner),
{
    vstd::utf8::encode_utf8_valid_utf8(before + inner + after);
    vstd::utf8::encode_utf8_decode_utf8(before + inner + after);
    text_laws::trimming_gives_inner_text(before, inner, after);
}

/// A run that succeeds and prints white space alone replies the empty text.
pub proof fn printed_white_space_is_an_empty_reply(output: git::GitOutput, printed: Seq<char>)
    requires
        output.success,
        output.stdout@ == vstd::utf8::encode_utf8(printed),
        forall|i: int| 0 <= i < printed.len() ==> text::is_white_space(#[trigger] printed[i]),
    ensures
        git::git_reply(Some(output)) == Some(Seq::<char>::empty()),
{
    vstd::utf8::encode_utf8_valid_utf8(printed);
    vstd::utf8::encode_utf8_decode_utf8(printed);
    text_laws::trimming_empties_white_space_alone(printed);
    assert(text::trimmed(printed) == Seq::<char>::empty());
}

/// A run replies exactly where git could be started, succeeded and printed UTF-8.
pub proof fn reply_needs_success_and_utf8(output: Option<git::GitOutput>)
    ensures
        git::git_reply(output) is Some <==> {
            &&& output is Some
            &&& output->0.success
            &&& vstd::utf8::valid_utf8(output->0.stdout@)
        },
{
}

/// Every command looks at `cwd` alone, with one of four local subcommands.
pub proof fn commands_are_local(cwd: Seq<char>, replies: Seq<Option<Seq<char>>>)
    ensures
        git::read_action(cwd, replies) matches git::ReadAction::Run(args) ==> {
            &&& args.len() >= 3
            &&& args[0] == "-C"@
            &&& args[1] == cwd
            &&& args[2] == "rev-parse"@ || args[2] == "symbolic-ref"@ || args[2] == "rev-list"@
                || args[2] == "diff"@
        },
{
}

} // verus!
