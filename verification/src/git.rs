//! Local git signal collection for the `cship.impact` module.
//!
//! The repository is read with `git` commands that are local only: no network, no
//! authentication. This module says which command to run next and what the replies
//! amount to; running the commands is left to the caller. Any failure (not a
//! repository, git not installed, a detached HEAD, a repository without commits)
//! degrades to `available: false` with zeroed counters.

use vstd::prelude::*;
use vstd::slice::slice_subrange;

use crate::text;

verus! {

/// Raw git counters at a single point in time. The `impact` module subtracts a
/// stored session baseline from `commit_count` and `merge_count`; `churn` and
/// `files` describe the current working tree.
#[derive(Debug, Clone, Copy, PartialEq, Eq, Structural)]
pub struct GitRaw {
    /// Total commits reachable from HEAD (`git rev-list --count HEAD`).
    pub commit_count: u64,
    /// Total merge commits reachable from HEAD (`git rev-list --count --merges HEAD`).
    pub merge_count: u64,
    /// Uncommitted churn against HEAD: added and removed lines (`git diff HEAD --numstat`).
    pub churn: u64,
    /// Number of files with uncommitted changes against HEAD.
    pub files: u64,
    /// `false` when there is no branch with commits to read, or no git.
    pub available: bool,
}

impl GitRaw {
    /// Counters that are not available are zero.
    pub open spec fn well_formed(self) -> bool {
        !self.available ==> self == unavailable()
    }
}

/// The counters where git has nothing to say.
pub open spec fn unavailable() -> GitRaw {
    GitRaw { commit_count: 0, merge_count: 0, churn: 0, files: 0, available: false }
}

impl Default for GitRaw {
    fn default() -> (raw: Self)
        ensures
            raw == unavailable(),
    {
        GitRaw { commit_count: 0, merge_count: 0, churn: 0, files: 0, available: false }
    }
}

/// The number in column `k` of a line, or zero where that column is missing or
/// holds no count.
pub open spec fn column_count(line: Seq<char>, k: int) -> nat {
    if k < text::columns(line).len() {
        match text::count(text::columns(line)[k]) {
            Some(n) => n,
            None => 0,
        }
    } else {
        0
    }
}

/// The added and removed lines that one line of a numstat reports.
pub open spec fn line_churn(line: Seq<char>) -> nat {
    column_count(line, 0) + column_count(line, 1)
}

/// The churn over all lines that are not blank.
pub open spec fn total_churn(all: Seq<Seq<char>>) -> nat
    decreases all.len(),
{
    if all.len() == 0 {
        0
    } else {
        (if text::is_blank(all[0]) {
            0
        } else {
            line_churn(all[0])
        }) + total_churn(all.drop_first())
    }
}

/// The number of lines that are not blank.
pub open spec fn total_files(all: Seq<Seq<char>>) -> nat
    decreases all.len(),
{
    if all.len() == 0 {
        0
    } else {
        (if text::is_blank(all[0]) {
            0nat
        } else {
            1
        }) + total_files(all.drop_first())
    }
}

/// The churn that the output of `git diff --numstat` reports.
pub open spec fn numstat_churn(out: Seq<char>) -> nat {
    total_churn(text::lines(out))
}

/// The number of files that the output of `git diff --numstat` reports.
pub open spec fn numstat_files(out: Seq<char>) -> nat {
    total_files(text::lines(out))
}

/// Reads the first two columns of a line.
fn line_counts(line: &[char]) -> (counts: (u64, u64))
    ensures
        counts.0 == column_count(line@, 0),
        counts.1 == column_count(line@, 1),
{
    let len = line.len();
    let end = text::find(line, '\t');
    let first = slice_subrange(line, 0, end);
    let added: u64 = match text::parse_count(first) {
        Some(n) => n,
        None => 0,
    };
    if end == len {
        assert(first@ == line@);
        return (added, 0);
    }
    let rest = slice_subrange(line, end + 1, len);
    let next = text::find(rest, '\t');
    let second = slice_subrange(rest, 0, next);
    let removed: u64 = match text::parse_count(second) {
        Some(n) => n,
        None => 0,
    };
    proof {
        assert(first@ == line@.take(end as int));
        assert(rest@ == line@.skip(end + 1));
        assert(second@ == rest@.take(next as int));
        assert(text::columns(line@) == seq![first@] + text::columns(rest@));
        if next == rest@.len() {
            assert(second@ == rest@);
        }
        assert(text::columns(rest@)[0] == second@);
    }
    (added, removed)
}

/// The totals of a numstat, or `None` where the churn does not fit in 64 bits.
fn tally(out: &str) -> (counts: Option<(u64, u64)>)
    ensures
        counts is Some <==> numstat_churn(out@) <= u64::MAX,
        counts matches Some(c) ==> c.0 == numstat_churn(out@) && c.1 == numstat_files(out@),
{
    let chars = text::characters(out);
    let len = chars.len();
    let mut churn: u64 = 0;
    let mut files: u64 = 0;
    let mut at: usize = 0;
    assert(chars@.skip(0) == chars@);
    while at < len
        invariant
            at <= len == chars.len(),
            chars@ == out@,
            files <= at,
            numstat_churn(out@) == churn + total_churn(text::lines(chars@.skip(at as int))),
            numstat_files(out@) == files + total_files(text::lines(chars@.skip(at as int))),
        decreases len - at,
    {
        let rest = slice_subrange(chars.as_slice(), at, len);
        assert(rest@ == chars@.skip(at as int));
        let end = text::find(rest, '\n');
        let stop: usize = if end < rest.len() && end > 0 && rest[end - 1] == '\r' {
            end - 1
        } else {
            end
        };
        let line = slice_subrange(rest, 0, stop);
        let next: usize = if end < rest.len() {
            at + end + 1
        } else {
            len
        };
        proof {
            if end < rest@.len() {
                let whole = rest@.take(end as int);
                assert(line@ == text::without_return(whole));
                assert(rest@.skip(end + 1) == chars@.skip(next as int));
            } else {
                assert(line@ == rest@);
                assert(chars@.skip(next as int) == Seq::<char>::empty());
            }
            assert(text::lines(rest@) == seq![line@] + text::lines(chars@.skip(next as int)));
            assert(text::lines(rest@)[0] == line@);
            assert(text::lines(rest@).drop_first() == text::lines(chars@.skip(next as int)));
        }
        if !text::blank(line) {
            files = files + 1;
            let (added, removed) = line_counts(line);
            if added > u64::MAX - removed {
                return None;
            }
            let both = added + removed;
            if churn > u64::MAX - both {
                return None;
            }
            churn = churn + both;
        }
        at = next;
    }
    assert(chars@.skip(at as int) == Seq::<char>::empty());
    Some((churn, files))
}

/// Says whether the churn that a numstat reports fits in 64 bits.
pub fn numstat_fits(out: &str) -> (fits: bool)
    ensures
        fits == (numstat_churn(out@) <= u64::MAX),
{
    tally(out).is_some()
}

/// Reads the output of `git diff --numstat` into total churn and file count.
///
/// Each line is `<added>\t<removed>\t<path>`. Binary files report `-` for the
/// counts: they contribute to the file count but add no churn. Blank lines count
/// for nothing.
pub fn parse_numstat(out: &str) -> (counts: (u64, u64))
    requires
        numstat_churn(out@) <= u64::MAX,
    ensures
        counts.0 == numstat_churn(out@),
        counts.1 == numstat_files(out@),
{
    match tally(out) {
        Some(counts) => counts,
        None => (0, 0),
    }
}

/// What one run of `git` left behind.
pub struct GitOutput {
    /// Whether the exit status was zero.
    pub success: bool,
    /// The bytes written to standard output.
    pub stdout: Vec<u8>,
}

/// What a run of `git` replies: the trimmed text it printed, or nothing where it
/// could not be started, failed, or printed something other than UTF-8.
pub open spec fn git_reply(output: Option<GitOutput>) -> Option<Seq<char>> {
    match output {
        Some(o) => if o.success && vstd::utf8::valid_utf8(o.stdout@) {
            Some(text::trimmed(vstd::utf8::decode_utf8(o.stdout@)))
        } else {
            None
        },
        None => None,
    }
}

/// `std::str::from_utf8`: the bytes as text, if they are valid UTF-8, and nothing
/// otherwise.
#[verifier::external_body]
fn utf8_text(bytes: &[u8]) -> (decoded: Option<&str>)
    ensures
        decoded is Some <==> vstd::utf8::valid_utf8(bytes@),
        decoded matches Some(t) ==> t@ == vstd::utf8::decode_utf8(bytes@),
{
    std::str::from_utf8(bytes).ok()
}

/// The reply of a run of `git`, of which `output` is `None` when the program could
/// not be started. Any failure is `None`.
pub fn git(output: &Option<GitOutput>) -> (reply: Option<String>)
    ensures
        text::view_of(reply) == git_reply(*output),
{
    match output {
        Some(o) => {
            if !o.success {
                return None;
            }
            match utf8_text(o.stdout.as_slice()) {
                Some(printed) => Some(text::trim(printed)),
                None => None,
            }
        },
        None => None,
    }
}

/// What reading a repository needs next.
pub enum ReadStep {
    /// Run `git` with these arguments and add its reply to the replies.
    Run(Vec<String>),
    /// The counters are complete.
    Done(GitRaw),
}

/// A [`ReadStep`] with its arguments as sequences of characters.
pub enum ReadAction {
    Run(Seq<Seq<char>>),
    Done(GitRaw),
}

impl View for ReadStep {
    type V = ReadAction;

    open spec fn view(&self) -> ReadAction {
        match self {
            ReadStep::Run(args) => ReadAction::Run(args@.map_values(|a: String| a@)),
            ReadStep::Done(raw) => ReadAction::Done(*raw),
        }
    }
}

/// The five questions, in the order in which they are put.
pub open spec fn question(k: int) -> Seq<Seq<char>> {
    if k == 0 {
        seq!["rev-parse"@, "--is-inside-work-tree"@]
    } else if k == 1 {
        seq!["symbolic-ref"@, "--quiet"@, "HEAD"@]
    } else if k == 2 {
        seq!["rev-list"@, "--count"@, "HEAD"@]
    } else if k == 3 {
        seq!["rev-list"@, "--count"@, "--merges"@, "HEAD"@]
    } else {
        seq!["diff"@, "HEAD"@, "--numstat"@]
    }
}

/// The arguments that put question `k` to the repository at `cwd`.
pub open spec fn command(cwd: Seq<char>, k: int) -> Seq<Seq<char>> {
    seq!["-C"@, cwd] + question(k)
}

/// The number in a reply, or zero where it is no count.
pub open spec fn reply_count(reply: Option<Seq<char>>) -> nat {
    match reply {
        Some(t) => match text::count(t) {
            Some(n) => n,
            None => 0,
        },
        None => 0,
    }
}

/// The replies, as sequences of characters.
pub open spec fn reply_texts(replies: Seq<Option<String>>) -> Seq<Option<Seq<char>>> {
    replies.map_values(|r: Option<String>| text::view_of(r))
}

/// Reply `k` rules a branch with commits out: it is a failure, or it is not the
/// `true` that the first question asks for.
pub open spec fn gives_up(replies: Seq<Option<Seq<char>>>, k: int) -> bool {
    ||| replies[k] is None
    ||| k == 0 && replies[k] != Some("true"@)
}

/// The counters that five replies amount to.
pub open spec fn counters(replies: Seq<Option<Seq<char>>>) -> GitRaw {
    GitRaw {
        commit_count: reply_count(replies[2]) as u64,
        merge_count: reply_count(replies[3]) as u64,
        churn: numstat_churn(replies[4]->0) as u64,
        files: numstat_files(replies[4]->0) as u64,
        available: true,
    }
}

/// What comes after the given replies: the first one to give up ends the reading,
/// and until there are five the next question is put.
pub open spec fn read_action(cwd: Seq<char>, replies: Seq<Option<Seq<char>>>) -> ReadAction {
    if exists|k: int| 0 <= k < 5 && k < replies.len() && gives_up(replies, k) {
        ReadAction::Done(unavailable())
    } else if replies.len() < 5 {
        ReadAction::Run(command(cwd, replies.len() as int))
    } else {
        ReadAction::Done(counters(replies))
    }
}

/// The churn of the fifth reply fits in 64 bits, where it comes to be counted.
pub open spec fn churn_fits(replies: Seq<Option<Seq<char>>>) -> bool {
    replies.len() >= 5 && (forall|k: int| 0 <= k < 5 ==> !gives_up(replies, k)) ==> numstat_churn(
        replies[4]->0,
    ) <= u64::MAX
}

/// Owned copies of a list of arguments, behind `-C <cwd>`.
fn with_directory(cwd: &str, args: &[&str]) -> (all: Vec<String>)
    ensures
        all@.map_values(|a: String| a@) == seq!["-C"@, cwd@] + args@.map_values(|a: &str| a@),
{
    let mut all: Vec<String> = Vec::new();
    all.push("-C".to_owned());
    all.push(cwd.to_owned());
    let mut i: usize = 0;
    while i < args.len()
        invariant
            i <= args.len(),
            all.len() == i + 2,
            all@[0]@ == "-C"@,
            all@[1]@ == cwd@,
            forall|j: int| 0 <= j < i ==> #[trigger] all@[j + 2]@ == args@[j]@,
        decreases args.len() - i,
    {
        all.push(args[i].to_owned());
        i = i + 1;
    }
    proof {
        let texts = all@.map_values(|a: String| a@);
        let expected = seq!["-C"@, cwd@] + args@.map_values(|a: &str| a@);
        assert forall|j: int| 0 <= j < texts.len() implies texts[j] == expected[j] by {
            if j >= 2 {
                assert(all@[(j - 2) + 2]@ == args@[j - 2]@);
            }
        }
        assert(texts == expected);
    }
    all
}

/// The arguments that put question `k`.
fn command_args(cwd: &str, k: usize) -> (args: Vec<String>)
    requires
        k < 5,
    ensures
        args@.map_values(|a: String| a@) == command(cwd@, k as int),
{
    let args = if k == 0 {
        with_directory(cwd, &["rev-parse", "--is-inside-work-tree"])
    } else if k == 1 {
        with_directory(cwd, &["symbolic-ref", "--quiet", "HEAD"])
    } else if k == 2 {
        with_directory(cwd, &["rev-list", "--count", "HEAD"])
    } else if k == 3 {
        with_directory(cwd, &["rev-list", "--count", "--merges", "HEAD"])
    } else {
        with_directory(cwd, &["diff", "HEAD", "--numstat"])
    };
    assert(args@.map_values(|a: String| a@) == command(cwd@, k as int));
    args
}

/// The number in a reply, or zero where it is no count.
fn count_of(reply: &String) -> (n: u64)
    ensures
        n == reply_count(Some(reply@)),
{
    let chars = text::characters(reply.as_str());
    match text::parse_count(chars.as_slice()) {
        Some(n) => n,
        None => 0,
    }
}

/// Collects the raw git counters for `cwd`, step by step.
///
/// `replies` holds the replies of `git` so far, each as [`git`] gives it. The step
/// says which command to run next, or hands out the counters. They are unavailable,
/// and all zero, when `cwd` is not a git repository, when its HEAD is detached, when it
/// has no commits yet, and when git fails. The first question is a cheap probe: outside a repository no
/// other is put.
pub fn read_raw(cwd: &str, replies: &Vec<Option<String>>) -> (step: ReadStep)
    requires
        churn_fits(reply_texts(replies@)),
    ensures
        step@ == read_action(cwd@, reply_texts(replies@)),
{
    let ghost texts = reply_texts(replies@);
    let yes = "true".to_owned();
    let mut k: usize = 0;
    while k < 5 && k < replies.len()
        invariant
            k <= 5,
            k <= replies.len(),
            yes@ == "true"@,
            texts == reply_texts(replies@),
            forall|j: int| 0 <= j < k ==> !gives_up(texts, j),
        decreases 5 - k,
    {
        let ghost reply = replies@[k as int];
        assert(texts[k as int] == text::view_of(reply));
        let gone = match &replies[k] {
            Some(t) => k == 0 && *t != yes,
            None => true,
        };
        assert(gone == gives_up(texts, k as int));
        if gone {
            return ReadStep::Done(GitRaw::default());
        }
        k = k + 1;
    }
    if k < 5 {
        return ReadStep::Run(command_args(cwd, k));
    }
    proof {
        assert(!gives_up(texts, 2));
        assert(!gives_up(texts, 3));
        assert(!gives_up(texts, 4));
    }
    match (&replies[2], &replies[3], &replies[4]) {
        (Some(commits), Some(merges), Some(out)) => {
            let (churn, files) = parse_numstat(out.as_str());
            ReadStep::Done(
                GitRaw {
                    commit_count: count_of(commits),
                    merge_count: count_of(merges),
                    churn,
                    files,
                    available: true,
                },
            )
        },
        _ => ReadStep::Done(GitRaw::default()),
    }
}

} // verus!
