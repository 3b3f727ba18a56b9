//! What holds of every score, of every session and of every render.

use vstd::prelude::*;

use crate::cache::{CachedImpact, EntryView, ImpactEntry};
use crate::config;
use crate::config::{CshipConfig, ImpactConfig};
use crate::context::Context;
use crate::git::GitRaw;
use crate::modules::impact;
use crate::modules::impact::{RenderStep, Replies, Session, Spending, StepView, Work};
use crate::text;
use crate::text_laws;

verus! {

/// A score lies within 0 and 100, and is the rounded number wherever that does.
pub proof fn score_is_bounded(rounded: i64)
    ensures
        impact::clamped(rounded) <= 100,
        0 <= rounded <= 100 ==> impact::clamped(rounded) == rounded,
{
}

/// Keeping scores within their bounds keeps their order.
pub proof fn bounds_keep_order(lower: i64, higher: i64)
    requires
        lower <= higher,
    ensures
        impact::clamped(lower) <= impact::clamped(higher),
{
}

/// Whatever the weighing gives, the score that is kept lies within 0 and 100.
pub proof fn kept_score_is_bounded(ctx: Context, cfg: CshipConfig, replies: Replies)
    ensures
        impact::next_step(ctx, cfg, replies) matches StepView::WriteCache { entry, .. } ==>
            entry.score <= 100,
{
}

/// The penalty is due exactly where more than the limit was spent and nothing was
/// shipped or edited.
pub proof fn thrash_needs_cost_and_no_output(work: Work, spending: Spending)
    ensures
        impact::terms_of(work, spending).thrash <==> {
            &&& spending.over_thrash_limit
            &&& work.commits == 0
            &&& work.merges == 0
            &&& work.code_lines == 0
        },
{
}

/// More work never weighs less: no term shrinks, and no penalty appears.
pub proof fn more_work_never_weighs_less(less: Work, more: Work, spending: Spending)
    requires
        less.commits <= more.commits,
        less.merges <= more.merges,
        less.code_lines <= more.code_lines,
        less.files <= more.files,
    ensures
        ({
            let a = impact::terms_of(less, spending);
            let b = impact::terms_of(more, spending);
            &&& a.commits <= b.commits
            &&& a.merges <= b.merges
            &&& a.files <= b.files
            &&& a.lines_per_cost is Some <==> b.lines_per_cost is Some
            &&& a.lines_per_cost is Some ==> a.lines_per_cost->0 <= b.lines_per_cost->0
            &&& b.thrash ==> a.thrash
        }),
{
}

/// A marker is empty exactly where the score is unchanged.
pub proof fn marker_is_empty_when_unchanged(score: nat, prev: nat)
    ensures
        impact::marker(score, prev).len() == 0 <==> score == prev,
{
    reveal_strlit(" ▲+");
    reveal_strlit(" ▼-");
}

/// The second character of a marker tells the direction.
pub proof fn marker_tells_direction(score: nat, prev: nat)
    ensures
        score > prev ==> impact::marker(score, prev)[1] == '▲',
        score < prev ==> impact::marker(score, prev)[1] == '▼',
{
    reveal_strlit(" ▲+");
    reveal_strlit(" ▼-");
}

/// A score and its marker determine the score before.
pub proof fn marker_determines_previous_score(score: nat, prev: nat, other: nat)
    requires
        impact::marker(score, prev) == impact::marker(score, other),
    ensures
        prev == other,
{
    marker_is_empty_when_unchanged(score, prev);
    marker_is_empty_when_unchanged(score, other);
    marker_tells_direction(score, prev);
    marker_tells_direction(score, other);
    reveal_strlit(" ▲+");
    reveal_strlit(" ▼-");
    if score > prev && score > other {
        lemma_same_tail(
            " ▲+"@,
            text::decimal((score - prev) as nat),
            text::decimal((score - other) as nat),
        );
        text::decimal_is_injective((score - prev) as nat, (score - other) as nat);
    } else if score < prev && score < other {
        lemma_same_tail(
            " ▼-"@,
            text::decimal((prev - score) as nat),
            text::decimal((other - score) as nat),
        );
        text::decimal_is_injective((prev - score) as nat, (other - score) as nat);
    }
}

proof fn lemma_same_tail(head: Seq<char>, a: Seq<char>, b: Seq<char>)
    requires
        head + a == head + b,
    ensures
        a == b,
{
    assert((head + a).skip(head.len() as int) == a);
    assert((head + b).skip(head.len() as int) == b);
}

/// How severe a score is: 2 in a critical band with a style, 1 in a warning band with
/// a style, 0 elsewhere.
pub open spec fn severity(
    score: int,
    warn_t: int,
    warn_s: Option<Seq<char>>,
    crit_t: int,
    crit_s: Option<Seq<char>>,
) -> int {
    if crit_s is Some && score <= crit_t {
        2
    } else if warn_s is Some && score <= warn_t {
        1
    } else {
        0
    }
}

/// The style escalates as the score drops: each score has the style of its severity,
/// and a lower score is never less severe.
pub proof fn style_escalates_as_score_drops(
    lower: int,
    higher: int,
    style: Option<Seq<char>>,
    warn_t: int,
    warn_s: Option<Seq<char>>,
    crit_t: int,
    crit_s: Option<Seq<char>>,
)
    requires
        lower <= higher,
    ensures
        severity(lower, warn_t, warn_s, crit_t, crit_s) >= severity(
            higher,
            warn_t,
            warn_s,
            crit_t,
            crit_s,
        ),
        impact::band(lower, style, warn_t, warn_s, crit_t, crit_s) == {
            let rank = severity(lower, warn_t, warn_s, crit_t, crit_s);
            seq![style, warn_s, crit_s][rank]
        },
{
}

/// A new session has shipped nothing yet: its baseline is now, and it has no score
/// to be compared with.
pub proof fn new_session_has_shipped_nothing(
    cached: Option<CachedImpact>,
    session: Seq<char>,
    raw: GitRaw,
    code_lines: u64,
)
    requires
        cached matches Some(c) ==> c.session_id@ != session,
    ensures
        impact::resumed(cached, session, Some(raw)) matches Some(state) && {
            &&& state.work_done(code_lines).commits == 0
            &&& state.work_done(code_lines).merges == 0
            &&& state.base_commits == raw.commit_count
            &&& state.base_merges == raw.merge_count
            &&& state.prev_score == 0
        },
{
}

/// Reading git again keeps the baseline of the session.
pub proof fn baseline_outlives_snapshot(
    cached: CachedImpact,
    session: Seq<char>,
    raw: Option<GitRaw>,
)
    requires
        cached.session_id@ == session,
    ensures
        impact::resumed(Some(cached), session, raw) matches Some(state) ==> {
            &&& state.base_commits == cached.baseline_commit_count
            &&& state.base_merges == cached.baseline_merge_count
            &&& state.prev_score == cached.last_score
        },
{
}

/// Where git is unavailable, the score ignores the git terms.
pub proof fn unavailable_git_weighs_nothing(state: Session, code_lines: u64)
    requires
        state.raw.well_formed(),
        !state.raw.available,
    ensures
        state.work_done(code_lines).commits == 0,
        state.work_done(code_lines).merges == 0,
        state.work_done(code_lines).files == 0,
        state.work_done(code_lines).code_lines == code_lines,
{
}

/// A disabled module asks for nothing and shows nothing.
pub proof fn disabled_is_silent(ctx: Context, cfg: CshipConfig, replies: Replies)
    requires
        cfg.settings().disabled == Some(true),
    ensures
        impact::next_step(ctx, cfg, replies) == StepView::Disabled,
{
}

/// While a snapshot of this session is fresh, git is not read, and writing the entry
/// does not put its expiry off.
pub proof fn fresh_snapshot_spares_git(
    ctx: Context,
    cfg: CshipConfig,
    replies: Replies,
    cached: CachedImpact,
)
    requires
        ctx.transcript_path is Some,
        replies.cached == Some(Some(cached)),
        cached.session_id@ == ctx.session(),
        cached.fresh,
    ensures
        !(impact::next_step(ctx, cfg, replies) is ReadGit),
        impact::next_step(ctx, cfg, replies) matches StepView::WriteCache { entry, .. } ==> {
            &&& entry.raw == cached.raw
            &&& entry.keep_expires_at == Some(cached.expires_at)
        },
{
}

/// Only a snapshot just taken starts a new lifetime.
pub proof fn lifetime_starts_with_snapshot(ctx: Context, cfg: CshipConfig, replies: Replies)
    ensures
        impact::next_step(ctx, cfg, replies) matches StepView::WriteCache { entry, .. } ==> (
        entry.keep_expires_at is None ==> replies.raw == Some(entry.raw)),
{
}

/// The edited lines are taken from the context in every render, whatever is cached.
pub proof fn edited_lines_are_live(ctx: Context, cfg: CshipConfig, replies: Replies)
    ensures
        impact::next_step(ctx, cfg, replies) matches StepView::Score { work } ==> work.code_lines
            == ctx.code_lines(),
{
}

/// The number of things that have not been done yet, of the six that a render may
/// ask for.
pub open spec fn open_requests(replies: Replies) -> nat {
    (if replies.cached is None {
        1nat
    } else {
        0
    }) + (if replies.raw is None {
        1nat
    } else {
        0
    }) + (if replies.rounded is None {
        1nat
    } else {
        0
    }) + (if replies.saved {
        0nat
    } else {
        1
    }) + (if replies.formatted is None {
        1nat
    } else {
        0
    }) + (if replies.painted is None {
        1nat
    } else {
        0
    })
}

/// A render ends: carrying out what it asks for, whatever comes of it, leaves fewer
/// things to be asked for.
pub proof fn requests_run_out(ctx: Context, cfg: CshipConfig, replies: Replies)
    ensures
        open_requests(replies) <= 6,
        match impact::next_step(ctx, cfg, replies) {
            StepView::ReadCache { .. } => forall|c: Option<CachedImpact>| #[trigger]
                open_requests(Replies { cached: Some(c), ..replies }) < open_requests(replies),
            StepView::ReadGit { .. } => forall|r: GitRaw| #[trigger]
                open_requests(Replies { raw: Some(r), ..replies }) < open_requests(replies),
            StepView::Score { .. } => forall|n: i64| #[trigger]
                open_requests(Replies { rounded: Some(n), ..replies }) < open_requests(replies),
            StepView::WriteCache { .. } => open_requests(Replies { saved: true, ..replies })
                < open_requests(replies),
            StepView::ApplyFormat { .. } => forall|t: Option<String>| #[trigger]
                open_requests(Replies { formatted: Some(t), ..replies }) < open_requests(replies),
            StepView::ApplyStyle { .. } => forall|t: String| #[trigger]
                open_requests(Replies { painted: Some(t), ..replies }) < open_requests(replies),
            _ => true,
        },
{
}

/// Every render with a transcript is kept before anything of it is shown.
pub proof fn render_is_kept_before_shown(ctx: Context, cfg: CshipConfig, replies: Replies)
    requires
        ctx.transcript_path is Some,
    ensures
        match impact::next_step(ctx, cfg, replies) {
            StepView::ApplyFormat { .. } => replies.saved,
            StepView::ApplyStyle { .. } => replies.saved,
            StepView::Show { .. } => replies.saved,
            _ => true,
        },
{
}

/// A cached entry holds what was written.
pub open spec fn read_back(entry: EntryView, cached: CachedImpact) -> bool {
    &&& cached.session_id@ == entry.session
    &&& cached.baseline_commit_count == entry.baseline_commit_count
    &&& cached.baseline_merge_count == entry.baseline_merge_count
    &&& cached.raw == entry.raw
    &&& cached.last_score == entry.score
}

/// The next render of a session compares its score with the one of this render, and
/// counts from the same baseline.
pub proof fn next_render_compares_with_this_one(
    ctx: Context,
    cfg: CshipConfig,
    replies: Replies,
    next_ctx: Context,
    next_replies: Replies,
    cached: CachedImpact,
)
    requires
        impact::next_step(ctx, cfg, replies) is WriteCache,
        read_back(impact::next_step(ctx, cfg, replies)->entry, cached),
        next_ctx.session() == ctx.session(),
        next_ctx.transcript_path is Some,
        next_replies.cached == Some(Some(cached)),
    ensures
        impact::session_state(next_ctx, next_replies) matches Some(next) ==> {
            let state = impact::session_state(ctx, replies)->0;
            &&& next.prev_score == impact::clamped(replies.rounded->0)
            &&& next.base_commits == state.base_commits
            &&& next.base_merges == state.base_merges
            &&& cached.fresh ==> next.raw == state.raw
        },
{
}

/// All work is weighed in full: every commit, merge and file, and every edited line
/// wherever the amount spent is measurable.
pub proof fn all_work_is_weighed(work: Work, spending: Spending)
    ensures
        impact::terms_of(work, spending).commits == work.commits,
        impact::terms_of(work, spending).merges == work.merges,
        impact::terms_of(work, spending).files == work.files,
        spending.measurable ==> impact::terms_of(work, spending).lines_per_cost == Some(
            work.code_lines,
        ),
        !spending.measurable ==> impact::terms_of(work, spending).lines_per_cost is None,
{
}

/// One more commit, merge, file or line is one more to weigh, however many there are.
pub proof fn each_piece_of_work_is_weighed(less: Work, more: Work, spending: Spending)
    ensures
        ({
            let a = impact::terms_of(less, spending);
            let b = impact::terms_of(more, spending);
            &&& b.commits - a.commits == more.commits - less.commits
            &&& b.merges - a.merges == more.merges - less.merges
            &&& b.files - a.files == more.files - less.files
            &&& spending.measurable ==> b.lines_per_cost->0 - a.lines_per_cost->0
                == more.code_lines - less.code_lines
        }),
{
}

/// The commits and merges of a session are what the snapshot has more than the
/// baseline, and none where it has less. Files are those of the snapshot, and lines
/// those that were edited.
pub proof fn work_is_counted_from_baseline(state: Session, code_lines: u64)
    ensures
        state.raw.commit_count >= state.base_commits ==> state.base_commits + state.work_done(
            code_lines,
        ).commits == state.raw.commit_count,
        state.raw.commit_count < state.base_commits ==> state.work_done(code_lines).commits == 0,
        state.raw.merge_count >= state.base_merges ==> state.base_merges + state.work_done(
            code_lines,
        ).merges == state.raw.merge_count,
        state.raw.merge_count < state.base_merges ==> state.work_done(code_lines).merges == 0,
        state.work_done(code_lines).files == state.raw.files,
        state.work_done(code_lines).code_lines == code_lines,
{
}

/// The churn of the working tree, the score before and the expiry of the snapshot have
/// no part in the work.
pub proof fn churn_is_not_work(
    state: Session,
    churn: u64,
    prev_score: u32,
    keep_expires_at: Option<u64>,
    code_lines: u64,
)
    ensures
        (Session {
            raw: GitRaw { churn, ..state.raw },
            prev_score,
            keep_expires_at,
            ..state
        }).work_done(code_lines) == state.work_done(code_lines),
{
}

/// A fresh entry of this session is taken up as it was left, whatever git would say.
pub proof fn fresh_entry_is_taken_up(cached: CachedImpact, raw: Option<GitRaw>)
    requires
        cached.fresh,
    ensures
        impact::resumed(Some(cached), cached.session_id@, raw) matches Some(state) && {
            &&& state.base_commits == cached.baseline_commit_count
            &&& state.base_merges == cached.baseline_merge_count
            &&& state.raw == cached.raw
            &&& state.prev_score == cached.last_score
            &&& state.keep_expires_at == Some(cached.expires_at)
        },
{
}

/// A stale entry of this session waits for a new snapshot, and then keeps everything
/// but the snapshot and its expiry.
pub proof fn stale_entry_takes_new_snapshot(cached: CachedImpact, raw: GitRaw)
    requires
        !cached.fresh,
    ensures
        impact::resumed(Some(cached), cached.session_id@, None) is None,
        impact::resumed(Some(cached), cached.session_id@, Some(raw)) matches Some(state) && {
            &&& state.base_commits == cached.baseline_commit_count
            &&& state.base_merges == cached.baseline_merge_count
            &&& state.raw == raw
            &&& state.prev_score == cached.last_score
            &&& state.keep_expires_at is None
        },
{
}

/// Without an entry of this session there is nothing to take up: the session waits
/// for a snapshot, and starts from it.
pub proof fn new_session_starts_from_snapshot(
    cached: Option<CachedImpact>,
    session: Seq<char>,
    raw: GitRaw,
)
    requires
        cached matches Some(c) ==> c.session_id@ != session,
    ensures
        impact::resumed(cached, session, None) is None,
        impact::resumed(cached, session, Some(raw)) matches Some(state) && {
            &&& state.base_commits == raw.commit_count
            &&& state.base_merges == raw.merge_count
            &&& state.raw == raw
            &&& state.prev_score == 0
            &&& state.keep_expires_at is None
        },
{
}

/// A render takes up the cached entry where there is a transcript to look it up by,
/// and no entry otherwise.
pub proof fn render_takes_up_the_cached_entry(
    ctx: Context,
    replies: Replies,
    entry: Option<CachedImpact>,
)
    ensures
        ctx.transcript_path is Some && replies.cached == Some(entry) ==> impact::session_state(
            ctx,
            replies,
        ) == impact::resumed(entry, ctx.session(), replies.raw),
        ctx.transcript_path is None ==> impact::session_state(ctx, replies) == impact::resumed(
            None,
            ctx.session(),
            replies.raw,
        ),
{
}

/// The module is silent exactly where it is switched off in so many words.
pub proof fn only_disabled_is_silent(ctx: Context, cfg: CshipConfig, replies: Replies)
    ensures
        impact::next_step(ctx, cfg, replies) is Disabled <==> cfg.impact is Some
            && cfg.impact->0.disabled == Some(true),
{
}

/// A directory is missed exactly where the module is not switched off and neither the
/// workspace nor the context has one.
pub proof fn only_a_missing_directory_is_missed(ctx: Context, cfg: CshipConfig, replies: Replies)
    ensures
        impact::next_step(ctx, cfg, replies) is NoWorkingDir <==> {
            &&& cfg.impact is None || cfg.impact->0.disabled != Some(true)
            &&& ctx.workspace is None || ctx.workspace->0.current_dir is None
            &&& ctx.cwd is None
        },
{
}

/// A render that is neither switched off nor without a directory, and whose requests
/// have all been carried out, shows the score: as the custom format gave it where
/// there is one that applies, as it was painted otherwise.
pub proof fn answered_render_shows_the_score(
    ctx: Context,
    cfg: CshipConfig,
    replies: Replies,
    formatted: Option<String>,
    painted: String,
)
    requires
        cfg.impact is None || cfg.impact->0.disabled != Some(true),
        ctx.cwd is Some || (ctx.workspace is Some && ctx.workspace->0.current_dir is Some),
        replies.cached is Some,
        replies.raw is Some,
        replies.rounded is Some,
        replies.saved,
        replies.formatted == Some(formatted),
        replies.painted == Some(painted),
    ensures
        impact::next_step(ctx, cfg, replies) matches StepView::Show { shown } && {
            &&& cfg.impact is Some && cfg.impact->0.format is Some && formatted is Some ==> shown
                == formatted->0@
            &&& cfg.impact is None || cfg.impact->0.format is None || formatted is None ==> shown
                == painted@
        },
{
}

/// The cache is read first, once, and wherever there is a transcript.
pub proof fn cache_is_read_first(ctx: Context, cfg: CshipConfig, replies: Replies)
    requires
        cfg.impact is None || cfg.impact->0.disabled != Some(true),
        ctx.cwd is Some || (ctx.workspace is Some && ctx.workspace->0.current_dir is Some),
    ensures
        impact::next_step(ctx, cfg, replies) is ReadCache <==> ctx.transcript_path is Some
            && replies.cached is None,
        impact::next_step(ctx, cfg, replies) matches StepView::ReadCache { transcript_path }
            ==> transcript_path == ctx.transcript_path->0@,
{
}

/// Git is read, in the directory of the context, exactly where no fresh snapshot of
/// this session is cached and none has been taken.
pub proof fn git_is_read_without_fresh_snapshot(ctx: Context, cfg: CshipConfig, replies: Replies)
    requires
        cfg.impact is None || cfg.impact->0.disabled != Some(true),
        ctx.cwd is Some || (ctx.workspace is Some && ctx.workspace->0.current_dir is Some),
        ctx.transcript_path is None || replies.cached is Some,
    ensures
        impact::next_step(ctx, cfg, replies) is ReadGit <==> {
            &&& replies.raw is None
            &&& !({
                &&& ctx.transcript_path is Some
                &&& replies.cached->0 is Some
                &&& replies.cached->0->0.session_id@ == ctx.session()
                &&& replies.cached->0->0.fresh
            })
        },
        impact::next_step(ctx, cfg, replies) matches StepView::ReadGit { cwd } ==> Some(cwd)
            == ctx.directory(),
{
}

/// With the session known, the next request is to weigh its work: the edited lines of
/// the context and what the snapshot in use has more than the baseline.
pub proof fn work_of_the_session_is_scored(
    ctx: Context,
    cfg: CshipConfig,
    replies: Replies,
    state: Session,
)
    requires
        cfg.impact is None || cfg.impact->0.disabled != Some(true),
        ctx.cwd is Some || (ctx.workspace is Some && ctx.workspace->0.current_dir is Some),
        ctx.transcript_path is None || replies.cached is Some,
        impact::session_state(ctx, replies) == Some(state),
    ensures
        impact::next_step(ctx, cfg, replies) is Score <==> replies.rounded is None,
        impact::next_step(ctx, cfg, replies) matches StepView::Score { work } ==> {
            &&& work.files == state.raw.files
            &&& work.code_lines == ctx.code_lines()
            &&& state.raw.commit_count >= state.base_commits ==> work.commits
                == state.raw.commit_count - state.base_commits
            &&& state.raw.commit_count < state.base_commits ==> work.commits == 0
            &&& state.raw.merge_count >= state.base_merges ==> work.merges == state.raw.merge_count
                - state.base_merges
            &&& state.raw.merge_count < state.base_merges ==> work.merges == 0
        },
{
}

/// The files that are scored are those of the snapshot: of the cached one while it is
/// fresh, of the one just taken otherwise.
pub proof fn files_of_the_snapshot_are_scored(
    ctx: Context,
    cfg: CshipConfig,
    replies: Replies,
    cached: CachedImpact,
)
    requires
        ctx.transcript_path is Some,
        replies.cached == Some(Some(cached)),
        cached.session_id@ == ctx.session(),
    ensures
        impact::next_step(ctx, cfg, replies) matches StepView::Score { work } ==> {
            &&& cached.fresh ==> work.files == cached.raw.files
            &&& !cached.fresh ==> replies.raw is Some && work.files == replies.raw->0.files
        },
{
}

/// With the score weighed, an entry is written wherever there is a transcript. It
/// holds the session, its baseline, the snapshot in use with its expiry, and the score.
pub proof fn scored_render_is_kept(
    ctx: Context,
    cfg: CshipConfig,
    replies: Replies,
    state: Session,
    rounded: i64,
)
    requires
        cfg.impact is None || cfg.impact->0.disabled != Some(true),
        ctx.cwd is Some || (ctx.workspace is Some && ctx.workspace->0.current_dir is Some),
        ctx.transcript_path is None || replies.cached is Some,
        impact::session_state(ctx, replies) == Some(state),
        replies.rounded == Some(rounded),
    ensures
        impact::next_step(ctx, cfg, replies) is WriteCache <==> ctx.transcript_path is Some
            && !replies.saved,
        impact::next_step(ctx, cfg, replies) matches StepView::WriteCache { transcript_path, entry }
            ==> {
            &&& transcript_path == ctx.transcript_path->0@
            &&& entry.session == ctx.session()
            &&& entry.baseline_commit_count == state.base_commits
            &&& entry.baseline_merge_count == state.base_merges
            &&& entry.raw == state.raw
            &&& entry.keep_expires_at == state.keep_expires_at
            &&& 0 <= rounded <= 100 ==> entry.score == rounded
            &&& rounded < 0 ==> entry.score == 0
            &&& rounded > 100 ==> entry.score == 100
        },
{
}

/// A snapshot lives as long as the settings say, and five seconds where they do not.
pub proof fn lifetime_is_as_configured(ctx: Context, cfg: CshipConfig, replies: Replies)
    ensures
        impact::next_step(ctx, cfg, replies) matches StepView::WriteCache { entry, .. } ==> {
            &&& cfg.impact is Some && cfg.impact->0.cache_ttl_secs is Some ==> entry.ttl_secs
                == cfg.impact->0.cache_ttl_secs->0
            &&& cfg.impact is None || cfg.impact->0.cache_ttl_secs is None ==> entry.ttl_secs == 5
        },
{
}

/// A render that has been kept, or that cannot be, comes to what is shown of its score,
/// kept within 0 and 100, against the one before.
pub proof fn kept_render_is_shown(
    ctx: Context,
    cfg: CshipConfig,
    replies: Replies,
    state: Session,
    rounded: i64,
    score: u32,
)
    requires
        cfg.impact is None || cfg.impact->0.disabled != Some(true),
        ctx.cwd is Some || (ctx.workspace is Some && ctx.workspace->0.current_dir is Some),
        ctx.transcript_path is None || replies.cached is Some,
        impact::session_state(ctx, replies) == Some(state),
        replies.rounded == Some(rounded),
        0 <= rounded <= 100 ==> score == rounded,
        rounded < 0 ==> score == 0,
        rounded > 100 ==> score == 100,
        ctx.transcript_path is None || replies.saved,
    ensures
        impact::next_step(ctx, cfg, replies) == impact::output_step(
            cfg.settings(),
            score,
            state.prev_score,
            replies.formatted,
            replies.painted,
        ),
{
}

/// A custom format is applied first. Where there is none, or it does not apply, the
/// content is painted. What either gave is shown.
pub proof fn custom_format_goes_first(
    icfg: ImpactConfig,
    score: u32,
    prev_score: u32,
    formatted: Option<Option<String>>,
    painted: Option<String>,
)
    ensures
        ({
            let step = impact::output_step(icfg, score, prev_score, formatted, painted);
            let plain = icfg.format is None || formatted == Some(None::<String>);
            &&& step is ApplyFormat <==> icfg.format is Some && formatted is None
            &&& step is ApplyStyle <==> plain && painted is None
            &&& plain && painted is Some ==> step == (StepView::Show { shown: painted->0@ })
            &&& icfg.format is Some && formatted is Some && formatted->0 is Some ==> step == (
            StepView::Show { shown: formatted->0->0@ })
        }),
{
}

/// The custom format gets the score in digits, its marker unless that is switched off,
/// and the symbol.
pub proof fn custom_format_gets_value_and_symbol(
    icfg: ImpactConfig,
    score: u32,
    prev_score: u32,
    formatted: Option<Option<String>>,
    painted: Option<String>,
)
    ensures
        impact::output_step(icfg, score, prev_score, formatted, painted) matches StepView::ApplyFormat {
            format,
            value,
            symbol,
            ..
        } ==> {
            &&& format == icfg.format->0@
            &&& symbol is Some <==> icfg.symbol is Some
            &&& symbol is Some ==> symbol->0 == icfg.symbol->0@
            &&& icfg.show_delta != Some(false) ==> value == text::decimal(score as nat)
                + impact::marker(score as nat, prev_score as nat)
            &&& icfg.show_delta == Some(false) ==> value == text::decimal(score as nat)
        },
{
    assert(text::decimal(score as nat) + Seq::<char>::empty() == text::decimal(score as nat));
}

/// What is painted is the symbol if there is one, the word `impact` if it is asked for,
/// the score in digits, and its marker unless that is switched off.
pub proof fn content_is_symbol_label_and_value(
    icfg: ImpactConfig,
    score: u32,
    prev_score: u32,
    formatted: Option<Option<String>>,
    painted: Option<String>,
    symbol: Seq<char>,
    label: Seq<char>,
    delta: Seq<char>,
)
    requires
        icfg.symbol is Some ==> symbol == icfg.symbol->0@,
        icfg.symbol is None ==> symbol == Seq::<char>::empty(),
        icfg.label == Some(true) ==> label == seq!['i', 'm', 'p', 'a', 'c', 't', ' '],
        icfg.label != Some(true) ==> label == Seq::<char>::empty(),
        icfg.show_delta != Some(false) ==> delta == impact::marker(
            score as nat,
            prev_score as nat,
        ),
        icfg.show_delta == Some(false) ==> delta == Seq::<char>::empty(),
    ensures
        impact::output_step(icfg, score, prev_score, formatted, painted) matches StepView::ApplyStyle {
            content,
            ..
        } ==> content == symbol + label + text::decimal(score as nat) + delta,
{
    reveal_strlit("impact ");
    assert("impact "@ == seq!['i', 'm', 'p', 'a', 'c', 't', ' ']);
    assert(symbol + label + text::decimal(score as nat) + delta == symbol + label + (text::decimal(
        score as nat,
    ) + delta));
}

/// The style is the one that the settings give for the score: the critical one up to
/// the critical threshold, the warning one up to the warning threshold, each only
/// where it is set, and the plain one otherwise. A threshold that is not set is 50 for
/// the warning and 20 for the critical band.
pub proof fn style_follows_the_settings(
    icfg: ImpactConfig,
    score: u32,
    prev_score: u32,
    formatted: Option<Option<String>>,
    painted: Option<String>,
    warn_t: i64,
    crit_t: i64,
    used: Option<Seq<char>>,
)
    requires
        icfg.warn_threshold is Some ==> warn_t == icfg.warn_threshold->0,
        icfg.warn_threshold is None ==> warn_t == 50,
        icfg.critical_threshold is Some ==> crit_t == icfg.critical_threshold->0,
        icfg.critical_threshold is None ==> crit_t == 20,
        match impact::output_step(icfg, score, prev_score, formatted, painted) {
            StepView::ApplyFormat { style, .. } => style == used,
            StepView::ApplyStyle { style, .. } => style == used,
            _ => false,
        },
    ensures
        icfg.critical_style is Some && score <= crit_t ==> used == Some(icfg.critical_style->0@),
        icfg.critical_style is None || score > crit_t ==> {
            &&& icfg.warn_style is Some && score <= warn_t ==> used == Some(icfg.warn_style->0@)
            &&& icfg.warn_style is None || score > warn_t ==> {
                &&& used is Some <==> icfg.style is Some
                &&& used is Some ==> used->0 == icfg.style->0@
            }
        },
{
}

/// A section that may be missing stands for its settings, or for none.
pub proof fn missing_section_sets_nothing(section: ImpactConfig)
    ensures
        impact::settings_of(Some(&section)) == section,
        impact::settings_of(None) == config::unset(),
{
}

/// The critical style belongs to the scores up to the critical threshold, the warning
/// style to the others up to the warning threshold, and the plain style to the rest.
pub proof fn band_by_thresholds(
    score: int,
    style: Option<Seq<char>>,
    warn_t: int,
    warn: Seq<char>,
    crit_t: int,
    crit: Seq<char>,
)
    ensures
        score <= crit_t ==> impact::band(score, style, warn_t, Some(warn), crit_t, Some(crit))
            == Some(crit),
        crit_t < score <= warn_t ==> impact::band(
            score,
            style,
            warn_t,
            Some(warn),
            crit_t,
            Some(crit),
        ) == Some(warn),
        score > crit_t && score > warn_t ==> impact::band(
            score,
            style,
            warn_t,
            Some(warn),
            crit_t,
            Some(crit),
        ) == style,
        score <= warn_t ==> impact::band(score, style, warn_t, Some(warn), crit_t, None) == Some(
            warn,
        ),
        score > warn_t ==> impact::band(score, style, warn_t, Some(warn), crit_t, None) == style,
        score <= crit_t ==> impact::band(score, style, warn_t, None, crit_t, Some(crit)) == Some(
            crit,
        ),
        score > crit_t ==> impact::band(score, style, warn_t, None, crit_t, Some(crit)) == style,
        impact::band(score, style, warn_t, None, crit_t, None) == style,
{
}

/// A marker is a space, an arrow and a sign, with the digits of the difference behind
/// them: read back, it leads from one score to the other.
pub proof fn marker_holds_the_difference(score: u32, prev: u32)
    ensures
        score > prev ==> {
            let mark = impact::marker(score as nat, prev as nat);
            &&& mark.len() > 3
            &&& mark.take(3) == seq![' ', '▲', '+']
            &&& text::count(mark.skip(3)) == Some((score - prev) as nat)
            &&& mark[3] != '0' && mark[3] != '+'
        },
        score < prev ==> {
            let mark = impact::marker(score as nat, prev as nat);
            &&& mark.len() > 3
            &&& mark.take(3) == seq![' ', '▼', '-']
            &&& text::count(mark.skip(3)) == Some((prev - score) as nat)
            &&& mark[3] != '0' && mark[3] != '+'
        },
{
    reveal_strlit(" ▲+");
    reveal_strlit(" ▼-");
    let mark = impact::marker(score as nat, prev as nat);
    if score != prev {
        let n = (if score > prev {
            score - prev
        } else {
            prev - score
        }) as nat;
        text::count_reads_decimal(n);
        text_laws::decimal_has_no_leading_zero(n);
        if n < 10 {
            text_laws::decimal_by_digits(n);
        }
        assert(mark.skip(3) == text::decimal(n));
        assert(mark[3] == text::decimal(n)[0]);
        if score > prev {
            assert(mark.take(3) == seq![' ', '▲', '+']);
        } else {
            assert(mark.take(3) == seq![' ', '▼', '-']);
        }
    }
}

/// Nothing has been done before a render begins: it has all six requests before it.
pub proof fn render_begins_with_nothing_done()
    ensures
        impact::nothing_done().cached is None,
        impact::nothing_done().raw is None,
        impact::nothing_done().rounded is None,
        !impact::nothing_done().saved,
        impact::nothing_done().formatted is None,
        impact::nothing_done().painted is None,
{
}

/// Nothing of an entry is lost or changed where it is spoken of by its text.
pub proof fn entry_is_kept(entry: ImpactEntry)
    ensures
        entry@.session == entry.session_id@,
        entry@.baseline_commit_count == entry.baseline_commit_count,
        entry@.baseline_merge_count == entry.baseline_merge_count,
        entry@.raw == entry.raw,
        entry@.score == entry.score,
        entry@.ttl_secs == entry.ttl_secs,
        entry@.keep_expires_at == entry.keep_expires_at,
{
}

/// Nothing of a step is lost or changed where it is spoken of by its texts.
pub proof fn step_is_kept(step: RenderStep)
    ensures
        step is Disabled <==> step@ is Disabled,
        step is NoWorkingDir <==> step@ is NoWorkingDir,
        step matches RenderStep::ReadCache { transcript_path } ==> step@ == (StepView::ReadCache {
            transcript_path: transcript_path@,
        }),
        step matches RenderStep::ReadGit { cwd } ==> step@ == (StepView::ReadGit { cwd: cwd@ }),
        step matches RenderStep::Score { work } ==> step@ == (StepView::Score { work }),
        step matches RenderStep::WriteCache { transcript_path, entry } ==> step@ == (
        StepView::WriteCache { transcript_path: transcript_path@, entry: entry@ }),
        step matches RenderStep::ApplyFormat { format, value, symbol, style } ==> step@ == (
        StepView::ApplyFormat {
            format: format@,
            value: value@,
            symbol: text::view_of(symbol),
            style: text::view_of(style),
        }),
        step matches RenderStep::ApplyStyle { content, style } ==> step@ == (StepView::ApplyStyle {
            content: content@,
            style: text::view_of(style),
        }),
        step matches RenderStep::Show { shown } ==> step@ == (StepView::Show { shown: shown@ }),
{
}

} // verus!
