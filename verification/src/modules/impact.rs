//! The `[cship.impact]` module: a deterministic session impact score from 0 to 100.
//!
//! The score combines four signals: shipped work (commits and merges of this
//! session), token efficiency (edited lines per dollar), breadth (files touched) and
//! a penalty for cost without output. This module decides what is counted, when git
//! is read again, what is kept for the next render and what is shown. The weighing
//! itself, `100 * raw / (raw + K)`, is done by the caller on request.

use vstd::prelude::*;

use crate::cache::{CachedImpact, EntryView, ImpactEntry};
use crate::config::{
    CshipConfig, ImpactConfig, DEFAULT_CACHE_TTL_SECS, DEFAULT_CRITICAL_THRESHOLD,
    DEFAULT_WARN_THRESHOLD,
};
use crate::context::Context;
use crate::git::GitRaw;
use crate::text;

verus! {

/// The whole numbers that a score is made of.
#[derive(Debug, Clone, Copy, PartialEq, Eq, Structural)]
pub struct Work {
    /// Commits landed in this session.
    pub commits: u64,
    /// Merges landed in this session.
    pub merges: u64,
    /// Lines edited in this session.
    pub code_lines: u64,
    /// Files with uncommitted changes.
    pub files: u64,
}

/// Where the amount spent stands.
#[derive(Debug, Clone, Copy, PartialEq, Eq, Structural)]
pub struct Spending {
    /// More than a negligible amount was spent.
    pub measurable: bool,
    /// More was spent than may be spent without any output.
    pub over_thrash_limit: bool,
}

/// The terms of a score.
#[derive(Debug, Clone, Copy, PartialEq, Eq, Structural)]
pub struct ScoreTerms {
    /// Commits to weigh.
    pub commits: u64,
    /// Merges to weigh.
    pub merges: u64,
    /// Lines to weigh against the amount spent, where that can be done.
    pub lines_per_cost: Option<u64>,
    /// Files to weigh.
    pub files: u64,
    /// Whether the penalty for cost without output is due.
    pub thrash: bool,
}

impl Work {
    /// Something was shipped or edited.
    pub open spec fn has_output(self) -> bool {
        self.commits > 0 || self.merges > 0 || self.code_lines > 0
    }
}

/// The terms of the score: all work counts, the efficiency only where the amount
/// spent is measurable, and the penalty where it is over the limit and there is no
/// output.
pub open spec fn terms_of(work: Work, spending: Spending) -> ScoreTerms {
    ScoreTerms {
        commits: work.commits,
        merges: work.merges,
        lines_per_cost: if spending.measurable {
            Some(work.code_lines)
        } else {
            None
        },
        files: work.files,
        thrash: spending.over_thrash_limit && !work.has_output(),
    }
}

/// Selects the terms that enter the score.
pub fn score_terms(work: &Work, spending: &Spending) -> (terms: ScoreTerms)
    ensures
        terms == terms_of(*work, *spending),
{
    let no_output = work.commits == 0 && work.merges == 0 && work.code_lines == 0;
    ScoreTerms {
        commits: work.commits,
        merges: work.merges,
        lines_per_cost: if spending.measurable {
            Some(work.code_lines)
        } else {
            None
        },
        files: work.files,
        thrash: no_output && spending.over_thrash_limit,
    }
}

/// The score that is nearest to `rounded`.
pub open spec fn clamped(rounded: i64) -> u32 {
    if rounded < 0 {
        0
    } else if rounded > 100 {
        100
    } else {
        rounded as u32
    }
}

/// Keeps a rounded score within 0 and 100.
pub fn bounded_score(rounded: i64) -> (score: u32)
    ensures
        score == clamped(rounded),
{
    if rounded < 0 {
        0
    } else if rounded > 100 {
        100
    } else {
        rounded as u32
    }
}

/// The mark behind a score: how far it is above or below the one before.
pub open spec fn marker(score: nat, prev: nat) -> Seq<char> {
    if score > prev {
        " ▲+"@ + text::decimal((score - prev) as nat)
    } else if score < prev {
        " ▼-"@ + text::decimal((prev - score) as nat)
    } else {
        seq![]
    }
}

/// A trailing delta marker (` ▲+N` or ` ▼-N`) against the score of the previous
/// render, empty when it is unchanged.
pub fn delta_marker(score: u32, prev: u32) -> (mark: String)
    ensures
        mark@ == marker(score as nat, prev as nat),
{
    if score > prev {
        let mut mark = " ▲+".to_owned();
        mark.append(text::decimal_text(score - prev).as_str());
        mark
    } else if score < prev {
        let mut mark = " ▼-".to_owned();
        mark.append(text::decimal_text(prev - score).as_str());
        mark
    } else {
        String::new()
    }
}

/// The style of a score. A band has an effect only where it has a style, and the
/// critical band goes before the warning band.
pub open spec fn band(
    score: int,
    style: Option<Seq<char>>,
    warn_t: int,
    warn_s: Option<Seq<char>>,
    crit_t: int,
    crit_s: Option<Seq<char>>,
) -> Option<Seq<char>> {
    if crit_s is Some && score <= crit_t {
        crit_s
    } else if warn_s is Some && score <= warn_t {
        warn_s
    } else {
        style
    }
}

/// Floor-threshold style selection: escalates as the score drops. Only escalates
/// when the matching style is set.
pub fn band_style<'a>(
    score: u32,
    style: Option<&'a str>,
    warn_t: i64,
    warn_s: Option<&'a str>,
    crit_t: i64,
    crit_s: Option<&'a str>,
) -> (chosen: Option<&'a str>)
    ensures
        text::str_view_of(chosen) == band(
            score as int,
            text::str_view_of(style),
            warn_t as int,
            text::str_view_of(warn_s),
            crit_t as int,
            text::str_view_of(crit_s),
        ),
{
    let at = score as i64;
    if let Some(s) = crit_s {
        if at <= crit_t {
            return Some(s);
        }
    }
    if let Some(s) = warn_s {
        if at <= warn_t {
            return Some(s);
        }
    }
    style
}

/// Where a session stands: its baseline, the git snapshot in use and the score that
/// the previous render showed.
#[derive(Debug, Clone, Copy, PartialEq, Eq, Structural)]
pub struct Session {
    pub base_commits: u64,
    pub base_merges: u64,
    pub raw: GitRaw,
    pub prev_score: u32,
    /// The expiry of a snapshot that is used again, `None` for one just taken.
    pub keep_expires_at: Option<u64>,
}

/// Resumes a session from its cached entry. A fresh snapshot is used again; a stale
/// one is replaced by `raw`, with the baseline kept. Without an entry of this session
/// `raw` itself becomes the baseline. `None` where a snapshot is needed and `raw` has
/// none.
pub open spec fn resumed(
    cached: Option<CachedImpact>,
    session: Seq<char>,
    raw: Option<GitRaw>,
) -> Option<Session> {
    match cached {
        Some(c) if c.session_id@ == session && c.fresh => Some(
            Session {
                base_commits: c.baseline_commit_count,
                base_merges: c.baseline_merge_count,
                raw: c.raw,
                prev_score: c.last_score,
                keep_expires_at: Some(c.expires_at),
            },
        ),
        Some(c) if c.session_id@ == session => match raw {
            Some(r) => Some(
                Session {
                    base_commits: c.baseline_commit_count,
                    base_merges: c.baseline_merge_count,
                    raw: r,
                    prev_score: c.last_score,
                    keep_expires_at: None,
                },
            ),
            None => None,
        },
        _ => match raw {
            Some(r) => Some(
                Session {
                    base_commits: r.commit_count,
                    base_merges: r.merge_count,
                    raw: r,
                    prev_score: 0,
                    keep_expires_at: None,
                },
            ),
            None => None,
        },
    }
}

/// Resolves the per-session git baseline and the snapshot to use.
pub fn resume(cached: Option<&CachedImpact>, session: &String, raw: Option<GitRaw>) -> (state:
    Option<Session>)
    ensures
        state == resumed(
            match cached {
                Some(c) => Some(*c),
                None => None,
            },
            session@,
            raw,
        ),
{
    if let Some(c) = cached {
        if c.session_id == *session {
            if c.fresh {
                return Some(
                    Session {
                        base_commits: c.baseline_commit_count,
                        base_merges: c.baseline_merge_count,
                        raw: c.raw,
                        prev_score: c.last_score,
                        keep_expires_at: Some(c.expires_at),
                    },
                );
            }
            return match raw {
                Some(r) => Some(
                    Session {
                        base_commits: c.baseline_commit_count,
                        base_merges: c.baseline_merge_count,
                        raw: r,
                        prev_score: c.last_score,
                        keep_expires_at: None,
                    },
                ),
                None => None,
            };
        }
    }
    match raw {
        Some(r) => Some(
            Session {
                base_commits: r.commit_count,
                base_merges: r.merge_count,
                raw: r,
                prev_score: 0,
                keep_expires_at: None,
            },
        ),
        None => None,
    }
}

/// How much larger `now` is than `before`, zero where it is not.
pub open spec fn gain(now: u64, before: u64) -> u64 {
    if now >= before {
        (now - before) as u64
    } else {
        0
    }
}

impl Session {
    /// What was done since the baseline.
    pub open spec fn work_done(self, code_lines: u64) -> Work {
        Work {
            commits: gain(self.raw.commit_count, self.base_commits),
            merges: gain(self.raw.merge_count, self.base_merges),
            code_lines,
            files: self.raw.files,
        }
    }

    /// Counts what was done since the baseline.
    pub fn work(&self, code_lines: u64) -> (work: Work)
        ensures
            work == self.work_done(code_lines),
    {
        Work {
            commits: self.raw.commit_count.saturating_sub(self.base_commits),
            merges: self.raw.merge_count.saturating_sub(self.base_merges),
            code_lines,
            files: self.raw.files,
        }
    }
}

/// What a render needs next, or what it comes to.
pub enum RenderStep {
    /// The module is switched off: nothing is shown.
    Disabled,
    /// The context names no directory: nothing is shown.
    NoWorkingDir,
    /// Read the cached entry of this transcript.
    ReadCache { transcript_path: String },
    /// Read the git counters of this directory.
    ReadGit { cwd: String },
    /// Weigh this work, and round the score to a whole number.
    Score { work: Work },
    /// Write this entry for this transcript.
    WriteCache { transcript_path: String, entry: ImpactEntry },
    /// Put the value into the custom format.
    ApplyFormat { format: String, value: String, symbol: Option<String>, style: Option<String> },
    /// Paint the content.
    ApplyStyle { content: String, style: Option<String> },
    /// Show this text.
    Show { shown: String },
}

/// A [`RenderStep`] with its texts as sequences of characters.
pub enum StepView {
    Disabled,
    NoWorkingDir,
    ReadCache { transcript_path: Seq<char> },
    ReadGit { cwd: Seq<char> },
    Score { work: Work },
    WriteCache { transcript_path: Seq<char>, entry: EntryView },
    ApplyFormat {
        format: Seq<char>,
        value: Seq<char>,
        symbol: Option<Seq<char>>,
        style: Option<Seq<char>>,
    },
    ApplyStyle { content: Seq<char>, style: Option<Seq<char>> },
    Show { shown: Seq<char> },
}

impl View for RenderStep {
    type V = StepView;

    open spec fn view(&self) -> StepView {
        match self {
            RenderStep::Disabled => StepView::Disabled,
            RenderStep::NoWorkingDir => StepView::NoWorkingDir,
            RenderStep::ReadCache { transcript_path } => StepView::ReadCache {
                transcript_path: transcript_path@,
            },
            RenderStep::ReadGit { cwd } => StepView::ReadGit { cwd: cwd@ },
            RenderStep::Score { work } => StepView::Score { work: *work },
            RenderStep::WriteCache { transcript_path, entry } => StepView::WriteCache {
                transcript_path: transcript_path@,
                entry: entry@,
            },
            RenderStep::ApplyFormat { format, value, symbol, style } => StepView::ApplyFormat {
                format: format@,
                value: value@,
                symbol: text::view_of(*symbol),
                style: text::view_of(*style),
            },
            RenderStep::ApplyStyle { content, style } => StepView::ApplyStyle {
                content: content@,
                style: text::view_of(*style),
            },
            RenderStep::Show { shown } => StepView::Show { shown: shown@ },
        }
    }
}

/// What the caller has done so far for a render. A field is set once the step that
/// asks for it has been carried out.
pub struct Replies {
    /// The cached entry, if there is one.
    pub cached: Option<Option<CachedImpact>>,
    /// The git counters.
    pub raw: Option<GitRaw>,
    /// The rounded score.
    pub rounded: Option<i64>,
    /// Whether the entry was written.
    pub saved: bool,
    /// What the custom format gave, if it applied.
    pub formatted: Option<Option<String>>,
    /// The painted content.
    pub painted: Option<String>,
}

impl Replies {
    /// Nothing has been done yet.
    pub fn none() -> (replies: Self)
        ensures
            replies == nothing_done(),
    {
        Replies {
            cached: None,
            raw: None,
            rounded: None,
            saved: false,
            formatted: None,
            painted: None,
        }
    }
}

pub open spec fn nothing_done() -> Replies {
    Replies {
        cached: None,
        raw: None,
        rounded: None,
        saved: false,
        formatted: None,
        painted: None,
    }
}

/// The settings in a section that may be missing.
pub open spec fn settings_of(icfg: Option<&ImpactConfig>) -> ImpactConfig {
    match icfg {
        Some(c) => *c,
        None => crate::config::unset(),
    }
}

/// The style of a score under the given settings.
pub open spec fn style_for(icfg: ImpactConfig, score: u32) -> Option<Seq<char>> {
    band(
        score as int,
        text::view_of(icfg.style),
        icfg.warn_threshold.unwrap_or(DEFAULT_WARN_THRESHOLD) as int,
        text::view_of(icfg.warn_style),
        icfg.critical_threshold.unwrap_or(DEFAULT_CRITICAL_THRESHOLD) as int,
        text::view_of(icfg.critical_style),
    )
}

/// The score in digits, with its delta marker unless that is switched off.
pub open spec fn value_text(icfg: ImpactConfig, score: u32, prev_score: u32) -> Seq<char> {
    text::decimal(score as nat) + if icfg.show_delta.unwrap_or(true) {
        marker(score as nat, prev_score as nat)
    } else {
        seq![]
    }
}

/// The symbol, the label if it is switched on, and the value.
pub open spec fn content_text(icfg: ImpactConfig, score: u32, prev_score: u32) -> Seq<char> {
    (match icfg.symbol {
        Some(s) => s@,
        None => seq![],
    }) + (if icfg.label.unwrap_or(false) {
        "impact "@
    } else {
        seq![]
    }) + value_text(icfg, score, prev_score)
}

/// What is shown of a score. A custom format goes first; where it does not apply, or
/// there is none, the content is painted.
pub open spec fn output_step(
    icfg: ImpactConfig,
    score: u32,
    prev_score: u32,
    formatted: Option<Option<String>>,
    painted: Option<String>,
) -> StepView {
    if icfg.format is Some && formatted is None {
        StepView::ApplyFormat {
            format: icfg.format->0@,
            value: value_text(icfg, score, prev_score),
            symbol: text::view_of(icfg.symbol),
            style: style_for(icfg, score),
        }
    } else if icfg.format is Some && formatted->0 is Some {
        StepView::Show { shown: formatted->0->0@ }
    } else if painted is None {
        StepView::ApplyStyle {
            content: content_text(icfg, score, prev_score),
            style: style_for(icfg, score),
        }
    } else {
        StepView::Show { shown: painted->0@ }
    }
}

fn as_str(s: &Option<String>) -> (slice: Option<&str>)
    ensures
        text::str_view_of(slice) == text::view_of(*s),
{
    match s {
        Some(t) => Some(t.as_str()),
        None => None,
    }
}

fn owned(s: Option<&str>) -> (string: Option<String>)
    ensures
        text::view_of(string) == text::str_view_of(s),
{
    match s {
        Some(t) => Some(t.to_owned()),
        None => None,
    }
}

/// Builds the output `{symbol}{label}{score}{ delta}`, painted with floor-threshold
/// escalation (a lower score is more severe), or the output of the custom format
/// where one is configured and applies.
pub fn format_output(
    icfg: Option<&ImpactConfig>,
    score: u32,
    prev_score: u32,
    formatted: &Option<Option<String>>,
    painted: &Option<String>,
) -> (step: RenderStep)
    ensures
        step@ == output_step(settings_of(icfg), score, prev_score, *formatted, *painted),
{
    let defaults = ImpactConfig::default();
    let icfg = match icfg {
        Some(c) => c,
        None => &defaults,
    };
    let style = owned(
        band_style(
            score,
            as_str(&icfg.style),
            icfg.warn_threshold.unwrap_or(DEFAULT_WARN_THRESHOLD),
            as_str(&icfg.warn_style),
            icfg.critical_threshold.unwrap_or(DEFAULT_CRITICAL_THRESHOLD),
            as_str(&icfg.critical_style),
        ),
    );
    let mut value = text::decimal_text(score);
    if icfg.show_delta.unwrap_or(true) {
        value.append(delta_marker(score, prev_score).as_str());
    }
    assert(value@ == value_text(*icfg, score, prev_score));
    if let Some(fmt) = &icfg.format {
        match formatted {
            None => {
                return RenderStep::ApplyFormat {
                    format: fmt.clone(),
                    value,
                    symbol: owned(as_str(&icfg.symbol)),
                    style,
                };
            },
            Some(Some(out)) => {
                return RenderStep::Show { shown: out.clone() };
            },
            Some(None) => {},
        }
    }
    match painted {
        Some(out) => RenderStep::Show { shown: out.clone() },
        None => {
            let mut content = match &icfg.symbol {
                Some(s) => s.clone(),
                None => String::new(),
            };
            if icfg.label.unwrap_or(false) {
                content.append("impact ");
            }
            content.append(value.as_str());
            assert(content@ == content_text(*icfg, score, prev_score));
            RenderStep::ApplyStyle { content, style }
        },
    }
}

/// The entry that a render leaves behind.
pub open spec fn entry_for(ctx: Context, icfg: ImpactConfig, state: Session, score: u32) -> EntryView {
    EntryView {
        session: ctx.session(),
        baseline_commit_count: state.base_commits,
        baseline_merge_count: state.base_merges,
        raw: state.raw,
        score,
        ttl_secs: icfg.cache_ttl_secs.unwrap_or(DEFAULT_CACHE_TTL_SECS),
        keep_expires_at: state.keep_expires_at,
    }
}

/// The session as far as it is known: without a transcript there is no cache.
pub open spec fn session_state(ctx: Context, replies: Replies) -> Option<Session> {
    let cached = if ctx.transcript_path is Some && replies.cached is Some {
        replies.cached->0
    } else {
        None
    };
    resumed(cached, ctx.session(), replies.raw)
}

/// What comes next for a render.
pub open spec fn next_step(ctx: Context, cfg: CshipConfig, replies: Replies) -> StepView {
    let icfg = cfg.settings();
    let state = session_state(ctx, replies);
    if icfg.disabled == Some(true) {
        StepView::Disabled
    } else if ctx.directory() is None {
        StepView::NoWorkingDir
    } else if ctx.transcript_path is Some && replies.cached is None {
        StepView::ReadCache { transcript_path: ctx.transcript_path->0@ }
    } else if state is None {
        StepView::ReadGit { cwd: ctx.directory()->0 }
    } else if replies.rounded is None {
        StepView::Score { work: state->0.work_done(ctx.code_lines() as u64) }
    } else if ctx.transcript_path is Some && !replies.saved {
        StepView::WriteCache {
            transcript_path: ctx.transcript_path->0@,
            entry: entry_for(ctx, icfg, state->0, clamped(replies.rounded->0)),
        }
    } else {
        output_step(
            icfg,
            clamped(replies.rounded->0),
            state->0.prev_score,
            replies.formatted,
            replies.painted,
        )
    }
}

/// Renders `$cship.impact`, the deterministic session impact score, step by step.
///
/// `replies` holds what the caller has done so far. The step says what is to be done
/// next, or what is shown. Git is read only where no fresh snapshot of this session
/// is cached; the score is weighed anew in every render, and kept for the next one
/// to be compared with.
pub fn render(ctx: &Context, cfg: &CshipConfig, replies: &Replies) -> (step: RenderStep)
    ensures
        step@ == next_step(*ctx, *cfg, *replies),
{
    let defaults = ImpactConfig::default();
    let icfg = match &cfg.impact {
        Some(c) => c,
        None => &defaults,
    };
    if icfg.disabled.unwrap_or(false) {
        return RenderStep::Disabled;
    }
    let cwd = match ctx.working_dir() {
        Some(dir) => dir,
        None => {
            return RenderStep::NoWorkingDir;
        },
    };
    let cached: Option<&CachedImpact> = match &ctx.transcript_path {
        Some(path) => match &replies.cached {
            Some(entry) => entry.as_ref(),
            None => {
                return RenderStep::ReadCache { transcript_path: path.clone() };
            },
        },
        None => None,
    };
    let session = ctx.session_name();
    let state = match resume(cached, &session, replies.raw) {
        Some(state) => state,
        None => {
            return RenderStep::ReadGit { cwd: cwd.clone() };
        },
    };
    let score = match replies.rounded {
        Some(rounded) => bounded_score(rounded),
        None => {
            return RenderStep::Score { work: state.work(ctx.edited_lines()) };
        },
    };
    if let Some(path) = &ctx.transcript_path {
        if !replies.saved {
            return RenderStep::WriteCache {
                transcript_path: path.clone(),
                entry: ImpactEntry {
                    session_id: session,
                    baseline_commit_count: state.base_commits,
                    baseline_merge_count: state.base_merges,
                    raw: state.raw,
                    score,
                    ttl_secs: icfg.cache_ttl_secs.unwrap_or(DEFAULT_CACHE_TTL_SECS),
                    keep_expires_at: state.keep_expires_at,
                },
            };
        }
    }
    format_output(cfg.impact.as_ref(), score, state.prev_score, &replies.formatted, &replies.painted)
}

} // verus!
