use cship::cache::{CachedImpact, ImpactEntry};
use cship::config::{CshipConfig, ImpactConfig};
use cship::context::{Context, Cost, Workspace};
use cship::git::GitRaw;
use cship::modules::impact::{
    band_style, bounded_score, delta_marker, format_output, render, resume, score_terms,
    RenderStep, Replies, ScoreTerms, Session, Spending, Work,
};

fn raw(commits: u64, merges: u64) -> GitRaw {
    GitRaw { commit_count: commits, merge_count: merges, churn: 30, files: 3, available: true }
}

fn context() -> Context {
    Context {
        workspace: Some(Workspace { current_dir: Some("/work".to_string()) }),
        cwd: Some("/elsewhere".to_string()),
        session_id: Some("s1".to_string()),
        transcript_path: Some("/t.jsonl".to_string()),
        cost: Some(Cost { total_lines_added: Some(12), total_lines_removed: Some(5) }),
    }
}

fn config(icfg: ImpactConfig) -> CshipConfig {
    CshipConfig { impact: Some(icfg) }
}

fn cached(session: &str, fresh: bool) -> CachedImpact {
    CachedImpact {
        session_id: session.to_string(),
        baseline_commit_count: 100,
        baseline_merge_count: 5,
        raw: raw(103, 6),
        last_score: 56,
        expires_at: 777,
        fresh,
    }
}

/// What a render did, and what it showed.
struct Run {
    git_read: bool,
    work: Option<Work>,
    written: Option<ImpactEntry>,
    shown: Option<String>,
}

/// Renders, with the given answers in place of the outside world. Styles are shown
/// in angle brackets, a custom format in square brackets unless it is `none`.
fn drive(
    ctx: &Context,
    cfg: &CshipConfig,
    cache: Option<CachedImpact>,
    now: GitRaw,
    rounded: i64,
) -> Run {
    let mut cache = cache;
    let mut replies = Replies::none();
    let mut run = Run { git_read: false, work: None, written: None, shown: None };
    loop {
        match render(ctx, cfg, &replies) {
            RenderStep::Disabled | RenderStep::NoWorkingDir => return run,
            RenderStep::ReadCache { transcript_path } => {
                assert_eq!(transcript_path, "/t.jsonl");
                replies.cached = Some(cache.take());
            }
            RenderStep::ReadGit { cwd } => {
                assert_eq!(cwd, "/work");
                run.git_read = true;
                replies.raw = Some(now);
            }
            RenderStep::Score { work } => {
                run.work = Some(work);
                replies.rounded = Some(rounded);
            }
            RenderStep::WriteCache { transcript_path, entry } => {
                assert_eq!(transcript_path, "/t.jsonl");
                run.written = Some(entry);
                replies.saved = true;
            }
            RenderStep::ApplyFormat { format, value, symbol, style } => {
                replies.formatted = Some(if format == "none" {
                    None
                } else {
                    Some(format!(
                        "[{format}|{value}|{}|{}]",
                        symbol.unwrap_or_default(),
                        style.unwrap_or_default()
                    ))
                });
            }
            RenderStep::ApplyStyle { content, style } => {
                replies.painted = Some(format!("<{}>{content}", style.unwrap_or_default()));
            }
            RenderStep::Show { shown } => {
                run.shown = Some(shown);
                return run;
            }
        }
    }
}

#[test]
fn delta_marker_formats_direction() {
    assert_eq!(delta_marker(60, 56), " ▲+4");
    assert_eq!(delta_marker(50, 55), " ▼-5");
    assert_eq!(delta_marker(50, 50), "");
}

#[test]
fn band_style_uses_floor_semantics() {
    // low score → critical; mid → warn; high → base
    assert_eq!(
        band_style(10, Some("base"), 50, Some("warn"), 20, Some("crit")),
        Some("crit")
    );
    assert_eq!(
        band_style(40, Some("base"), 50, Some("warn"), 20, Some("crit")),
        Some("warn")
    );
    assert_eq!(
        band_style(80, Some("base"), 50, Some("warn"), 20, Some("crit")),
        Some("base")
    );
}

#[test]
fn band_style_includes_its_threshold() {
    assert_eq!(band_style(20, Some("base"), 50, Some("warn"), 20, Some("crit")), Some("crit"));
    assert_eq!(band_style(21, Some("base"), 50, Some("warn"), 20, Some("crit")), Some("warn"));
    assert_eq!(band_style(50, Some("base"), 50, Some("warn"), 20, Some("crit")), Some("warn"));
    assert_eq!(band_style(51, Some("base"), 50, Some("warn"), 20, Some("crit")), Some("base"));
}

#[test]
fn band_style_escalates_only_with_a_style() {
    assert_eq!(band_style(10, Some("base"), 50, Some("warn"), 20, None), Some("warn"));
    assert_eq!(band_style(10, Some("base"), 50, None, 20, None), Some("base"));
    assert_eq!(band_style(10, None, 50, None, 20, None), None);
    assert_eq!(band_style(0, Some("base"), -1, Some("warn"), -1, Some("crit")), Some("base"));
}

#[test]
fn bounded_score_stays_within_bounds() {
    assert_eq!(bounded_score(i64::MIN), 0);
    assert_eq!(bounded_score(-1), 0);
    assert_eq!(bounded_score(0), 0);
    assert_eq!(bounded_score(57), 57);
    assert_eq!(bounded_score(100), 100);
    assert_eq!(bounded_score(i64::MAX), 100);
}

#[test]
fn score_terms_penalise_cost_without_output() {
    let idle = Work { commits: 0, merges: 0, code_lines: 0, files: 4 };
    let spent = Spending { measurable: true, over_thrash_limit: true };
    let little = Spending { measurable: true, over_thrash_limit: false };
    assert!(score_terms(&idle, &spent).thrash);
    assert!(!score_terms(&idle, &little).thrash);
    assert!(!score_terms(&Work { commits: 1, ..idle }, &spent).thrash);
    assert!(!score_terms(&Work { merges: 1, ..idle }, &spent).thrash);
    assert!(!score_terms(&Work { code_lines: 1, ..idle }, &spent).thrash);
}

#[test]
fn score_terms_weigh_lines_only_against_a_measurable_cost() {
    let work = Work { commits: 1, merges: 2, code_lines: 30, files: 4 };
    let free = Spending { measurable: false, over_thrash_limit: false };
    let paid = Spending { measurable: true, over_thrash_limit: false };
    assert_eq!(
        score_terms(&work, &paid),
        ScoreTerms { commits: 1, merges: 2, lines_per_cost: Some(30), files: 4, thrash: false }
    );
    assert_eq!(score_terms(&work, &free).lines_per_cost, None);
}

#[test]
fn resume_uses_fresh_snapshot_again() {
    let entry = cached("s1", true);
    let state = resume(Some(&entry), &"s1".to_string(), None).unwrap();
    assert_eq!(
        state,
        Session {
            base_commits: 100,
            base_merges: 5,
            raw: raw(103, 6),
            prev_score: 56,
            keep_expires_at: Some(777),
        }
    );
}

#[test]
fn resume_replaces_stale_snapshot() {
    let entry = cached("s1", false);
    assert_eq!(resume(Some(&entry), &"s1".to_string(), None), None);
    let state = resume(Some(&entry), &"s1".to_string(), Some(raw(110, 6))).unwrap();
    assert_eq!((state.base_commits, state.base_merges), (100, 5));
    assert_eq!(state.raw, raw(110, 6));
    assert_eq!((state.prev_score, state.keep_expires_at), (56, None));
}

#[test]
fn resume_starts_other_sessions_from_now() {
    let entry = cached("s0", true);
    let state = resume(Some(&entry), &"s1".to_string(), Some(raw(110, 6))).unwrap();
    assert_eq!((state.base_commits, state.base_merges), (110, 6));
    assert_eq!((state.prev_score, state.keep_expires_at), (0, None));
    let work = state.work(9);
    assert_eq!(work, Work { commits: 0, merges: 0, code_lines: 9, files: 3 });
}

#[test]
fn work_never_counts_below_zero() {
    let mut state = resume(None, &String::new(), Some(raw(2, 1))).unwrap();
    state.base_commits = 5;
    state.base_merges = 5;
    assert_eq!(state.work(0), Work { commits: 0, merges: 0, code_lines: 0, files: 3 });
}

#[test]
fn unavailable_git_weighs_nothing() {
    let state = Session {
        base_commits: 100,
        base_merges: 5,
        raw: GitRaw::default(),
        prev_score: 0,
        keep_expires_at: None,
    };
    assert_eq!(state.work(8), Work { commits: 0, merges: 0, code_lines: 8, files: 0 });
}

#[test]
fn disabled_module_is_silent() {
    let cfg = config(ImpactConfig { disabled: Some(true), ..Default::default() });
    assert!(matches!(render(&context(), &cfg, &Replies::none()), RenderStep::Disabled));
    let run = drive(&context(), &cfg, None, raw(1, 1), 50);
    assert!(run.shown.is_none() && run.written.is_none() && !run.git_read);
}

#[test]
fn missing_directory_is_reported() {
    let cfg = CshipConfig { impact: None };
    let mut ctx = context();
    ctx.workspace = Some(Workspace { current_dir: None });
    ctx.cwd = None;
    assert!(matches!(render(&ctx, &cfg, &Replies::none()), RenderStep::NoWorkingDir));
}

#[test]
fn workspace_directory_goes_before_cwd() {
    let mut ctx = context();
    assert_eq!(ctx.working_dir(), Some(&"/work".to_string()));
    ctx.workspace = Some(Workspace { current_dir: None });
    assert_eq!(ctx.working_dir(), Some(&"/elsewhere".to_string()));
    ctx.workspace = None;
    assert_eq!(ctx.working_dir(), Some(&"/elsewhere".to_string()));
}

#[test]
fn edited_lines_count_no_negative_numbers() {
    let mut ctx = context();
    assert_eq!(ctx.edited_lines(), 17);
    ctx.cost = Some(Cost { total_lines_added: Some(-4), total_lines_removed: Some(5) });
    assert_eq!(ctx.edited_lines(), 5);
    ctx.cost = Some(Cost {
        total_lines_added: Some(i64::MAX),
        total_lines_removed: Some(i64::MAX),
    });
    assert_eq!(ctx.edited_lines(), u64::MAX - 1);
    ctx.cost = None;
    assert_eq!(ctx.edited_lines(), 0);
}

#[test]
fn new_session_is_rendered_from_a_new_snapshot() {
    let cfg = CshipConfig { impact: None };
    let run = drive(&context(), &cfg, None, raw(110, 6), 42);
    assert!(run.git_read);
    assert_eq!(run.work, Some(Work { commits: 0, merges: 0, code_lines: 17, files: 3 }));
    let entry = run.written.unwrap();
    assert_eq!(entry.session_id, "s1");
    assert_eq!((entry.baseline_commit_count, entry.baseline_merge_count), (110, 6));
    assert_eq!((entry.raw, entry.score), (raw(110, 6), 42));
    assert_eq!((entry.ttl_secs, entry.keep_expires_at), (5, None));
    assert_eq!(run.shown.as_deref(), Some("<>42 ▲+42"));
}

#[test]
fn fresh_snapshot_spares_git() {
    let cfg = config(ImpactConfig { cache_ttl_secs: Some(60), ..Default::default() });
    let run = drive(&context(), &cfg, Some(cached("s1", true)), raw(999, 99), 60);
    assert!(!run.git_read);
    assert_eq!(run.work, Some(Work { commits: 3, merges: 1, code_lines: 17, files: 3 }));
    let entry = run.written.unwrap();
    assert_eq!((entry.ttl_secs, entry.keep_expires_at), (60, Some(777)));
    assert_eq!(entry.raw, raw(103, 6));
    assert_eq!(run.shown.as_deref(), Some("<>60 ▲+4"));
}

#[test]
fn stale_snapshot_is_read_again() {
    let cfg = CshipConfig { impact: None };
    let run = drive(&context(), &cfg, Some(cached("s1", false)), raw(108, 7), 50);
    assert!(run.git_read);
    assert_eq!(run.work, Some(Work { commits: 8, merges: 2, code_lines: 17, files: 3 }));
    let entry = run.written.unwrap();
    assert_eq!((entry.baseline_commit_count, entry.baseline_merge_count), (100, 5));
    assert_eq!((entry.raw, entry.keep_expires_at), (raw(108, 7), None));
    assert_eq!(run.shown.as_deref(), Some("<>50 ▼-6"));
}

#[test]
fn next_render_compares_with_this_one() {
    let cfg = CshipConfig { impact: None };
    let first = drive(&context(), &cfg, None, raw(110, 6), 42).written.unwrap();
    let kept = CachedImpact {
        session_id: first.session_id,
        baseline_commit_count: first.baseline_commit_count,
        baseline_merge_count: first.baseline_merge_count,
        raw: first.raw,
        last_score: first.score,
        expires_at: 1,
        fresh: false,
    };
    let second = drive(&context(), &cfg, Some(kept), raw(112, 6), 45);
    assert_eq!(second.work.unwrap().commits, 2);
    assert_eq!(second.shown.as_deref(), Some("<>45 ▲+3"));
}

#[test]
fn render_without_transcript_keeps_nothing() {
    let cfg = CshipConfig { impact: None };
    let mut ctx = context();
    ctx.transcript_path = None;
    let run = drive(&ctx, &cfg, Some(cached("s1", true)), raw(110, 6), 7);
    assert!(run.git_read && run.written.is_none());
    assert_eq!(run.shown.as_deref(), Some("<>7 ▲+7"));
}

#[test]
fn session_without_a_name_has_the_empty_one() {
    let cfg = CshipConfig { impact: None };
    let mut ctx = context();
    ctx.session_id = None;
    let run = drive(&ctx, &cfg, Some(cached("", true)), raw(110, 6), 56);
    assert!(!run.git_read);
    assert_eq!(run.written.unwrap().session_id, "");
    assert_eq!(run.shown.as_deref(), Some("<>56"));
}

#[test]
fn rendered_score_is_bounded() {
    let cfg = CshipConfig { impact: None };
    let run = drive(&context(), &cfg, None, raw(1, 1), 5_000);
    assert_eq!(run.written.unwrap().score, 100);
    assert_eq!(run.shown.as_deref(), Some("<>100 ▲+100"));
}

#[test]
fn output_shows_symbol_label_and_style() {
    let icfg = ImpactConfig {
        symbol: Some("★ ".to_string()),
        label: Some(true),
        style: Some("base".to_string()),
        warn_style: Some("warn".to_string()),
        critical_style: Some("crit".to_string()),
        ..Default::default()
    };
    let cfg = config(icfg);
    let run = drive(&context(), &cfg, Some(cached("s1", true)), raw(0, 0), 60);
    assert_eq!(run.shown.as_deref(), Some("<base>★ impact 60 ▲+4"));
    let run = drive(&context(), &cfg, Some(cached("s1", true)), raw(0, 0), 50);
    assert_eq!(run.shown.as_deref(), Some("<warn>★ impact 50 ▼-6"));
    let run = drive(&context(), &cfg, Some(cached("s1", true)), raw(0, 0), 20);
    assert_eq!(run.shown.as_deref(), Some("<crit>★ impact 20 ▼-36"));
}

#[test]
fn output_hides_delta_on_request() {
    let cfg = config(ImpactConfig { show_delta: Some(false), ..Default::default() });
    let run = drive(&context(), &cfg, Some(cached("s1", true)), raw(0, 0), 60);
    assert_eq!(run.shown.as_deref(), Some("<>60"));
}

#[test]
fn output_prefers_custom_format() {
    let icfg = ImpactConfig {
        format: Some("f".to_string()),
        symbol: Some("*".to_string()),
        label: Some(true),
        style: Some("base".to_string()),
        ..Default::default()
    };
    let run = drive(&context(), &config(icfg), Some(cached("s1", true)), raw(0, 0), 60);
    assert_eq!(run.shown.as_deref(), Some("[f|60 ▲+4|*|base]"));
}

#[test]
fn output_falls_back_where_custom_format_does_not_apply() {
    let icfg = ImpactConfig { format: Some("none".to_string()), ..Default::default() };
    let run = drive(&context(), &config(icfg), Some(cached("s1", true)), raw(0, 0), 60);
    assert_eq!(run.shown.as_deref(), Some("<>60 ▲+4"));
}

#[test]
fn format_output_without_settings_uses_defaults() {
    match format_output(None, 60, 60, &None, &None) {
        RenderStep::ApplyStyle { content, style } => {
            assert_eq!(content, "60");
            assert_eq!(style, None);
        }
        _ => panic!("not painted"),
    }
}

#[test]
fn more_work_never_weighs_less() {
    let less = Work { commits: 0, merges: 0, code_lines: 0, files: 1 };
    let more = Work { commits: 2, merges: 0, code_lines: 9, files: 1 };
    let spent = Spending { measurable: true, over_thrash_limit: true };
    let (a, b) = (score_terms(&less, &spent), score_terms(&more, &spent));
    assert!(a.commits < b.commits && a.merges == b.merges && a.files == b.files);
    assert!(a.lines_per_cost.unwrap() < b.lines_per_cost.unwrap());
    assert!(a.thrash && !b.thrash);
}

#[test]
fn bounds_keep_order() {
    let rounded = [-300, -1, 0, 1, 50, 99, 100, 101, 9_000];
    for pair in rounded.windows(2) {
        assert!(bounded_score(pair[0]) <= bounded_score(pair[1]));
    }
}

#[test]
fn marker_determines_previous_score() {
    for prev in 0..=100 {
        for other in 0..=100 {
            assert_eq!(delta_marker(40, prev) == delta_marker(40, other), prev == other);
        }
    }
}

#[test]
fn style_escalates_as_score_drops() {
    let rank = |score: u32| match band_style(score, Some("0"), 50, Some("1"), 20, Some("2")) {
        Some(s) => s.parse::<u32>().unwrap(),
        None => unreachable!(),
    };
    for score in 0..100 {
        assert!(rank(score) >= rank(score + 1));
    }
    assert_eq!((rank(0), rank(35), rank(100)), (2, 1, 0));
}

#[test]
fn render_is_kept_before_shown() {
    let cfg = CshipConfig { impact: None };
    let mut replies = Replies::none();
    replies.cached = Some(Some(cached("s1", true)));
    replies.rounded = Some(60);
    replies.painted = Some("painted".to_string());
    assert!(matches!(render(&context(), &cfg, &replies), RenderStep::WriteCache { .. }));
    replies.saved = true;
    match render(&context(), &cfg, &replies) {
        RenderStep::Show { shown } => assert_eq!(shown, "painted"),
        _ => panic!("not shown"),
    }
}

#[test]
fn edited_lines_are_live() {
    let cfg = CshipConfig { impact: None };
    let mut ctx = context();
    for added in [0, 1, 250] {
        ctx.cost = Some(Cost { total_lines_added: Some(added), total_lines_removed: None });
        let run = drive(&ctx, &cfg, Some(cached("s1", true)), raw(0, 0), 1);
        assert_eq!(run.work.unwrap().code_lines, added as u64);
    }
}
