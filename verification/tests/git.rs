use cship::git::{git, numstat_fits, parse_numstat, read_raw, GitOutput, GitRaw, ReadStep};

/// Reads a repository, with `answer` in place of git.
fn drive(cwd: &str, answer: &dyn Fn(&[String]) -> Option<GitOutput>) -> (GitRaw, usize) {
    let mut replies: Vec<Option<String>> = Vec::new();
    loop {
        match read_raw(cwd, &replies) {
            ReadStep::Run(args) => {
                let output = answer(&args);
                replies.push(git(&output));
            }
            ReadStep::Done(raw) => return (raw, replies.len()),
        }
    }
}

fn printed(text: &str) -> Option<GitOutput> {
    Some(GitOutput { success: true, stdout: text.as_bytes().to_vec() })
}

fn failed() -> Option<GitOutput> {
    Some(GitOutput { success: false, stdout: b"fatal".to_vec() })
}

/// The answers of a repository with commits.
fn repository(args: &[String]) -> Option<GitOutput> {
    if args[2] == "rev-parse" {
        printed("true\n")
    } else if args[2] == "symbolic-ref" {
        printed("refs/heads/main\n")
    } else if args.len() == 5 && args[2] == "rev-list" {
        printed("120\n")
    } else if args[2] == "rev-list" {
        printed("7\n")
    } else {
        printed("10\t2\tsrc/a.rs\n-\t-\tlogo.png\n")
    }
}

#[test]
fn parse_numstat_sums_added_and_removed() {
    let out = "10\t2\tsrc/a.rs\n0\t5\tsrc/b.rs";
    assert_eq!(parse_numstat(out), (17, 2));
}

#[test]
fn parse_numstat_handles_binary_and_blank_lines() {
    let out = "-\t-\tlogo.png\n\n3\t1\tsrc/c.rs\n";
    // binary file: 0 churn, still counted; blank line ignored
    assert_eq!(parse_numstat(out), (4, 2));
}

#[test]
fn parse_numstat_empty_is_zero() {
    assert_eq!(parse_numstat(""), (0, 0));
}

#[test]
fn read_raw_on_non_repo_is_unavailable() {
    // A temp dir with no git repo → unavailable, all zero.
    let dir = tempfile::tempdir().expect("tempdir");
    let cwd = dir.path().to_str().unwrap();
    let (raw, asked) = drive(cwd, &|args: &[String]| {
        assert_eq!(args, ["-C", cwd, "rev-parse", "--is-inside-work-tree"]);
        failed()
    });
    assert!(!raw.available);
    assert_eq!(raw.commit_count, 0);
    assert_eq!(raw, GitRaw::default());
    assert_eq!(asked, 1);
}

#[test]
fn parse_numstat_reads_carriage_returns_as_line_ends() {
    assert_eq!(parse_numstat("3\t1\r\n4\t5\r\n"), (13, 2));
    // Without the line feed the carriage return belongs to the column.
    assert_eq!(parse_numstat("3\t1\r"), (3, 1));
}

#[test]
fn parse_numstat_reads_missing_and_malformed_columns_as_zero() {
    assert_eq!(parse_numstat("8"), (8, 1));
    assert_eq!(parse_numstat("\t9"), (9, 1));
    assert_eq!(parse_numstat("x\t+4\tp"), (4, 1));
    assert_eq!(parse_numstat(" 3\t2\tp"), (2, 1));
    assert_eq!(parse_numstat("-1\t2\tp"), (2, 1));
    assert_eq!(parse_numstat("+\t2\tp"), (2, 1));
    assert_eq!(parse_numstat("18446744073709551616\t2\tp"), (2, 1));
}

#[test]
fn parse_numstat_skips_lines_of_white_space() {
    assert_eq!(parse_numstat("1\t1\ta\n \t\u{2003}\n1\t1\tb"), (4, 2));
    assert_eq!(parse_numstat("\n\n \n"), (0, 0));
}

#[test]
fn numstat_adds_up_at_line_feeds() {
    let a = "1\t2\ta\n";
    let b = "3\t4\tb\n5\t6\tc";
    let whole = format!("{a}{b}");
    let (churn_a, files_a) = parse_numstat(a);
    let (churn_b, files_b) = parse_numstat(b);
    assert_eq!(parse_numstat(&whole), (churn_a + churn_b, files_a + files_b));
    assert_eq!(parse_numstat(&whole), (21, 3));
    assert_eq!(parse_numstat(&format!("{whole}\n")), (21, 3));
}

#[test]
fn numstat_fits_up_to_sixty_four_bits() {
    assert!(numstat_fits("18446744073709551615\t0\ta"));
    assert_eq!(parse_numstat("18446744073709551615\t0\ta"), (u64::MAX, 1));
    assert!(!numstat_fits("18446744073709551615\t1\ta"));
    assert!(!numstat_fits("18446744073709551615\t0\ta\n1\t0\tb"));
}

#[test]
fn git_trims_what_was_printed() {
    assert_eq!(git(&printed(" \n true\u{a0}\n\n")), Some("true".to_string()));
    assert_eq!(git(&printed("a b\n")), Some("a b".to_string()));
    assert_eq!(git(&printed("\u{25b2}\n")), Some("\u{25b2}".to_string()));
    assert_eq!(git(&printed(" \t\n")), Some(String::new()));
}

#[test]
fn git_replies_nothing_on_failure() {
    assert_eq!(git(&None), None);
    assert_eq!(git(&failed()), None);
    let broken = Some(GitOutput { success: true, stdout: vec![b'4', 0xff, b'2'] });
    assert_eq!(git(&broken), None);
}

#[test]
fn read_raw_collects_five_replies() {
    let (raw, asked) = drive("/work", &repository);
    assert_eq!(asked, 5);
    assert_eq!(
        raw,
        GitRaw { commit_count: 120, merge_count: 7, churn: 12, files: 2, available: true }
    );
}

#[test]
fn read_raw_asks_in_order() {
    let mut replies: Vec<Option<String>> = Vec::new();
    let expected: [&[&str]; 5] = [
        &["-C", "/work", "rev-parse", "--is-inside-work-tree"],
        &["-C", "/work", "symbolic-ref", "--quiet", "HEAD"],
        &["-C", "/work", "rev-list", "--count", "HEAD"],
        &["-C", "/work", "rev-list", "--count", "--merges", "HEAD"],
        &["-C", "/work", "diff", "HEAD", "--numstat"],
    ];
    for command in expected {
        match read_raw("/work", &replies) {
            ReadStep::Run(args) => {
                assert_eq!(args, command);
                replies.push(git(&repository(&args)));
            }
            ReadStep::Done(_) => panic!("done too early"),
        }
    }
    assert!(matches!(read_raw("/work", &replies), ReadStep::Done(_)));
    replies.push(None);
    assert!(matches!(read_raw("/work", &replies), ReadStep::Done(raw) if raw.available));
}

#[test]
fn read_raw_inside_git_directory_is_unavailable() {
    let (raw, asked) = drive("/work/.git", &|_: &[String]| printed("false\n"));
    assert_eq!((raw, asked), (GitRaw::default(), 1));
}

#[test]
fn read_raw_without_commits_is_unavailable() {
    let (raw, asked) = drive("/new", &|args: &[String]| {
        if args[2] == "rev-list" || args[2] == "diff" {
            failed()
        } else {
            repository(args)
        }
    });
    assert_eq!((raw, asked), (GitRaw::default(), 3));
}

#[test]
fn read_raw_on_detached_head_is_unavailable() {
    // Outside a branch `symbolic-ref --quiet` fails without a word.
    let (raw, asked) = drive("/work", &|args: &[String]| {
        if args[2] == "symbolic-ref" {
            Some(GitOutput { success: false, stdout: Vec::new() })
        } else {
            repository(args)
        }
    });
    assert_eq!((raw, asked), (GitRaw::default(), 2));
}

#[test]
fn read_raw_degrades_on_any_failure() {
    let no_merges = |args: &[String]| {
        if args.len() == 6 {
            None
        } else {
            repository(args)
        }
    };
    assert_eq!(drive("/work", &no_merges), (GitRaw::default(), 4));
    let no_diff = |args: &[String]| {
        if args[2] == "diff" {
            failed()
        } else {
            repository(args)
        }
    };
    assert_eq!(drive("/work", &no_diff), (GitRaw::default(), 5));
}

#[test]
fn read_raw_reads_malformed_counts_as_zero() {
    let odd = |args: &[String]| {
        if args[2] == "rev-list" {
            printed("many\n")
        } else {
            repository(args)
        }
    };
    let (raw, _) = drive("/work", &odd);
    assert_eq!(
        raw,
        GitRaw { commit_count: 0, merge_count: 0, churn: 12, files: 2, available: true }
    );
}
