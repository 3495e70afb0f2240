use git_ai::branch::{branch_info, parse_ahead_behind, parse_numstat, parse_remote_urls, set_line_counts, tracking_status};
use git_ai::commands::{apply_context, base_prompt, commit_readiness, CommitReadiness};
use git_ai::log::parse_log;
use git_ai::providers::{diff_base_ranges, parse_is_bare, trimmed_output};
use git_ai::survey::recent_files;
use git_ai::text::split_lines;
use git_ai::status::{is_conflict, parse_status};
use git_ai::words::{parse_u32, words};

#[test]
fn unmerged_both_sides_sets_conflict_flag() {
    assert!(parse_status("UU conflict.txt\0").has_conflicts);
    assert!(is_conflict('U', 'U'));
    assert!(is_conflict('A', 'A'));
    assert!(is_conflict('D', 'D'));
    assert!(is_conflict('U', 'M'));
}

#[test]
fn modified_beside_blank_is_no_conflict() {
    assert!(!parse_status("M  file.txt\0").has_conflicts);
    assert!(!parse_status(" M file.txt\0").has_conflicts);
    assert!(!is_conflict('M', ' '));
    assert!(!is_conflict('A', 'D'));
}

#[test]
fn two_staged_one_untracked() {
    let st = parse_status("A  a.txt\0M  b.txt\0?? c.txt\0");
    assert_eq!(st.staged_files.len(), 2);
    assert_eq!(st.untracked_files.len(), 1);
    assert_eq!(st.unstaged_files.len(), 0);
    assert!(!st.is_clean);
    assert_eq!(st.staged_files[0].path, "a.txt");
    assert_eq!(st.staged_files[0].status, "A");
    assert_eq!(st.staged_files[1].status, "M");
    assert_eq!(st.untracked_files[0], "c.txt");
}

#[test]
fn both_columns_and_clean_listing() {
    let st = parse_status("MM both.rs\0 D gone.rs\0x\0");
    assert_eq!(st.staged_files.len(), 1);
    assert_eq!(st.unstaged_files.len(), 2);
    assert_eq!(st.unstaged_files[1].status, "D");
    let clean = parse_status("");
    assert!(clean.is_clean);
    assert!(!clean.has_conflicts);
}

#[test]
fn line_counts_from_numstat() {
    assert_eq!(parse_numstat("10\t5\tsrc/a.rs\n"), (Some(10), Some(5)));
    assert_eq!(parse_numstat("-\t-\timage.png\n"), (None, None));
    assert_eq!(parse_numstat(""), (None, None));
    assert_eq!(parse_numstat("3\n4 5\n"), (None, None));
    let mut st = parse_status("M  a.rs\0");
    set_line_counts(&mut st, true, 0, "7\t2\ta.rs\n");
    assert_eq!(st.staged_files[0].insertions, Some(7));
    assert_eq!(st.staged_files[0].deletions, Some(2));
    assert_eq!(st.staged_files[0].path, "a.rs");
}

#[test]
fn empty_history_gives_no_commits_and_a_branch() {
    assert!(parse_log("", 0).is_empty());
    let b = branch_info("main".to_string(), None, (4, 4));
    assert_eq!(b.current_branch, "main");
    assert_eq!(b.ahead, 0);
    assert_eq!(b.tracking_status, "No upstream");
}

#[test]
fn log_with_two_commits() {
    let out = "aaa|a|first subject|Ann|2024-01-02T03:04:05Z\nsrc/x.rs\nsrc/y.rs\n\nbbb|b|second|Bob|not a date\nREADME.md\n";
    let cs = parse_log(out, 99);
    assert_eq!(cs.len(), 2);
    assert_eq!(cs[0].hash, "aaa");
    assert_eq!(cs[0].short_hash, "a");
    assert_eq!(cs[0].message, "first subject");
    assert_eq!(cs[0].author, "Ann");
    assert_eq!(cs[0].date, 1704164645);
    assert_eq!(cs[0].files_changed, vec!["src/x.rs".to_string(), "src/y.rs".to_string()]);
    assert_eq!(cs[1].date, 99);
    assert_eq!(cs[1].files_changed, vec!["README.md".to_string()]);
}

#[test]
fn tracking_summaries() {
    assert_eq!(tracking_status(false, 1, 1), "No upstream");
    assert_eq!(tracking_status(true, 0, 0), "Up to date");
    assert_eq!(tracking_status(true, 3, 0), "Ahead by 3");
    assert_eq!(tracking_status(true, 0, 2), "Behind by 2");
    assert_eq!(tracking_status(true, 12, 305), "Ahead by 12, behind by 305");
    let b = branch_info("dev".to_string(), Some("origin/dev".to_string()), (3, 1));
    assert_eq!((b.ahead, b.behind), (3, 1));
    assert_eq!(b.tracking_status, "Ahead by 3, behind by 1");
}

#[test]
fn ahead_behind_counts() {
    assert_eq!(parse_ahead_behind("2\t3\n"), (3, 2));
    assert_eq!(parse_ahead_behind("x\t3\n"), (3, 0));
    assert_eq!(parse_ahead_behind("1 2 3"), (0, 0));
    assert_eq!(parse_ahead_behind(""), (0, 0));
}

#[test]
fn remote_urls_listed_once() {
    let out = "origin\thttps://e.com/r.git (fetch)\norigin\thttps://e.com/r.git (push)\nup\tgit@e.com:u/r.git (fetch)\n";
    assert_eq!(parse_remote_urls(out), vec!["https://e.com/r.git".to_string(), "git@e.com:u/r.git".to_string()]);
}

#[test]
fn numbers_and_words() {
    assert_eq!(parse_u32("42"), Some(42));
    assert_eq!(parse_u32("+7"), Some(7));
    assert_eq!(parse_u32("4294967295"), Some(4294967295));
    assert_eq!(parse_u32("4294967296"), None);
    assert_eq!(parse_u32(""), None);
    assert_eq!(parse_u32("1a"), None);
    assert_eq!(words("  a\tbb \n c "), vec!["a".to_string(), "bb".to_string(), "c".to_string()]);
}

#[test]
fn query_outputs() {
    assert!(parse_is_bare(Some("true\n")));
    assert!(!parse_is_bare(Some("false\n")));
    assert!(!parse_is_bare(None));
    assert_eq!(trimmed_output(Some(" Ann \n")).as_deref(), Some("Ann"));
}

#[test]
fn prompt_embedding_and_readiness() {
    assert_eq!(base_prompt("T", &Some("m".to_string())), "T\n\nUser context: m");
    assert_eq!(base_prompt("T", &None), "T");
    assert_eq!(apply_context("P", "{}"), "P\n\n--- CONTEXT ---\n{}\n--- END CONTEXT ---");
    assert_eq!(commit_readiness(&parse_status(" M a\0")), CommitReadiness::OnlyUnstaged);
    assert_eq!(commit_readiness(&parse_status("")), CommitReadiness::NothingToCommit);
    assert_eq!(commit_readiness(&parse_status("?? a\0")), CommitReadiness::Ready);
}

#[test]
fn trimming_uses_unicode_whitespace() {
    assert_eq!(trimmed_output(Some("\u{3000}\t x y \u{a0}\n")).as_deref(), Some("x y"));
    assert_eq!(trimmed_output(Some(" \n ")).as_deref(), Some(""));
    assert!(parse_is_bare(Some("\u{2003}true")));
}

#[test]
fn diff_base_order() {
    assert_eq!(diff_base_ranges(Some("origin/dev".to_string()), true, true), vec!["origin/dev..HEAD".to_string()]);
    assert_eq!(diff_base_ranges(None, true, true), vec!["main..HEAD".to_string(), "master..HEAD".to_string()]);
    assert_eq!(diff_base_ranges(None, false, true), vec!["master..HEAD".to_string()]);
    assert!(diff_base_ranges(None, false, false).is_empty());
}

#[test]
fn carriage_returns_before_line_feeds_are_dropped() {
    assert_eq!(split_lines("a\r\nb\r"), vec!["a".to_string(), "b\r".to_string()]);
    let cs = parse_log("h|s|subj|me|x\r\nsrc/a.rs\r\n", 0);
    assert_eq!(cs[0].files_changed, vec!["src/a.rs".to_string()]);
    assert_eq!(recent_files("x.rs\r\ny.rs\r\nx.rs\n"), vec!["x.rs".to_string(), "y.rs".to_string()]);
}
