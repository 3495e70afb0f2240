use git_ai::bundle::ContextBundle;
use git_ai::cache::{entry_is_valid, expiry_time, is_cacheable, lookup, new_entry, CacheEntry, CacheLookup, StoredEntry};
use git_ai::fingerprint::Fingerprint;
use git_ai::gather::{empty_agent, FailureOutcome, GatherStep, Gathering};
use git_ai::interaction::InteractionContextProvider;
use git_ai::store::{cache_stats, cleanup_missing_files, calculate_file_hash, ContextCache, FileHashMap, FileHashTracker};
use git_ai::types::{ContextData, ContextType, ExecutionMetadata};

fn fp(commit: &str, tree: &str) -> Fingerprint {
    Fingerprint { commit: Some(commit.to_string()), working_tree: Some(tree.to_string()) }
}

fn agent_entry(commit: &str, tree: &str, now: i64) -> CacheEntry {
    new_entry(ContextType::Agent, empty_agent(), fp(commit, tree), now)
}

fn metadata(ts: i64) -> ExecutionMetadata {
    ExecutionMetadata {
        timestamp: ts,
        working_directory: "/w".to_string(),
        git_ai_version: "0.1.0".to_string(),
        cursor_agent_version: None,
    }
}

#[test]
fn repeated_get_returns_the_same_snapshot() {
    let e = agent_entry("abc123", "d1", 1000);
    let live = fp("abc123", "d1");
    let first = lookup(StoredEntry::Present(e.clone()), &live, 1010);
    let second = lookup(StoredEntry::Present(e), &live, 1020);
    match (first, second) {
        (CacheLookup::Hit(ContextData::Agent(a)), CacheLookup::Hit(ContextData::Agent(b))) => {
            assert_eq!(a.rules, b.rules);
            assert_eq!(a.config_files.len(), b.config_files.len());
        }
        _ => panic!("both lookups should hit"),
    }
}

#[test]
fn new_commit_rejects_cached_repository_state() {
    let e = new_entry(ContextType::Git, empty_agent(), fp("abc123", "d1"), 0);
    let r = lookup(StoredEntry::Present(e), &fp("def456", "d1"), 10);
    assert!(matches!(r, CacheLookup::Miss { discard: true }));
}

#[test]
fn working_tree_change_rejects_entry_with_old_digest() {
    let before = Fingerprint::from_outputs(Some("abc123\n"), Some("A  a.txt\n"));
    let after = Fingerprint::from_outputs(Some("abc123\n"), Some("A  a.txt\n?? new.txt\n"));
    assert_ne!(before.working_tree, after.working_tree);
    let e = new_entry(ContextType::Project, empty_agent(), before, 0);
    assert!(matches!(lookup(StoredEntry::Present(e), &after, 1), CacheLookup::Miss { discard: true }));
}

#[test]
fn untracked_file_changes_digest_and_misses() {
    let e = agent_entry("abc123", "d1", 0);
    let r = lookup(StoredEntry::Present(e), &fp("abc123", "d2"), 5);
    assert!(matches!(r, CacheLookup::Miss { discard: true }));
}

#[test]
fn one_day_entry_valid_just_before_and_rejected_just_after() {
    let now = 1_700_000_000;
    let e = agent_entry("h", "t", now);
    assert_eq!(e.expires_at, Some(now + 24 * 3600));
    let live = fp("h", "t");
    assert!(entry_is_valid(&e, &live, now + 24 * 3600 - 1));
    assert!(!entry_is_valid(&e, &live, now + 24 * 3600));
    assert!(!entry_is_valid(&e, &live, now + 24 * 3600 + 1));
    assert!(matches!(lookup(StoredEntry::Present(e), &live, now + 24 * 3600 + 1), CacheLookup::Miss { discard: true }));
}

#[test]
fn expiry_per_category() {
    assert_eq!(expiry_time(ContextType::Git, 100), Some(400));
    assert_eq!(expiry_time(ContextType::Project, 100), Some(3700));
    assert_eq!(expiry_time(ContextType::Agent, 100), Some(86500));
    assert_eq!(expiry_time(ContextType::Interaction, 100), None);
    assert!(!is_cacheable(ContextType::Interaction));
    assert!(is_cacheable(ContextType::Git));
}

#[test]
fn missing_and_unreadable_entries_are_misses() {
    let live = fp("a", "b");
    assert!(matches!(lookup(StoredEntry::Missing, &live, 0), CacheLookup::Miss { discard: false }));
    assert!(matches!(lookup(StoredEntry::Unreadable, &live, 0), CacheLookup::Miss { discard: true }));
}

#[test]
fn fingerprint_trims_head_and_digests_status() {
    let f = Fingerprint::from_outputs(Some("  abc123\n"), Some(""));
    assert_eq!(f.commit.as_deref(), Some("abc123"));
    assert_eq!(f.working_tree.as_deref(), Some("d41d8cd98f00b204e9800998ecf8427e"));
    let none = Fingerprint::from_outputs(None, None);
    assert!(none.commit.is_none() && none.working_tree.is_none());
}

fn run_gather(cmd: &str, ts: i64) -> ContextBundle {
    let mut g = Gathering::new(vec![ContextType::Interaction, ContextType::Agent], Some(cmd.to_string()), ts);
    loop {
        match g.next_step() {
            GatherStep::RecordInvocation { command } => {
                let rec = match command {
                    Some(c) => InteractionContextProvider::with_command(c),
                    None => InteractionContextProvider::new(),
                };
                let store = g.accept_fresh(rec.record(metadata(ts)));
                assert!(!store);
            }
            GatherStep::ConsultCache(ct) => {
                assert_eq!(ct, ContextType::Agent);
                let cached = agent_entry("h", "t", 0);
                let found = lookup(StoredEntry::Present(cached), &fp("h", "t"), 1);
                assert!(g.accept_lookup(found).is_none());
            }
            GatherStep::Finish => break,
        }
    }
    g.finish(Some(fp("h", "t")))
}

#[test]
fn each_gather_records_invocation_afresh() {
    let first = run_gather("commit", 10);
    let second = run_gather("pr", 20);
    match (first.get(ContextType::Interaction), second.get(ContextType::Interaction)) {
        (Some(ContextData::Interaction(a)), Some(ContextData::Interaction(b))) => {
            assert_eq!(a.command, "commit");
            assert_eq!(a.execution_metadata.timestamp, 10);
            assert_eq!(b.command, "pr");
            assert_eq!(b.execution_metadata.timestamp, 20);
        }
        _ => panic!("invocation snapshots missing"),
    }
    assert!(first.has(ContextType::Agent));
    assert!(!first.has(ContextType::Git));
    assert_eq!(first.git_hash.as_deref(), Some("h"));
    assert_eq!(first.working_tree_hash.as_deref(), Some("t"));
}

#[test]
fn cache_miss_asks_for_the_provider_and_failures_follow_category() {
    let mut g = Gathering::new(vec![ContextType::Project, ContextType::Git], None, 0);
    match g.next_step() {
        GatherStep::ConsultCache(ct) => assert_eq!(ct, ContextType::Project),
        _ => panic!("expected a cache consultation"),
    }
    assert_eq!(g.accept_lookup(CacheLookup::Miss { discard: false }), Some(ContextType::Project));
    assert_eq!(g.accept_failure(), FailureOutcome::Degraded);
    assert!(matches!(g.next_step(), GatherStep::ConsultCache(ContextType::Git)));
    assert_eq!(g.accept_failure(), FailureOutcome::Abort(ContextType::Git));
    let b = g.finish(None);
    assert!(b.has(ContextType::Project));
    assert!(b.git_hash.is_none());
}

#[test]
fn recorder_without_command_says_unknown_and_flags_replace() {
    let rec = InteractionContextProvider::new()
        .with_message(Some("hi".to_string()))
        .with_flag("a".to_string(), "1".to_string())
        .with_flags(vec![("a".to_string(), "2".to_string()), ("b".to_string(), "3".to_string())]);
    match rec.record(metadata(5)) {
        ContextData::Interaction(ic) => {
            assert_eq!(ic.command, "unknown");
            assert_eq!(ic.user_message.as_deref(), Some("hi"));
            let a: Vec<_> = ic.flags.iter().filter(|(k, _)| k == "a").collect();
            assert_eq!(a.len(), 1);
            assert_eq!(a[0].1, "2");
            assert!(ic.flags.iter().any(|(k, v)| k == "b" && v == "3"));
        }
        _ => panic!("expected invocation snapshot"),
    }
}

#[test]
fn cache_file_locations() {
    let c = ContextCache::new(Some("/repo/.git".to_string()));
    assert_eq!(c.cache_dir, "/repo/.git/git-ai/context-cache");
    assert_eq!(c.cache_file_path(ContextType::Git), "/repo/.git/git-ai/context-cache/git.json");
    assert_eq!(ContextCache::get_cache_dir(None), ".git/git-ai/context-cache");
    let t = FileHashTracker::new("cache".to_string());
    assert_eq!(t.hash_file_path(), "cache/file_hashes.json");
}

#[test]
fn test_file_hash_tracker() {
    let path = "test.txt".to_string();
    let h1 = calculate_file_hash(b"hello world");
    assert_eq!(h1, "5eb63bbbe01eeed093cb22bb8f5acdc3");
    let empty = FileHashMap { hashes: vec![], last_updated: 0 };
    let current = vec![(path.clone(), Some(h1.clone()))];
    assert!(FileHashTracker::files_changed(&empty, &current));
    let updated = FileHashTracker::update_file_hashes(&empty, &current, 7);
    assert_eq!(updated.last_updated, 7);
    assert!(!FileHashTracker::files_changed(&updated, &current));
    let h2 = calculate_file_hash(b"hello world modified");
    assert_ne!(h1, h2);
    assert!(FileHashTracker::files_changed(&updated, &vec![(path.clone(), Some(h2))]));
    assert!(FileHashTracker::files_changed(&updated, &vec![(path, None)]));
    assert!(!FileHashTracker::files_changed(&empty, &vec![("gone".to_string(), None)]));
}

#[test]
fn cache_statistics() {
    let s = cache_stats(&vec![(10, Some(50)), (5, None), (7, Some(20)), (1, Some(90))]);
    assert_eq!(s.total_files, 4);
    assert_eq!(s.total_size, 23);
    assert_eq!(s.oldest_entry, Some(20));
    assert_eq!(s.newest_entry, Some(90));
    let e = cache_stats(&vec![]);
    assert_eq!((e.total_files, e.total_size, e.oldest_entry, e.newest_entry), (0, 0, None, None));
}

#[test]
fn digests_of_missing_files_are_dropped() {
    let stored = FileHashMap {
        hashes: vec![("a".to_string(), "1".to_string()), ("b".to_string(), "2".to_string())],
        last_updated: 3,
    };
    let (kept, save) = cleanup_missing_files(&stored, &vec!["a".to_string()], 9);
    assert!(save);
    assert_eq!(kept.hashes, vec![("b".to_string(), "2".to_string())]);
    assert_eq!(kept.last_updated, 9);
    let (none, save) = cleanup_missing_files(&stored, &vec!["a".to_string(), "b".to_string()], 9);
    assert!(!save);
    assert!(none.hashes.is_empty());
    assert_eq!(none.last_updated, 3);
}
