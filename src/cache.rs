use vstd::prelude::*;
use crate::types::{ContextData, ContextType};
use crate::fingerprint::{Fingerprint, opt_view, same_text};

verus! {

/// Seconds that a repository-state entry stays fresh.
pub const GIT_TTL_SECONDS: i64 = 300;
/// Seconds that a project-structure entry stays fresh.
pub const PROJECT_TTL_SECONDS: i64 = 3600;
/// Seconds that a tool-configuration entry stays fresh.
pub const AGENT_TTL_SECONDS: i64 = 86400;
/// The latest time (seconds since the epoch) at which an entry can be stamped,
/// so that every expiry time fits in an `i64`.
pub const MAX_STORE_TIME: i64 = 9_223_372_036_854_000_000;

/// A persisted snapshot with the repository state and times it was stored under.
/// Times are seconds since the Unix epoch; `expires_at` is `None` for an entry
/// that never expires by time.
#[derive(Clone, Debug)]
pub struct CacheEntry {
    pub data: ContextData,
    pub git_commit_hash: Option<String>,
    pub working_tree_hash: Option<String>,
    pub created_at: i64,
    pub expires_at: Option<i64>,
}

/// What reading a category's cache file gave.
#[derive(Clone, Debug)]
pub enum StoredEntry {
    /// There is no cache file.
    Missing,
    /// The file exists but could not be read or parsed.
    Unreadable,
    /// The file held this entry.
    Present(CacheEntry),
}

/// The answer of a cache lookup.
#[derive(Clone, Debug)]
pub enum CacheLookup {
    /// The entry is valid: its snapshot.
    Hit(ContextData),
    /// No usable entry; `discard` asks for the cache file to be deleted.
    Miss { discard: bool },
}

/// Time-to-live of each category's entries; `None`: the category is never stored.
pub open spec fn spec_ttl(ct: ContextType) -> Option<int> {
    match ct {
        ContextType::Git => Some(300),
        ContextType::Project => Some(3600),
        ContextType::Agent => Some(86400),
        ContextType::Interaction => None,
    }
}

/// Whether snapshots of the category are written to the cache at all.
pub open spec fn spec_is_cacheable(ct: ContextType) -> bool {
    ct != ContextType::Interaction
}

/// An entry is valid while the time is before its expiry (if it has one) and
/// both stored fingerprints equal the live ones.
pub open spec fn spec_entry_valid(e: CacheEntry, live: Fingerprint, now: int) -> bool {
    &&& (e.expires_at matches Some(t) ==> now < t)
    &&& opt_view(e.git_commit_hash) == opt_view(live.commit)
    &&& opt_view(e.working_tree_hash) == opt_view(live.working_tree)
}

/// The lookup that a stored entry, the live fingerprint and the time give.
pub open spec fn spec_lookup(stored: StoredEntry, live: Fingerprint, now: int) -> CacheLookup {
    match stored {
        StoredEntry::Missing => CacheLookup::Miss { discard: false },
        StoredEntry::Unreadable => CacheLookup::Miss { discard: true },
        StoredEntry::Present(e) => if spec_entry_valid(e, live, now) {
            CacheLookup::Hit(e.data)
        } else {
            CacheLookup::Miss { discard: true }
        },
    }
}

/// The expiry time assigned to an entry of `ct` stored at `now`.
pub open spec fn spec_expiry(ct: ContextType, now: int) -> Option<int> {
    match spec_ttl(ct) {
        Some(d) => Some(now + d),
        None => None,
    }
}

/// The name of a category's cache file: its lower-cased name and ".json".
pub open spec fn spec_cache_file_name(ct: ContextType) -> Seq<char> {
    match ct {
        ContextType::Git => "git.json"@,
        ContextType::Project => "project.json"@,
        ContextType::Agent => "agent.json"@,
        ContextType::Interaction => "interaction.json"@,
    }
}

/// Whether snapshots of the category are written to the cache; invocation
/// metadata never is.
pub fn is_cacheable(ct: ContextType) -> (r: bool)
    ensures
        r == spec_is_cacheable(ct),
{
    !matches!(ct, ContextType::Interaction)
}

/// The expiry time for an entry of `ct` stored at `now`: five minutes for
/// repository state, one hour for project structure, a day for tool
/// configuration, and none for invocation metadata.
pub fn expiry_time(ct: ContextType, now: i64) -> (r: Option<i64>)
    requires
        now <= MAX_STORE_TIME,
    ensures
        match r {
            Some(t) => spec_expiry(ct, now as int) == Some(t as int),
            None => spec_expiry(ct, now as int) is None,
        },
{
    match ct {
        ContextType::Git => Some(now + GIT_TTL_SECONDS),
        ContextType::Project => Some(now + PROJECT_TTL_SECONDS),
        ContextType::Agent => Some(now + AGENT_TTL_SECONDS),
        ContextType::Interaction => None,
    }
}

/// The file name under which a category's entry is kept.
pub fn cache_file_name(ct: ContextType) -> (r: String)
    ensures
        r@ == spec_cache_file_name(ct),
{
    proof {
        reveal_strlit("git.json");
        reveal_strlit("project.json");
        reveal_strlit("agent.json");
        reveal_strlit("interaction.json");
    }
    match ct {
        ContextType::Git => "git.json".to_string(),
        ContextType::Project => "project.json".to_string(),
        ContextType::Agent => "agent.json".to_string(),
        ContextType::Interaction => "interaction.json".to_string(),
    }
}

/// The entry to persist for a fresh snapshot of `ct`, stamped with the live
/// fingerprint and the time.
pub fn new_entry(ct: ContextType, data: ContextData, live: Fingerprint, now: i64) -> (r: CacheEntry)
    requires
        now <= MAX_STORE_TIME,
    ensures
        r.data == data,
        opt_view(r.git_commit_hash) == opt_view(live.commit),
        opt_view(r.working_tree_hash) == opt_view(live.working_tree),
        r.created_at == now,
        match r.expires_at {
            Some(t) => spec_expiry(ct, now as int) == Some(t as int),
            None => spec_expiry(ct, now as int) is None,
        },
{
    let expires_at = expiry_time(ct, now);
    CacheEntry {
        data,
        git_commit_hash: live.commit,
        working_tree_hash: live.working_tree,
        created_at: now,
        expires_at,
    }
}

/// Whether the entry may still be used at `now` under the live fingerprint.
pub fn entry_is_valid(e: &CacheEntry, live: &Fingerprint, now: i64) -> (r: bool)
    ensures
        r == spec_entry_valid(*e, *live, now as int),
{
    if let Some(t) = e.expires_at {
        if now >= t {
            return false;
        }
    }
    if !same_text(&e.git_commit_hash, &live.commit) {
        return false;
    }
    same_text(&e.working_tree_hash, &live.working_tree)
}

/// Decides a cache read: a valid entry's snapshot is returned; an unreadable,
/// expired or mismatched entry is a miss that asks for the file to be deleted;
/// no file is a plain miss.
pub fn lookup(stored: StoredEntry, live: &Fingerprint, now: i64) -> (r: CacheLookup)
    ensures
        r == spec_lookup(stored, *live, now as int),
{
    match stored {
        StoredEntry::Missing => CacheLookup::Miss { discard: false },
        StoredEntry::Unreadable => CacheLookup::Miss { discard: true },
        StoredEntry::Present(e) => {
            if entry_is_valid(&e, live, now) {
                CacheLookup::Hit(e.data)
            } else {
                CacheLookup::Miss { discard: true }
            }
        },
    }
}

/// Reading an entry twice for an unchanged repository gives the same snapshot:
/// if a lookup hits, a later lookup of the same entry under the same
/// fingerprint, at a time still within its expiry, hits with the same data.
pub proof fn lemma_lookup_idempotent(e: CacheEntry, live: Fingerprint, now1: int, now2: int)
    requires
        spec_lookup(StoredEntry::Present(e), live, now1) is Hit,
        now1 <= now2,
        e.expires_at matches Some(t) ==> now2 < t,
    ensures
        spec_lookup(StoredEntry::Present(e), live, now2) == spec_lookup(
            StoredEntry::Present(e),
            live,
            now1,
        ),
        spec_lookup(StoredEntry::Present(e), live, now2) == CacheLookup::Hit(e.data),
{
}

/// A new head commit invalidates an entry stored under the previous one.
pub proof fn lemma_new_commit_invalidates(e: CacheEntry, live: Fingerprint, now: int)
    requires
        opt_view(e.git_commit_hash) != opt_view(live.commit),
    ensures
        spec_lookup(StoredEntry::Present(e), live, now) == (CacheLookup::Miss { discard: true }),
{
}

/// A changed working-tree digest invalidates an entry keyed to the old digest.
pub proof fn lemma_tree_change_invalidates(e: CacheEntry, live: Fingerprint, now: int)
    requires
        opt_view(e.working_tree_hash) != opt_view(live.working_tree),
    ensures
        spec_lookup(StoredEntry::Present(e), live, now) == (CacheLookup::Miss { discard: true }),
{
}

/// An entry stored with a one-day expiry under the live fingerprint is valid
/// one second before the expiry and rejected one second after it.
pub proof fn lemma_expiry_boundary(e: CacheEntry, live: Fingerprint, stored_at: int)
    requires
        e.expires_at == Some((stored_at + 86400) as i64),
        stored_at + 86400 <= i64::MAX,
        stored_at >= i64::MIN,
        opt_view(e.git_commit_hash) == opt_view(live.commit),
        opt_view(e.working_tree_hash) == opt_view(live.working_tree),
    ensures
        spec_lookup(StoredEntry::Present(e), live, stored_at + 86400 - 1) == CacheLookup::Hit(e.data),
        spec_lookup(StoredEntry::Present(e), live, stored_at + 86400 + 1) == (CacheLookup::Miss {
            discard: true,
        }),
{
}

/// Tool-configuration entries are given exactly a one-day expiry.
pub proof fn lemma_agent_expiry_is_one_day(now: int)
    ensures
        spec_expiry(ContextType::Agent, now) == Some(now + 86400),
{
}

} // verus!
