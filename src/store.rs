use vstd::prelude::*;
use crate::types::ContextType;
use crate::cache::{cache_file_name, spec_cache_file_name};
use crate::fingerprint::{md5_hex, md5_hex_of, opt_view};
use crate::interaction::{flag_map, set_flag};

verus! {

/// Where the cache directory lies below the repository metadata directory.
pub const CACHE_SUBDIR: &'static str = "/git-ai/context-cache";
/// The metadata directory assumed when none was found.
pub const DEFAULT_GIT_DIR: &'static str = ".git";
/// File name of the file-hash store inside the cache directory.
pub const FILE_HASHES_NAME: &'static str = "/file_hashes.json";

/// Locates the per-category cache files.
#[derive(Clone, Debug)]
pub struct ContextCache {
    pub cache_dir: String,
}

impl ContextCache {
    /// The cache directory below the repository metadata directory (".git"
    /// where none was found).
    pub fn get_cache_dir(git_dir: Option<String>) -> (r: String)
        ensures
            r@ == (match git_dir {
                Some(d) => d@,
                None => DEFAULT_GIT_DIR@,
            }) + CACHE_SUBDIR@,
    {
        let mut d = match git_dir {
            Some(d) => d,
            None => DEFAULT_GIT_DIR.to_string(),
        };
        d.append(CACHE_SUBDIR);
        d
    }

    pub fn new(git_dir: Option<String>) -> (r: ContextCache)
        ensures
            r.cache_dir@ == (match git_dir {
                Some(d) => d@,
                None => DEFAULT_GIT_DIR@,
            }) + CACHE_SUBDIR@,
    {
        ContextCache { cache_dir: Self::get_cache_dir(git_dir) }
    }

    /// The file holding a category's entry.
    pub fn cache_file_path(&self, ct: ContextType) -> (r: String)
        ensures
            r@ == self.cache_dir@ + "/"@ + spec_cache_file_name(ct),
    {
        proof {
            reveal_strlit("/");
        }
        let mut p = self.cache_dir.clone();
        p.append("/");
        let name = cache_file_name(ct);
        p.append(name.as_str());
        p
    }
}

/// Summary of the cache directory's files; times are seconds since the epoch.
#[derive(Clone, Debug)]
pub struct CacheStats {
    pub total_files: u32,
    pub total_size: u64,
    pub oldest_entry: Option<i64>,
    pub newest_entry: Option<i64>,
}

pub open spec fn spec_size_sum(files: Seq<(u64, Option<i64>)>) -> int
    decreases files.len(),
{
    if files.len() == 0 { 0 } else { spec_size_sum(files.drop_last()) + files.last().0 }
}

/// Some file has a modification time.
pub open spec fn any_time(files: Seq<(u64, Option<i64>)>) -> bool {
    exists|k: int| 0 <= k < files.len() && (#[trigger] files[k]).1 is Some
}

/// Summarizes the cache files, each given as (size, modification time if known):
/// their number, total size, and earliest and latest modification times.
pub fn cache_stats(files: &Vec<(u64, Option<i64>)>) -> (r: CacheStats)
    requires
        files@.len() <= u32::MAX,
        spec_size_sum(files@) <= u64::MAX,
    ensures
        r.total_files == files@.len(),
        r.total_size == spec_size_sum(files@),
        r.oldest_entry is Some <==> any_time(files@),
        r.newest_entry is Some <==> any_time(files@),
        r.oldest_entry matches Some(t) ==> (forall|k: int| 0 <= k < files@.len() && files@[k].1 is Some
            ==> t <= #[trigger] files@[k].1->0) && exists|k: int| 0 <= k < files@.len() && files@[k].1 == Some(t),
        r.newest_entry matches Some(t) ==> (forall|k: int| 0 <= k < files@.len() && files@[k].1 is Some
            ==> #[trigger] files@[k].1->0 <= t) && exists|k: int| 0 <= k < files@.len() && files@[k].1 == Some(t),
{
    let mut total: u64 = 0;
    let mut oldest: Option<i64> = None;
    let mut newest: Option<i64> = None;
    let mut i: usize = 0;
    assert(files@.take(0) =~= Seq::<(u64, Option<i64>)>::empty());
    while i < files.len()
        invariant
            i <= files@.len(),
            spec_size_sum(files@) <= u64::MAX,
            total == spec_size_sum(files@.take(i as int)),
            oldest is Some <==> any_time(files@.take(i as int)),
            newest is Some <==> any_time(files@.take(i as int)),
            oldest matches Some(t) ==> (forall|k: int| 0 <= k < i && files@[k].1 is Some
                ==> t <= #[trigger] files@[k].1->0) && exists|k: int| 0 <= k < i && files@[k].1 == Some(t),
            newest matches Some(t) ==> (forall|k: int| 0 <= k < i && files@[k].1 is Some
                ==> #[trigger] files@[k].1->0 <= t) && exists|k: int| 0 <= k < i && files@[k].1 == Some(t),
        decreases files@.len() - i,
    {
        let ghost t1 = files@.take(i + 1);
        assert(t1.drop_last() =~= files@.take(i as int));
        proof {
            lemma_size_sum_prefix(files@, i + 1);
        }
        total = total + files[i].0;
        let ghost o0 = oldest;
        let ghost n0 = newest;
        if let Some(m) = files[i].1 {
            oldest = match oldest {
                Some(o) => if m < o { Some(m) } else { Some(o) },
                None => Some(m),
            };
            newest = match newest {
                Some(o) => if m > o { Some(m) } else { Some(o) },
                None => Some(m),
            };
            assert(t1[i as int].1 is Some);
            proof {
                let t = oldest->0;
                if oldest == Some(m) {
                    assert(files@[i as int].1 == Some(t));
                } else {
                    let k = choose|k: int| 0 <= k < i && files@[k].1 == Some(t);
                    assert(0 <= k < i + 1 && files@[k].1 == Some(t));
                }
                let u = newest->0;
                if newest == Some(m) {
                    assert(files@[i as int].1 == Some(u));
                } else {
                    let k = choose|k: int| 0 <= k < i && files@[k].1 == Some(u);
                    assert(0 <= k < i + 1 && files@[k].1 == Some(u));
                }
            }
        }
        proof {
            if let Some(t) = oldest {
                assert(o0 matches Some(t0) ==> t <= t0);
                assert forall|k: int| 0 <= k < i + 1 && files@[k].1 is Some implies t <= #[trigger] files@[k].1->0 by {
                    if k < i {
                        assert(files@.take(i as int)[k] == files@[k]);
                        assert(any_time(files@.take(i as int)));
                    }
                }
            }
            if let Some(u) = newest {
                assert(n0 matches Some(u0) ==> u0 <= u);
                assert forall|k: int| 0 <= k < i + 1 && files@[k].1 is Some implies #[trigger] files@[k].1->0 <= u by {
                    if k < i {
                        assert(files@.take(i as int)[k] == files@[k]);
                        assert(any_time(files@.take(i as int)));
                    }
                }
            }
        }
        assert(any_time(t1) <==> (any_time(files@.take(i as int)) || files@[i as int].1 is Some)) by {
            if any_time(t1) {
                let k = choose|k: int| 0 <= k < t1.len() && (#[trigger] t1[k]).1 is Some;
                if k < i {
                    assert(files@.take(i as int)[k] == t1[k]);
                }
            }
            if any_time(files@.take(i as int)) {
                let k = choose|k: int| 0 <= k < i && (#[trigger] files@.take(i as int)[k]).1 is Some;
                assert(t1[k] == files@.take(i as int)[k]);
            }
        }
        i = i + 1;
    }
    assert(files@.take(files@.len() as int) =~= files@);
    CacheStats { total_files: files.len() as u32, total_size: total, oldest_entry: oldest, newest_entry: newest }
}

proof fn lemma_size_sum_prefix(s: Seq<(u64, Option<i64>)>, k: int)
    requires
        0 <= k <= s.len(),
    ensures
        spec_size_sum(s.take(k)) <= spec_size_sum(s),
        spec_size_sum(s.take(k)) >= 0,
    decreases s.len() - k,
{
    if k < s.len() {
        lemma_size_sum_prefix(s, k + 1);
        assert(s.take(k + 1).drop_last() =~= s.take(k));
        lemma_size_sum_nonneg(s.take(k));
    } else {
        assert(s.take(k) =~= s);
        lemma_size_sum_nonneg(s);
    }
}

proof fn lemma_size_sum_nonneg(s: Seq<(u64, Option<i64>)>)
    ensures
        spec_size_sum(s) >= 0,
    decreases s.len(),
{
    if s.len() > 0 {
        lemma_size_sum_nonneg(s.drop_last());
    }
}

/// Content digests of tracked files, by path, with the time of the last update.
#[derive(Clone, Debug)]
pub struct FileHashMap {
    pub hashes: Vec<(String, String)>,
    pub last_updated: i64,
}

/// Decides file-based invalidation from stored and current digests.
#[derive(Clone, Debug)]
pub struct FileHashTracker {
    pub hash_file: String,
}

/// The lower-case hexadecimal MD5 digest of a file's bytes.
pub fn calculate_file_hash(contents: &[u8]) -> (r: String)
    ensures
        r@ == md5_hex_of(contents@),
{
    md5_hex(contents)
}

/// Whether a file has changed against the stored digests: a file that is gone
/// has changed if a digest was stored for it; an existing file has changed if
/// no digest was stored or the stored one differs.
pub open spec fn spec_file_changed(stored: Map<Seq<char>, Seq<char>>, path: Seq<char>, current: Option<Seq<char>>) -> bool {
    match current {
        None => stored.contains_key(path),
        Some(d) => !stored.contains_key(path) || stored[path] != d,
    }
}

impl FileHashTracker {
    pub fn new(cache_dir: String) -> (r: FileHashTracker)
        ensures
            r.hash_file@ == cache_dir@ + FILE_HASHES_NAME@,
    {
        let mut f = cache_dir;
        f.append(FILE_HASHES_NAME);
        FileHashTracker { hash_file: f }
    }

    /// The path of the hash store.
    pub fn hash_file_path(&self) -> (r: &str)
        ensures
            r@ == self.hash_file@,
    {
        self.hash_file.as_str()
    }

    /// Whether any of the files changed. `current` holds each file's path with
    /// its present digest, or `None` where the file no longer exists.
    pub fn files_changed(stored: &FileHashMap, current: &Vec<(String, Option<String>)>) -> (r: bool)
        ensures
            r == exists|k: int| 0 <= k < current@.len() && spec_file_changed(
                flag_map(stored.hashes@),
                current@[k].0@,
                opt_view(current@[k].1),
            ),
    {
        let mut i: usize = 0;
        while i < current.len()
            invariant
                i <= current@.len(),
                forall|k: int| 0 <= k < i ==> !spec_file_changed(
                    flag_map(stored.hashes@),
                    #[trigger] current@[k].0@,
                    opt_view(current@[k].1),
                ),
            decreases current@.len() - i,
        {
            let found = lookup_digest(&stored.hashes, &current[i].0);
            let changed = match &current[i].1 {
                None => found.is_some(),
                Some(d) => match &found {
                    None => true,
                    Some(s) => !d.eq(s),
                },
            };
            if changed {
                return true;
            }
            i = i + 1;
        }
        false
    }

    /// The store with each existing file's digest set, stamped at `now`;
    /// digests of files that are gone stay as they were.
    pub fn update_file_hashes(stored: &FileHashMap, current: &Vec<(String, Option<String>)>, now: i64) -> (r: FileHashMap)
        ensures
            r.last_updated == now,
            flag_map(r.hashes@) == spec_updated(flag_map(stored.hashes@), current@),
    {
        let mut hashes: Vec<(String, String)> = Vec::new();
        let mut j: usize = 0;
        while j < stored.hashes.len()
            invariant
                j <= stored.hashes@.len(),
                hashes@.len() == j,
                forall|q: int| 0 <= q < j ==> (#[trigger] hashes@[q]).0@ == stored.hashes@[q].0@
                    && hashes@[q].1@ == stored.hashes@[q].1@,
            decreases stored.hashes@.len() - j,
        {
            hashes.push((stored.hashes[j].0.clone(), stored.hashes[j].1.clone()));
            j = j + 1;
        }
        proof {
            lemma_flag_map_same_views(hashes@, stored.hashes@);
        }
        let mut i: usize = 0;
        assert(current@.take(0) =~= Seq::<(String, Option<String>)>::empty());
        while i < current.len()
            invariant
                i <= current@.len(),
                flag_map(hashes@) == spec_updated(flag_map(stored.hashes@), current@.take(i as int)),
            decreases current@.len() - i,
        {
            assert(current@.take(i + 1).drop_last() =~= current@.take(i as int));
            assert(current@.take(i + 1).last() == current@[i as int]);
            match &current[i].1 {
                Some(d) => {
                    hashes = set_flag(&hashes, current[i].0.clone(), d.clone());
                },
                None => {},
            }
            i = i + 1;
        }
        assert(current@.take(current@.len() as int) =~= current@);
        FileHashMap { hashes, last_updated: now }
    }
}

/// Whether `p` is among the texts of `v`.
pub open spec fn listed(v: Seq<String>, p: Seq<char>) -> bool {
    exists|k: int| 0 <= k < v.len() && (#[trigger] v[k])@ == p
}

fn is_listed(v: &Vec<String>, p: &String) -> (r: bool)
    ensures
        r == listed(v@, p@),
{
    let mut i: usize = 0;
    while i < v.len()
        invariant
            i <= v@.len(),
            forall|k: int| 0 <= k < i ==> (#[trigger] v@[k])@ != p@,
        decreases v@.len() - i,
    {
        if v[i].eq(p) {
            return true;
        }
        i = i + 1;
    }
    false
}

/// The digests of the files that still exist: the stored ones without those of
/// the `missing` paths. The result is to be saved, stamped at `now`, only when
/// digests remain; otherwise the store is left as it was.
pub fn cleanup_missing_files(stored: &FileHashMap, missing: &Vec<String>, now: i64) -> (r: (FileHashMap, bool))
    ensures
        forall|p: Seq<char>| #[trigger] flag_map(r.0.hashes@).contains_key(p) <==> (flag_map(stored.hashes@).contains_key(p) && !listed(missing@, p)),
        forall|p: Seq<char>| #[trigger] flag_map(r.0.hashes@).contains_key(p) ==> flag_map(r.0.hashes@)[p] == flag_map(stored.hashes@)[p],
        r.1 == (r.0.hashes@.len() > 0),
        r.0.last_updated == (if r.1 { now } else { stored.last_updated }),
{
    let mut kept: Vec<(String, String)> = Vec::new();
    let mut j: usize = 0;
    assert(stored.hashes@.take(0) =~= Seq::<(String, String)>::empty());
    while j < stored.hashes.len()
        invariant
            j <= stored.hashes@.len(),
            forall|p: Seq<char>| #[trigger] flag_map(kept@).contains_key(p) <==> (flag_map(stored.hashes@.take(j as int)).contains_key(p) && !listed(missing@, p)),
            forall|p: Seq<char>| #[trigger] flag_map(kept@).contains_key(p) ==> flag_map(kept@)[p] == flag_map(stored.hashes@.take(j as int))[p],
        decreases stored.hashes@.len() - j,
    {
        assert(stored.hashes@.take(j + 1).drop_last() =~= stored.hashes@.take(j as int));
        assert(stored.hashes@.take(j + 1).last() == stored.hashes@[j as int]);
        let k = stored.hashes[j].0.clone();
        let v = stored.hashes[j].1.clone();
        if !is_listed(missing, &k) {
            kept = set_flag(&kept, k, v);
        }
        j = j + 1;
    }
    assert(stored.hashes@.take(stored.hashes@.len() as int) =~= stored.hashes@);
    let save = kept.len() > 0;
    let last_updated = if save { now } else { stored.last_updated };
    (FileHashMap { hashes: kept, last_updated }, save)
}

/// The digests after recording each existing file's current digest.
pub open spec fn spec_updated(m: Map<Seq<char>, Seq<char>>, current: Seq<(String, Option<String>)>) -> Map<Seq<char>, Seq<char>>
    decreases current.len(),
{
    if current.len() == 0 {
        m
    } else {
        let prev = spec_updated(m, current.drop_last());
        match current.last().1 {
            Some(d) => prev.insert(current.last().0@, d@),
            None => prev,
        }
    }
}

proof fn lemma_flag_map_same_views(a: Seq<(String, String)>, b: Seq<(String, String)>)
    requires
        a.len() == b.len(),
        forall|q: int| 0 <= q < a.len() ==> (#[trigger] a[q]).0@ == b[q].0@ && a[q].1@ == b[q].1@,
    ensures
        flag_map(a) == flag_map(b),
    decreases a.len(),
{
    if a.len() > 0 {
        lemma_flag_map_same_views(a.drop_last(), b.drop_last());
    }
}

/// Pairs after index `i` that do not hold key `k` leave its entry as the
/// first `i` pairs give it.
proof fn lemma_flag_map_suffix(s: Seq<(String, String)>, i: int, k: Seq<char>)
    requires
        0 <= i <= s.len(),
        forall|j: int| i <= j < s.len() ==> (#[trigger] s[j]).0@ != k,
    ensures
        flag_map(s).contains_key(k) == flag_map(s.take(i)).contains_key(k),
        flag_map(s).contains_key(k) ==> flag_map(s)[k] == flag_map(s.take(i))[k],
    decreases s.len() - i,
{
    if i == s.len() {
        assert(s.take(i) =~= s);
    } else {
        lemma_flag_map_suffix(s, i + 1, k);
        assert(s.take(i + 1).drop_last() =~= s.take(i));
        assert(s.take(i + 1).last() == s[i]);
    }
}

/// The digest stored for a path, if any.
fn lookup_digest(hashes: &Vec<(String, String)>, path: &String) -> (r: Option<String>)
    ensures
        match r {
            Some(d) => flag_map(hashes@).contains_key(path@) && flag_map(hashes@)[path@] == d@,
            None => !flag_map(hashes@).contains_key(path@),
        },
{
    let mut i: usize = hashes.len();
    while i > 0
        invariant
            i <= hashes@.len(),
            forall|j: int| i <= j < hashes@.len() ==> (#[trigger] hashes@[j]).0@ != path@,
        decreases i,
    {
        if hashes[i - 1].0.eq(path) {
            proof {
                lemma_flag_map_suffix(hashes@, i as int, path@);
                assert(hashes@.take(i as int).drop_last() =~= hashes@.take(i - 1));
                assert(hashes@.take(i as int).last() == hashes@[i - 1]);
            }
            return Some(hashes[i - 1].1.clone());
        }
        i = i - 1;
    }
    proof {
        lemma_flag_map_suffix(hashes@, 0, path@);
        assert(hashes@.take(0) =~= Seq::<(String, String)>::empty());
    }
    None
}

} // verus!
