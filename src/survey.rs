use vstd::prelude::*;
use crate::types::{ContextData, ProjectContext};
use crate::text::{chars_of, split_on, split_text, split_lines, spec_lines, owned};
use crate::rules::{same_str, texts};
use crate::agent::{extension_of, file_name_of, last_index};
use crate::words::{push_decimal, decimal_text};

verus! {

/// Largest dependency manifest, in bytes, whose content is included.
pub const MAX_DEPENDENCY_FILE_BYTES: usize = 50_000;
/// Most entries listed in the rendered directory tree.
pub const MAX_TREE_ENTRIES: usize = 50;
/// Most recently changed files listed.
pub const MAX_RECENT_FILES: usize = 20;
/// Depth to which the directory tree descends.
pub const TREE_DEPTH: usize = 3;

pub open spec fn starts_with(s: Seq<char>, p: Seq<char>) -> bool {
    p.len() <= s.len() && s.take(p.len() as int) == p
}

pub open spec fn ends_with(s: Seq<char>, p: Seq<char>) -> bool {
    p.len() <= s.len() && s.subrange(s.len() - p.len(), s.len() as int) == p
}

/// Whether a file matches a manifest pattern. A pattern with a single '*'
/// matches a path that starts with the text before it and ends with the text
/// after it; any other pattern matches a file whose name is the pattern or
/// whose path ends with it.
pub open spec fn spec_pattern_matches(path: Seq<char>, pattern: Seq<char>) -> bool {
    let parts = split_on(pattern, '*');
    if parts.len() == 2 {
        starts_with(path, parts[0]) && ends_with(path, parts[1])
    } else {
        file_name_of(path) == pattern || ends_with(path, pattern)
    }
}

pub fn starts_with_str(s: &str, p: &str) -> (r: bool)
    ensures
        r == starts_with(s@, p@),
{
    let a = chars_of(s);
    let b = chars_of(p);
    if b.len() > a.len() {
        return false;
    }
    let mut k: usize = 0;
    while k < b.len()
        invariant
            a@ == s@,
            b@ == p@,
            b@.len() <= a@.len(),
            k <= b@.len(),
            forall|q: int| 0 <= q < k ==> a@[q] == b@[q],
        decreases b@.len() - k,
    {
        if a[k] != b[k] {
            assert(a@.take(b@.len() as int)[k as int] != b@[k as int]);
            return false;
        }
        k = k + 1;
    }
    assert(a@.take(b@.len() as int) =~= b@);
    true
}

pub fn ends_with_str(s: &str, p: &str) -> (r: bool)
    ensures
        r == ends_with(s@, p@),
{
    let a = chars_of(s);
    let b = chars_of(p);
    if b.len() > a.len() {
        return false;
    }
    let alen = a.len();
    let off = alen - b.len();
    let mut k: usize = 0;
    while k < b.len()
        invariant
            a@ == s@,
            b@ == p@,
            off + b@.len() == a@.len(),
            a@.len() <= usize::MAX,
            k <= b@.len(),
            forall|q: int| 0 <= q < k ==> a@[off + q] == b@[q],
        decreases b@.len() - k,
    {
        if a[off + k] != b[k] {
            assert(a@.subrange(off as int, a@.len() as int)[k as int] != b@[k as int]);
            return false;
        }
        k = k + 1;
    }
    assert(a@.subrange(off as int, a@.len() as int) =~= b@);
    true
}

/// The last component of a path.
pub fn file_name(path: &str) -> (r: String)
    ensures
        r@ == file_name_of(path@),
{
    let p = chars_of(path);
    let plen = p.len();
    let mut i: usize = plen;
    assert(p@.take(i as int) =~= p@);
    while i > 0 && p[i - 1] != '/'
        invariant
            i <= p@.len(),
            last_index(p@, '/') == last_index(p@.take(i as int), '/'),
        decreases i,
    {
        assert(p@.take(i as int).drop_last() =~= p@.take(i - 1));
        i = i - 1;
    }
    if i == 0 {
        assert(p@.take(0) =~= Seq::<char>::empty());
    } else {
        assert(p@.take(i as int).last() == p@[i - 1]);
    }
    assert(last_index(p@, '/') + 1 == i);
    crate::text::string_of_range(&p, i, plen)
}

/// Whether a file matches a manifest pattern.
pub fn pattern_matches(path: &str, pattern: &str) -> (r: bool)
    ensures
        r == spec_pattern_matches(path@, pattern@),
{
    let parts = split_text(pattern, '*');
    assert(parts@.len() == split_on(pattern@, '*').len());
    if parts.len() == 2 {
        assert(parts@[0]@ == split_on(pattern@, '*')[0]);
        assert(parts@[1]@ == split_on(pattern@, '*')[1]);
        starts_with_str(path, parts[0].as_str()) && ends_with_str(path, parts[1].as_str())
    } else {
        let name = file_name(path);
        same_str(name.as_str(), pattern) || ends_with_str(path, pattern)
    }
}

/// Whether a file matches any of the manifest patterns.
pub open spec fn spec_is_dependency_file(path: Seq<char>, patterns: Seq<Seq<char>>) -> bool {
    exists|k: int| 0 <= k < patterns.len() && spec_pattern_matches(path, #[trigger] patterns[k])
}

pub fn is_dependency_file(path: &str, patterns: &Vec<String>) -> (r: bool)
    ensures
        r == spec_is_dependency_file(path@, texts(patterns@)),
{
    let mut k: usize = 0;
    while k < patterns.len()
        invariant
            k <= patterns@.len(),
            forall|q: int| 0 <= q < k ==> !spec_pattern_matches(path@, #[trigger] texts(patterns@)[q]),
        decreases patterns@.len() - k,
    {
        if pattern_matches(path, patterns[k].as_str()) {
            assert(texts(patterns@)[k as int] == patterns@[k as int]@);
            return true;
        }
        assert(texts(patterns@)[k as int] == patterns@[k as int]@);
        k = k + 1;
    }
    false
}

/// Whether a manifest's content, of `byte_len` bytes, is included: files over
/// the cap are skipped whole, never truncated.
pub fn within_size_cap(byte_len: usize) -> (r: bool)
    ensures
        r == (byte_len <= MAX_DEPENDENCY_FILE_BYTES),
{
    byte_len <= MAX_DEPENDENCY_FILE_BYTES
}

/// The (path, content) entry a file contributes to the manifest listing: only a
/// file that matches a pattern and whose content is within the cap has one.
pub fn dependency_entry(path: &str, content: &str, patterns: &Vec<String>) -> (r: Option<(String, String)>)
    ensures
        match r {
            Some(e) => e.0@ == path@ && e.1@ == content@ && spec_is_dependency_file(path@, texts(patterns@))
                && content.len() <= MAX_DEPENDENCY_FILE_BYTES,
            None => !spec_is_dependency_file(path@, texts(patterns@))
                || content.len() > MAX_DEPENDENCY_FILE_BYTES,
        },
{
    if is_dependency_file(path, patterns) && within_size_cap(content.len()) {
        Some((owned(path), owned(content)))
    } else {
        None
    }
}

/// The key under which a file is counted: its extension, or "no_extension".
pub open spec fn spec_extension_key(path: Seq<char>) -> Seq<char> {
    match extension_of(path) {
        Some(e) => e,
        None => "no_extension"@,
    }
}

/// Number of paths in `v` counted under `key`.
pub open spec fn count_key(v: Seq<Seq<char>>, key: Seq<char>) -> nat
    decreases v.len(),
{
    if v.len() == 0 {
        0
    } else {
        count_key(v.drop_last(), key) + (if spec_extension_key(v.last()) == key { 1nat } else { 0nat })
    }
}

/// The counts as a map from key to count.
pub open spec fn count_map(v: Seq<(String, u32)>) -> Map<Seq<char>, nat>
    decreases v.len(),
{
    if v.len() == 0 {
        Map::empty()
    } else {
        count_map(v.drop_last()).insert(v.last().0@, v.last().1 as nat)
    }
}

/// The extension key of a path.
pub fn extension_key(path: &str) -> (r: String)
    ensures
        r@ == spec_extension_key(path@),
{
    proof {
        reveal_strlit("no_extension");
    }
    let p = chars_of(path);
    let plen = p.len();
    let name = file_name(path);
    let nc = chars_of(name.as_str());
    let mut d: usize = nc.len();
    assert(nc@.take(d as int) =~= nc@);
    while d > 0 && nc[d - 1] != '.'
        invariant
            d <= nc@.len(),
            last_index(nc@, '.') == last_index(nc@.take(d as int), '.'),
        decreases d,
    {
        assert(nc@.take(d as int).drop_last() =~= nc@.take(d - 1));
        d = d - 1;
    }
    if d == 0 {
        assert(nc@.take(0) =~= Seq::<char>::empty());
    } else {
        assert(nc@.take(d as int).last() == nc@[d - 1]);
    }
    assert(last_index(nc@, '.') + 1 == d);
    if d >= 2 && !same_str(name.as_str(), "..") {
        crate::text::string_of_range(&nc, d, nc.len())
    } else {
        proof {
            if d == 0 {
                assert(nc@.take(0) =~= Seq::<char>::empty());
            }
        }
        "no_extension".to_string()
    }
}

/// Adds one file under `key` to the counts.
fn bump(counts: &Vec<(String, u32)>, key: String) -> (r: Vec<(String, u32)>)
    requires
        forall|k: Seq<char>| count_map(counts@).contains_key(k) ==> count_map(counts@)[k] < u32::MAX,
    ensures
        count_map(r@) == count_map(counts@).insert(
            key@,
            if count_map(counts@).contains_key(key@) { count_map(counts@)[key@] + 1 } else { 1 },
        ),
{
    let mut out: Vec<(String, u32)> = Vec::new();
    let mut found: u32 = 0;
    let mut j: usize = 0;
    while j < counts.len()
        invariant
            j <= counts@.len(),
            count_map(out@) == count_map(counts@.take(j as int)).remove(key@),
            found as nat == (if count_map(counts@.take(j as int)).contains_key(key@) {
                count_map(counts@.take(j as int))[key@]
            } else {
                0
            }),
            forall|k: Seq<char>| count_map(counts@).contains_key(k) ==> count_map(counts@)[k] < u32::MAX,
        decreases counts@.len() - j,
    {
        assert(counts@.take(j + 1).drop_last() =~= counts@.take(j as int));
        let ghost before = out@;
        let k = counts[j].0.clone();
        let c = counts[j].1;
        if !k.eq(&key) {
            out.push((k, c));
            assert(out@.drop_last() =~= before);
            assert(count_map(out@) =~= count_map(counts@.take(j + 1)).remove(key@));
        } else {
            found = c;
            assert(count_map(counts@.take(j + 1)).remove(key@) =~= count_map(counts@.take(j as int)).remove(key@));
        }
        j = j + 1;
    }
    assert(counts@.take(counts@.len() as int) =~= counts@);
    let n = if found > 0 { found + 1 } else { 1 };
    let ghost before = out@;
    out.push((key, n));
    assert(out@.drop_last() =~= before);
    assert(count_map(out@) =~= count_map(counts@).insert(
        key@,
        if count_map(counts@).contains_key(key@) { count_map(counts@)[key@] + 1 } else { 1 },
    ));
    out
}

/// Counts files by extension key ("no_extension" for a file without one).
pub fn count_by_extension(paths: &Vec<String>) -> (r: Vec<(String, u32)>)
    requires
        paths@.len() < u32::MAX,
    ensures
        forall|k: Seq<char>| #[trigger] count_map(r@).contains_key(k) <==> count_key(texts(paths@), k) > 0,
        forall|k: Seq<char>| #[trigger] count_map(r@).contains_key(k) ==> count_map(r@)[k] == count_key(texts(paths@), k),
{
    let mut counts: Vec<(String, u32)> = Vec::new();
    let mut j: usize = 0;
    let ghost ps = texts(paths@);
    assert(ps.take(0) =~= Seq::<Seq<char>>::empty());
    while j < paths.len()
        invariant
            ps == texts(paths@),
            paths@.len() < u32::MAX,
            j <= paths@.len(),
            forall|k: Seq<char>| #[trigger] count_map(counts@).contains_key(k) <==> count_key(ps.take(j as int), k) > 0,
            forall|k: Seq<char>| #[trigger] count_map(counts@).contains_key(k) ==> count_map(counts@)[k] == count_key(ps.take(j as int), k),
            forall|k: Seq<char>| #[trigger] count_key(ps.take(j as int), k) <= j,
        decreases paths@.len() - j,
    {
        assert(ps.take(j + 1).drop_last() =~= ps.take(j as int));
        assert(ps.take(j + 1).last() == paths@[j as int]@);
        let key = extension_key(paths[j].as_str());
        counts = bump(&counts, key);
        assert forall|k: Seq<char>| #[trigger] count_key(ps.take(j + 1), k) <= j + 1 by {
            assert(count_key(ps.take(j + 1), k) == count_key(ps.take(j as int), k) + (if spec_extension_key(
                ps.take(j + 1).last(),
            ) == k { 1nat } else { 0nat }));
        }
        j = j + 1;
    }
    assert(ps.take(paths@.len() as int) =~= ps);
    counts
}

/// (file count, total bytes) of the files with the given sizes; the total
/// saturates at the largest `u64`.
pub open spec fn spec_total_size(sizes: Seq<u64>) -> int
    decreases sizes.len(),
{
    if sizes.len() == 0 {
        0
    } else {
        spec_total_size(sizes.drop_last()) + sizes.last()
    }
}

pub fn repository_stats(sizes: &Vec<u64>) -> (r: (u32, u64))
    requires
        sizes@.len() <= u32::MAX,
    ensures
        r.0 == sizes@.len(),
        r.1 == (if spec_total_size(sizes@) > u64::MAX { u64::MAX as int } else { spec_total_size(sizes@) }),
{
    let mut total: u64 = 0;
    let mut j: usize = 0;
    assert(sizes@.take(0) =~= Seq::<u64>::empty());
    while j < sizes.len()
        invariant
            j <= sizes@.len(),
            total == (if spec_total_size(sizes@.take(j as int)) > u64::MAX { u64::MAX as int } else { spec_total_size(sizes@.take(j as int)) }),
        decreases sizes@.len() - j,
    {
        assert(sizes@.take(j + 1).drop_last() =~= sizes@.take(j as int));
        proof { lemma_total_nonneg(sizes@.take(j as int)); }
        total = total.saturating_add(sizes[j]);
        j = j + 1;
    }
    assert(sizes@.take(sizes@.len() as int) =~= sizes@);
    (sizes.len() as u32, total)
}

proof fn lemma_total_nonneg(s: Seq<u64>)
    ensures
        spec_total_size(s) >= 0,
    decreases s.len(),
{
    if s.len() > 0 {
        lemma_total_nonneg(s.drop_last());
    }
}

/// The distinct non-empty lines, in order of first appearance.
pub open spec fn distinct_lines(lines: Seq<Seq<char>>) -> Seq<Seq<char>>
    decreases lines.len(),
{
    if lines.len() == 0 {
        seq![]
    } else {
        let prev = distinct_lines(lines.drop_last());
        let l = lines.last();
        if l.len() > 0 && !prev.contains(l) {
            prev.push(l)
        } else {
            prev
        }
    }
}

/// At most the first `n` items.
pub open spec fn at_most(s: Seq<Seq<char>>, n: int) -> Seq<Seq<char>> {
    if s.len() <= n { s } else { s.take(n) }
}

/// The files touched by recent commits, from a log that lists one file name per
/// line: distinct, in order of first appearance, at most twenty.
pub fn recent_files(log_output: &str) -> (r: Vec<String>)
    ensures
        texts(r@) == at_most(distinct_lines(spec_lines(log_output@)), MAX_RECENT_FILES as int),
{
    let lines = split_lines(log_output);
    let ghost ls = texts(lines@);
    assert(ls == lines@.map_values(|p: String| p@));
    let mut out: Vec<String> = Vec::new();
    let mut j: usize = 0;
    assert(ls.take(0) =~= Seq::<Seq<char>>::empty());
    assert(texts(out@) =~= Seq::<Seq<char>>::empty());
    while j < lines.len()
        invariant
            ls == texts(lines@),
            ls == spec_lines(log_output@),
            j <= lines@.len(),
            texts(out@) == at_most(distinct_lines(ls.take(j as int)), MAX_RECENT_FILES as int),
        decreases lines@.len() - j,
    {
        assert(ls.take(j + 1).drop_last() =~= ls.take(j as int));
        assert(ls.take(j + 1).last() == lines@[j as int]@);
        let ghost prev = distinct_lines(ls.take(j as int));
        if out.len() < MAX_RECENT_FILES && !lines[j].as_str().is_empty() {
            let mut seen = false;
            let mut q: usize = 0;
            while q < out.len()
                invariant
                    j < lines@.len(),
                    q <= out@.len(),
                    seen == exists|z: int| 0 <= z < q && out@[z]@ == lines@[j as int]@,
                decreases out@.len() - q,
            {
                if out[q].eq(&lines[j]) {
                    seen = true;
                }
                q = q + 1;
            }
            assert(texts(out@) == prev);
            assert(seen == prev.contains(lines@[j as int]@)) by {
                if prev.contains(lines@[j as int]@) {
                    let z = choose|z: int| 0 <= z < prev.len() && prev[z] == lines@[j as int]@;
                    assert(out@[z]@ == prev[z]);
                }
                if seen {
                    let z = choose|z: int| 0 <= z < out@.len() && out@[z]@ == lines@[j as int]@;
                    assert(prev[z] == out@[z]@);
                }
            }
            if !seen {
                out.push(lines[j].clone());
                assert(texts(out@) =~= prev.push(lines@[j as int]@));
            }
        } else {
            assert(at_most(distinct_lines(ls.take(j + 1)), MAX_RECENT_FILES as int) =~= at_most(prev, MAX_RECENT_FILES as int));
        }
        j = j + 1;
    }
    assert(ls.take(lines@.len() as int) =~= ls);
    out
}

/// One entry of the walked tree: its depth below the root, its name, and
/// whether it is a directory.
#[derive(Clone, Debug)]
pub struct TreeEntry {
    pub depth: usize,
    pub name: String,
    pub is_dir: bool,
}

pub open spec fn indent(depth: nat) -> Seq<char>
    decreases depth,
{
    if depth == 0 { seq![] } else { indent((depth - 1) as nat) + "  "@ }
}

/// One rendered line: indentation, a branch mark, the name, and a '/' after a
/// directory's name.
pub open spec fn tree_line(e: TreeEntry) -> Seq<char> {
    indent(e.depth as nat) + "├── "@ + e.name@ + (if e.is_dir { "/"@ } else { seq![] }) + "\n"@
}

pub open spec fn tree_lines(entries: Seq<TreeEntry>) -> Seq<char>
    decreases entries.len(),
{
    if entries.len() == 0 { seq![] } else { tree_lines(entries.drop_last()) + tree_line(entries.last()) }
}

/// The rendered tree: a "." line, the first fifty entries, and a line counting
/// the entries left out.
pub open spec fn spec_render_tree(entries: Seq<TreeEntry>) -> Seq<char> {
    if entries.len() <= 50 {
        ".\n"@ + tree_lines(entries)
    } else {
        ".\n"@ + tree_lines(entries.take(50)) + "... and "@ + decimal_text((entries.len() - 50) as nat)
            + " more files/directories\n"@
    }
}

/// Renders sorted tree entries as an indented text tree.
pub fn render_tree(entries: &Vec<TreeEntry>) -> (r: String)
    ensures
        r@ == spec_render_tree(entries@),
{
    proof {
        reveal_strlit(".\n");
        reveal_strlit("  ");
        reveal_strlit("├── ");
        reveal_strlit("/");
        reveal_strlit("\n");
        reveal_strlit("... and ");
        reveal_strlit(" more files/directories\n");
    }
    let mut s = ".\n".to_string();
    let n = entries.len();
    let shown = if n <= MAX_TREE_ENTRIES { n } else { MAX_TREE_ENTRIES };
    let mut j: usize = 0;
    assert(entries@.take(0) =~= Seq::<TreeEntry>::empty());
    while j < shown
        invariant
            shown <= entries@.len(),
            j <= shown,
            s@ == ".\n"@ + tree_lines(entries@.take(j as int)),
        decreases shown - j,
    {
        assert(entries@.take(j + 1).drop_last() =~= entries@.take(j as int));
        let e = &entries[j];
        let ghost before = s@;
        let mut d: usize = 0;
        assert(indent(0) =~= Seq::<char>::empty());
        assert(s@ =~= before + indent(0));
        while d < e.depth
            invariant
                d <= e.depth,
                s@ == before + indent(d as nat),
            decreases e.depth - d,
        {
            s.append("  ");
            d = d + 1;
            assert(s@ =~= before + indent(d as nat));
        }
        s.append("├── ");
        s.append(e.name.as_str());
        if e.is_dir {
            s.append("/");
        }
        s.append("\n");
        assert(s@ =~= before + tree_line(entries@[j as int]));
        j = j + 1;
        assert(s@ =~= ".\n"@ + tree_lines(entries@.take(j as int)));
    }
    if n > MAX_TREE_ENTRIES {
        s.append("... and ");
        push_decimal(&mut s, (n - MAX_TREE_ENTRIES) as u64);
        s.append(" more files/directories\n");
    } else {
        assert(entries@.take(n as int) =~= entries@);
    }
    s
}

/// The project snapshot from its parts.
pub fn project_context(
    directory_tree: String,
    dependency_files: Vec<(String, String)>,
    file_counts: Vec<(String, u32)>,
    recently_changed_files: Vec<String>,
    stats: (u32, u64),
) -> (r: ContextData)
    ensures
        r matches ContextData::Project(p) && p.directory_tree == directory_tree
            && p.dependency_files == dependency_files && p.file_counts == file_counts
            && p.recently_changed_files == recently_changed_files && p.total_files == stats.0
            && p.total_size == stats.1,
{
    ContextData::Project(ProjectContext {
        directory_tree,
        dependency_files,
        file_counts,
        recently_changed_files,
        total_files: stats.0,
        total_size: stats.1,
    })
}

} // verus!
