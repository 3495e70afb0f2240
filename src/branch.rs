use vstd::prelude::*;
use crate::types::{BranchInfo, FileStatus, RepositoryStatus};
use crate::words::{words, spec_words, parse_u32, spec_parse_u32, push_decimal, decimal_text};
use crate::text::{chars_of, string_of_range, split_on, lemma_split_on_step};
use crate::fingerprint::opt_view;

verus! {

/// The human-readable tracking summary for an upstream (if any) and the
/// ahead/behind counts.
pub open spec fn spec_tracking_status(has_upstream: bool, ahead: u32, behind: u32) -> Seq<char> {
    if !has_upstream {
        "No upstream"@
    } else if ahead == 0 && behind == 0 {
        "Up to date"@
    } else if behind == 0 {
        "Ahead by "@ + decimal_text(ahead as nat)
    } else if ahead == 0 {
        "Behind by "@ + decimal_text(behind as nat)
    } else {
        "Ahead by "@ + decimal_text(ahead as nat) + ", behind by "@ + decimal_text(behind as nat)
    }
}

/// The tracking summary: "No upstream", "Up to date", "Ahead by K",
/// "Behind by K", or "Ahead by K, behind by M".
pub fn tracking_status(has_upstream: bool, ahead: u32, behind: u32) -> (r: String)
    ensures
        r@ == spec_tracking_status(has_upstream, ahead, behind),
{
    proof {
        reveal_strlit("No upstream");
        reveal_strlit("Up to date");
        reveal_strlit("Ahead by ");
        reveal_strlit("Behind by ");
        reveal_strlit(", behind by ");
    }
    if !has_upstream {
        return "No upstream".to_string();
    }
    if ahead == 0 && behind == 0 {
        return "Up to date".to_string();
    }
    if behind == 0 {
        let mut s = "Ahead by ".to_string();
        push_decimal(&mut s, ahead as u64);
        return s;
    }
    if ahead == 0 {
        let mut s = "Behind by ".to_string();
        push_decimal(&mut s, behind as u64);
        return s;
    }
    let mut s = "Ahead by ".to_string();
    push_decimal(&mut s, ahead as u64);
    s.append(", behind by ");
    push_decimal(&mut s, behind as u64);
    s
}

/// (ahead, behind) from the output of a left-right count of `upstream...local`:
/// two whitespace-separated numbers, behind first; anything else gives zeros,
/// and an unreadable number counts as zero.
pub open spec fn spec_ahead_behind(output: Seq<char>) -> (u32, u32) {
    let w = spec_words(output);
    if w.len() == 2 {
        (
            match spec_parse_u32(w[1]) { Some(v) => v, None => 0 },
            match spec_parse_u32(w[0]) { Some(v) => v, None => 0 },
        )
    } else {
        (0, 0)
    }
}

pub fn parse_ahead_behind(output: &str) -> (r: (u32, u32))
    ensures
        r == spec_ahead_behind(output@),
{
    let w = words(output);
    if w.len() == 2 {
        let ahead = match parse_u32(w[1].as_str()) {
            Some(v) => v,
            None => 0,
        };
        let behind = match parse_u32(w[0].as_str()) {
            Some(v) => v,
            None => 0,
        };
        (ahead, behind)
    } else {
        (0, 0)
    }
}

/// The branch facts: the tracking summary follows from the upstream and the
/// counts, and the counts are zero without an upstream.
pub fn branch_info(current_branch: String, upstream_branch: Option<String>, counts: (u32, u32)) -> (r: BranchInfo)
    ensures
        r.current_branch@ == current_branch@,
        opt_view(r.upstream_branch) == opt_view(upstream_branch),
        upstream_branch is Some ==> r.ahead == counts.0 && r.behind == counts.1,
        upstream_branch is None ==> r.ahead == 0 && r.behind == 0,
        r.tracking_status@ == spec_tracking_status(upstream_branch is Some, r.ahead, r.behind),
{
    let (ahead, behind) = if upstream_branch.is_some() { counts } else { (0, 0) };
    let tracking = tracking_status(upstream_branch.is_some(), ahead, behind);
    BranchInfo {
        current_branch,
        upstream_branch,
        ahead,
        behind,
        tracking_status: tracking,
    }
}

/// The text before the first line break.
pub open spec fn first_line(s: Seq<char>) -> Seq<char> {
    split_on(s, '\n')[0]
}

/// (insertions, deletions) from a per-file numeric diff summary: the first two
/// words of its first line, each `None` where it is not a number (a binary file
/// shows "-"); both `None` where there are fewer than two words.
pub open spec fn spec_numstat(output: Seq<char>) -> (Option<u32>, Option<u32>) {
    let w = spec_words(first_line(output));
    if w.len() >= 2 {
        (spec_parse_u32(w[0]), spec_parse_u32(w[1]))
    } else {
        (None, None)
    }
}

/// The text before the first occurrence of `sep`.
pub fn before_first(s: &str, sep: char) -> (r: String)
    ensures
        r@ == split_on(s@, sep)[0],
{
    let cs = chars_of(s);
    let n = cs.len();
    let mut i: usize = 0;
    let ghost done: Seq<Seq<char>> = seq![];
    assert(cs@.take(0) =~= Seq::<char>::empty());
    assert(split_on(cs@.take(0), sep) =~= done.push(cs@.subrange(0, 0)));
    while i < n && cs[i] != sep
        invariant
            n == cs@.len(),
            cs@ == s@,
            i <= n,
            split_on(cs@.take(i as int), sep) == seq![cs@.subrange(0, i as int)],
        decreases n - i,
    {
        proof {
            lemma_split_on_step(cs@, sep, i as int, 0, seq![]);
            assert(seq![cs@.subrange(0, i as int)] =~= Seq::<Seq<char>>::empty().push(cs@.subrange(0, i as int)));
        }
        i = i + 1;
    }
    if i < n {
        proof {
            assert(seq![cs@.subrange(0, i as int)] =~= Seq::<Seq<char>>::empty().push(cs@.subrange(0, i as int)));
            lemma_split_on_step(cs@, sep, i as int, 0, seq![]);
            lemma_split_on_keeps_first(cs@, sep, i + 1);
        }
    } else {
        assert(cs@.take(n as int) =~= cs@);
    }
    string_of_range(&cs, 0, i)
}

/// Adding characters never changes the first piece once a separator was seen.
proof fn lemma_split_on_keeps_first(s: Seq<char>, sep: char, i: int)
    requires
        1 <= i <= s.len(),
        split_on(s.take(i), sep).len() >= 2,
    ensures
        split_on(s, sep)[0] == split_on(s.take(i), sep)[0],
        split_on(s, sep).len() >= 2,
    decreases s.len() - i,
{
    if i < s.len() {
        let t = s.take(i + 1);
        assert(t.drop_last() =~= s.take(i));
        lemma_split_on_keeps_first(s, sep, i + 1);
    } else {
        assert(s.take(i) =~= s);
    }
}

pub fn parse_numstat(output: &str) -> (r: (Option<u32>, Option<u32>))
    ensures
        r == spec_numstat(output@),
{
    let line = before_first(output, '\n');
    let w = words(line.as_str());
    if w.len() >= 2 {
        (parse_u32(w[0].as_str()), parse_u32(w[1].as_str()))
    } else {
        (None, None)
    }
}

/// Sets the line counts of one listed file (staged where `staged`, unstaged
/// otherwise) from its numeric diff summary; an index past the list changes nothing.
pub fn set_line_counts(st: &mut RepositoryStatus, staged: bool, index: usize, numstat_output: &str)
    ensures
        ({
            let counts = spec_numstat(numstat_output@);
            let (o, f) = if staged {
                (old(st).staged_files@, final(st).staged_files@)
            } else {
                (old(st).unstaged_files@, final(st).unstaged_files@)
            };
            &&& f.len() == o.len()
            &&& forall|k: int| 0 <= k < o.len() && k != index ==> f[k] == o[k]
            &&& index < o.len() ==> f[index as int].path == o[index as int].path
                && f[index as int].status == o[index as int].status
                && f[index as int].insertions == counts.0 && f[index as int].deletions == counts.1
        }),
        staged ==> final(st).unstaged_files@ == old(st).unstaged_files@,
        !staged ==> final(st).staged_files@ == old(st).staged_files@,
        final(st).untracked_files@ == old(st).untracked_files@,
        final(st).is_clean == old(st).is_clean,
        final(st).has_conflicts == old(st).has_conflicts,
{
    let (ins, del) = parse_numstat(numstat_output);
    if staged {
        if index < st.staged_files.len() {
            let path = st.staged_files[index].path.clone();
            let status = st.staged_files[index].status.clone();
            st.staged_files.set(index, FileStatus { path, status, insertions: ins, deletions: del });
        }
    } else {
        if index < st.unstaged_files.len() {
            let path = st.unstaged_files[index].path.clone();
            let status = st.unstaged_files[index].status.clone();
            st.unstaged_files.set(index, FileStatus { path, status, insertions: ins, deletions: del });
        }
    }
}

/// Keeps the first occurrence of each text.
pub open spec fn dedup_push(acc: Seq<Seq<char>>, x: Seq<char>) -> Seq<Seq<char>> {
    if acc.contains(x) { acc } else { acc.push(x) }
}

/// The distinct remote URLs, in order of first appearance: the second word of
/// each line of the remote listing.
pub open spec fn spec_remote_urls(lines: Seq<Seq<char>>) -> Seq<Seq<char>>
    decreases lines.len(),
{
    if lines.len() == 0 {
        seq![]
    } else {
        let prev = spec_remote_urls(lines.drop_last());
        let w = spec_words(lines.last());
        if w.len() >= 2 { dedup_push(prev, w[1]) } else { prev }
    }
}

fn contains_text(v: &Vec<String>, x: &String) -> (r: bool)
    ensures
        r == v@.map_values(|s: String| s@).contains(x@),
{
    let mut i: usize = 0;
    while i < v.len()
        invariant
            i <= v@.len(),
            forall|k: int| 0 <= k < i ==> v@[k]@ != x@,
        decreases v@.len() - i,
    {
        if v[i].eq(x) {
            assert(v@.map_values(|s: String| s@)[i as int] == x@);
            return true;
        }
        i = i + 1;
    }
    proof {
        if v@.map_values(|s: String| s@).contains(x@) {
            let m = v@.map_values(|s: String| s@);
            let k = choose|k: int| 0 <= k < m.len() && #[trigger] m[k] == x@;
            assert(v@[k]@ == x@);
        }
    }
    false
}

/// Adds the URL of one remote-listing line, unless it is already listed.
fn take_remote_line(cs: &Vec<char>, start: usize, end: usize, urls: &mut Vec<String>, Ghost(done): Ghost<Seq<Seq<char>>>)
    requires
        start <= end <= cs@.len(),
        old(urls)@.map_values(|s: String| s@) == spec_remote_urls(done),
    ensures
        final(urls)@.map_values(|s: String| s@) == spec_remote_urls(
            done.push(cs@.subrange(start as int, end as int)),
        ),
{
    let line = string_of_range(cs, start, end);
    let w = words(line.as_str());
    let ghost next_done = done.push(cs@.subrange(start as int, end as int));
    assert(next_done.drop_last() =~= done);
    if w.len() >= 2 {
        let url = w[1].clone();
        if !contains_text(urls, &url) {
            urls.push(url);
        }
    }
    assert(urls@.map_values(|s: String| s@) =~= spec_remote_urls(next_done));
}

/// Collects the distinct remote URLs from the remote listing.
pub fn parse_remote_urls(output: &str) -> (r: Vec<String>)
    ensures
        r@.map_values(|s: String| s@) == spec_remote_urls(split_on(output@, '\n')),
{
    let cs = chars_of(output);
    let n = cs.len();
    let mut urls: Vec<String> = Vec::new();
    let mut start: usize = 0;
    let mut i: usize = 0;
    let ghost mut done: Seq<Seq<char>> = seq![];
    assert(cs@.take(0) =~= Seq::<char>::empty());
    assert(split_on(cs@.take(0), '\n') =~= done.push(cs@.subrange(0, 0)));
    assert(urls@.map_values(|s: String| s@) =~= spec_remote_urls(done));
    while i < n
        invariant
            n == cs@.len(),
            cs@ == output@,
            start <= i <= n,
            split_on(cs@.take(i as int), '\n') == done.push(cs@.subrange(start as int, i as int)),
            urls@.map_values(|s: String| s@) == spec_remote_urls(done),
        decreases n - i,
    {
        proof {
            lemma_split_on_step(cs@, '\n', i as int, start as int, done);
        }
        if cs[i] == '\n' {
            take_remote_line(&cs, start, i, &mut urls, Ghost(done));
            proof {
                done = done.push(cs@.subrange(start as int, i as int));
            }
            start = i + 1;
        }
        i = i + 1;
    }
    take_remote_line(&cs, start, n, &mut urls, Ghost(done));
    assert(cs@.take(n as int) =~= cs@);
    urls
}

} // verus!
