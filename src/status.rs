use vstd::prelude::*;
use crate::types::{FileStatus, RepositoryStatus};
use crate::text::{chars_of, string_of_range, split_on, lemma_split_on_step};

verus! {

/// The records of a NUL-separated machine-readable status listing.
pub open spec fn status_records(s: Seq<char>) -> Seq<Seq<char>> {
    split_on(s, '\0')
}

/// A record describes a file when it holds two status columns, a space and a path.
pub open spec fn is_file_record(r: Seq<char>) -> bool {
    r.len() >= 3
}

pub open spec fn record_path(r: Seq<char>) -> Seq<char> {
    r.subrange(3, r.len() as int)
}

/// The two columns mark a conflict: either one is "unmerged", or both say
/// "added", or both say "deleted".
pub open spec fn conflict_pair(x: char, y: char) -> bool {
    x == 'U' || y == 'U' || (x == 'A' && y == 'A') || (x == 'D' && y == 'D')
}

/// (path, code) of every record with a change in the index column.
pub open spec fn staged_model(recs: Seq<Seq<char>>) -> Seq<(Seq<char>, char)>
    decreases recs.len(),
{
    if recs.len() == 0 {
        seq![]
    } else {
        let r = recs.last();
        let prev = staged_model(recs.drop_last());
        if is_file_record(r) && r[0] != ' ' && r[0] != '?' {
            prev.push((record_path(r), r[0]))
        } else {
            prev
        }
    }
}

/// (path, code) of every record with a change in the work-tree column.
pub open spec fn unstaged_model(recs: Seq<Seq<char>>) -> Seq<(Seq<char>, char)>
    decreases recs.len(),
{
    if recs.len() == 0 {
        seq![]
    } else {
        let r = recs.last();
        let prev = unstaged_model(recs.drop_last());
        if is_file_record(r) && r[1] != ' ' && r[1] != '?' {
            prev.push((record_path(r), r[1]))
        } else {
            prev
        }
    }
}

/// Paths of the untracked records.
pub open spec fn untracked_model(recs: Seq<Seq<char>>) -> Seq<Seq<char>>
    decreases recs.len(),
{
    if recs.len() == 0 {
        seq![]
    } else {
        let r = recs.last();
        let prev = untracked_model(recs.drop_last());
        if is_file_record(r) && r[1] == '?' {
            prev.push(record_path(r))
        } else {
            prev
        }
    }
}

/// Some record marks a conflict.
pub open spec fn any_conflict(recs: Seq<Seq<char>>) -> bool
    decreases recs.len(),
{
    if recs.len() == 0 {
        false
    } else {
        let r = recs.last();
        any_conflict(recs.drop_last()) || (is_file_record(r) && conflict_pair(r[0], r[1]))
    }
}

/// A parsed file entry: its path and one-letter code, with no line counts yet.
pub open spec fn file_status_is(f: FileStatus, e: (Seq<char>, char)) -> bool {
    &&& f.path@ == e.0
    &&& f.status@ == seq![e.1]
    &&& f.insertions is None
    &&& f.deletions is None
}

pub open spec fn file_statuses_are(v: Seq<FileStatus>, m: Seq<(Seq<char>, char)>) -> bool {
    v.len() == m.len() && forall|i: int| 0 <= i < v.len() ==> file_status_is(#[trigger] v[i], m[i])
}

pub open spec fn strings_are(v: Seq<String>, m: Seq<Seq<char>>) -> bool {
    v.len() == m.len() && forall|i: int| 0 <= i < v.len() ==> #[trigger] v[i]@ == m[i]
}

/// What a status listing says: each file list as its model gives it, cleanliness
/// when all three are empty, and the conflict flag.
pub open spec fn status_describes(st: RepositoryStatus, s: Seq<char>) -> bool {
    let recs = status_records(s);
    &&& file_statuses_are(st.staged_files@, staged_model(recs))
    &&& file_statuses_are(st.unstaged_files@, unstaged_model(recs))
    &&& strings_are(st.untracked_files@, untracked_model(recs))
    &&& st.is_clean == (st.staged_files@.len() == 0 && st.unstaged_files@.len() == 0
        && st.untracked_files@.len() == 0)
    &&& st.has_conflicts == any_conflict(recs)
}

/// Whether a pair of status columns marks a conflicted file.
pub fn is_conflict(x: char, y: char) -> (r: bool)
    ensures
        r == conflict_pair(x, y),
{
    x == 'U' || y == 'U' || (x == 'A' && y == 'A') || (x == 'D' && y == 'D')
}

/// Adds the record `cs[start..end]` to the lists it belongs in.
fn take_record(
    cs: &Vec<char>,
    start: usize,
    end: usize,
    staged: &mut Vec<FileStatus>,
    unstaged: &mut Vec<FileStatus>,
    untracked: &mut Vec<String>,
    conflicts: &mut bool,
    Ghost(done): Ghost<Seq<Seq<char>>>,
)
    requires
        start <= end <= cs@.len(),
        file_statuses_are(old(staged)@, staged_model(done)),
        file_statuses_are(old(unstaged)@, unstaged_model(done)),
        strings_are(old(untracked)@, untracked_model(done)),
        *old(conflicts) == any_conflict(done),
    ensures
        ({
            let recs = done.push(cs@.subrange(start as int, end as int));
            &&& file_statuses_are(final(staged)@, staged_model(recs))
            &&& file_statuses_are(final(unstaged)@, unstaged_model(recs))
            &&& strings_are(final(untracked)@, untracked_model(recs))
            &&& *final(conflicts) == any_conflict(recs)
        }),
{
    let ghost r = cs@.subrange(start as int, end as int);
    let ghost recs = done.push(r);
    assert(recs.drop_last() =~= done);
    if end - start < 3 {
        return;
    }
    let x = cs[start];
    let y = cs[start + 1];
    assert(r[0] == x && r[1] == y);
    if is_conflict(x, y) {
        *conflicts = true;
    }
    if x != ' ' && x != '?' {
        let path = string_of_range(cs, start + 3, end);
        let code = string_of_range(cs, start, start + 1);
        assert(path@ =~= record_path(r));
        assert(code@ =~= seq![x]);
        staged.push(FileStatus { path, status: code, insertions: None, deletions: None });
    }
    if y != ' ' {
        let path = string_of_range(cs, start + 3, end);
        assert(path@ =~= record_path(r));
        if y == '?' {
            untracked.push(path);
        } else {
            let code = string_of_range(cs, start + 1, start + 2);
            assert(code@ =~= seq![y]);
            unstaged.push(FileStatus { path, status: code, insertions: None, deletions: None });
        }
    }
}

/// Parses the NUL-separated machine-readable status listing into staged,
/// unstaged and untracked files, with the clean and conflict flags. Line
/// counts are left unset; `set_line_counts` fills them in.
pub fn parse_status(output: &str) -> (r: RepositoryStatus)
    ensures
        status_describes(r, output@),
{
    let cs = chars_of(output);
    let n = cs.len();
    let mut staged: Vec<FileStatus> = Vec::new();
    let mut unstaged: Vec<FileStatus> = Vec::new();
    let mut untracked: Vec<String> = Vec::new();
    let mut conflicts = false;
    let mut start: usize = 0;
    let mut i: usize = 0;
    let ghost mut done: Seq<Seq<char>> = seq![];
    assert(cs@.take(0) =~= Seq::<char>::empty());
    assert(cs@.subrange(0, 0) =~= Seq::<char>::empty());
    assert(split_on(cs@.take(0), '\0') =~= done.push(cs@.subrange(0, 0)));
    while i < n
        invariant
            n == cs@.len(),
            cs@ == output@,
            start <= i <= n,
            split_on(cs@.take(i as int), '\0') == done.push(cs@.subrange(start as int, i as int)),
            file_statuses_are(staged@, staged_model(done)),
            file_statuses_are(unstaged@, unstaged_model(done)),
            strings_are(untracked@, untracked_model(done)),
            conflicts == any_conflict(done),
        decreases n - i,
    {
        proof {
            lemma_split_on_step(cs@, '\0', i as int, start as int, done);
        }
        if cs[i] == '\0' {
            take_record(&cs, start, i, &mut staged, &mut unstaged, &mut untracked, &mut conflicts, Ghost(done));
            proof {
                done = done.push(cs@.subrange(start as int, i as int));
            }
            start = i + 1;
        }
        i = i + 1;
    }
    take_record(&cs, start, n, &mut staged, &mut unstaged, &mut untracked, &mut conflicts, Ghost(done));
    assert(cs@.take(n as int) =~= cs@);
    let is_clean = staged.len() == 0 && unstaged.len() == 0 && untracked.len() == 0;
    RepositoryStatus {
        staged_files: staged,
        unstaged_files: unstaged,
        untracked_files: untracked,
        is_clean,
        has_conflicts: conflicts,
    }
}

/// A text without the separator is a single piece.
pub proof fn lemma_split_on_single(s: Seq<char>, sep: char)
    requires
        !s.contains(sep),
    ensures
        split_on(s, sep) == seq![s],
    decreases s.len(),
{
    if s.len() > 0 {
        assert(!s.drop_last().contains(sep)) by {
            if s.drop_last().contains(sep) {
                let k = choose|k: int| 0 <= k < s.drop_last().len() && s.drop_last()[k] == sep;
                assert(s[k] == sep);
            }
        }
        lemma_split_on_single(s.drop_last(), sep);
        assert(s.last() != sep) by {
            assert(s[s.len() - 1] == s.last());
        }
        assert(s.drop_last().push(s.last()) =~= s);
        assert(seq![s.drop_last()].update(0, s.drop_last().push(s.last())) =~= seq![s]);
    } else {
        assert(s =~= Seq::<char>::empty());
    }
}

/// For a listing of one file record, the conflict flag is set exactly when the
/// record's two status columns mark a conflict: both "unmerged" sets it, one
/// "modified" column beside a blank one does not.
pub proof fn lemma_conflict_flag(s: Seq<char>)
    requires
        s.len() >= 3,
        !s.contains('\0'),
    ensures
        any_conflict(status_records(s)) == conflict_pair(s[0], s[1]),
        s[0] == 'U' && s[1] == 'U' ==> any_conflict(status_records(s)),
        s[0] == 'M' && s[1] == ' ' ==> !any_conflict(status_records(s)),
        s[0] == ' ' && s[1] == 'M' ==> !any_conflict(status_records(s)),
{
    lemma_split_on_single(s, '\0');
    let recs = status_records(s);
    assert(recs.drop_last() =~= Seq::<Seq<char>>::empty());
    assert(!any_conflict(recs.drop_last()));
    assert(recs.last() == s);
}

} // verus!
