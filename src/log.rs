use vstd::prelude::*;
use crate::types::CommitInfo;
use crate::text::{split_text, split_on, split_lines, spec_lines};

verus! {

/// The instant an RFC 3339 timestamp denotes, in seconds since the Unix epoch;
/// `None` where the text is not an RFC 3339 timestamp.
pub uninterp spec fn rfc3339_seconds(text: Seq<char>) -> Option<i64>;

/// Relies on `chrono::DateTime::parse_from_rfc3339` and `DateTime::timestamp`:
/// the instant the text denotes, or an error where it is not RFC 3339.
#[verifier::external_body]
fn parse_rfc3339(text: &str) -> (r: Option<i64>)
    ensures
        r == rfc3339_seconds(text@),
{
    chrono::DateTime::parse_from_rfc3339(text).ok().map(|d| d.timestamp())
}

/// A commit as the log gives it: the five header fields (hash, short hash,
/// subject, author, date) and the files listed after the header.
pub type CommitModel = (Seq<Seq<char>>, Seq<Seq<char>>);

/// Reading the log line by line: the finished commits, the commit whose file
/// list is being read, and the files read since the last header.
pub open spec fn log_fold(lines: Seq<Seq<char>>) -> (Seq<CommitModel>, Option<Seq<Seq<char>>>, Seq<Seq<char>>)
    decreases lines.len(),
{
    if lines.len() == 0 {
        (seq![], None, seq![])
    } else {
        let (done, current, files) = log_fold(lines.drop_last());
        let line = lines.last();
        let fields = split_on(line, '|');
        if fields.len() == 5 {
            match current {
                Some(c) => (done.push((c, files)), Some(fields), seq![]),
                None => (done, Some(fields), files),
            }
        } else if line.len() > 0 {
            (done, current, files.push(line))
        } else {
            (done, current, files)
        }
    }
}

/// The commits of a log listing, read line by line: a header line has exactly five '|'-separated
/// fields; every other non-empty line names a file of the commit it follows.
pub open spec fn spec_log_commits(output: Seq<char>) -> Seq<CommitModel> {
    let (done, current, files) = log_fold(spec_lines(output));
    match current {
        Some(c) => done.push((c, files)),
        None => done,
    }
}

/// A parsed commit matches its model; a date that is not RFC 3339 becomes `now`.
pub open spec fn commit_is(ci: CommitInfo, m: CommitModel, now: i64) -> bool {
    &&& m.0.len() == 5
    &&& ci.hash@ == m.0[0]
    &&& ci.short_hash@ == m.0[1]
    &&& ci.message@ == m.0[2]
    &&& ci.author@ == m.0[3]
    &&& ci.date == (match rfc3339_seconds(m.0[4]) {
        Some(t) => t,
        None => now,
    })
    &&& ci.files_changed@.map_values(|f: String| f@) == m.1
}

pub open spec fn commits_are(v: Seq<CommitInfo>, m: Seq<CommitModel>, now: i64) -> bool {
    v.len() == m.len() && forall|k: int| 0 <= k < v.len() ==> commit_is(#[trigger] v[k], m[k], now)
}

/// The header fields of a commit, with no files yet.
fn header(fields: &Vec<String>, now: i64) -> (r: CommitInfo)
    requires
        fields@.len() == 5,
    ensures
        commit_is(r, (fields@.map_values(|f: String| f@), seq![]), now),
{
    let date = match parse_rfc3339(fields[4].as_str()) {
        Some(t) => t,
        None => now,
    };
    let r = CommitInfo {
        hash: fields[0].clone(),
        short_hash: fields[1].clone(),
        message: fields[2].clone(),
        author: fields[3].clone(),
        date,
        files_changed: Vec::new(),
    };
    assert(r.files_changed@.map_values(|f: String| f@) =~= Seq::<Seq<char>>::empty());
    r
}

/// Parses a log listing of commit headers ("hash|short|subject|author|date")
/// each followed by the names of the files it touched. `now` stands in for a
/// date that does not parse.
pub fn parse_log(output: &str, now: i64) -> (r: Vec<CommitInfo>)
    ensures
        commits_are(r@, spec_log_commits(output@), now),
{
    let lines = split_lines(output);
    let ghost ls = lines@.map_values(|p: String| p@);
    let mut commits: Vec<CommitInfo> = Vec::new();
    let mut current: Option<CommitInfo> = None;
    let mut files: Vec<String> = Vec::new();
    let mut j: usize = 0;
    assert(ls.take(0) =~= Seq::<Seq<char>>::empty());
    while j < lines.len()
        invariant
            ls == lines@.map_values(|p: String| p@),
            ls == spec_lines(output@),
            j <= lines@.len(),
            ({
                let (done, cur, fs) = log_fold(ls.take(j as int));
                &&& commits_are(commits@, done, now)
                &&& files@.map_values(|f: String| f@) == fs
                &&& match current {
                    Some(c) => cur matches Some(h) && commit_is(c, (h, seq![]), now),
                    None => cur is None,
                }
            }),
        decreases lines@.len() - j,
    {
        proof {
            assert(ls.take(j + 1).drop_last() =~= ls.take(j as int));
            assert(ls.take(j + 1).last() == lines@[j as int]@);
        }
        let fields = split_text(lines[j].as_str(), '|');
        if fields.len() == 5 {
            let h = header(&fields, now);
            match current {
                Some(c) => {
                    let mut done_commit = c;
                    done_commit.files_changed = files;
                    let ghost before = commits@;
                    commits.push(done_commit);
                    files = Vec::new();
                    proof {
                        let (d0, c0, f0) = log_fold(ls.take(j as int));
                        let d1 = d0.push((c0->0, f0));
                        assert(commits@.len() == d1.len());
                        assert forall|k: int| 0 <= k < commits@.len() implies commit_is(#[trigger] commits@[k], d1[k], now) by {
                            if k < before.len() {
                                assert(commits@[k] == before[k]);
                            }
                        }
                        assert(files@.map_values(|f: String| f@) =~= Seq::<Seq<char>>::empty());
                    }
                },
                None => {},
            }
            current = Some(h);
        } else if !lines[j].as_str().is_empty() {
            let ghost before = files@.map_values(|f: String| f@);
            files.push(lines[j].clone());
            assert(files@.map_values(|f: String| f@) =~= before.push(lines@[j as int]@));
        }
        j = j + 1;
    }
    assert(ls.take(lines@.len() as int) =~= ls);
    match current {
        Some(c) => {
            let mut last = c;
            last.files_changed = files;
            let ghost before = commits@;
            commits.push(last);
            proof {
                let (d0, c0, f0) = log_fold(ls);
                let d1 = d0.push((c0->0, f0));
                assert forall|k: int| 0 <= k < commits@.len() implies commit_is(#[trigger] commits@[k], d1[k], now) by {
                    if k < before.len() {
                        assert(commits@[k] == before[k]);
                    }
                }
            }
        },
        None => {},
    }
    commits
}

} // verus!
