use vstd::prelude::*;
use crate::types::{
    BranchInfo, CommitInfo, ContextData, GitContext, GitDiffs, RepositoryMetadata, RepositoryStatus,
    UserContext,
};
use crate::config::{RepositoryConfig, dependency_patterns, in_patterns};
use crate::order::strictly_ascending;
use crate::fingerprint::opt_view;
use crate::rules::{same_str, texts};
use crate::words::{is_space_char, skip_space, trim, trim_of};
use crate::text::chars_of;

verus! {

/// Where the external agent's installer is fetched from.
pub const CURSOR_INSTALL_URL: &'static str = "https://cursor.com/install";

/// Number of recent commits the repository snapshot lists.
pub const RECENT_COMMIT_COUNT: usize = 10;

/// The repository-state provider.
#[derive(Clone, Debug)]
pub struct GitContextProvider {}

impl GitContextProvider {
    pub fn new() -> (r: GitContextProvider) {
        GitContextProvider {}
    }
}

/// The tool-configuration provider.
#[derive(Clone, Debug)]
pub struct AgentContextProvider {}

impl AgentContextProvider {
    pub fn new() -> (r: AgentContextProvider) {
        AgentContextProvider {}
    }
}

/// The project-structure provider, with the manifest patterns it reads.
#[derive(Clone, Debug)]
pub struct RepositoryContextProvider {
    pub config: RepositoryConfig,
}

impl RepositoryContextProvider {
    pub fn new(config: RepositoryConfig) -> (r: RepositoryContextProvider)
        ensures
            r.config == config,
    {
        RepositoryContextProvider { config }
    }

    /// All configured manifest patterns, ascending, each once.
    pub fn get_dependency_patterns(&self) -> (r: Vec<String>)
        ensures
            strictly_ascending(texts(r@)),
            forall|y: Seq<char>| #[trigger] texts(r@).contains(y) <==> in_patterns(self.config.dependency_files, y),
    {
        dependency_patterns(&self.config.dependency_files)
    }
}

/// The handle of the external agent executable.
#[derive(Clone, Debug)]
pub struct CursorAgent {}

impl CursorAgent {
    pub fn new() -> (r: CursorAgent) {
        CursorAgent {}
    }
}

/// Whether downloaded installer text looks like a shell script: after any
/// leading whitespace it starts with "#!/".
pub open spec fn spec_is_install_script(s: Seq<char>) -> bool {
    let t = skip_space(s);
    t.len() >= 3 && t[0] == '#' && t[1] == '!' && t[2] == '/'
}

pub fn is_install_script(content: &str) -> (r: bool)
    ensures
        r == spec_is_install_script(content@),
{
    let cs = chars_of(content);
    let n = cs.len();
    let mut i: usize = 0;
    assert(cs@.subrange(0, n as int) =~= cs@);
    while i < n && is_space_char(cs[i])
        invariant
            cs@ == content@,
            n == cs@.len(),
            i <= n,
            skip_space(cs@) == skip_space(cs@.subrange(i as int, n as int)),
        decreases n - i,
    {
        assert(cs@.subrange(i as int, n as int).drop_first() =~= cs@.subrange(i + 1, n as int));
        i = i + 1;
    }
    let ghost t = cs@.subrange(i as int, n as int);
    assert(skip_space(t) == t);
    n - i >= 3 && cs[i] == '#' && cs[i + 1] == '!' && cs[i + 2] == '/'
}

/// The ranges to diff the branch against, in the order to try them: only the
/// upstream's where one is configured; otherwise "main..HEAD" where main
/// exists, then "master..HEAD" where master exists.
pub open spec fn spec_diff_ranges(upstream: Option<Seq<char>>, main_exists: bool, master_exists: bool) -> Seq<Seq<char>> {
    match upstream {
        Some(u) => seq![u + "..HEAD"@],
        None => (if main_exists { seq!["main..HEAD"@] } else { seq![] }) + (if master_exists {
            seq!["master..HEAD"@]
        } else {
            seq![]
        }),
    }
}

pub fn diff_base_ranges(upstream: Option<String>, main_exists: bool, master_exists: bool) -> (r: Vec<String>)
    ensures
        texts(r@) == spec_diff_ranges(opt_view(upstream), main_exists, master_exists),
{
    proof {
        reveal_strlit("..HEAD");
        reveal_strlit("main..HEAD");
        reveal_strlit("master..HEAD");
    }
    let mut r: Vec<String> = Vec::new();
    match upstream {
        Some(u) => {
            let mut range = u;
            range.append("..HEAD");
            r.push(range);
        },
        None => {
            if main_exists {
                r.push("main..HEAD".to_string());
            }
            if master_exists {
                r.push("master..HEAD".to_string());
            }
        },
    }
    assert(texts(r@) =~= spec_diff_ranges(opt_view(upstream), main_exists, master_exists));
    r
}

/// The trimmed output of a query that succeeded, `None` for one that failed.
pub fn trimmed_output(output: Option<&str>) -> (r: Option<String>)
    ensures
        opt_view(r) == (match output {
            Some(o) => Some(trim_of(o@)),
            None => None,
        }),
{
    match output {
        Some(o) => Some(trim(o)),
        None => None,
    }
}

/// Whether the bare-repository query answered "true".
pub fn parse_is_bare(output: Option<&str>) -> (r: bool)
    ensures
        r == (output matches Some(o) && trim_of(o@) == "true"@),
{
    match output {
        Some(o) => {
            let t = trim(o);
            same_str(t.as_str(), "true")
        },
        None => false,
    }
}

/// The repository snapshot from its parts.
pub fn git_context(
    repository_status: RepositoryStatus,
    diffs: GitDiffs,
    recent_commits: Vec<CommitInfo>,
    branch_info: BranchInfo,
    user_context: UserContext,
    repository_metadata: RepositoryMetadata,
) -> (r: ContextData)
    ensures
        r matches ContextData::Git(g) && g.repository_status == repository_status && g.diffs == diffs
            && g.recent_commits == recent_commits && g.branch_info == branch_info
            && g.user_context == user_context && g.repository_metadata == repository_metadata,
{
    ContextData::Git(GitContext {
        repository_status,
        diffs,
        recent_commits,
        branch_info,
        user_context,
        repository_metadata,
    })
}

} // verus!
