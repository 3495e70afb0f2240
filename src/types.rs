use vstd::prelude::*;

verus! {

/// The closed set of fact categories that can be gathered.
#[derive(PartialEq, Eq, Structural, Clone, Copy, Debug, Hash)]
pub enum ContextType {
    /// Repository state (status, diffs, commits, branches).
    Git,
    /// Project structure (directory tree, file analysis).
    Project,
    /// Assistant configuration (rules and prompt fragments).
    Agent,
    /// Per-call metadata (command, user message, flags).
    Interaction,
}

/// One changed file in the status listing.
#[derive(Clone, Debug)]
pub struct FileStatus {
    pub path: String,
    /// One-letter status code (M, A, D, R, C, U, ...).
    pub status: String,
    pub insertions: Option<u32>,
    pub deletions: Option<u32>,
}

/// Staged, unstaged and untracked files of the working tree.
#[derive(Clone, Debug)]
pub struct RepositoryStatus {
    pub staged_files: Vec<FileStatus>,
    pub unstaged_files: Vec<FileStatus>,
    pub untracked_files: Vec<String>,
    pub is_clean: bool,
    pub has_conflicts: bool,
}

/// Diffs for the three scopes; `None` where that diff could not be produced.
#[derive(Clone, Debug)]
pub struct GitDiffs {
    pub staged: Option<String>,
    pub unstaged: Option<String>,
    pub branch_diff: Option<String>,
}

/// One commit of the recent history; `date` is in seconds since the Unix epoch.
#[derive(Clone, Debug)]
pub struct CommitInfo {
    pub hash: String,
    pub short_hash: String,
    pub message: String,
    pub author: String,
    pub date: i64,
    pub files_changed: Vec<String>,
}

/// Current branch and its relation to the configured upstream.
#[derive(Clone, Debug)]
pub struct BranchInfo {
    pub current_branch: String,
    pub upstream_branch: Option<String>,
    pub ahead: u32,
    pub behind: u32,
    pub tracking_status: String,
}

/// The configured user identity.
#[derive(Clone, Debug)]
pub struct UserContext {
    pub name: Option<String>,
    pub email: Option<String>,
}

/// Where the repository lives and which remotes it knows.
#[derive(Clone, Debug)]
pub struct RepositoryMetadata {
    pub root_path: String,
    pub git_dir: String,
    pub is_bare: bool,
    pub remote_urls: Vec<String>,
}

/// Snapshot of the repository state.
#[derive(Clone, Debug)]
pub struct GitContext {
    pub repository_status: RepositoryStatus,
    pub diffs: GitDiffs,
    pub recent_commits: Vec<CommitInfo>,
    pub branch_info: BranchInfo,
    pub user_context: UserContext,
    pub repository_metadata: RepositoryMetadata,
}

/// Snapshot of the project layout. The pair lists are keyed by their first
/// component: a dependency file's path, or a file extension.
#[derive(Clone, Debug)]
pub struct ProjectContext {
    pub directory_tree: String,
    pub dependency_files: Vec<(String, String)>,
    pub file_counts: Vec<(String, u32)>,
    pub recently_changed_files: Vec<String>,
    pub total_files: u32,
    pub total_size: u64,
}

/// How a configuration file is written.
#[derive(PartialEq, Eq, Structural, Clone, Copy, Debug)]
pub enum ConfigFormat {
    Json,
    Yaml,
    Toml,
    Text,
}

/// One discovered assistant configuration file.
#[derive(Clone, Debug)]
pub struct AgentConfigFile {
    pub path: String,
    pub content: String,
    pub format: ConfigFormat,
}

/// Snapshot of the assistant configuration: files, rules and named prompts.
#[derive(Clone, Debug)]
pub struct AgentContext {
    pub config_files: Vec<AgentConfigFile>,
    pub rules: Vec<String>,
    pub custom_prompts: Vec<(String, String)>,
}

/// Facts about the running call; `timestamp` is in seconds since the Unix epoch.
#[derive(Clone, Debug)]
pub struct ExecutionMetadata {
    pub timestamp: i64,
    pub working_directory: String,
    pub git_ai_version: String,
    pub cursor_agent_version: Option<String>,
}

/// Snapshot of one invocation.
#[derive(Clone, Debug)]
pub struct InteractionContext {
    pub command: String,
    pub user_message: Option<String>,
    pub flags: Vec<(String, String)>,
    pub execution_metadata: ExecutionMetadata,
}

/// A snapshot of exactly one category.
#[derive(Clone, Debug)]
pub enum ContextData {
    Git(GitContext),
    Project(ProjectContext),
    Agent(AgentContext),
    Interaction(InteractionContext),
}

/// The category a snapshot belongs to.
pub open spec fn spec_category(d: ContextData) -> ContextType {
    match d {
        ContextData::Git(_) => ContextType::Git,
        ContextData::Project(_) => ContextType::Project,
        ContextData::Agent(_) => ContextType::Agent,
        ContextData::Interaction(_) => ContextType::Interaction,
    }
}

impl ContextData {
    /// The category this snapshot belongs to.
    pub fn category(&self) -> (r: ContextType)
        ensures
            r == spec_category(*self),
    {
        match self {
            ContextData::Git(_) => ContextType::Git,
            ContextData::Project(_) => ContextType::Project,
            ContextData::Agent(_) => ContextType::Agent,
            ContextData::Interaction(_) => ContextType::Interaction,
        }
    }
}

} // verus!
