use vstd::prelude::*;
use crate::types::{ContextType, RepositoryStatus};
use crate::config::{Config, CommitConfig, PrConfig, MergeConfig, InitConfig, IgnoreConfig, spec_context_types};
use crate::prompts::override_or;
use crate::rules::texts;
use crate::fingerprint::opt_view;

verus! {

/// Template for the commit command.
pub const COMMIT_PROMPT: &'static str = "You are an expert software engineer and commit author operating within a Git-based project.
You are operating in a command line interface, performing automated commit generation for a Git repository.

---

### 🧭 **Your Role**
Analyze the contextual information from the repository, recent diffs, and project conventions to produce one or more **atomic, high-quality commit messages**.

---

### 🎯 **Objectives**
1. **Analyze the provided Git context.**
   - Prioritize staged changes.
   - If none are staged, fall back to unstaged diffs.
   - Each diff group represents a logical commit candidate.

2. **Generate commit messages following Conventional Commits.**
   - Format: `<type>(<optional scope>): <short description>`
   - Example types: `feat`, `fix`, `docs`, `refactor`, `test`, `chore`.
   - Keep the subject line under 72 characters, written in **present tense**.
   - Include a short **body** (1–3 concise bullet points) summarizing “what” and “why.”

3. **Incorporate project-specific rules from context.**
   - Use commit style rules from `Project.conventions.commit_style`.
   - If `Project.breaking_changes.rules` or `Project.breaking_changes.indicators` exist,
     mark commits containing such changes with a `BREAKING CHANGE:` footer or a `!` after the type.
   - Respect any repository-defined scopes (e.g., `core`, `ui`, `docs`) found in directory names or conventions.

4. **Respect grouping conventions.**
   - Keep commits small and logical.
   - Separate different change types (e.g., features, fixes, docs) into separate messages if necessary.

5. **Tone and structure.**
   - Prefer technical precision and clarity.
   - Avoid generic messages like “update code” or “misc changes.”

6. **Execution**
    - Once you've created your recommended list of commits, execute them using `git commit`.

---

### 🧩 **How to Use Context**
Use:
- `Git` → for diffs, file names, and commit history patterns.
- `Project` → for commit style, breaking change indicators, and language/framework hints.
- `Repository` → for directory names and file organization to infer scopes.
- `Agent` → for allowed operations or enforced templates.

If relevant, summarize detected change patterns (e.g., documentation-only, code refactor, dependency updates).

---

### ⚙️ **Context Data**
Below is structured repository context information that describes the project’s conventions, recent diffs, and repo metadata.

";

/// Template for the pull-request command.
pub const PR_PROMPT: &'static str = "You are an expert software engineer and release maintainer.
You are generating a **comprehensive pull request description** for a Git-based project.

---

### 🎯 **Your Task**
Analyze the provided Git and Project context to produce a high-quality PR description that:
1. Explains the purpose and impact of the proposed changes.
2. Lists the major technical modifications.
3. Highlights **breaking changes**, **new features**, and **fixes** where relevant.
4. Reflects project-specific commit and release conventions.

---

### 🧩 **How to Use Context**
Use:
- `Git` → to understand branch diffs, commits, and affected files.
- `Project` → to infer breaking change indicators, versioning rules, and commit conventions.
- `Repository` → to understand the structure and type of project.
- `Interaction` → to understand current command metadata and CLI state.

If the Project context defines `breaking_changes.indicators`, explicitly check for those in diffs or commit messages and flag them.

---

### 🧱 **Output Format (Markdown)**
Produce the PR description as Markdown, using this structure:

#### Summary
A 2–3 sentence explanation of what this PR accomplishes and why it’s valuable.

#### Changes
A bulleted list of key changes and affected components or files.

#### Why
Explain the motivation or issue this PR addresses.

#### Impact / Breaking Changes
Mention any user-facing or API-level breaking changes. Use a `⚠️` emoji or a bold “Breaking Change” note.

#### Testing
Briefly describe how the changes were tested (unit tests, CI, manual verification).

#### References
List any related issues, tickets, or changelog sections.

---

### 🧭 **Style Guidelines**
- Use concise and professional language.
- Follow Conventional Commit and semantic versioning hints from Project context.
- Use Markdown headings and lists.
- Prefer technical precision over verbosity.

---

### ⚙️ **Context**
Below is the contextual JSON data from the repository. Use it to reason about code, project rules, and versioning conventions.

";

/// Template for the merge command.
pub const MERGE_PROMPT: &'static str = "You are an expert software engineer and Git automation agent, operating within a command-line environment.
You have access to a limited set of safe Git and file commands to assist the user in performing a merge.

Your goal is to **safely merge branch '{{SOURCE_BRANCH}}'** into the **current branch**,
providing both automated actions and clear explanations to the user.

---

### 🧭 **Your Role**
You are acting as a merge assistant that can:
- Inspect repository state via allowed commands.
- Execute merge-related Git commands.
- Resolve or assist with conflicts interactively.
- Generate merge commit messages following repository and project conventions.

---

### 🧰 **Your Capabilities**
You can run these commands:
- `git fetch`, `git status`, `git diff`, `git merge`, `git add`, `git commit`, `git merge --continue`, `git merge --abort`
- Read and modify text files within the repository.
- Summarize changes, conflicts, or commits.
- Follow rules defined in the Agent context.

---

### 🎯 **Your Tasks**

#### 1. Prepare for Merge
- Verify the target branch (`{{SOURCE_BRANCH}}`) exists and is up to date.
- Ensure the working tree is clean before starting the merge.
- Describe to the user what is about to be merged and confirm the action.

#### 2. Perform Merge
- Run `git merge {{SOURCE_BRANCH}}`.
- Monitor the merge output and detect whether it succeeded or resulted in conflicts.

#### 3. If Merge Succeeds
- Summarize what was merged:
  - Number of commits integrated
  - High-level overview of features or fixes (from Git log and diffs)
- Generate a **merge commit message** following repository conventions:
```
Merge branch '{{SOURCE_BRANCH}}' into {{CURRENT_BRANCH}}
- summarize major additions
-note any refactors or breaking changes
```
- Commit automatically if the merge is clean and user confirmation is not required.

#### 4. If Merge Conflicts Occur
- Identify which files have conflicts.
- Use project context and heuristics to decide:
- When to prefer “ours” vs “theirs”
- When manual intervention is required
- For each conflict:
- Explain the cause (e.g., both branches edited same function)
- Suggest or execute a resolution if safe (e.g., `git checkout --ours path/file`)
- Stage resolved files with `git add`
- After resolving, continue merge with `git merge --continue`.

#### 5. Breaking Change Awareness
- Use `Project.breaking_changes.indicators` to detect and **highlight breaking changes** in merge commits or diffs.
- Append `BREAKING CHANGE:` to the merge message if relevant.

#### 6. User Guidance
Throughout the process:
- Explain what you’re doing and why in concise, terminal-friendly output.
- Warn before taking potentially destructive actions.
- Provide clear instructions for user verification after merge completion (e.g., “run tests”, “review merged files”).

---

### 🧩 **Context Usage**
Use:
- **Git context** → for diffs, branches, conflicts, and recent commits.
- **Project context** → for conventions, breaking change detection, and commit styles.
- **Repository context** → for file structure and subsystem awareness.
- **Agent context** → for command permissions and execution limits.

Do **not** run arbitrary shell commands. Stay within allowed Git and file operations.

---

### ⚙️ **Output Format**
Use Markdown for readability, structured as:

#### Merge Summary
Explain the current merge status and actions taken.

#### Commands Executed
List Git commands executed in order.

#### Conflicts (if any)
List files and describe how they were resolved or what remains.

#### Suggested Merge Commit Message
```
Merge branch '{{SOURCE_BRANCH}}' into {{CURRENT_BRANCH}}
- summarize major changes here
- note any breaking changes
```


#### Next Steps
Instructions for verification, testing, or post-merge cleanup.

---

You are authorized to execute Git and file commands as needed, following the safety and merge policies defined above.
Never execute destructive commands (like `git reset --hard`) unless explicitly instructed by the user.


### ⚙️ **Context**
Below is structured repository context data for your reasoning.

";

/// Template for the init command.
pub const INIT_PROMPT: &'static str = "You are operating inside a command line interface (CLI) as an AI assistant integrated with Git via `cursor-agent`.

Your goal is to **initialize a new project repository** based on the user's chosen programming language and preferences.

## Task Overview

1. **Gather Requirements**
   - Ask the user for the target language (e.g. Python, JavaScript, Go, Rust, etc.)
   - Prompt for:
     - Project name
     - Package manager / environment tool (e.g. `uv`, `poetry`, `npm`, `pnpm`, `cargo`, etc.)
     - Whether to include a GitHub Actions workflow for CI/CD
     - Common tooling choices (e.g. linter, formatter, test framework)
     - Whether to initialize with a license, README, or contributing guide

2. **Generate Repository Structure**
   - Create a standard directory layout for the chosen language (e.g. `src/`, `tests/`, `docs/`, etc.)
   - Initialize `git` and create a `.gitignore` suited for the language.
   - Add a `README.md` with the project name and a short description.
   - If applicable, create an environment setup file:
     - For Python: `pyproject.toml` (supporting `uv` or `poetry`)
     - For JS: `package.json`
     - For Rust: `Cargo.toml`
     - For Go: `go.mod`

3. **Add Pre-commit Hooks**
   - Suggest and optionally configure pre-commit hooks to enforce code quality:
     - Example: `black`, `ruff`, or `mypy` for Python; `eslint` or `prettier` for JS.
   - If the user agrees, initialize `.pre-commit-config.yaml` or similar.

4. **Set Up GitHub Workflows (optional)**
   - If requested, scaffold a `.github/workflows/ci.yml` file appropriate for the language.
   - Include common actions like linting, testing, and build steps.

5. **Finalize and Commit**
   - Stage all files and make an initial commit:
     ```
     git add .
     git commit -m \"Initialize new {language} project\"
     ```
   - Provide a short summary of what was created and suggest the next steps (e.g. \"Run `make test` to verify setup\").

## Notes
- Always favor **sensible defaults** but confirm key decisions with the user before proceeding.
- Use official templates or community best practices for structure and configuration files.
- Ensure all files created are formatted correctly and validated for syntax.

When ready, proceed with creating the repository as described above.";

/// Template for the ignore command.
pub const IGNORE_PROMPT: &'static str = "You are an AI assistant operating in a Git-enabled command-line environment.
You have permission to safely modify files and execute Git commands.

Your task is to **manage entries in the project's `.gitignore` file**,
based on user input, repository structure, and detected project context.

---

### 🧭 **Your Role**
You are responsible for:
- Detecting project languages and tools.
- Ensuring `.gitignore` follows best practices for those technologies.
- Adding or removing language-specific sections in a readable, structured format.
- Explaining what changes you make and why.

---

### 🧩 **Context Data**
You have access to structured repository information that includes:
- **Repository** → files, languages, and project layout.
- **Project** → configuration files, conventions, and frameworks.
- **Agent** → allowed commands and safety policies.

Use these contexts to infer appropriate ignore patterns
(e.g., `node_modules/` for JavaScript, `target/` for Rust, `__pycache__/` for Python, `.vscode/` for VSCode).

---

### ⚙️ **Capabilities**

1. **Detect or Create `.gitignore`**
   - If `.gitignore` does not exist, create one at the repository root.
   - Always add a header comment:
     ```
     # Managed by git-ai
     # Manual edits are preserved between AI-managed sections.
     ```

2. **Add Ignore Sections**
   - Use the format:
     ```
     # === <Language or Tool> ===
     <patterns>
     # === End <Language or Tool> ===
     ```
   - Avoid duplicates — skip adding a section if it already exists.
   - Pull patterns from known best practices (GitHub templates, language conventions, or inferred from context).
   - Ensure clarity: one section per language or tool.

3. **Remove Ignore Sections**
   - Identify a matching section header by name (e.g., `# === Python ===`).
   - Cleanly remove from the start marker to its corresponding end marker.
   - Preserve all other content.

4. **Update Mode**
   - If a section exists but is outdated, replace only that block with an updated template.

5. **Summarize or Commit Changes**
   - After modification, show a unified diff of the `.gitignore` changes.
   - Then ask interactively:
     > “Would you like to commit these changes?”
   - If confirmed:
     ```
     git add .gitignore
     ```

---

### 🧱 **Output Format**

When running non-interactively, output the following structured sections:

#### Summary
List what was added, updated, or removed.

#### Diff Preview
Show the unified diff of `.gitignore` changes (if any).

#### Suggested Commit Message
`chore: update .gitignore for <language(s)>`

#### Next Steps
If user confirmation is needed or conflicts exist, clearly state them.

---
### 🧰 **Execution Rules**
You can execute safe Git and file commands:
- Read/write `.gitignore`
- `git status`, `git add .gitignore`, `git diff .gitignore`
- `git commit -m '<message>'`

You must **not** run destructive shell commands or modify unrelated files.
If a language or tool is unknown, state that and suggest manual confirmation.

---

### ⚙️ **Context**
Below is the structured repository context for reasoning about project type and configuration.
";

/// Arguments every command takes.
#[derive(Clone, Debug)]
pub struct CommonArgs {
    pub dry_run: bool,
    pub verbose: bool,
    pub message: Option<String>,
}

#[derive(Clone, Debug)]
pub struct CommitArgs {
    pub common: CommonArgs,
    pub no_confirm: bool,
}

#[derive(Clone, Debug)]
pub struct PrArgs {
    pub common: CommonArgs,
    pub no_confirm: bool,
}

#[derive(Clone, Debug)]
pub struct MergeArgs {
    pub common: CommonArgs,
    pub branch: String,
    pub no_confirm: bool,
}

#[derive(Clone, Debug)]
pub struct ConfigArgs {
    pub show: bool,
    pub init: bool,
}

#[derive(Clone, Debug)]
pub struct InitArgs {
    pub common: CommonArgs,
    pub language: Option<String>,
    pub name: Option<String>,
    pub no_confirm: bool,
}

#[derive(Clone, Debug)]
pub struct IgnoreArgs {
    pub common: CommonArgs,
    pub no_confirm: bool,
}

/// The commit command.
#[derive(Clone, Debug)]
pub struct CommitCommand {
    pub config: CommitConfig,
}

impl CommitCommand {
    pub fn new(config: CommitConfig) -> (r: CommitCommand)
        ensures
            r.config == config,
    {
        CommitCommand { config }
    }

    /// The configured prompt, or the built-in template.
    pub fn prompt_template(&self) -> (r: String)
        ensures
            r@ == override_or(self.config.prompt, COMMIT_PROMPT@),
    {
        match &self.config.prompt {
            Some(p) => p.clone(),
            None => COMMIT_PROMPT.to_string(),
        }
    }

    /// Applies the configuration to the command-line arguments. A configured `no_confirm` applies only where the command line did not set it.
    pub fn resolve_args(&self, args: CommitArgs) -> (final_args: CommitArgs)
        ensures
            final_args.no_confirm == (args.no_confirm || (self.config.no_confirm matches Some(v) && v)),
    {
        let mut args = args;
        if let Some(v) = self.config.no_confirm {
            if !args.no_confirm {
                args.no_confirm = v;
            }
        }
        args
    }

    /// The categories the command gathers by default.
    pub fn required_context(&self) -> (r: Vec<ContextType>)
        ensures
            r@ == seq![ContextType::Git, ContextType::Project, ContextType::Agent, ContextType::Interaction],
    {
        let r = vec![ContextType::Git, ContextType::Project, ContextType::Agent, ContextType::Interaction];
        assert(r@ =~= seq![ContextType::Git, ContextType::Project, ContextType::Agent, ContextType::Interaction]);
        r
    }

    /// The categories to gather: those named in the configuration where it
    /// names any list, else the default ones.
    pub fn configured_context(&self) -> (r: Vec<ContextType>)
        ensures
            r@ == (match self.config.context {
                Some(names) => spec_context_types(texts(names@)),
                None => seq![ContextType::Git, ContextType::Project, ContextType::Agent, ContextType::Interaction],
            }),
    {
        match &self.config.context {
            Some(names) => Config::parse_context_types(names),
            None => self.required_context(),
        }
    }
}

/// The pr command.
#[derive(Clone, Debug)]
pub struct PrCommand {
    pub config: PrConfig,
}

impl PrCommand {
    pub fn new(config: PrConfig) -> (r: PrCommand)
        ensures
            r.config == config,
    {
        PrCommand { config }
    }

    /// The configured prompt, or the built-in template.
    pub fn prompt_template(&self) -> (r: String)
        ensures
            r@ == override_or(self.config.prompt, PR_PROMPT@),
    {
        match &self.config.prompt {
            Some(p) => p.clone(),
            None => PR_PROMPT.to_string(),
        }
    }

    /// Applies the configuration to the command-line arguments. A configured `no_confirm` applies only where the command line did not set it.
    pub fn resolve_args(&self, args: PrArgs) -> (final_args: PrArgs)
        ensures
            final_args.no_confirm == (args.no_confirm || (self.config.no_confirm matches Some(v) && v)),
    {
        let mut args = args;
        if let Some(v) = self.config.no_confirm {
            if !args.no_confirm {
                args.no_confirm = v;
            }
        }
        args
    }

    /// The categories the command gathers by default.
    pub fn required_context(&self) -> (r: Vec<ContextType>)
        ensures
            r@ == seq![ContextType::Git, ContextType::Agent, ContextType::Interaction],
    {
        let r = vec![ContextType::Git, ContextType::Agent, ContextType::Interaction];
        assert(r@ =~= seq![ContextType::Git, ContextType::Agent, ContextType::Interaction]);
        r
    }

    /// The categories to gather: those named in the configuration where it
    /// names any list, else the default ones.
    pub fn configured_context(&self) -> (r: Vec<ContextType>)
        ensures
            r@ == (match self.config.context {
                Some(names) => spec_context_types(texts(names@)),
                None => seq![ContextType::Git, ContextType::Agent, ContextType::Interaction],
            }),
    {
        match &self.config.context {
            Some(names) => Config::parse_context_types(names),
            None => self.required_context(),
        }
    }
}

/// The merge command.
#[derive(Clone, Debug)]
pub struct MergeCommand {
    pub config: MergeConfig,
}

impl MergeCommand {
    pub fn new(config: MergeConfig) -> (r: MergeCommand)
        ensures
            r.config == config,
    {
        MergeCommand { config }
    }

    /// The configured prompt, or the built-in template.
    pub fn prompt_template(&self) -> (r: String)
        ensures
            r@ == override_or(self.config.prompt, MERGE_PROMPT@),
    {
        match &self.config.prompt {
            Some(p) => p.clone(),
            None => MERGE_PROMPT.to_string(),
        }
    }

    /// Applies the configuration to the command-line arguments. A configured `no_confirm` applies only where the command line did not set it.
    pub fn resolve_args(&self, args: MergeArgs) -> (final_args: MergeArgs)
        ensures
            final_args.no_confirm == (args.no_confirm || (self.config.no_confirm matches Some(v) && v)),
    {
        let mut args = args;
        if let Some(v) = self.config.no_confirm {
            if !args.no_confirm {
                args.no_confirm = v;
            }
        }
        args
    }

    /// The categories the command gathers by default.
    pub fn required_context(&self) -> (r: Vec<ContextType>)
        ensures
            r@ == seq![ContextType::Git, ContextType::Agent, ContextType::Interaction],
    {
        let r = vec![ContextType::Git, ContextType::Agent, ContextType::Interaction];
        assert(r@ =~= seq![ContextType::Git, ContextType::Agent, ContextType::Interaction]);
        r
    }

    /// The categories to gather: those named in the configuration where it
    /// names any list, else the default ones.
    pub fn configured_context(&self) -> (r: Vec<ContextType>)
        ensures
            r@ == (match self.config.context {
                Some(names) => spec_context_types(texts(names@)),
                None => seq![ContextType::Git, ContextType::Agent, ContextType::Interaction],
            }),
    {
        match &self.config.context {
            Some(names) => Config::parse_context_types(names),
            None => self.required_context(),
        }
    }
}

/// The init command.
#[derive(Clone, Debug)]
pub struct InitCommand {
    pub config: InitConfig,
}

impl InitCommand {
    pub fn new(config: InitConfig) -> (r: InitCommand)
        ensures
            r.config == config,
    {
        InitCommand { config }
    }

    /// The configured prompt, or the built-in template.
    pub fn prompt_template(&self) -> (r: String)
        ensures
            r@ == override_or(self.config.prompt, INIT_PROMPT@),
    {
        match &self.config.prompt {
            Some(p) => p.clone(),
            None => INIT_PROMPT.to_string(),
        }
    }

    /// Applies the configuration to the command-line arguments. A configured `no_confirm` replaces the command line's.
    pub fn resolve_args(&self, args: InitArgs) -> (final_args: InitArgs)
        ensures
            final_args.no_confirm == (match self.config.no_confirm {
                Some(v) => v,
                None => args.no_confirm,
            }),
    {
        let mut args = args;
        if let Some(v) = self.config.no_confirm {
            args.no_confirm = v;
        }
        args
    }

    /// The categories the command gathers by default.
    pub fn required_context(&self) -> (r: Vec<ContextType>)
        ensures
            r@ == seq![ContextType::Project, ContextType::Agent, ContextType::Interaction],
    {
        let r = vec![ContextType::Project, ContextType::Agent, ContextType::Interaction];
        assert(r@ =~= seq![ContextType::Project, ContextType::Agent, ContextType::Interaction]);
        r
    }

    /// The categories to gather: those named in the configuration where it
    /// names any list, else the default ones.
    pub fn configured_context(&self) -> (r: Vec<ContextType>)
        ensures
            r@ == (match self.config.context {
                Some(names) => spec_context_types(texts(names@)),
                None => seq![ContextType::Project, ContextType::Agent, ContextType::Interaction],
            }),
    {
        match &self.config.context {
            Some(names) => Config::parse_context_types(names),
            None => self.required_context(),
        }
    }
}

/// The ignore command.
#[derive(Clone, Debug)]
pub struct IgnoreCommand {
    pub config: IgnoreConfig,
}

impl IgnoreCommand {
    pub fn new(config: IgnoreConfig) -> (r: IgnoreCommand)
        ensures
            r.config == config,
    {
        IgnoreCommand { config }
    }

    /// The configured prompt, or the built-in template.
    pub fn prompt_template(&self) -> (r: String)
        ensures
            r@ == override_or(self.config.prompt, IGNORE_PROMPT@),
    {
        match &self.config.prompt {
            Some(p) => p.clone(),
            None => IGNORE_PROMPT.to_string(),
        }
    }

    /// Applies the configuration to the command-line arguments. A configured `no_confirm` replaces the command line's.
    pub fn resolve_args(&self, args: IgnoreArgs) -> (final_args: IgnoreArgs)
        ensures
            final_args.no_confirm == (match self.config.no_confirm {
                Some(v) => v,
                None => args.no_confirm,
            }),
    {
        let mut args = args;
        if let Some(v) = self.config.no_confirm {
            args.no_confirm = v;
        }
        args
    }

    /// The categories the command gathers by default.
    pub fn required_context(&self) -> (r: Vec<ContextType>)
        ensures
            r@ == seq![ContextType::Project, ContextType::Agent, ContextType::Interaction],
    {
        let r = vec![ContextType::Project, ContextType::Agent, ContextType::Interaction];
        assert(r@ =~= seq![ContextType::Project, ContextType::Agent, ContextType::Interaction]);
        r
    }

    /// The categories to gather: those named in the configuration where it
    /// names any list, else the default ones.
    pub fn configured_context(&self) -> (r: Vec<ContextType>)
        ensures
            r@ == (match self.config.context {
                Some(names) => spec_context_types(texts(names@)),
                None => seq![ContextType::Project, ContextType::Agent, ContextType::Interaction],
            }),
    {
        match &self.config.context {
            Some(names) => Config::parse_context_types(names),
            None => self.required_context(),
        }
    }
}

/// The configuration command: it uses no prompt and gathers nothing.
#[derive(Clone, Debug)]
pub struct ConfigCommand {}

impl ConfigCommand {
    pub fn new() -> (r: ConfigCommand) {
        ConfigCommand {}
    }

    /// The configuration command has no prompt.
    pub fn prompt_template(&self) -> (r: String)
        ensures
            r@.len() == 0,
    {
        String::new()
    }

    /// The arguments, unchanged.
    pub fn resolve_args(&self, args: ConfigArgs) -> (r: ConfigArgs)
        ensures
            r == args,
    {
        args
    }

    /// No categories.
    pub fn required_context(&self) -> (r: Vec<ContextType>)
        ensures
            r@.len() == 0,
    {
        Vec::new()
    }
}

/// The prompt with the user's message appended as "User context".
pub open spec fn spec_base_prompt(template: Seq<char>, message: Option<Seq<char>>) -> Seq<char> {
    match message {
        Some(m) => template + "\n\nUser context: "@ + m,
        None => template,
    }
}

pub fn base_prompt(template: &str, message: &Option<String>) -> (r: String)
    ensures
        r@ == spec_base_prompt(template@, opt_view(*message)),
{
    proof {
        reveal_strlit("\n\nUser context: ");
    }
    let mut s = template.to_string();
    if let Some(m) = message {
        s.append("\n\nUser context: ");
        s.append(m.as_str());
    }
    s
}

/// The prompt with the serialized context bundle embedded between delimiter lines.
pub open spec fn spec_apply_context(prompt: Seq<char>, context_text: Seq<char>) -> Seq<char> {
    prompt + "\n\n--- CONTEXT ---\n"@ + context_text + "\n--- END CONTEXT ---"@
}

/// Embeds the serialized context bundle into the prompt.
pub fn apply_context(prompt: &str, context_text: &str) -> (r: String)
    ensures
        r@ == spec_apply_context(prompt@, context_text@),
{
    proof {
        reveal_strlit("\n\n--- CONTEXT ---\n");
        reveal_strlit("\n--- END CONTEXT ---");
    }
    let mut s = prompt.to_string();
    s.append("\n\n--- CONTEXT ---\n");
    s.append(context_text);
    s.append("\n--- END CONTEXT ---");
    s
}

/// What the repository state means for a commit run.
#[derive(Clone, Copy, Debug, PartialEq, Eq, Structural)]
pub enum CommitReadiness {
    /// Nothing is staged, changed or untracked: there is nothing to commit.
    NothingToCommit,
    /// Nothing is staged but there are unstaged changes: the user is warned
    /// and asked to confirm unless confirmation is off.
    OnlyUnstaged,
    /// The run can go ahead.
    Ready,
}

/// Classifies the repository state before a commit run.
pub fn commit_readiness(st: &RepositoryStatus) -> (r: CommitReadiness)
    ensures
        r == (if st.staged_files@.len() == 0 && st.unstaged_files@.len() > 0 {
            CommitReadiness::OnlyUnstaged
        } else if st.staged_files@.len() == 0 && st.unstaged_files@.len() == 0
            && st.untracked_files@.len() == 0 {
            CommitReadiness::NothingToCommit
        } else {
            CommitReadiness::Ready
        }),
{
    if st.staged_files.len() == 0 && st.unstaged_files.len() > 0 {
        CommitReadiness::OnlyUnstaged
    } else if st.staged_files.len() == 0 && st.unstaged_files.len() == 0 && st.untracked_files.len() == 0 {
        CommitReadiness::NothingToCommit
    } else {
        CommitReadiness::Ready
    }
}

} // verus!
