use vstd::prelude::*;
use crate::text::{chars_of, push_char};
use crate::rules::same_str;

verus! {

/// Built-in prompt for composing commit messages.
pub const COMMIT_PROMPT: &'static str = "You are operting in a command line interface performing automated commit generation.

Your task:

1. Analyze changes in the current Git repository.
    - If there are staged files, only consider those.
    - If there are no staged files, consider all unstaged changes instead.
    - Group related changes into small, logical commits that follow best practices for incremental commits.
    - Look at the actual code changes (git diff for unstaged, git diff --cached for staged)

2. Generate commit messages following the Conventional Commits standard:
    - Use the format: <type>(<optional scope>): <short description>
    - Keep each message concise and clear.
    - For the commit body, include at most two bullet points, summarizing the key changes.

3. Respect existing repository or app-level rules.
    - If the repository or the cursor-agent configuration defines custom commit message rules or LLM behavior rules, those take precedence over this prompt.
    - Harmonize your output with any detected .cursor-agent, .aiconfig, or similar configuration files.
    - Analyze the current git repository state and help with committing changes:

**Commit Message Guidelines**:
- Subject line under 72 characters
- Focus on WHAT changed and WHY (not HOW)
- Use conventional commit format when appropriate (feat:, fix:, docs:, etc.)
- Write in present tense
- Be specific and descriptive

**For Staging Guidance**:
- Suggest logical groupings of changes
- Explain why certain files should be committed together
- Recommend separate commits for different types of changes (features vs fixes vs docs)

Once you've created your recommended list of commits, execute them using `git commit`.";

/// Built-in prompt for writing a pull request description.
pub const PR_PROMPT: &'static str = "You are an expert software developer creating a comprehensive pull request description.

Analyze the git changes between the current branch and the target branch (typically main/master), then create a professional PR description.

**Your Task**:
1. **Examine Changes**: Review the git diff between branches to understand what changed
2. **Analyze Impact**: Determine the scope and significance of the changes
3. **Generate Description**: Create a well-structured PR description in Markdown format

**Required Structure**:
- **Summary**: Brief, clear overview of what this PR accomplishes
- **Changes**: Bulleted list of key modifications, features, or fixes
- **Why**: Explanation of the motivation, problem solved, or requirement fulfilled  
- **Testing**: Description of how changes were tested (unit tests, manual testing, etc.)
- **Notes**: Any important considerations, breaking changes, or context for readers

**Style Guidelines**:
- Use clean Markdown formatting with proper headings
- Be professional yet concise
- Focus on the business value and technical impact
- Include any relevant issue numbers or references
- Highlight breaking changes or migration steps if applicable

Create a description that helps readers understand the context, changes, and impact of this pull request.";

/// Built-in prompt for merge guidance; each `{}` stands for the branch being merged.
pub const MERGE_PROMPT: &'static str = "You are an expert software developer tasked with analyzing and assisting with merging the branch '{}' into the current branch.

**Your Task**:
1. **Analyze Branch Differences**: Examine what changes exist in '{}' that aren't in the current branch
2. **Check for Conflicts**: Determine if there are any merge conflicts and their nature
3. **Provide Guidance**: Based on the git status and changes, provide appropriate guidance

**If There Are Merge Conflicts**:
- Explain what caused the conflicts between the branches
- Identify the specific files and areas of conflict
- Suggest a resolution strategy for each conflict
- Provide step-by-step guidance for resolving conflicts
- Recommend an appropriate merge commit message after resolution

**If No Conflicts (Clean Merge)**:
- Summarize what changes from '{}' will be integrated
- Highlight key features, fixes, or modifications being brought in
- Generate an appropriate merge commit message following the format: 'Merge branch {}'
- Explain the impact and value of these changes to the codebase

**For Merge Commit Messages**:
- Use standard format: 'Merge branch {}' or 'Merge branch {} into current-branch'
- Include a brief description of what '{}' brings to the codebase
- Mention any significant features, fixes, or changes
- Keep it concise but informative

**General Guidance**:
- Review the current git status carefully
- Consider the branch's purpose and changes
- Provide clear, actionable next steps
- Warn about any potential breaking changes or impacts

Analyze the current repository state and provide comprehensive merge guidance for integrating '{}'.";

/// The prompt text used for each command.
#[derive(Clone, Debug)]
pub struct PromptRegistry {
    pub commit: String,
    pub pr: String,
    pub merge: String,
}

/// Optional replacements for the built-in prompts.
#[derive(Clone, Debug)]
pub struct PromptConfig {
    pub commit: Option<String>,
    pub pr: Option<String>,
    pub merge: Option<String>,
}

impl Default for PromptConfig {
    fn default() -> (r: PromptConfig)
        ensures
            r.commit is None && r.pr is None && r.merge is None,
    {
        PromptConfig { commit: None, pr: None, merge: None }
    }
}

impl Default for PromptRegistry {
    fn default() -> (r: PromptRegistry)
        ensures
            r.commit@ == COMMIT_PROMPT@,
            r.pr@ == PR_PROMPT@,
            r.merge@ == MERGE_PROMPT@,
    {
        PromptRegistry {
            commit: COMMIT_PROMPT.to_string(),
            pr: PR_PROMPT.to_string(),
            merge: MERGE_PROMPT.to_string(),
        }
    }
}

pub open spec fn override_or(o: Option<String>, d: Seq<char>) -> Seq<char> {
    match o {
        Some(s) => s@,
        None => d,
    }
}

impl PromptRegistry {
    /// A copy of the registry with each configured prompt replacing its built-in one.
    pub fn with_overrides(&self, config: &PromptConfig) -> (r: PromptRegistry)
        ensures
            r.commit@ == override_or(config.commit, self.commit@),
            r.pr@ == override_or(config.pr, self.pr@),
            r.merge@ == override_or(config.merge, self.merge@),
    {
        let commit = match &config.commit {
            Some(p) => p.clone(),
            None => self.commit.clone(),
        };
        let pr = match &config.pr {
            Some(p) => p.clone(),
            None => self.pr.clone(),
        };
        let merge = match &config.merge {
            Some(p) => p.clone(),
            None => self.merge.clone(),
        };
        PromptRegistry { commit, pr, merge }
    }
}

/// `s` with every "{}" replaced by `b`, matches found left to right.
pub open spec fn replace_braces(s: Seq<char>, b: Seq<char>) -> Seq<char>
    decreases s.len(),
{
    if s.len() == 0 {
        seq![]
    } else if s.len() >= 2 && s[0] == '{' && s[1] == '}' {
        b + replace_braces(s.subrange(2, s.len() as int), b)
    } else {
        seq![s[0]] + replace_braces(s.subrange(1, s.len() as int), b)
    }
}

/// Replaces every "{}" in `s` by `b`.
pub fn fill_braces(s: &str, b: &str) -> (r: String)
    ensures
        r@ == replace_braces(s@, b@),
{
    let cs = chars_of(s);
    let n = cs.len();
    let mut out = String::new();
    let mut i: usize = 0;
    assert(cs@.subrange(0, n as int) =~= cs@);
    while i < n
        invariant
            cs@ == s@,
            n == cs@.len(),
            i <= n,
            out@ + replace_braces(cs@.subrange(i as int, n as int), b@) == replace_braces(s@, b@),
        decreases n - i,
    {
        let ghost rest = cs@.subrange(i as int, n as int);
        if i + 1 < n && cs[i] == '{' && cs[i + 1] == '}' {
            assert(rest.subrange(2, rest.len() as int) =~= cs@.subrange(i + 2, n as int));
            let ghost before = out@;
            out.append(b);
            assert(before + replace_braces(rest, b@) =~= out@ + replace_braces(cs@.subrange(i + 2, n as int), b@));
            i = i + 2;
        } else {
            assert(rest.subrange(1, rest.len() as int) =~= cs@.subrange(i + 1, n as int));
            let ghost before = out@;
            push_char(&mut out, cs[i]);
            assert(before + replace_braces(rest, b@) =~= out@ + replace_braces(cs@.subrange(i + 1, n as int), b@));
            i = i + 1;
        }
    }
    assert(replace_braces(cs@.subrange(n as int, n as int), b@) =~= Seq::<char>::empty());
    assert(out@ + Seq::<char>::empty() =~= out@);
    out
}

/// The prompt with the user's message appended as focus context, if there is one.
pub open spec fn spec_with_message(base: Seq<char>, message: Option<Seq<char>>) -> Seq<char> {
    match message {
        Some(m) => base + "\n\nThe user has provided this additional context to focus on: "@ + m,
        None => base,
    }
}

pub open spec fn str_opt(o: Option<&str>) -> Option<Seq<char>> {
    match o {
        Some(s) => Some(s@),
        None => None,
    }
}

/// Adds the user's message to a prompt as additional focus context.
pub fn add_custom_message(base_prompt: &str, custom_message: Option<&str>) -> (r: String)
    ensures
        r@ == spec_with_message(base_prompt@, str_opt(custom_message)),
{
    proof {
        reveal_strlit("\n\nThe user has provided this additional context to focus on: ");
    }
    let mut s = base_prompt.to_string();
    if let Some(m) = custom_message {
        s.append("\n\nThe user has provided this additional context to focus on: ");
        s.append(m);
    }
    s
}

/// The prompt for a command: the registry's commit, pr or merge prompt (the
/// merge prompt with the branch filled in, where one is given), with the
/// user's message added; any other command gets "Unknown command: <name>".
pub open spec fn spec_prompt_for_command(
    reg: PromptRegistry,
    command: Seq<char>,
    branch: Option<Seq<char>>,
    message: Option<Seq<char>>,
) -> Seq<char> {
    if command == "commit"@ {
        spec_with_message(reg.commit@, message)
    } else if command == "pr"@ {
        spec_with_message(reg.pr@, message)
    } else if command == "merge"@ {
        match branch {
            Some(b) => spec_with_message(replace_braces(reg.merge@, b), message),
            None => spec_with_message(reg.merge@, message),
        }
    } else {
        "Unknown command: "@ + command
    }
}

pub fn get_prompt_for_command(
    registry: &PromptRegistry,
    command: &str,
    branch: Option<&str>,
    custom_message: Option<&str>,
) -> (r: String)
    ensures
        r@ == spec_prompt_for_command(*registry, command@, str_opt(branch), str_opt(custom_message)),
{
    proof {
        reveal_strlit("Unknown command: ");
    }
    if same_str(command, "commit") {
        add_custom_message(registry.commit.as_str(), custom_message)
    } else if same_str(command, "pr") {
        add_custom_message(registry.pr.as_str(), custom_message)
    } else if same_str(command, "merge") {
        match branch {
            Some(b) => {
                let filled = fill_braces(registry.merge.as_str(), b);
                add_custom_message(filled.as_str(), custom_message)
            },
            None => add_custom_message(registry.merge.as_str(), custom_message),
        }
    } else {
        let mut s = "Unknown command: ".to_string();
        s.append(command);
        s
    }
}

} // verus!
