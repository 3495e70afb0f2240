use vstd::prelude::*;
use crate::types::ContextType;
use crate::rules::{same_str, texts};
use crate::order::{insert_texts, strictly_ascending};
use crate::fingerprint::copy_text;
use crate::prompts::{PromptConfig, PromptRegistry, COMMIT_PROMPT, PR_PROMPT, MERGE_PROMPT, override_or};

verus! {

/// Package-manager manifests read by default.
pub const DEFAULT_PACKAGE_MANAGER_FILES: [&'static str; 22] = [
    "package.json", "package-lock.json", "yarn.lock", "pnpm-lock.yaml", "Cargo.toml",
    "Cargo.lock", "go.mod", "go.sum", "requirements.txt", "Pipfile", "Pipfile.lock",
    "pyproject.toml", "poetry.lock", "Gemfile", "Gemfile.lock", "composer.json",
    "composer.lock", "mix.exs", "pubspec.yaml", "Package.swift", "*.csproj", "*.gemspec",
];

/// Build descriptions read by default.
pub const DEFAULT_BUILD_FILES: [&'static str; 12] = [
    "Makefile", "CMakeLists.txt", "pom.xml", "build.gradle", "build.gradle.kts",
    "settings.gradle", "meson.build", "Dockerfile", "docker-compose.yml", "justfile",
    "BUILD.bazel", "*.cabal",
];

/// Tool configuration files read by default.
pub const DEFAULT_CONFIG_FILES: [&'static str; 8] = [
    "tsconfig.json", "setup.py", "setup.cfg", "tox.ini", ".nvmrc", ".tool-versions",
    "rust-toolchain.toml", "*.config.js",
];

/// Owned copies of a list of texts.
pub fn strings_of(items: &[&str]) -> (r: Vec<String>)
    ensures
        r@.len() == items@.len(),
        forall|k: int| 0 <= k < items@.len() ==> #[trigger] r@[k]@ == items@[k]@,
{
    let mut out: Vec<String> = Vec::new();
    let mut i: usize = 0;
    while i < items.len()
        invariant
            i <= items@.len(),
            out@.len() == i,
            forall|k: int| 0 <= k < i ==> #[trigger] out@[k]@ == items@[k]@,
        decreases items@.len() - i,
    {
        out.push(items[i].to_string());
        i = i + 1;
    }
    out
}

#[derive(Clone, Debug)]
pub struct BehaviorConfig {
    pub verbose: bool,
}

/// Settings of the commit command.
#[derive(Clone, Debug)]
pub struct CommitConfig {
    pub prompt: Option<String>,
    pub no_confirm: Option<bool>,
    pub context: Option<Vec<String>>,
}

/// Settings of the pull-request command.
#[derive(Clone, Debug)]
pub struct PrConfig {
    pub prompt: Option<String>,
    pub no_confirm: Option<bool>,
    pub context: Option<Vec<String>>,
}

/// Settings of the merge command.
#[derive(Clone, Debug)]
pub struct MergeConfig {
    pub prompt: Option<String>,
    pub no_confirm: Option<bool>,
    pub context: Option<Vec<String>>,
}

/// Settings of the init command.
#[derive(Clone, Debug)]
pub struct InitConfig {
    pub prompt: Option<String>,
    pub no_confirm: Option<bool>,
    pub context: Option<Vec<String>>,
}

/// Settings of the ignore command.
#[derive(Clone, Debug)]
pub struct IgnoreConfig {
    pub prompt: Option<String>,
    pub no_confirm: Option<bool>,
    pub context: Option<Vec<String>>,
}

#[derive(Clone, Debug)]
pub struct CommandConfigs {
    pub commit: CommitConfig,
    pub pr: PrConfig,
    pub merge: MergeConfig,
    pub init: InitConfig,
    pub ignore: IgnoreConfig,
}

/// Project-specific settings (none yet).
#[derive(Clone, Debug)]
pub struct ProjectConfig {}

/// Manifest patterns by group; a group left out contributes nothing.
#[derive(Clone, Debug)]
pub struct DependencyFilesConfig {
    pub package_managers: Option<Vec<String>>,
    pub build_files: Option<Vec<String>>,
    pub config_files: Option<Vec<String>>,
    pub additional_patterns: Option<Vec<String>>,
}

#[derive(Clone, Debug)]
pub struct RepositoryConfig {
    pub dependency_files: DependencyFilesConfig,
}

/// The tool's configuration.
#[derive(Clone, Debug)]
pub struct Config {
    pub behavior: BehaviorConfig,
    pub commands: CommandConfigs,
    pub project: Option<ProjectConfig>,
    pub repository: RepositoryConfig,
}

/// The built-in manifest patterns, by group.
#[derive(Clone, Debug)]
pub struct DefaultPatterns {
    pub package_managers: Vec<String>,
    pub build_files: Vec<String>,
    pub config_files: Vec<String>,
}

pub open spec fn lists_texts(v: Seq<String>, items: Seq<&str>) -> bool {
    v.len() == items.len() && forall|k: int| 0 <= k < v.len() ==> #[trigger] v[k]@ == items[k]@
}

/// The built-in manifest patterns.
pub fn get_default_patterns() -> (r: DefaultPatterns)
    ensures
        lists_texts(r.package_managers@, DEFAULT_PACKAGE_MANAGER_FILES@),
        lists_texts(r.build_files@, DEFAULT_BUILD_FILES@),
        lists_texts(r.config_files@, DEFAULT_CONFIG_FILES@),
{
    DefaultPatterns {
        package_managers: strings_of(&DEFAULT_PACKAGE_MANAGER_FILES),
        build_files: strings_of(&DEFAULT_BUILD_FILES),
        config_files: strings_of(&DEFAULT_CONFIG_FILES),
    }
}

pub open spec fn no_command_settings(c: CommandConfigs) -> bool {
    &&& c.commit.prompt is None && c.commit.no_confirm is None && c.commit.context is None
    &&& c.pr.prompt is None && c.pr.no_confirm is None && c.pr.context is None
    &&& c.merge.prompt is None && c.merge.no_confirm is None && c.merge.context is None
    &&& c.init.prompt is None && c.init.no_confirm is None && c.init.context is None
    &&& c.ignore.prompt is None && c.ignore.no_confirm is None && c.ignore.context is None
}

impl Default for CommandConfigs {
    fn default() -> (r: CommandConfigs)
        ensures
            no_command_settings(r),
    {
        CommandConfigs {
            commit: CommitConfig { prompt: None, no_confirm: None, context: None },
            pr: PrConfig { prompt: None, no_confirm: None, context: None },
            merge: MergeConfig { prompt: None, no_confirm: None, context: None },
            init: InitConfig { prompt: None, no_confirm: None, context: None },
            ignore: IgnoreConfig { prompt: None, no_confirm: None, context: None },
        }
    }
}

impl Default for DependencyFilesConfig {
    /// The built-in pattern groups, with no additional patterns.
    fn default() -> (r: DependencyFilesConfig)
        ensures
            r.package_managers matches Some(v) && lists_texts(v@, DEFAULT_PACKAGE_MANAGER_FILES@),
            r.build_files matches Some(v) && lists_texts(v@, DEFAULT_BUILD_FILES@),
            r.config_files matches Some(v) && lists_texts(v@, DEFAULT_CONFIG_FILES@),
            r.additional_patterns is None,
    {
        let d = get_default_patterns();
        DependencyFilesConfig {
            package_managers: Some(d.package_managers),
            build_files: Some(d.build_files),
            config_files: Some(d.config_files),
            additional_patterns: None,
        }
    }
}

/// The default configuration: quiet output, no command overrides, no project
/// settings, and the built-in manifest patterns with no additional ones.
pub open spec fn is_default_config(r: Config) -> bool {
    &&& !r.behavior.verbose
    &&& no_command_settings(r.commands)
    &&& r.project is None
    &&& r.repository.dependency_files.package_managers matches Some(v) && lists_texts(
        v@,
        DEFAULT_PACKAGE_MANAGER_FILES@,
    )
    &&& r.repository.dependency_files.build_files matches Some(v) && lists_texts(v@, DEFAULT_BUILD_FILES@)
    &&& r.repository.dependency_files.config_files matches Some(v) && lists_texts(v@, DEFAULT_CONFIG_FILES@)
    &&& r.repository.dependency_files.additional_patterns is None
}

impl Default for Config {
    /// Quiet output, no command overrides (built-in prompts), no project
    /// settings, and the built-in manifest patterns.
    fn default() -> (r: Config)
        ensures
            is_default_config(r),
    {
        Config {
            behavior: BehaviorConfig { verbose: false },
            commands: CommandConfigs::default(),
            project: None,
            repository: RepositoryConfig { dependency_files: DependencyFilesConfig::default() },
        }
    }
}

pub open spec fn group(o: Option<Vec<String>>) -> Seq<Seq<char>> {
    match o {
        Some(v) => texts(v@),
        None => seq![],
    }
}

/// Whether `y` is a pattern of some group.
pub open spec fn in_patterns(d: DependencyFilesConfig, y: Seq<char>) -> bool {
    group(d.package_managers).contains(y) || group(d.build_files).contains(y) || group(
        d.config_files,
    ).contains(y) || group(d.additional_patterns).contains(y)
}

/// Adds the patterns of one group to an ascending list without repeats.
fn add_group(out: &mut Vec<String>, g: &Option<Vec<String>>)
    requires
        strictly_ascending(texts(old(out)@)),
    ensures
        strictly_ascending(texts(final(out)@)),
        forall|y: Seq<char>| #[trigger] texts(final(out)@).contains(y) <==> (texts(old(out)@).contains(y) || group(*g).contains(y)),
{
    match g {
        Some(v) => {
            insert_texts(out, v);
            assert(group(*g) == texts(v@));
        },
        None => {
            assert(group(*g) =~= Seq::<Seq<char>>::empty());
        },
    }
}

/// The known category a context name denotes: "Git", "Project" (also called
/// "Repository"), "Agent" or "Interaction".
pub open spec fn spec_context_of_name(name: Seq<char>) -> Option<ContextType> {
    if name == "Git"@ {
        Some(ContextType::Git)
    } else if name == "Repository"@ || name == "Project"@ {
        Some(ContextType::Project)
    } else if name == "Agent"@ {
        Some(ContextType::Agent)
    } else if name == "Interaction"@ {
        Some(ContextType::Interaction)
    } else {
        None
    }
}

/// The categories of the known names, in order; unknown names are ignored.
pub open spec fn spec_context_types(names: Seq<Seq<char>>) -> Seq<ContextType>
    decreases names.len(),
{
    if names.len() == 0 {
        seq![]
    } else {
        let prev = spec_context_types(names.drop_last());
        match spec_context_of_name(names.last()) {
            Some(ct) => prev.push(ct),
            None => prev,
        }
    }
}

/// All manifest patterns of the groups, ascending, each once.
pub fn dependency_patterns(d: &DependencyFilesConfig) -> (r: Vec<String>)
    ensures
        strictly_ascending(texts(r@)),
        forall|y: Seq<char>| #[trigger] texts(r@).contains(y) <==> in_patterns(*d, y),
{
    let mut out: Vec<String> = Vec::new();
    assert(texts(out@) =~= Seq::<Seq<char>>::empty());
    add_group(&mut out, &d.package_managers);
    add_group(&mut out, &d.build_files);
    add_group(&mut out, &d.config_files);
    add_group(&mut out, &d.additional_patterns);
    out
}

impl Config {
    /// The configuration in effect: the repository's own file if it gave one,
    /// else the user's, else the defaults.
    pub fn load(repository_config: Option<Config>, user_config: Option<Config>) -> (r: Config)
        ensures
            repository_config is Some ==> r == repository_config->0,
            repository_config is None && user_config is Some ==> r == user_config->0,
            repository_config is None && user_config is None ==> is_default_config(r),
    {
        match repository_config {
            Some(c) => c,
            None => match user_config {
                Some(c) => c,
                None => Config::default(),
            },
        }
    }

    /// All configured manifest patterns, ascending, each once.
    pub fn get_dependency_patterns(&self) -> (r: Vec<String>)
        ensures
            strictly_ascending(texts(r@)),
            forall|y: Seq<char>| #[trigger] texts(r@).contains(y) <==> in_patterns(self.repository.dependency_files, y),
    {
        dependency_patterns(&self.repository.dependency_files)
    }
    /// The categories named in a command's context setting.
    pub fn parse_context_types(context_names: &Vec<String>) -> (r: Vec<ContextType>)
        ensures
            r@ == spec_context_types(texts(context_names@)),
    {
        proof {
            reveal_strlit("Git");
            reveal_strlit("Repository");
            reveal_strlit("Project");
            reveal_strlit("Agent");
            reveal_strlit("Interaction");
        }
        let mut out: Vec<ContextType> = Vec::new();
        let mut i: usize = 0;
        let ghost ns = texts(context_names@);
        assert(ns.take(0) =~= Seq::<Seq<char>>::empty());
        while i < context_names.len()
            invariant
                ns == texts(context_names@),
                i <= context_names@.len(),
                out@ == spec_context_types(ns.take(i as int)),
            decreases context_names@.len() - i,
        {
            assert(ns.take(i + 1).drop_last() =~= ns.take(i as int));
            assert(ns.take(i + 1).last() == context_names@[i as int]@);
            let n = context_names[i].as_str();
            if same_str(n, "Git") {
                out.push(ContextType::Git);
            } else if same_str(n, "Repository") || same_str(n, "Project") {
                out.push(ContextType::Project);
            } else if same_str(n, "Agent") {
                out.push(ContextType::Agent);
            } else if same_str(n, "Interaction") {
                out.push(ContextType::Interaction);
            }
            i = i + 1;
        }
        assert(ns.take(context_names@.len() as int) =~= ns);
        out
    }

    /// The prompts in effect: the built-in ones with each configured command
    /// prompt replacing its own.
    pub fn get_prompts(&self) -> (r: PromptRegistry)
        ensures
            r.commit@ == override_or(self.commands.commit.prompt, COMMIT_PROMPT@),
            r.pr@ == override_or(self.commands.pr.prompt, PR_PROMPT@),
            r.merge@ == override_or(self.commands.merge.prompt, MERGE_PROMPT@),
    {
        let overrides = PromptConfig {
            commit: copy_text(&self.commands.commit.prompt),
            pr: copy_text(&self.commands.pr.prompt),
            merge: copy_text(&self.commands.merge.prompt),
        };
        PromptRegistry::default().with_overrides(&overrides)
    }
}

} // verus!
