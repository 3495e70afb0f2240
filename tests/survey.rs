use git_ai::agent::{agent_context, dedup_by_path, detect_config_format, extract_custom_prompts, extract_rules, is_config_dir_file};
use git_ai::commands::{CommitArgs, CommitCommand, CommonArgs, InitArgs, InitCommand};
use git_ai::config::{CommitConfig, Config, InitConfig, get_default_patterns};
use git_ai::survey::{count_by_extension, dependency_entry, extension_key, pattern_matches, recent_files, render_tree, repository_stats, TreeEntry};
use git_ai::types::{AgentConfigFile, ConfigFormat, ContextData, ContextType};

fn file(path: &str, content: &str, format: ConfigFormat) -> AgentConfigFile {
    AgentConfigFile { path: path.to_string(), content: content.to_string(), format }
}

#[test]
fn plain_text_rules_skip_comments_and_blanks() {
    let f = file(".cursorrules", "# comment one\nUse tabs\n\n  # comment two\nWrite tests\n", ConfigFormat::Text);
    assert_eq!(extract_rules(&vec![f]), vec!["Use tabs".to_string(), "Write tests".to_string()]);
}

#[test]
fn structured_rules_and_prompts() {
    let json = file("a.json", r#"{"rules": ["one", {"instructions": "two"}], "guidelines": "three", "other": "no", "commit_prompt": "P", "template_x": "T", "prompt_n": 3}"#, ConfigFormat::Json);
    let yaml = file("b.yaml", "constraints:\n  - four\nprompts: five\npr_template: Q\n", ConfigFormat::Yaml);
    let bad = file("c.json", "{not json", ConfigFormat::Json);
    let files = vec![json, yaml, bad];
    assert_eq!(
        extract_rules(&files),
        vec!["one", "two", "three", "five", "four"].into_iter().map(String::from).collect::<Vec<_>>()
    );
    let prompts = extract_custom_prompts(&files);
    assert_eq!(prompts.len(), 4);
    assert!(prompts.iter().any(|(k, v)| k == "prompts" && v == "five"));
    assert!(prompts.iter().any(|(k, v)| k == "commit_prompt" && v == "P"));
    assert!(prompts.iter().any(|(k, v)| k == "template_x" && v == "T"));
    assert!(prompts.iter().any(|(k, v)| k == "pr_template" && v == "Q"));
}

#[test]
fn toml_rules() {
    let f = file("x.toml", "rule1 = \"be brief\"\nrules = 'quote'\nname = \"n\"\nrule_empty = \"\"\n", ConfigFormat::Toml);
    assert_eq!(extract_rules(&vec![f]), vec!["be brief".to_string(), "quote".to_string()]);
}

#[test]
fn formats_by_extension_then_content() {
    assert_eq!(detect_config_format("dir/a.JSON", "x"), ConfigFormat::Json);
    assert_eq!(detect_config_format("a.yml", ""), ConfigFormat::Yaml);
    assert_eq!(detect_config_format("a.toml", ""), ConfigFormat::Toml);
    assert_eq!(detect_config_format(".cursorrules", " {\"a\": 1} "), ConfigFormat::Json);
    assert_eq!(detect_config_format(".aiconfig", "a: 1\nb: 2"), ConfigFormat::Yaml);
    assert_eq!(detect_config_format(".aiconfig", "[s]\nk: 1"), ConfigFormat::Yaml);
    assert_eq!(detect_config_format(".aiconfig", "[s]\nk=1"), ConfigFormat::Toml);
    assert_eq!(detect_config_format(".aiconfig", "[s] k=1"), ConfigFormat::Toml);
    assert_eq!(detect_config_format(".cursorrules", "be kind"), ConfigFormat::Text);
    assert!(is_config_dir_file(".cursor/rules/x.YAML"));
    assert!(!is_config_dir_file(".cursor/notes.md"));
}

#[test]
fn config_files_deduplicated_by_path() {
    let files = vec![
        file("/a/.cursorrules", "one", ConfigFormat::Text),
        file("/b/.cursorrules", "two", ConfigFormat::Text),
        file("/a/.cursorrules", "one", ConfigFormat::Text),
    ];
    assert_eq!(dedup_by_path(&files).len(), 2);
    match agent_context(files) {
        ContextData::Agent(a) => {
            assert_eq!(a.config_files.len(), 2);
            assert_eq!(a.rules, vec!["one".to_string(), "two".to_string()]);
        }
        _ => panic!("expected tool configuration"),
    }
}

#[test]
fn large_manifest_is_skipped_but_counted() {
    let patterns = vec!["package.json".to_string(), "*.csproj".to_string()];
    let big = "x".repeat(60 * 1024);
    assert!(dependency_entry("./package.json", &big, &patterns).is_none());
    let small = dependency_entry("./package.json", "{}", &patterns).unwrap();
    assert_eq!(small.0, "./package.json");
    assert_eq!(repository_stats(&vec![big.len() as u64, 2]), (2, 60 * 1024 + 2));
    assert!(dependency_entry("./x/app.csproj", "<p/>", &patterns).is_some());
    assert!(dependency_entry("./x/app.cs", "<p/>", &patterns).is_none());
    assert!(pattern_matches("app.csproj", "*.csproj"));
}

#[test]
fn manifest_patterns() {
    assert!(pattern_matches("./sub/Cargo.toml", "Cargo.toml"));
    assert!(!pattern_matches("./sub/MyCargo.tomlx", "Cargo.toml"));
    assert!(pattern_matches("./a/b.custom", "./*.custom"));
    assert!(pattern_matches("./a/b.custom", "*.custom"));
    assert!(!pattern_matches("./a/b.customs", "*.custom"));
    assert_eq!(repository_stats(&vec![u64::MAX, 5]), (2, u64::MAX));
}

#[test]
fn counting_by_extension() {
    let paths = vec!["./a.rs".to_string(), "./b/c.rs".to_string(), "./Makefile".to_string(), "./.hidden".to_string(), "./d.tar.gz".to_string()];
    let counts = count_by_extension(&paths);
    let get = |k: &str| counts.iter().find(|(n, _)| n == k).map(|(_, c)| *c);
    assert_eq!(get("rs"), Some(2));
    assert_eq!(get("no_extension"), Some(2));
    assert_eq!(get("gz"), Some(1));
    assert_eq!(counts.len(), 3);
    assert_eq!(extension_key("x/.."), "no_extension");
}

#[test]
fn recent_files_distinct_and_capped() {
    let mut log = String::new();
    for i in 0..30 {
        log.push_str(&format!("f{}.rs\n\nf{}.rs\n", i, i));
    }
    let r = recent_files(&log);
    assert_eq!(r.len(), 20);
    assert_eq!(r[0], "f0.rs");
    assert_eq!(r[19], "f19.rs");
}

#[test]
fn tree_rendering() {
    let entries = vec![
        TreeEntry { depth: 1, name: "src".to_string(), is_dir: true },
        TreeEntry { depth: 2, name: "lib.rs".to_string(), is_dir: false },
    ];
    assert_eq!(render_tree(&entries), ".\n  ├── src/\n    ├── lib.rs\n");
    let many: Vec<TreeEntry> = (0..53).map(|i| TreeEntry { depth: 1, name: format!("f{}", i), is_dir: false }).collect();
    let t = render_tree(&many);
    assert!(t.ends_with("... and 3 more files/directories\n"));
    assert_eq!(t.lines().count(), 52);
}

#[test]
fn config_patterns_and_context_names() {
    let mut config = Config::default();
    let d = get_default_patterns();
    assert!(d.package_managers.contains(&"Cargo.toml".to_string()));
    config.repository.dependency_files.additional_patterns = Some(vec!["Cargo.toml".to_string(), "extra.txt".to_string()]);
    let p = config.get_dependency_patterns();
    assert_eq!(p.iter().filter(|x| *x == "Cargo.toml").count(), 1);
    assert!(p.contains(&"extra.txt".to_string()));
    assert!(p.windows(2).all(|w| w[0] < w[1]));
    let names = vec!["Git".to_string(), "Bogus".to_string(), "Repository".to_string(), "Interaction".to_string()];
    assert_eq!(Config::parse_context_types(&names), vec![ContextType::Git, ContextType::Project, ContextType::Interaction]);
    let chosen = Config::load(None, None);
    assert!(!chosen.behavior.verbose);
}

#[test]
fn command_settings_apply_to_arguments() {
    let common = CommonArgs { dry_run: false, verbose: false, message: None };
    let cmd = CommitCommand::new(CommitConfig { prompt: None, no_confirm: Some(true), context: Some(vec!["Git".to_string()]) });
    let args = cmd.resolve_args(CommitArgs { common: common.clone(), no_confirm: false });
    assert!(args.no_confirm);
    assert_eq!(cmd.configured_context(), vec![ContextType::Git]);
    assert_eq!(cmd.required_context().len(), 4);
    let init = InitCommand::new(InitConfig { prompt: Some("mine".to_string()), no_confirm: Some(false), context: None });
    let a = init.resolve_args(InitArgs { common, language: None, name: None, no_confirm: true });
    assert!(!a.no_confirm);
    assert_eq!(init.prompt_template(), "mine");
}

#[test]
fn config_files_sorted_by_path() {
    let files = vec![
        file("/w/.cursoragent", "first", ConfigFormat::Text),
        file("/w/.cursor-agent", "second", ConfigFormat::Text),
        file("/w/.cursoragent", "again", ConfigFormat::Text),
    ];
    let sorted = dedup_by_path(&files);
    assert_eq!(sorted.len(), 2);
    assert_eq!(sorted[0].path, "/w/.cursor-agent");
    assert_eq!(sorted[1].path, "/w/.cursoragent");
    assert_eq!(sorted[1].content, "first");
    match agent_context(files) {
        ContextData::Agent(a) => assert_eq!(a.rules, vec!["second".to_string(), "first".to_string()]),
        _ => panic!("expected tool configuration"),
    }
}

#[test]
fn manifest_patterns_sorted_and_unique() {
    let mut config = Config::default();
    config.repository.dependency_files.package_managers = Some(vec!["b".to_string(), "a".to_string()]);
    config.repository.dependency_files.build_files = Some(vec!["a".to_string()]);
    config.repository.dependency_files.config_files = None;
    config.repository.dependency_files.additional_patterns = Some(vec!["Z".to_string(), "é".to_string()]);
    assert_eq!(config.get_dependency_patterns(), vec!["Z", "a", "b", "é"].into_iter().map(String::from).collect::<Vec<_>>());
}
