use git_ai::config::Config;
use git_ai::prompts::{
    add_custom_message, fill_braces, get_prompt_for_command, PromptConfig, PromptRegistry,
    COMMIT_PROMPT, MERGE_PROMPT, PR_PROMPT,
};
use git_ai::providers::CURSOR_INSTALL_URL;

#[test]
fn test_prompt_generation() {
    let config = Config::default();
    let prompts = config.get_prompts();

    let commit_prompt = get_prompt_for_command(&prompts, "commit", None, None);
    assert!(commit_prompt.contains("commit"));

    let pr_prompt = get_prompt_for_command(&prompts, "pr", None, None);
    assert!(pr_prompt.contains("pull request"));

    let merge_prompt = get_prompt_for_command(&prompts, "merge", Some("main"), None);
    assert!(merge_prompt.contains("main"));

    let custom_prompt = get_prompt_for_command(&prompts, "commit", None, Some("Focus on tests"));
    assert!(custom_prompt.contains("Focus on tests"));
    assert!(custom_prompt.contains("additional context"));
}

#[test]
fn test_default_config() {
    let config = Config::default();
    assert!(!config.behavior.verbose);
}

#[test]
fn test_prompt_fallbacks() {
    let config = Config::default();
    assert!(config.commands.commit.prompt.is_none());
    assert!(config.commands.pr.prompt.is_none());
    assert!(config.commands.merge.prompt.is_none());
}

#[test]
fn test_prompt_overrides() {
    let mut config = Config::default();
    config.commands.commit.prompt = Some("Custom commit prompt".to_string());

    assert_eq!(config.commands.commit.prompt.as_deref(), Some("Custom commit prompt"));
    assert!(config.commands.pr.prompt.is_none());
    assert!(config.commands.merge.prompt.is_none());
}

#[test]
fn test_cursor_install_url_is_valid() {
    assert!(CURSOR_INSTALL_URL.starts_with("https://"));
    assert!(CURSOR_INSTALL_URL.contains("cursor.com"));
}

#[test]
fn test_commit_prompt_exists() {
    assert!(!COMMIT_PROMPT.is_empty());
    assert!(COMMIT_PROMPT.contains("commit messages"));
    assert!(COMMIT_PROMPT.contains("git diff"));
    assert!(COMMIT_PROMPT.contains("conventional commit"));
}

#[test]
fn test_merge_prompt_exists() {
    assert!(!MERGE_PROMPT.is_empty());
    assert!(MERGE_PROMPT.contains("merge"));
    assert!(MERGE_PROMPT.contains("branch"));
    assert!(MERGE_PROMPT.contains("conflicts"));
    assert!(MERGE_PROMPT.contains("commit message"));
}

#[test]
fn test_merge_prompt_has_placeholders() {
    let placeholder_count = MERGE_PROMPT.matches("{}").count();
    assert!(placeholder_count >= 6, "Should have multiple branch placeholders");
}

#[test]
fn test_merge_prompt_formatting() {
    let branch = "feature/test";
    let formatted = MERGE_PROMPT.replace("{}", branch);
    assert!(formatted.contains("feature/test"));
    assert!(!formatted.contains("{}"));
}

#[test]
fn test_custom_message_formatting() {
    let base = "Base prompt";
    let custom = "Custom requirement";

    let result = add_custom_message(base, Some(custom));
    assert!(result.contains("Base prompt"));
    assert!(result.contains(
        "The user has provided this additional context to focus on: Custom requirement"
    ));

    let result_no_custom = add_custom_message(base, None);
    assert_eq!(result_no_custom, "Base prompt");
}

#[test]
fn test_prompt_config_overrides() {
    let registry = PromptRegistry::default();
    let config = PromptConfig {
        commit: Some("Custom commit prompt".to_string()),
        pr: Some("Custom PR prompt".to_string()),
        ..Default::default()
    };

    let overridden = registry.with_overrides(&config);
    assert_eq!(overridden.commit, "Custom commit prompt");
    assert_eq!(overridden.pr, "Custom PR prompt");
    assert_eq!(overridden.merge, registry.merge);
}

#[test]
fn test_get_prompt_for_command() {
    let registry = PromptRegistry::default();

    let commit_prompt = get_prompt_for_command(&registry, "commit", None, None);
    assert!(commit_prompt.contains("commit"));

    let pr_prompt = get_prompt_for_command(&registry, "pr", None, None);
    assert!(pr_prompt.contains("pull request"));

    let merge_prompt = get_prompt_for_command(&registry, "merge", Some("feature/test"), None);
    assert!(merge_prompt.contains("feature/test"));

    let custom_prompt = get_prompt_for_command(&registry, "commit", None, Some("Focus on tests"));
    assert!(custom_prompt.contains("Focus on tests"));
    assert!(custom_prompt.contains("additional context"));
}

#[test]
fn test_pr_prompt_exists() {
    assert!(!PR_PROMPT.is_empty());
    assert!(PR_PROMPT.contains("pull request"));
    assert!(PR_PROMPT.contains("**Summary**"));
    assert!(PR_PROMPT.contains("**Changes**"));
    assert!(PR_PROMPT.contains("**Why**"));
    assert!(PR_PROMPT.contains("**Testing**"));
    assert!(PR_PROMPT.contains("**Notes**"));
}

#[test]
fn test_pr_prompt_contains_markdown() {
    assert!(PR_PROMPT.contains("Markdown"));
}

#[test]
fn merge_prompt_fills_every_placeholder_with_the_branch() {
    let registry = PromptRegistry::default();
    let p = get_prompt_for_command(&registry, "merge", Some("dev"), None);
    assert_eq!(p, MERGE_PROMPT.replace("{}", "dev"));
    let unfilled = get_prompt_for_command(&registry, "merge", None, None);
    assert_eq!(unfilled, MERGE_PROMPT);
}

#[test]
fn unknown_command_gets_a_plain_notice() {
    let registry = PromptRegistry::default();
    assert_eq!(get_prompt_for_command(&registry, "deploy", None, Some("x")), "Unknown command: deploy");
}

#[test]
fn custom_message_is_appended_exactly() {
    assert_eq!(
        add_custom_message("P", Some("m")),
        "P\n\nThe user has provided this additional context to focus on: m"
    );
}

#[test]
fn braces_are_replaced_left_to_right() {
    assert_eq!(fill_braces("a{}b{}}{", "X"), "aXbX}{");
    assert_eq!(fill_braces("{{}}", "Y"), "{Y}");
    assert_eq!(fill_braces("", "Y"), "");
}

#[test]
fn configured_prompts_replace_builtin_ones() {
    let mut config = Config::default();
    config.commands.pr.prompt = Some("Mine".to_string());
    let reg = config.get_prompts();
    assert_eq!(reg.pr, "Mine");
    assert_eq!(reg.commit, COMMIT_PROMPT);
    assert_eq!(reg.merge, MERGE_PROMPT);
}
