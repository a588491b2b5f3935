use git_host::detection::{detect_provider_from_pr_url, detect_provider_from_url, gitea_base_url};
use git_host::types::ProviderKind;

#[test]
fn test_github_com_https() {
    assert_eq!(
        detect_provider_from_url("https://github.com/owner/repo", None),
        ProviderKind::GitHub
    );
    assert_eq!(
        detect_provider_from_url("https://github.com/owner/repo.git", None),
        ProviderKind::GitHub
    );
}

#[test]
fn test_github_com_ssh() {
    assert_eq!(
        detect_provider_from_url("git@github.com:owner/repo.git", None),
        ProviderKind::GitHub
    );
}

#[test]
fn test_github_enterprise() {
    assert_eq!(
        detect_provider_from_url("https://github.company.com/owner/repo", None),
        ProviderKind::GitHub
    );
    assert_eq!(
        detect_provider_from_url("https://github.acme.corp/team/project", None),
        ProviderKind::GitHub
    );
    assert_eq!(
        detect_provider_from_url("git@github.internal.io:org/repo.git", None),
        ProviderKind::GitHub
    );
}

#[test]
fn test_azure_devops_https() {
    assert_eq!(
        detect_provider_from_url("https://dev.azure.com/org/project/_git/repo", None),
        ProviderKind::AzureDevOps
    );
}

#[test]
fn test_azure_devops_ssh() {
    assert_eq!(
        detect_provider_from_url("git@ssh.dev.azure.com:v3/org/project/repo", None),
        ProviderKind::AzureDevOps
    );
}

#[test]
fn test_azure_devops_legacy_visualstudio() {
    assert_eq!(
        detect_provider_from_url("https://org.visualstudio.com/project/_git/repo", None),
        ProviderKind::AzureDevOps
    );
}

#[test]
fn test_azure_devops_git_path() {
    // Any URL with /_git/ is Azure DevOps
    assert_eq!(
        detect_provider_from_url("https://custom.domain.com/org/project/_git/repo", None),
        ProviderKind::AzureDevOps
    );
}

#[test]
fn test_gitea_well_known_hostname() {
    assert_eq!(
        detect_provider_from_url("https://gitea.company.com/owner/repo", None),
        ProviderKind::Gitea
    );
    assert_eq!(
        detect_provider_from_url("https://forgejo.example.org/owner/repo", None),
        ProviderKind::Gitea
    );
}

#[test]
fn test_gitea_codeberg() {
    assert_eq!(
        detect_provider_from_url("https://codeberg.org/owner/repo", None),
        ProviderKind::Gitea
    );
    assert_eq!(
        detect_provider_from_url("git@codeberg.org:owner/repo.git", None),
        ProviderKind::Gitea
    );
}

#[test]
fn test_unknown_url_with_pulls_not_detected_as_gitea() {
    // /pulls/ alone should NOT trigger Gitea detection
    assert_eq!(
        detect_provider_from_url("https://evil.com/x/y/pulls/1", None),
        ProviderKind::Unknown
    );
}

#[test]
fn test_unknown_provider() {
    assert_eq!(
        detect_provider_from_url("https://gitlab.com/owner/repo", None),
        ProviderKind::Unknown
    );
    assert_eq!(
        detect_provider_from_url("https://bitbucket.org/owner/repo", None),
        ProviderKind::Unknown
    );
}

#[test]
fn test_pr_url_github() {
    assert_eq!(
        detect_provider_from_pr_url("https://github.com/owner/repo/pull/123", None),
        ProviderKind::GitHub
    );
    assert_eq!(
        detect_provider_from_pr_url("https://github.company.com/owner/repo/pull/456", None),
        ProviderKind::GitHub
    );
}

#[test]
fn test_pr_url_azure() {
    assert_eq!(
        detect_provider_from_pr_url(
            "https://dev.azure.com/org/project/_git/repo/pullrequest/123",
            None
        ),
        ProviderKind::AzureDevOps
    );
    assert_eq!(
        detect_provider_from_pr_url(
            "https://org.visualstudio.com/project/_git/repo/pullrequest/456",
            None
        ),
        ProviderKind::AzureDevOps
    );
}

#[test]
fn test_pr_url_gitea() {
    assert_eq!(
        detect_provider_from_pr_url("https://gitea.example.com/owner/repo/pulls/42", None),
        ProviderKind::Gitea
    );
    assert_eq!(
        detect_provider_from_pr_url("https://codeberg.org/owner/repo/pulls/7", None),
        ProviderKind::Gitea
    );
}

#[test]
fn test_gitea_base_url_from_https() {
    let base = gitea_base_url("https://gitea.example.com/owner/repo.git", None);
    assert_eq!(base, "https://gitea.example.com");
}

#[test]
fn test_gitea_base_url_with_port() {
    let base = gitea_base_url("http://localhost:3000/owner/repo", None);
    assert_eq!(base, "http://localhost:3000");
}

#[test]
fn test_gitea_base_url_from_ssh() {
    let base = gitea_base_url("git@gitea.example.com:owner/repo.git", None);
    assert_eq!(base, "https://gitea.example.com");
}

#[test]
fn test_gitea_base_url_from_ssh_scheme() {
    // ssh:// URLs should produce https:// base, not ssh://
    let base = gitea_base_url("ssh://git@gitea.example.com/owner/repo.git", None);
    assert_eq!(base, "https://gitea.example.com");
}

#[test]
fn test_gitea_base_url_from_git_scheme() {
    let base = gitea_base_url("git://gitea.example.com/owner/repo.git", None);
    assert_eq!(base, "https://gitea.example.com");
}

// GITEA_URL is passed in as the second argument.

#[test]
fn test_empty_gitea_url_does_not_match_all() {
    // str::contains("") is always true — the empty host must not match
    assert_eq!(
        detect_provider_from_url("https://gitlab.com/owner/repo", Some("")),
        ProviderKind::Unknown,
    );
    assert_eq!(
        detect_provider_from_url("https://bitbucket.org/owner/repo", Some("")),
        ProviderKind::Unknown,
    );
}

#[test]
fn test_scheme_only_gitea_url_does_not_match_all() {
    assert_eq!(
        detect_provider_from_url("https://gitlab.com/owner/repo", Some("https://")),
        ProviderKind::Unknown,
    );
}

#[test]
fn test_gitea_base_url_derives_from_url_when_env_differs() {
    // GITEA_URL points to one instance, but URL is for Codeberg
    let base = gitea_base_url(
        "https://codeberg.org/owner/repo.git",
        Some("https://gitea.company.com"),
    );
    assert_eq!(base, "https://codeberg.org");
}

#[test]
fn test_gitea_base_url_uses_env_when_matching() {
    let base = gitea_base_url(
        "https://gitea.company.com/owner/repo.git",
        Some("https://gitea.company.com"),
    );
    assert_eq!(base, "https://gitea.company.com");
}

// Further cases.

#[test]
fn detection_ignores_case() {
    assert_eq!(
        detect_provider_from_url("HTTPS://GitHub.COM/Owner/Repo", None),
        ProviderKind::GitHub
    );
    assert_eq!(
        detect_provider_from_url("https://CODEBERG.org/o/r", None),
        ProviderKind::Gitea
    );
}

#[test]
fn configured_gitea_instance_is_detected() {
    assert_eq!(
        detect_provider_from_url("https://git.internal.example/o/r", Some("https://GIT.internal.example/")),
        ProviderKind::Gitea
    );
    assert_eq!(
        detect_provider_from_url("https://git.internal.example/o/r", None),
        ProviderKind::Unknown
    );
}

#[test]
fn gitea_url_does_not_override_github_or_azure() {
    assert_eq!(
        detect_provider_from_url("https://github.com/o/r", Some("https://github.com")),
        ProviderKind::GitHub
    );
    assert_eq!(
        detect_provider_from_url("https://x.example/o/p/_git/r", Some("https://x.example")),
        ProviderKind::AzureDevOps
    );
}

#[test]
fn azure_before_github_enterprise() {
    assert_eq!(
        detect_provider_from_url("https://github.corp/org/project/_git/repo", None),
        ProviderKind::AzureDevOps
    );
}

#[test]
fn pr_url_without_pull_path_falls_back() {
    assert_eq!(
        detect_provider_from_pr_url("https://github.com/owner/repo", None),
        ProviderKind::GitHub
    );
    assert_eq!(
        detect_provider_from_pr_url("https://gitlab.com/owner/repo/pull/3", None),
        ProviderKind::Unknown
    );
}

#[test]
fn base_url_keeps_configured_spelling_without_trailing_slash() {
    let base = gitea_base_url(
        "https://gitea.company.com/owner/repo.git",
        Some("https://Gitea.Company.com//"),
    );
    assert_eq!(base, "https://Gitea.Company.com");
}

#[test]
fn base_url_of_unparseable_input_is_the_input() {
    assert_eq!(gitea_base_url("not a url", None), "not a url");
    assert_eq!(gitea_base_url("git@host-only", None), "https://host-only");
}

#[test]
fn base_url_with_explicit_port_on_https() {
    assert_eq!(
        gitea_base_url("https://gitea.example.com:8443/o/r", None),
        "https://gitea.example.com:8443"
    );
    // The default port is not written.
    assert_eq!(gitea_base_url("https://gitea.example.com:443/o/r", None), "https://gitea.example.com");
    assert_eq!(gitea_base_url("ssh://git@gitea.example.com:2222/o/r", None), "https://gitea.example.com:2222");
}
