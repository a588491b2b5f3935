use git_host::gitea::api::GiteaApiError;
use git_host::gitea::GiteaProvider;
use git_host::types::{CreatePrRequest, GitHostError, ProviderKind};

#[test]
fn provider_needs_token() {
    match GiteaProvider::new("https://g.example", None) {
        Err(GitHostError::AuthFailed(m)) => assert_eq!(
            m,
            "No Gitea token found \u{2014} set the GITEA_TOKEN environment variable"
        ),
        other => panic!("unexpected {other:?}"),
    }
}

#[test]
fn provider_repo_info_uses_its_base_url() {
    let p = GiteaProvider::new("https://g.example/", Some("t")).unwrap();
    assert_eq!(p.provider_kind(), ProviderKind::Gitea);
    let info = p.get_repo_info("git@g.example:alice/proj.git").unwrap();
    assert_eq!(info.base_url, "https://g.example");
    assert_eq!(info.owner, "alice");
    assert_eq!(info.repo, "proj");
    match p.get_repo_info("nothing") {
        Err(GitHostError::Repository(m)) => {
            assert_eq!(m, "Cannot extract owner/repo from URL: nothing")
        }
        other => panic!("unexpected {other:?}"),
    }
}

#[test]
fn error_mapping() {
    let e = GitHostError::from(GiteaApiError::RequestFailed("403 Forbidden: x".to_string()));
    assert!(matches!(e, GitHostError::InsufficientPermissions(_)));
    let e = GitHostError::from(GiteaApiError::RequestFailed("404 Not Found".to_string()));
    assert!(matches!(e, GitHostError::RepoNotFoundOrNoAccess(_)));
    let e = GitHostError::from(GiteaApiError::RequestFailed("Repo NOT FOUND".to_string()));
    assert!(matches!(e, GitHostError::RepoNotFoundOrNoAccess(_)));
    let e = GitHostError::from(GiteaApiError::RequestFailed("500 boom".to_string()));
    match e {
        GitHostError::PullRequest(m) => assert_eq!(m, "500 boom"),
        other => panic!("unexpected {other:?}"),
    }
    let e = GitHostError::from(GiteaApiError::AuthFailed("bad".to_string()));
    assert!(matches!(e, GitHostError::AuthFailed(m) if m == "bad"));
    let e = GitHostError::from(GiteaApiError::InsufficientPermissions("p".to_string()));
    assert!(matches!(e, GitHostError::InsufficientPermissions(m) if m == "p"));
    let e = GitHostError::from(GiteaApiError::UnexpectedResponse("json".to_string()));
    assert!(matches!(e, GitHostError::UnexpectedOutput(m) if m == "json"));
    let e = GitHostError::from(GiteaApiError::InvalidUrl("u".to_string()));
    assert!(matches!(e, GitHostError::Repository(m) if m == "u"));
    let e = GitHostError::from(GiteaApiError::NoToken);
    assert!(matches!(e, GitHostError::AuthFailed(_)));
}

#[test]
fn cross_fork_requests_are_refused() {
    let mut req = CreatePrRequest {
        title: "t".to_string(),
        body: Some("b".to_string()),
        head_branch: "f".to_string(),
        base_branch: "main".to_string(),
        head_repo_url: None,
    };
    assert!(GiteaProvider::check_same_repository("git@g:o/r.git", &req).is_ok());
    req.head_repo_url = Some("git@g:o/r.git".to_string());
    assert!(GiteaProvider::check_same_repository("git@g:o/r.git", &req).is_ok());
    req.head_repo_url = Some("git@g:fork/r.git".to_string());
    match GiteaProvider::check_same_repository("git@g:o/r.git", &req) {
        Err(GitHostError::PullRequest(m)) => {
            assert_eq!(m, "Cross-fork pull requests are not yet supported for Gitea")
        }
        other => panic!("unexpected {other:?}"),
    }
}

#[test]
fn pr_target_from_url() {
    let (info, n) = GiteaProvider::pr_target("https://g.example/alice/proj/pulls/5").unwrap();
    assert_eq!(info.base_url, "https://g.example");
    assert_eq!(info.owner, "alice");
    assert_eq!(info.repo, "proj");
    assert_eq!(n, 5);
    match GiteaProvider::pr_target("https://g.example/alice/proj") {
        Err(GitHostError::PullRequest(m)) => {
            assert_eq!(m, "Could not parse Gitea PR URL: https://g.example/alice/proj")
        }
        other => panic!("unexpected {other:?}"),
    }
}
