use git_host::gitea::api::{
    parse_pr_url, GiteaApiError, GiteaBranch, GiteaClient, GiteaComment, GiteaPullRequest,
    GiteaRepoInfo, GiteaReviewComment, GiteaUser,
};
use git_host::types::{CreatePrRequest, MergeStatus, Timestamp, UnifiedPrComment};

#[test]
fn test_parse_pr_url_standard() {
    let (base, owner, repo, number) =
        parse_pr_url("https://gitea.example.com/alice/my-repo/pulls/42").unwrap();
    assert_eq!(base, "https://gitea.example.com");
    assert_eq!(owner, "alice");
    assert_eq!(repo, "my-repo");
    assert_eq!(number, 42);
}

#[test]
fn test_parse_pr_url_with_port() {
    let (base, owner, repo, number) =
        parse_pr_url("http://localhost:3000/bob/project/pulls/7").unwrap();
    assert_eq!(base, "http://localhost:3000");
    assert_eq!(owner, "bob");
    assert_eq!(repo, "project");
    assert_eq!(number, 7);
}

#[test]
fn test_parse_pr_url_not_a_pr() {
    assert!(parse_pr_url("https://gitea.example.com/owner/repo").is_none());
    assert!(parse_pr_url("https://github.com/owner/repo/pull/1").is_none());
}

#[test]
fn test_repo_info_from_https_url() {
    let info = GiteaRepoInfo::from_remote_url(
        "https://gitea.example.com/alice/my-repo.git",
        "https://gitea.example.com",
    )
    .unwrap();
    assert_eq!(info.owner, "alice");
    assert_eq!(info.repo, "my-repo");
    assert_eq!(info.base_url, "https://gitea.example.com");
}

#[test]
fn test_repo_info_from_ssh_url() {
    let info = GiteaRepoInfo::from_remote_url(
        "git@gitea.example.com:alice/my-repo.git",
        "https://gitea.example.com",
    )
    .unwrap();
    assert_eq!(info.owner, "alice");
    assert_eq!(info.repo, "my-repo");
}

fn now() -> Timestamp {
    let t = chrono::Utc::now();
    Timestamp { secs: t.timestamp(), nanos: t.timestamp_subsec_nanos() }
}

#[test]
fn test_to_pull_request_detail_open() {
    let pr = GiteaPullRequest {
        number: 1,
        html_url: "https://gitea.example.com/o/r/pulls/1".to_string(),
        state: "open".to_string(),
        title: "Test".to_string(),
        merged: Some(false),
        merged_at: None,
        merge_commit_sha: None,
        base: Some(GiteaBranch { ref_name: "main".to_string() }),
        head: Some(GiteaBranch { ref_name: "feature".to_string() }),
    };
    let detail = GiteaClient::to_pull_request_detail(pr);
    assert!(matches!(detail.status, MergeStatus::Open));
    assert_eq!(detail.base_branch, "main");
    assert_eq!(detail.head_branch, "feature");
}

#[test]
fn test_to_pull_request_detail_merged() {
    let pr = GiteaPullRequest {
        number: 2,
        html_url: "https://gitea.example.com/o/r/pulls/2".to_string(),
        state: "closed".to_string(),
        title: "Merged PR".to_string(),
        merged: Some(true),
        merged_at: Some(now()),
        merge_commit_sha: Some("abc123".to_string()),
        base: None,
        head: None,
    };
    let detail = GiteaClient::to_pull_request_detail(pr);
    assert!(matches!(detail.status, MergeStatus::Merged));
}

#[test]
fn test_to_pull_request_detail_closed_not_merged() {
    let pr = GiteaPullRequest {
        number: 3,
        html_url: "https://gitea.example.com/o/r/pulls/3".to_string(),
        state: "closed".to_string(),
        title: "Closed PR".to_string(),
        merged: Some(false),
        merged_at: None,
        merge_commit_sha: None,
        base: None,
        head: None,
    };
    let detail = GiteaClient::to_pull_request_detail(pr);
    assert!(matches!(detail.status, MergeStatus::Closed));
}

// Further cases.

fn pr(number: i64, state: &str, merged: Option<bool>, head: Option<&str>) -> GiteaPullRequest {
    GiteaPullRequest {
        number,
        html_url: format!("https://g.example/o/r/pulls/{number}"),
        state: state.to_string(),
        title: format!("PR {number}"),
        merged,
        merged_at: None,
        merge_commit_sha: None,
        base: Some(GiteaBranch { ref_name: "main".to_string() }),
        head: head.map(|h| GiteaBranch { ref_name: h.to_string() }),
    }
}

#[test]
fn detail_status_edge_cases() {
    let d = GiteaClient::to_pull_request_detail(pr(4, "closed", None, None));
    assert_eq!(d.status, MergeStatus::Closed);
    let d = GiteaClient::to_pull_request_detail(pr(5, "draft", Some(true), None));
    assert_eq!(d.status, MergeStatus::Unknown);
    let d = GiteaClient::to_pull_request_detail(pr(6, "OPEN", None, None));
    assert_eq!(d.status, MergeStatus::Unknown);
    assert_eq!(d.head_branch, "");
    assert_eq!(d.number, 6);
    assert_eq!(d.title, "PR 6");
}

#[test]
fn parse_pr_url_edge_cases() {
    assert!(parse_pr_url("https://g.example/o/r/pulls/abc").is_none());
    assert!(parse_pr_url("https://g.example/o/r/pulls/").is_none());
    assert!(parse_pr_url("not a url").is_none());
    let (base, _, _, n) = parse_pr_url("https://g.example/o/r/pulls/+12/files").unwrap();
    assert_eq!(base, "https://g.example");
    assert_eq!(n, 12);
    let (_, _, _, n) = parse_pr_url("https://g.example/o/r/pulls/-9223372036854775808").unwrap();
    assert_eq!(n, i64::MIN);
    assert!(parse_pr_url("https://g.example/o/r/pulls/9223372036854775808").is_none());
    let (_, _, _, n) = parse_pr_url("https://g.example/o/r/pulls/0009223372036854775807").unwrap();
    assert_eq!(n, i64::MAX);
}

#[test]
fn repo_info_edge_cases() {
    let info = GiteaRepoInfo::from_remote_url("https://g.example/a/b.git.git", "https://g.example///")
        .unwrap();
    assert_eq!(info.repo, "b");
    assert_eq!(info.base_url, "https://g.example");
    // One path segment: the SSH reading of `https://...` then yields empty names.
    let info = GiteaRepoInfo::from_remote_url("https://g.example/only", "https://g.example").unwrap();
    assert_eq!(info.owner, "");
    assert_eq!(info.repo, "");
    let err = GiteaRepoInfo::from_remote_url("g.example/only", "https://g.example").unwrap_err();
    match err {
        GiteaApiError::InvalidUrl(m) => {
            assert_eq!(m, "Cannot extract owner/repo from URL: g.example/only")
        }
        other => panic!("unexpected {other:?}"),
    }
    let err = GiteaRepoInfo::from_remote_url("no-colon-here", "b").unwrap_err();
    assert!(matches!(err, GiteaApiError::InvalidUrl(_)));
}

#[test]
fn client_requires_a_token() {
    assert!(matches!(GiteaClient::new("https://g.example", None), Err(GiteaApiError::NoToken)));
    assert!(matches!(GiteaClient::new("https://g.example", Some("")), Err(GiteaApiError::NoToken)));
    let c = GiteaClient::new("https://g.example/", Some("secret")).unwrap();
    assert_eq!(c.base_url, "https://g.example");
    assert_eq!(c.authorization_header(), "token secret");
}

#[test]
fn api_urls() {
    let c = GiteaClient::new("https://g.example", Some("t")).unwrap();
    let info = GiteaRepoInfo {
        base_url: "https://g.example".to_string(),
        owner: "alice".to_string(),
        repo: "proj".to_string(),
    };
    assert_eq!(c.api_url("/version"), "https://g.example/api/v1/version");
    assert_eq!(c.pulls_url(&info), "https://g.example/api/v1/repos/alice/proj/pulls");
    assert_eq!(c.pull_url(&info, 42), "https://g.example/api/v1/repos/alice/proj/pulls/42");
    assert_eq!(
        c.list_prs_url(&info, "closed"),
        "https://g.example/api/v1/repos/alice/proj/pulls?state=closed&limit=50"
    );
    assert_eq!(
        c.issue_comments_url(&info, 7),
        "https://g.example/api/v1/repos/alice/proj/issues/7/comments"
    );
    assert_eq!(c.reviews_url(&info, 7), "https://g.example/api/v1/repos/alice/proj/pulls/7/reviews");
    assert_eq!(
        c.review_comments_url(&info, 7, -3),
        "https://g.example/api/v1/repos/alice/proj/pulls/7/reviews/-3/comments"
    );
}

#[test]
fn create_pr_payload_defaults_body() {
    let req = CreatePrRequest {
        title: "T".to_string(),
        body: None,
        head_branch: "feat".to_string(),
        base_branch: "main".to_string(),
        head_repo_url: None,
    };
    let p = GiteaClient::create_pr_payload(&req);
    assert_eq!(p.title, "T");
    assert_eq!(p.body, "");
    assert_eq!(p.head, "feat");
    assert_eq!(p.base, "main");
}

#[test]
fn status_errors() {
    assert!(GiteaClient::is_success_status(200));
    assert!(GiteaClient::is_success_status(299));
    assert!(!GiteaClient::is_success_status(300));
    assert!(!GiteaClient::is_success_status(199));
    match GiteaClient::error_for_status(401, Some(String::new())) {
        GiteaApiError::AuthFailed(m) => assert_eq!(m, "401 Unauthorized"),
        other => panic!("unexpected {other:?}"),
    }
    match GiteaClient::error_for_status(403, Some("no".to_string())) {
        GiteaApiError::InsufficientPermissions(m) => assert_eq!(m, "403 Forbidden: no"),
        other => panic!("unexpected {other:?}"),
    }
    match GiteaClient::error_for_status(404, None) {
        GiteaApiError::RequestFailed(m) => {
            assert_eq!(m, "404 Not Found: (could not read response body)")
        }
        other => panic!("unexpected {other:?}"),
    }
    match GiteaClient::error_for_status(599, Some(String::new())) {
        GiteaApiError::RequestFailed(m) => assert_eq!(m, "599 <unknown status code>"),
        other => panic!("unexpected {other:?}"),
    }
}

#[test]
fn select_prs_by_head_branch() {
    let prs = vec![
        pr(1, "open", None, Some("a")),
        pr(2, "open", None, Some("b")),
        pr(3, "closed", Some(true), Some("a")),
        pr(4, "open", None, None),
    ];
    let selected = GiteaClient::select_prs(prs, Some("a"));
    let numbers: Vec<i64> = selected.iter().map(|d| d.number).collect();
    assert_eq!(numbers, vec![1, 3]);
    assert_eq!(selected[1].status, MergeStatus::Merged);

    let prs = vec![pr(1, "open", None, Some("a")), pr(4, "open", None, None)];
    let all = GiteaClient::select_prs(prs, None);
    assert_eq!(all.len(), 2);
}

fn ts(secs: i64, nanos: u32) -> Timestamp {
    Timestamp { secs, nanos }
}

#[test]
fn comments_are_unified_and_sorted_stably() {
    let general = vec![
        GiteaComment {
            id: 10,
            body: "late".to_string(),
            created_at: ts(300, 0),
            html_url: None,
            user: Some(GiteaUser { login: "ann".to_string() }),
        },
        GiteaComment {
            id: -11,
            body: "same time, general".to_string(),
            created_at: ts(100, 5),
            html_url: Some("u".to_string()),
            user: None,
        },
    ];
    let review = vec![
        (
            GiteaReviewComment {
                id: 20,
                body: "same time, review".to_string(),
                created_at: ts(100, 5),
                html_url: None,
                path: Some("src/x.rs".to_string()),
                line: Some(3),
                diff_hunk: None,
                user: None,
            },
            Some(GiteaUser { login: "rita".to_string() }),
        ),
        (
            GiteaReviewComment {
                id: 21,
                body: "first".to_string(),
                created_at: ts(100, 4),
                html_url: None,
                path: None,
                line: None,
                diff_hunk: Some("@@".to_string()),
                user: Some(GiteaUser { login: "own".to_string() }),
            },
            None,
        ),
    ];
    let out = GiteaClient::unify_comments(general, review);
    assert_eq!(out.len(), 4);
    match &out[0] {
        UnifiedPrComment::Review { id, author, path, .. } => {
            assert_eq!(*id, 21);
            assert_eq!(author, "own");
            assert_eq!(path, "");
        }
        other => panic!("unexpected {other:?}"),
    }
    match &out[1] {
        UnifiedPrComment::General { id, author, .. } => {
            assert_eq!(id, "-11");
            assert_eq!(author, "unknown");
        }
        other => panic!("unexpected {other:?}"),
    }
    match &out[2] {
        UnifiedPrComment::Review { id, author, path, line, .. } => {
            assert_eq!(*id, 20);
            assert_eq!(author, "rita");
            assert_eq!(path, "src/x.rs");
            assert_eq!(*line, Some(3));
        }
        other => panic!("unexpected {other:?}"),
    }
    match &out[3] {
        UnifiedPrComment::General { id, author, body, .. } => {
            assert_eq!(id, "10");
            assert_eq!(author, "ann");
            assert_eq!(body, "late");
        }
        other => panic!("unexpected {other:?}"),
    }
    assert_eq!(out[3].created_at(), ts(300, 0));
}
