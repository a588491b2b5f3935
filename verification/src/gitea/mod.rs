//! Gitea/Forgejo hosting service: the provider-level decisions around the
//! REST API client.

pub mod api;

use vstd::prelude::*;

use crate::text::{
    ascii_lower, ascii_lower_exec, chars_of, contains_exec, push_str_chars, seq_contains,
    str_eq, string_from_chars,
};
use crate::types::{CreatePrRequest, GitHostError, ProviderKind};
use api::{
    invalid_remote_message, parse_pr_url, parse_pr_url_spec, repo_info_spec, GiteaApiError,
    GiteaClient, GiteaRepoInfo,
};

verus! {

/// The message given when no Gitea token is configured.
pub open spec fn no_token_message() -> Seq<char> {
    "No Gitea token found \u{2014} set the GITEA_TOKEN environment variable"@
}

/// How a failed request is classified from its lower-cased message.
pub open spec fn request_failure_kind(msg: Seq<char>) -> int {
    let lower = ascii_lower(msg);
    if seq_contains(lower, "403"@) || seq_contains(lower, "forbidden"@) {
        0
    } else if seq_contains(lower, "404"@) || seq_contains(lower, "not found"@) {
        1
    } else {
        2
    }
}

/// `h` is the hosting error for the Gitea API error `e`.
pub open spec fn host_error_of(h: GitHostError, e: GiteaApiError) -> bool {
    match e {
        GiteaApiError::AuthFailed(m) => h == GitHostError::AuthFailed(m),
        GiteaApiError::InsufficientPermissions(m) => h == GitHostError::InsufficientPermissions(m),
        GiteaApiError::NoToken => h matches GitHostError::AuthFailed(t) && t@ == no_token_message(),
        GiteaApiError::RequestFailed(m) => {
            let k = request_failure_kind(m@);
            if k == 0 {
                h == GitHostError::InsufficientPermissions(m)
            } else if k == 1 {
                h == GitHostError::RepoNotFoundOrNoAccess(m)
            } else {
                h == GitHostError::PullRequest(m)
            }
        },
        GiteaApiError::UnexpectedResponse(m) => h == GitHostError::UnexpectedOutput(m),
        GiteaApiError::InvalidUrl(m) => h == GitHostError::Repository(m),
    }
}

fn contains_lit(s: &Vec<char>, p: &str) -> (r: bool)
    ensures
        r == seq_contains(s@, p@),
{
    let pv = chars_of(p);
    contains_exec(s, &pv)
}

impl GitHostError {
    /// Maps a Gitea API error to a hosting error. A failed request whose
    /// message mentions 403 or "forbidden" is a permission problem, one that
    /// mentions 404 or "not found" a missing or inaccessible repository, any
    /// other a pull request failure.
    pub fn from(error: GiteaApiError) -> (r: GitHostError)
        ensures
            host_error_of(r, error),
    {
        match error {
            GiteaApiError::AuthFailed(msg) => GitHostError::AuthFailed(msg),
            GiteaApiError::InsufficientPermissions(msg) => GitHostError::InsufficientPermissions(
                msg,
            ),
            GiteaApiError::NoToken => GitHostError::AuthFailed(
                string_from_chars(
                    &chars_of("No Gitea token found \u{2014} set the GITEA_TOKEN environment variable"),
                ),
            ),
            GiteaApiError::RequestFailed(msg) => {
                let mv = chars_of(msg.as_str());
                let lower = ascii_lower_exec(&mv);
                if contains_lit(&lower, "403") || contains_lit(&lower, "forbidden") {
                    GitHostError::InsufficientPermissions(msg)
                } else if contains_lit(&lower, "404") || contains_lit(&lower, "not found") {
                    GitHostError::RepoNotFoundOrNoAccess(msg)
                } else {
                    GitHostError::PullRequest(msg)
                }
            },
            GiteaApiError::UnexpectedResponse(msg) => GitHostError::UnexpectedOutput(msg),
            GiteaApiError::InvalidUrl(msg) => GitHostError::Repository(msg),
        }
    }
}

/// The message for a pull request URL that cannot be parsed.
pub open spec fn bad_pr_url_message(pr_url: Seq<char>) -> Seq<char> {
    "Could not parse Gitea PR URL: "@ + pr_url
}

/// The message for a cross-fork pull request.
pub open spec fn cross_fork_message() -> Seq<char> {
    "Cross-fork pull requests are not yet supported for Gitea"@
}

/// A Gitea/Forgejo hosting provider.
#[derive(Debug)]
pub struct GiteaProvider {
    client: GiteaClient,
}

impl GiteaProvider {
    pub closed spec fn client_spec(&self) -> GiteaClient {
        self.client
    }

    /// Creates a provider for the instance at `base_url`, with the token that
    /// `GITEA_TOKEN` holds (`gitea_token` is its value).
    pub fn new(base_url: &str, gitea_token: Option<&str>) -> (r: Result<Self, GitHostError>)
        ensures
            match r {
                Ok(p) => gitea_token is Some && gitea_token->0@.len() > 0
                    && p.client_spec().token_spec() == gitea_token->0@
                    && p.client_spec().base_url_spec() == crate::text::trim_end_matches(
                    base_url@,
                    "/"@,
                ),
                Err(e) => (gitea_token is None || gitea_token->0@.len() == 0) && (
                e matches GitHostError::AuthFailed(m) && m@ == no_token_message()),
            },
    {
        match GiteaClient::new(base_url, gitea_token) {
            Ok(client) => Ok(GiteaProvider { client }),
            Err(e) => Err(GitHostError::from(e)),
        }
    }

    /// The API client of this provider.
    pub fn client(&self) -> (c: &GiteaClient)
        ensures
            *c == self.client_spec(),
    {
        &self.client
    }

    /// Repository info for a remote URL on this provider's instance.
    pub fn get_repo_info(&self, remote_url: &str) -> (r: Result<GiteaRepoInfo, GitHostError>)
        ensures
            match r {
                Ok(info) => repo_info_spec(remote_url@, self.client_spec().base_url_spec())
                    == Some(info@),
                Err(e) => repo_info_spec(remote_url@, self.client_spec().base_url_spec()) is None
                    && (e matches GitHostError::Repository(m) && m@ == invalid_remote_message(
                    remote_url@,
                )),
            },
    {
        match GiteaRepoInfo::from_remote_url(remote_url, self.client.base_url_str()) {
            Ok(info) => Ok(info),
            Err(e) => Err(GitHostError::from(e)),
        }
    }

    /// Refuses a pull request whose head lives in another repository than
    /// `remote_url` (cross-fork pull requests are not supported).
    pub fn check_same_repository(remote_url: &str, request: &CreatePrRequest) -> (r: Result<
        (),
        GitHostError,
    >)
        ensures
            match r {
                Ok(_) => request.head_repo_url is None || request.head_repo_url->0@ == remote_url@,
                Err(e) => request.head_repo_url is Some && request.head_repo_url->0@
                    != remote_url@ && (e matches GitHostError::PullRequest(m) && m@
                    == cross_fork_message()),
            },
    {
        if let Some(head_url) = &request.head_repo_url {
            if !str_eq(head_url.as_str(), remote_url) {
                return Err(
                    GitHostError::PullRequest(
                        string_from_chars(
                            &chars_of("Cross-fork pull requests are not yet supported for Gitea"),
                        ),
                    ),
                );
            }
        }
        Ok(())
    }

    /// The repository and number a pull request URL points at.
    pub fn pr_target(pr_url: &str) -> (r: Result<(GiteaRepoInfo, i64), GitHostError>)
        ensures
            match r {
                Ok((info, n)) => parse_pr_url_spec(pr_url@) == Some(
                    (info.base_url@, info.owner@, info.repo@, n),
                ),
                Err(e) => parse_pr_url_spec(pr_url@) is None && (e matches GitHostError::PullRequest(
                    m,
                ) && m@ == bad_pr_url_message(pr_url@)),
            },
    {
        match parse_pr_url(pr_url) {
            Some((base_url, owner, repo, number)) => Ok(
                (GiteaRepoInfo { base_url, owner, repo }, number),
            ),
            None => {
                let mut msg = chars_of("Could not parse Gitea PR URL: ");
                push_str_chars(&mut msg, pr_url);
                Err(GitHostError::PullRequest(string_from_chars(&msg)))
            },
        }
    }

    /// The kind of this provider.
    pub fn provider_kind(&self) -> (k: ProviderKind)
        ensures
            k == ProviderKind::Gitea,
    {
        ProviderKind::Gitea
    }
}

/// Authentication problems stay authentication problems: a rejected token
/// and a missing token both become `AuthFailed`.
pub proof fn law_auth_errors_stay_auth(h: GitHostError, e: GiteaApiError)
    requires
        host_error_of(h, e),
        e is AuthFailed || e is NoToken,
    ensures
        h is AuthFailed,
{
}

/// A failed request that reports 404 or "not found", and neither 403 nor
/// "forbidden", is a missing or inaccessible repository.
pub proof fn law_not_found_is_missing_repo(h: GitHostError, msg: String)
    requires
        host_error_of(h, GiteaApiError::RequestFailed(msg)),
        seq_contains(ascii_lower(msg@), "404"@) || seq_contains(ascii_lower(msg@), "not found"@),
        !seq_contains(ascii_lower(msg@), "403"@),
        !seq_contains(ascii_lower(msg@), "forbidden"@),
    ensures
        h == GitHostError::RepoNotFoundOrNoAccess(msg),
{
}

/// A failed request whose message mentions 403 or "forbidden" (in any letter
/// case) is a permission problem, whatever else it mentions; one that
/// mentions none of 403, "forbidden", 404 and "not found" is a pull request
/// failure. The message is kept unchanged.
pub proof fn law_request_failure_mapping(h: GitHostError, msg: String)
    requires
        host_error_of(h, GiteaApiError::RequestFailed(msg)),
    ensures
        seq_contains(ascii_lower(msg@), "403"@) || seq_contains(ascii_lower(msg@), "forbidden"@)
            ==> h == GitHostError::InsufficientPermissions(msg),
        seq_contains(msg@, "403"@) ==> h == GitHostError::InsufficientPermissions(msg),
        !seq_contains(ascii_lower(msg@), "403"@) && !seq_contains(ascii_lower(msg@), "forbidden"@)
            && !seq_contains(ascii_lower(msg@), "404"@) && !seq_contains(
            ascii_lower(msg@),
            "not found"@,
        ) ==> h == GitHostError::PullRequest(msg),
{
    reveal_strlit("403");
    let m = msg@;
    let l = ascii_lower(m);
    if seq_contains(m, "403"@) {
        let i = choose|i: int| crate::text::occurs_at(m, "403"@, i);
        assert(m.subrange(i, i + 3) == "403"@);
        assert(m[i] == '4' && m[i + 1] == '0' && m[i + 2] == '3') by {
            assert(m.subrange(i, i + 3)[0] == m[i]);
            assert(m.subrange(i, i + 3)[1] == m[i + 1]);
            assert(m.subrange(i, i + 3)[2] == m[i + 2]);
        }
        assert(l.subrange(i, i + 3) =~= "403"@);
        assert(crate::text::occurs_at(l, "403"@, i));
    }
}

} // verus!
