//! The Gitea/Forgejo REST API v1: URL handling, request construction and
//! the conversion of responses, without the HTTP transport.
//!
//! Authentication is by a personal access token taken from `GITEA_TOKEN`;
//! the caller passes the value of that setting in.

use vstd::prelude::*;

use crate::text::{
    chars_of, i64_decimal, int_decimal, nat_decimal, parse_i64_exec, parse_i64_spec, push_all,
    push_str_chars, split_exec, split_on, str_eq, string_from_chars, trim_end_exec,
    trim_end_matches, u64_decimal, vec_views,
};
use crate::types::{
    CreatePrRequest, MergeStatus, PullRequestDetail, Timestamp, UnifiedPrComment,
};
use crate::url_parts::{parse_url, parsed_view, path_segments_spec, url_parse, ParsedUrl};

verus! {

// ---------------------------------------------------------------------------
// Error type
// ---------------------------------------------------------------------------

/// Errors of the Gitea API client.
#[derive(Debug)]
pub enum GiteaApiError {
    AuthFailed(String),
    InsufficientPermissions(String),
    RequestFailed(String),
    UnexpectedResponse(String),
    NoToken,
    InvalidUrl(String),
}

// ---------------------------------------------------------------------------
// API response and request types
// ---------------------------------------------------------------------------

/// A pull request as the Gitea API returns it.
#[derive(Debug)]
pub struct GiteaPullRequest {
    pub number: i64,
    pub html_url: String,
    pub state: String,
    pub title: String,
    pub merged: Option<bool>,
    pub merged_at: Option<Timestamp>,
    pub merge_commit_sha: Option<String>,
    pub base: Option<GiteaBranch>,
    pub head: Option<GiteaBranch>,
}

/// A branch reference in a pull request.
#[derive(Debug)]
pub struct GiteaBranch {
    pub ref_name: String,
}

/// A conversation comment on an issue or pull request.
#[derive(Debug)]
pub struct GiteaComment {
    pub id: i64,
    pub body: String,
    pub created_at: Timestamp,
    pub html_url: Option<String>,
    pub user: Option<GiteaUser>,
}

/// A pull request review (its inline comments are fetched separately).
#[derive(Debug)]
pub struct GiteaReview {
    pub id: i64,
    pub body: String,
    pub user: Option<GiteaUser>,
}

/// An inline comment of a review.
#[derive(Debug)]
pub struct GiteaReviewComment {
    pub id: i64,
    pub body: String,
    pub created_at: Timestamp,
    pub html_url: Option<String>,
    pub path: Option<String>,
    pub line: Option<i64>,
    pub diff_hunk: Option<String>,
    pub user: Option<GiteaUser>,
}

/// A Gitea user.
#[derive(Debug)]
pub struct GiteaUser {
    pub login: String,
}

/// The body of a "create pull request" call.
#[derive(Debug)]
pub struct CreatePrPayload {
    pub title: String,
    pub body: String,
    pub head: String,
    pub base: String,
}

// ---------------------------------------------------------------------------
// Repo info extracted from a remote URL
// ---------------------------------------------------------------------------

/// Base URL, owner and repository name of a Gitea repository.
#[derive(Debug)]
pub struct GiteaRepoInfo {
    pub base_url: String,
    pub owner: String,
    pub repo: String,
}

impl View for GiteaRepoInfo {
    type V = (Seq<char>, Seq<char>, Seq<char>);

    open spec fn view(&self) -> Self::V {
        (self.base_url@, self.owner@, self.repo@)
    }
}

/// A repository name without trailing `.git`.
pub open spec fn repo_name(segment: Seq<char>) -> Seq<char> {
    trim_end_matches(segment, ".git"@)
}

/// Owner and repository read from the path segments of a parsed
/// HTTP(S)-style remote URL, when there are at least two.
pub open spec fn owner_repo_from_parsed(
    parsed: Option<(Seq<char>, Option<Seq<char>>, Option<u16>, Seq<char>)>,
) -> Option<(Seq<char>, Seq<char>)> {
    match parsed {
        Some((_, _, _, path)) => {
            let segs = match path_segments_spec(path) {
                Some(s) => s,
                None => Seq::<Seq<char>>::empty(),
            };
            if segs.len() >= 2 {
                Some((segs[0], repo_name(segs[1])))
            } else {
                None
            }
        },
        None => None,
    }
}

/// Owner and repository read from an SSH-style remote URL
/// (`git@host:owner/repo.git`): the text after the first `:` up to the next
/// `:`, split on `/`, when it has at least two parts.
pub open spec fn owner_repo_from_ssh(remote_url: Seq<char>) -> Option<(Seq<char>, Seq<char>)> {
    let pieces = split_on(remote_url, ':');
    if pieces.len() > 1 {
        let parts = split_on(pieces[1], '/');
        if parts.len() >= 2 {
            Some((parts[0], repo_name(parts[1])))
        } else {
            None
        }
    } else {
        None
    }
}

/// Repository info for a remote URL, its parse and a base URL, if owner
/// and repository can be read.
pub open spec fn repo_info_from_spec(
    remote_url: Seq<char>,
    base_url: Seq<char>,
    parsed: Option<(Seq<char>, Option<Seq<char>>, Option<u16>, Seq<char>)>,
) -> Option<(Seq<char>, Seq<char>, Seq<char>)> {
    let base = trim_end_matches(base_url, "/"@);
    match owner_repo_from_parsed(parsed) {
        Some((o, r)) => Some((base, o, r)),
        None => match owner_repo_from_ssh(remote_url) {
            Some((o, r)) => Some((base, o, r)),
            None => None,
        },
    }
}

/// Repository info for a remote URL and a base URL, if owner and repository
/// can be read from the URL.
pub open spec fn repo_info_spec(remote_url: Seq<char>, base_url: Seq<char>) -> Option<
    (Seq<char>, Seq<char>, Seq<char>),
> {
    repo_info_from_spec(remote_url, base_url, url_parse(remote_url))
}

/// The message of the error for a remote URL without owner and repository.
pub open spec fn invalid_remote_message(remote_url: Seq<char>) -> Seq<char> {
    "Cannot extract owner/repo from URL: "@ + remote_url
}

/// `s` without trailing `/`, as a `String`.
fn trim_slashes(s: &str) -> (r: String)
    ensures
        r@ == trim_end_matches(s@, "/"@),
{
    let sv = chars_of(s);
    let slash = chars_of("/");
    let t = trim_end_exec(&sv, &slash);
    string_from_chars(&t)
}

/// A repository name without trailing `.git`, as a `String`.
fn repo_name_exec(segment: &Vec<char>) -> (r: String)
    ensures
        r@ == repo_name(segment@),
{
    let git = chars_of(".git");
    let t = trim_end_exec(segment, &git);
    string_from_chars(&t)
}

impl GiteaRepoInfo {
    /// Parses owner and repository from a Gitea-style remote URL, trying the
    /// HTTPS form (`https://gitea.example.com/owner/repo.git`) first and then
    /// the SSH form (`git@gitea.example.com:owner/repo.git`). The base URL is
    /// kept without trailing slashes.
    pub fn from_remote_url(remote_url: &str, base_url: &str) -> (r: Result<Self, GiteaApiError>)
        ensures
            match r {
                Ok(info) => repo_info_spec(remote_url@, base_url@) == Some(info@),
                Err(e) => repo_info_spec(remote_url@, base_url@) is None && (e matches GiteaApiError::InvalidUrl(m) && m@ == invalid_remote_message(remote_url@)),
            },
    {
        Self::from_parsed_remote_url(remote_url, base_url, parse_url(remote_url))
    }

    /// Owner and repository from a remote URL and what the `url` crate
    /// parsed of it (see `from_remote_url`).
    pub fn from_parsed_remote_url(remote_url: &str, base_url: &str, parsed: Option<ParsedUrl>) -> (r: Result<Self, GiteaApiError>)
        ensures
            match r {
                Ok(info) => repo_info_from_spec(remote_url@, base_url@, parsed_view(parsed)) == Some(info@),
                Err(e) => repo_info_from_spec(remote_url@, base_url@, parsed_view(parsed)) is None && (e matches GiteaApiError::InvalidUrl(m) && m@ == invalid_remote_message(remote_url@)),
            },
    {
        // Try an HTTPS-style URL first.
        if let Some(p) = parsed {
            let segs_opt = p.path_segments();
            let segs: Vec<Vec<char>> = match segs_opt {
                Some(s) => s,
                None => Vec::new(),
            };
            assert(vec_views(segs@) =~= (match path_segments_spec(p.path@) {
                Some(s) => s,
                None => Seq::<Seq<char>>::empty(),
            }));
            if segs.len() >= 2 {
                let owner = string_from_chars(&segs[0]);
                let repo = repo_name_exec(&segs[1]);
                assert(vec_views(segs@)[0] == segs@[0]@);
                assert(vec_views(segs@)[1] == segs@[1]@);
                return Ok(GiteaRepoInfo { base_url: trim_slashes(base_url), owner, repo });
            }
        }
        // Then an SSH-style URL: git@host:owner/repo.git
        let uv = chars_of(remote_url);
        let pieces = split_exec(&uv, ':');
        if pieces.len() > 1 {
            assert(vec_views(pieces@)[1] == pieces@[1]@);
            let parts = split_exec(&pieces[1], '/');
            if parts.len() >= 2 {
                assert(vec_views(parts@)[0] == parts@[0]@);
                assert(vec_views(parts@)[1] == parts@[1]@);
                let owner = string_from_chars(&parts[0]);
                let repo = repo_name_exec(&parts[1]);
                return Ok(GiteaRepoInfo { base_url: trim_slashes(base_url), owner, repo });
            }
        }
        let mut msg = chars_of("Cannot extract owner/repo from URL: ");
        push_all(&mut msg, &uv);
        Err(GiteaApiError::InvalidUrl(string_from_chars(&msg)))
    }
}

// ---------------------------------------------------------------------------
// PR URL parsing
// ---------------------------------------------------------------------------

/// `scheme://host[:port]`.
pub open spec fn authority_spec(scheme: Seq<char>, host: Seq<char>, port: Option<u16>) -> Seq<
    char,
> {
    let base = scheme + "://"@ + host;
    match port {
        Some(p) => base + ":"@ + nat_decimal(p as nat),
        None => base,
    }
}

/// Base URL, owner, repository and number of a parsed pull request URL.
pub open spec fn pr_parts_spec(
    parsed: Option<(Seq<char>, Option<Seq<char>>, Option<u16>, Seq<char>)>,
) -> Option<(Seq<char>, Seq<char>, Seq<char>, i64)> {
    match parsed {
        None => None,
        Some((scheme, host, port, path)) => match path_segments_spec(path) {
            None => None,
            Some(segs) => {
                if segs.len() < 4 || segs[2] != "pulls"@ {
                    None
                } else {
                    match parse_i64_spec(segs[3]) {
                        None => None,
                        Some(n) => match host {
                            None => None,
                            Some(h) => Some((authority_spec(scheme, h, port), segs[0], segs[1], n)),
                        },
                    }
                }
            },
        },
    }
}

/// Base URL, owner, repository and number of a Gitea pull request URL of the
/// form `https://gitea.example.com/owner/repo/pulls/123`.
pub open spec fn parse_pr_url_spec(pr_url: Seq<char>) -> Option<
    (Seq<char>, Seq<char>, Seq<char>, i64),
> {
    pr_parts_spec(url_parse(pr_url))
}

/// `scheme://host[:port]` as a `String`.
fn authority_exec(scheme: &str, host: &str, port: Option<u16>) -> (r: String)
    ensures
        r@ == authority_spec(scheme@, host@, port),
{
    let mut out = chars_of(scheme);
    push_str_chars(&mut out, "://");
    push_str_chars(&mut out, host);
    if let Some(p) = port {
        push_str_chars(&mut out, ":");
        let d = u64_decimal(p as u64);
        push_all(&mut out, &d);
    }
    string_from_chars(&out)
}

/// Parses a Gitea PR URL into `(base_url, owner, repo, pr_number)`.
///
/// Format: `https://gitea.example.com/owner/repo/pulls/123`.
pub fn parse_pr_url(pr_url: &str) -> (r: Option<(String, String, String, i64)>)
    ensures
        match r {
            Some((b, o, rp, n)) => parse_pr_url_spec(pr_url@) == Some((b@, o@, rp@, n)),
            None => parse_pr_url_spec(pr_url@) is None,
        },
{
    pr_url_parts(parse_url(pr_url))
}

/// Base URL, owner, repository and number from what the `url` crate parsed
/// of a pull request URL (see `parse_pr_url`).
pub fn pr_url_parts(parsed: Option<ParsedUrl>) -> (r: Option<(String, String, String, i64)>)
    ensures
        match r {
            Some((b, o, rp, n)) => pr_parts_spec(parsed_view(parsed)) == Some((b@, o@, rp@, n)),
            None => pr_parts_spec(parsed_view(parsed)) is None,
        },
{
    let parsed = parsed?;
    let segments = parsed.path_segments()?;
    // Expect: ["owner", "repo", "pulls", "123"]
    if segments.len() < 4 {
        return None;
    }
    assert(vec_views(segments@)[0] == segments@[0]@);
    assert(vec_views(segments@)[1] == segments@[1]@);
    assert(vec_views(segments@)[2] == segments@[2]@);
    assert(vec_views(segments@)[3] == segments@[3]@);
    let pulls = chars_of("pulls");
    if !crate::text::chars_eq(&segments[2], &pulls) {
        return None;
    }
    let owner = string_from_chars(&segments[0]);
    let repo = string_from_chars(&segments[1]);
    let number = parse_i64_exec(&segments[3])?;
    let host = match &parsed.host {
        Some(h) => h,
        None => {
            return None;
        },
    };
    let base_url = authority_exec(parsed.scheme.as_str(), host.as_str(), parsed.port);
    Some((base_url, owner, repo, number))
}

// ---------------------------------------------------------------------------
// Client
// ---------------------------------------------------------------------------

/// Connection settings of a Gitea API client: the base URL of the instance
/// and the access token. The HTTP transport lives with the caller.
#[derive(Debug)]
pub struct GiteaClient {
    token: String,
    pub base_url: String,
}

/// The path of a repository in the API.
pub open spec fn repo_path(owner: Seq<char>, repo: Seq<char>) -> Seq<char> {
    "/repos/"@ + owner + "/"@ + repo
}

/// The full URL of an API path.
pub open spec fn api_url_spec(base_url: Seq<char>, path: Seq<char>) -> Seq<char> {
    base_url + "/api/v1"@ + path
}

impl GiteaClient {
    pub closed spec fn token_spec(&self) -> Seq<char> {
        self.token@
    }

    pub closed spec fn base_url_spec(&self) -> Seq<char> {
        self.base_url@
    }

    /// Creates a client for `base_url`, with the token that `GITEA_TOKEN`
    /// holds (`gitea_token` is its value, `None` when unset). The base URL is
    /// kept without trailing slashes.
    pub fn new(base_url: &str, gitea_token: Option<&str>) -> (r: Result<Self, GiteaApiError>)
        ensures
            match r {
                Ok(c) => gitea_token is Some && gitea_token->0@.len() > 0 && c.token_spec()
                    == gitea_token->0@ && c.base_url_spec() == trim_end_matches(base_url@, "/"@),
                Err(e) => (gitea_token is None || gitea_token->0@.len() == 0) && e is NoToken,
            },
    {
        let token = Self::resolve_token(gitea_token)?;
        Ok(GiteaClient { token, base_url: trim_slashes(base_url) })
    }

    /// The API token: the value of `GITEA_TOKEN` when it is set and not empty.
    pub fn resolve_token(gitea_token: Option<&str>) -> (r: Result<String, GiteaApiError>)
        ensures
            match r {
                Ok(t) => gitea_token is Some && gitea_token->0@.len() > 0 && t@ == gitea_token->0@,
                Err(e) => (gitea_token is None || gitea_token->0@.len() == 0) && e is NoToken,
            },
    {
        if let Some(token) = gitea_token {
            let tv = chars_of(token);
            if tv.len() > 0 {
                return Ok(string_from_chars(&tv));
            }
        }
        Err(GiteaApiError::NoToken)
    }

    /// The base URL of the instance, without trailing slashes.
    pub fn base_url_str(&self) -> (r: &str)
        ensures
            r@ == self.base_url_spec(),
    {
        self.base_url.as_str()
    }

    /// The value of the `Authorization` header: `token <token>`.
    pub fn authorization_header(&self) -> (r: String)
        ensures
            r@ == "token "@ + self.token_spec(),
    {
        let mut out = chars_of("token ");
        push_str_chars(&mut out, self.token.as_str());
        string_from_chars(&out)
    }

    /// The full URL of an API path: `<base_url>/api/v1<path>`.
    pub fn api_url(&self, path: &str) -> (r: String)
        ensures
            r@ == api_url_spec(self.base_url_spec(), path@),
    {
        let mut out = chars_of(self.base_url.as_str());
        push_str_chars(&mut out, "/api/v1");
        push_str_chars(&mut out, path);
        string_from_chars(&out)
    }

    /// The characters of `/repos/<owner>/<repo>`.
    fn repo_path_exec(info: &GiteaRepoInfo) -> (r: Vec<char>)
        ensures
            r@ == repo_path(info.owner@, info.repo@),
    {
        let mut out = chars_of("/repos/");
        push_str_chars(&mut out, info.owner.as_str());
        push_str_chars(&mut out, "/");
        push_str_chars(&mut out, info.repo.as_str());
        out
    }

    /// URL that lists and creates the pull requests of a repository.
    pub fn pulls_url(&self, info: &GiteaRepoInfo) -> (r: String)
        ensures
            r@ == api_url_spec(self.base_url_spec(), repo_path(info.owner@, info.repo@) + "/pulls"@),
    {
        let mut p = Self::repo_path_exec(info);
        push_str_chars(&mut p, "/pulls");
        let ps = string_from_chars(&p);
        self.api_url(ps.as_str())
    }

    /// URL of one pull request.
    pub fn pull_url(&self, info: &GiteaRepoInfo, pr_number: i64) -> (r: String)
        ensures
            r@ == api_url_spec(
                self.base_url_spec(),
                repo_path(info.owner@, info.repo@) + "/pulls/"@ + int_decimal(pr_number as int),
            ),
    {
        let mut p = Self::repo_path_exec(info);
        push_str_chars(&mut p, "/pulls/");
        let n = i64_decimal(pr_number);
        push_all(&mut p, &n);
        let ps = string_from_chars(&p);
        self.api_url(ps.as_str())
    }

    /// URL listing the pull requests of a repository in a given state
    /// (at most 50).
    pub fn list_prs_url(&self, info: &GiteaRepoInfo, state: &str) -> (r: String)
        ensures
            r@ == api_url_spec(self.base_url_spec(), repo_path(info.owner@, info.repo@) + "/pulls"@)
                + "?state="@ + state@ + "&limit=50"@,
    {
        let url = self.pulls_url(info);
        let mut out = chars_of(url.as_str());
        push_str_chars(&mut out, "?state=");
        push_str_chars(&mut out, state);
        push_str_chars(&mut out, "&limit=50");
        string_from_chars(&out)
    }

    /// URL of the conversation comments of a pull request.
    pub fn issue_comments_url(&self, info: &GiteaRepoInfo, pr_number: i64) -> (r: String)
        ensures
            r@ == api_url_spec(
                self.base_url_spec(),
                repo_path(info.owner@, info.repo@) + "/issues/"@ + int_decimal(pr_number as int)
                    + "/comments"@,
            ),
    {
        let mut p = Self::repo_path_exec(info);
        push_str_chars(&mut p, "/issues/");
        let n = i64_decimal(pr_number);
        push_all(&mut p, &n);
        push_str_chars(&mut p, "/comments");
        let ps = string_from_chars(&p);
        self.api_url(ps.as_str())
    }

    /// URL of the reviews of a pull request.
    pub fn reviews_url(&self, info: &GiteaRepoInfo, pr_number: i64) -> (r: String)
        ensures
            r@ == api_url_spec(
                self.base_url_spec(),
                repo_path(info.owner@, info.repo@) + "/pulls/"@ + int_decimal(pr_number as int)
                    + "/reviews"@,
            ),
    {
        let mut p = Self::repo_path_exec(info);
        push_str_chars(&mut p, "/pulls/");
        let n = i64_decimal(pr_number);
        push_all(&mut p, &n);
        push_str_chars(&mut p, "/reviews");
        let ps = string_from_chars(&p);
        self.api_url(ps.as_str())
    }

    /// URL of the inline comments of one review of a pull request.
    pub fn review_comments_url(&self, info: &GiteaRepoInfo, pr_number: i64, review_id: i64) -> (r:
        String)
        ensures
            r@ == api_url_spec(
                self.base_url_spec(),
                repo_path(info.owner@, info.repo@) + "/pulls/"@ + int_decimal(pr_number as int)
                    + "/reviews/"@ + int_decimal(review_id as int) + "/comments"@,
            ),
    {
        let mut p = Self::repo_path_exec(info);
        push_str_chars(&mut p, "/pulls/");
        let n = i64_decimal(pr_number);
        push_all(&mut p, &n);
        push_str_chars(&mut p, "/reviews/");
        let id = i64_decimal(review_id);
        push_all(&mut p, &id);
        push_str_chars(&mut p, "/comments");
        let ps = string_from_chars(&p);
        self.api_url(ps.as_str())
    }

    /// The payload that creates a pull request: title, body (empty when
    /// there is none), head and base branch of the request.
    pub fn create_pr_payload(request: &CreatePrRequest) -> (p: CreatePrPayload)
        ensures
            p.title == request.title,
            p.body@ == (match request.body {
                Some(b) => b@,
                None => Seq::<char>::empty(),
            }),
            p.head == request.head_branch,
            p.base == request.base_branch,
    {
        let body = match &request.body {
            Some(b) => b.clone(),
            None => String::new(),
        };
        CreatePrPayload {
            title: request.title.clone(),
            body,
            head: request.head_branch.clone(),
            base: request.base_branch.clone(),
        }
    }
}

// ---------------------------------------------------------------------------
// Responses
// ---------------------------------------------------------------------------

/// What `Display` writes for an HTTP status code (`http::StatusCode`): the
/// code and its canonical reason phrase.
pub uninterp spec fn http_status_text(code: u16) -> Seq<char>;

/// `http::StatusCode::from_u16` followed by `to_string`. Trusted: for a code
/// in 100..=999 the result is `http_status_text(code)`, which begins with the
/// code's three digits and a space. The reason phrase itself is not stated.
#[verifier::external_body]
fn status_code_text(code: u16) -> (r: String)
    requires
        100 <= code <= 999,
    ensures
        r@ == http_status_text(code),
        r@.len() >= 4,
        r@.subrange(0, 4) == nat_decimal(code as nat) + " "@,
{
    reqwest::StatusCode::from_u16(code).unwrap().to_string()
}

/// The text used when a response body could not be read.
pub open spec fn unreadable_body_text() -> Seq<char> {
    "(could not read response body)"@
}

/// Error detail from a status text and the response body: the status text,
/// followed by `: <body>` when the body is not empty.
pub open spec fn detail_from_spec(status_text: Seq<char>, body: Option<Seq<char>>) -> Seq<char> {
    let b = match body {
        Some(t) => t,
        None => unreadable_body_text(),
    };
    if b.len() == 0 {
        status_text
    } else {
        status_text + ": "@ + b
    }
}

/// Error detail for an unsuccessful response with status `code`.
pub open spec fn error_detail_spec(code: u16, body: Option<Seq<char>>) -> Seq<char> {
    detail_from_spec(http_status_text(code), body)
}

impl GiteaClient {
    /// Whether a status code means success (200..=299, as
    /// `StatusCode::is_success`).
    pub fn is_success_status(code: u16) -> (r: bool)
        ensures
            r == (200 <= code < 300),
    {
        200 <= code && code < 300
    }

    /// The error for an unsuccessful response with status `code` and the
    /// response body (`None` when the body could not be read): 401 is an
    /// authentication failure, 403 a permission failure, anything else a
    /// failed request; the message is the status text and the body.
    pub fn error_for_status(code: u16, body: Option<String>) -> (e: GiteaApiError)
        requires
            100 <= code <= 999,
        ensures
            code == 401 ==> (e matches GiteaApiError::AuthFailed(m) && m@ == error_detail_spec(
                code,
                body.deep_view(),
            )),
            code == 403 ==> (e matches GiteaApiError::InsufficientPermissions(m) && m@
                == error_detail_spec(code, body.deep_view())),
            code != 401 && code != 403 ==> (e matches GiteaApiError::RequestFailed(m) && m@
                == error_detail_spec(code, body.deep_view())),
    {
        let status = status_code_text(code);
        Self::error_from_status_text(code, status, body)
    }

    /// The error for an unsuccessful response, given the status code, its
    /// text and the body (see `error_for_status`).
    pub fn error_from_status_text(code: u16, status: String, body: Option<String>) -> (e:
        GiteaApiError)
        ensures
            code == 401 ==> (e matches GiteaApiError::AuthFailed(m) && m@ == detail_from_spec(
                status@,
                body.deep_view(),
            )),
            code == 403 ==> (e matches GiteaApiError::InsufficientPermissions(m) && m@
                == detail_from_spec(status@, body.deep_view())),
            code != 401 && code != 403 ==> (e matches GiteaApiError::RequestFailed(m) && m@
                == detail_from_spec(status@, body.deep_view())),
    {
        let b = match body {
            Some(t) => t,
            None => string_from_chars(&chars_of("(could not read response body)")),
        };
        let bc = chars_of(b.as_str());
        let detail = if bc.len() == 0 {
            status
        } else {
            let mut out = chars_of(status.as_str());
            push_str_chars(&mut out, ": ");
            push_all(&mut out, &bc);
            string_from_chars(&out)
        };
        if code == 401 {
            GiteaApiError::AuthFailed(detail)
        } else if code == 403 {
            GiteaApiError::InsufficientPermissions(detail)
        } else {
            GiteaApiError::RequestFailed(detail)
        }
    }
}

// ---------------------------------------------------------------------------
// Pull request conversion
// ---------------------------------------------------------------------------

/// Merge status of a pull request from its state and merged flag: `open` is
/// open, `closed` is merged when the merged flag is set and closed otherwise,
/// any other state is unknown.
pub open spec fn merge_status_spec(state: Seq<char>, merged: Option<bool>) -> MergeStatus {
    if state == "open"@ {
        MergeStatus::Open
    } else if state == "closed"@ {
        if merged == Some(true) {
            MergeStatus::Merged
        } else {
            MergeStatus::Closed
        }
    } else {
        MergeStatus::Unknown
    }
}

/// The name of an optional branch reference, empty when absent.
pub open spec fn branch_name(b: Option<GiteaBranch>) -> Seq<char> {
    match b {
        Some(br) => br.ref_name@,
        None => Seq::<char>::empty(),
    }
}

/// `d` is the conversion of the Gitea pull request `pr`.
pub open spec fn detail_of(d: PullRequestDetail, pr: GiteaPullRequest) -> bool {
    &&& d.number == pr.number
    &&& d.url == pr.html_url
    &&& d.status == merge_status_spec(pr.state@, pr.merged)
    &&& d.merged_at == pr.merged_at
    &&& d.merge_commit_sha == pr.merge_commit_sha
    &&& d.title == pr.title
    &&& d.base_branch@ == branch_name(pr.base)
    &&& d.head_branch@ == branch_name(pr.head)
}

fn branch_name_exec(b: Option<GiteaBranch>) -> (r: String)
    ensures
        r@ == branch_name(b),
{
    match b {
        Some(br) => br.ref_name,
        None => String::new(),
    }
}

impl GiteaClient {
    /// Converts a Gitea pull request into the provider-neutral form.
    pub fn to_pull_request_detail(pr: GiteaPullRequest) -> (d: PullRequestDetail)
        ensures
            detail_of(d, pr),
    {
        let ghost pr0 = pr;
        let status = if str_eq(pr.state.as_str(), "open") {
            MergeStatus::Open
        } else if str_eq(pr.state.as_str(), "closed") {
            let merged = match pr.merged {
                Some(m) => m,
                None => false,
            };
            if merged {
                MergeStatus::Merged
            } else {
                MergeStatus::Closed
            }
        } else {
            MergeStatus::Unknown
        };
        PullRequestDetail {
            number: pr.number,
            url: pr.html_url,
            status,
            merged_at: pr.merged_at,
            merge_commit_sha: pr.merge_commit_sha,
            title: pr.title,
            base_branch: branch_name_exec(pr.base),
            head_branch: branch_name_exec(pr.head),
        }
    }
}

// ---------------------------------------------------------------------------
// Pull request selection
// ---------------------------------------------------------------------------

/// A pull request is kept when no head branch is asked for, or when its
/// head branch is the one asked for.
pub open spec fn keeps_pr(pr: GiteaPullRequest, head_branch: Option<Seq<char>>) -> bool {
    match head_branch {
        Some(b) => pr.head is Some && pr.head->0.ref_name@ == b,
        None => true,
    }
}

/// The kept pull requests, in the order they were listed.
pub open spec fn kept_prs(prs: Seq<GiteaPullRequest>, head_branch: Option<Seq<char>>) -> Seq<
    GiteaPullRequest,
> {
    prs.filter(|pr: GiteaPullRequest| keeps_pr(pr, head_branch))
}

fn keeps_pr_exec(pr: &GiteaPullRequest, head_branch: Option<&str>) -> (r: bool)
    ensures
        r == keeps_pr(*pr, head_branch.deep_view()),
{
    match head_branch {
        Some(b) => match &pr.head {
            Some(h) => str_eq(h.ref_name.as_str(), b),
            None => false,
        },
        None => true,
    }
}

impl GiteaClient {
    /// The pull requests of a listing whose head branch is `head_branch`
    /// (all of them when `None`), in order, converted.
    pub fn select_prs(prs: Vec<GiteaPullRequest>, head_branch: Option<&str>) -> (r: Vec<
        PullRequestDetail,
    >)
        ensures
            r.len() == kept_prs(prs@, head_branch.deep_view()).len(),
            forall|k: int|
                0 <= k < r.len() ==> detail_of(
                    #[trigger] r@[k],
                    kept_prs(prs@, head_branch.deep_view())[k],
                ),
    {
        let ghost orig = prs@;
        let ghost hb = head_branch.deep_view();
        let mut rest = prs;
        let mut out: Vec<PullRequestDetail> = Vec::new();
        let mut i: usize = 0;
        proof {
            reveal_with_fuel(Seq::<_>::filter, 1);
            assert(orig.take(0) =~= Seq::<GiteaPullRequest>::empty());
        }
        let initial_len = rest.len();
        assert(orig.len() == initial_len);
        while rest.len() > 0
            invariant
                i <= orig.len(),
                orig.len() <= usize::MAX,
                rest@ == orig.skip(i as int),
                hb == head_branch.deep_view(),
                out.len() == kept_prs(orig.take(i as int), hb).len(),
                forall|k: int|
                    0 <= k < out.len() ==> detail_of(
                        #[trigger] out@[k],
                        kept_prs(orig.take(i as int), hb)[k],
                    ),
            decreases rest.len(),
        {
            let pr = rest.remove(0);
            let ghost before = kept_prs(orig.take(i as int), hb);
            proof {
                reveal_with_fuel(Seq::<_>::filter, 1);
                assert(orig.take(i + 1).drop_last() =~= orig.take(i as int));
                assert(orig.take(i + 1).last() == pr);
            }
            if keeps_pr_exec(&pr, head_branch) {
                let d = Self::to_pull_request_detail(pr);
                out.push(d);
                assert(kept_prs(orig.take(i + 1), hb) == before.push(pr));
            } else {
                assert(kept_prs(orig.take(i + 1), hb) == before);
            }
            assert(rest@ =~= orig.skip(i + 1));
            i = i + 1;
        }
        assert(orig.take(i as int) =~= orig);
        out
    }
}

// ---------------------------------------------------------------------------
// Comments
// ---------------------------------------------------------------------------

/// The login of an optional user, `unknown` when absent.
pub open spec fn login_or_unknown(u: Option<GiteaUser>) -> Seq<char> {
    match u {
        Some(x) => x.login@,
        None => "unknown"@,
    }
}

/// `u` is the unified form of the conversation comment `c`.
pub open spec fn from_general(u: UnifiedPrComment, c: GiteaComment) -> bool {
    match u {
        UnifiedPrComment::General { id, author, author_association, body, created_at, url } => {
            &&& id@ == int_decimal(c.id as int)
            &&& author@ == login_or_unknown(c.user)
            &&& author_association is None
            &&& body == c.body
            &&& created_at == c.created_at
            &&& url == c.html_url
        },
        _ => false,
    }
}

/// `u` is the unified form of the inline review comment `c` of a review by
/// `review_user`; the comment's own user takes precedence.
pub open spec fn from_review(
    u: UnifiedPrComment,
    c: GiteaReviewComment,
    review_user: Option<GiteaUser>,
) -> bool {
    match u {
        UnifiedPrComment::Review {
            id,
            author,
            author_association,
            body,
            created_at,
            url,
            path,
            line,
            side,
            diff_hunk,
        } => {
            &&& id == c.id
            &&& author@ == login_or_unknown(
                if c.user is Some {
                    c.user
                } else {
                    review_user
                },
            )
            &&& author_association is None
            &&& body == c.body
            &&& created_at == c.created_at
            &&& url == c.html_url
            &&& path@ == (match c.path {
                Some(p) => p@,
                None => Seq::<char>::empty(),
            })
            &&& line == c.line
            &&& side is None
            &&& diff_hunk == c.diff_hunk
        },
        _ => false,
    }
}

/// `u` is the unified form of entry `j` of the conversation comments
/// followed by the review comments.
pub open spec fn from_source(
    u: UnifiedPrComment,
    general: Seq<GiteaComment>,
    reviews: Seq<(GiteaReviewComment, Option<GiteaUser>)>,
    j: int,
) -> bool {
    if 0 <= j < general.len() {
        from_general(u, general[j])
    } else if general.len() <= j < general.len() + reviews.len() {
        from_review(u, reviews[j - general.len()].0, reviews[j - general.len()].1)
    } else {
        false
    }
}

/// `r` lists `n` entries, `r[k]` being entry `perm[k]`, each entry once, in
/// chronological order, entries written at the same time in their listed
/// order.
pub open spec fn is_stable_order(r: Seq<UnifiedPrComment>, perm: Seq<int>, n: int) -> bool {
    &&& r.len() == n
    &&& perm.len() == n
    &&& forall|k: int| 0 <= k < n ==> 0 <= #[trigger] perm[k] < n
    &&& forall|a: int, b: int| 0 <= a < b < n ==> #[trigger] perm[a] != #[trigger] perm[b]
    &&& forall|a: int, b: int|
        0 <= a < b < n ==> (#[trigger] r[a]).created_at_spec().le(
            (#[trigger] r[b]).created_at_spec(),
        )
    &&& forall|a: int, b: int|
        0 <= a < b < n && (#[trigger] r[a]).created_at_spec() == (
        #[trigger] r[b]).created_at_spec() ==> perm[a] < perm[b]
}

/// `r` holds the unified forms of all conversation comments and review
/// comments, sorted by creation time, stable among equal times.
pub open spec fn unified_comments_spec(
    r: Seq<UnifiedPrComment>,
    general: Seq<GiteaComment>,
    reviews: Seq<(GiteaReviewComment, Option<GiteaUser>)>,
) -> bool {
    exists|perm: Seq<int>|
        {
            &&& #[trigger] is_stable_order(r, perm, (general.len() + reviews.len()) as int)
            &&& forall|k: int|
                0 <= k < r.len() ==> from_source(#[trigger] r[k], general, reviews, perm[k])
        }
}

fn login_or_unknown_exec(u: Option<GiteaUser>) -> (r: String)
    ensures
        r@ == login_or_unknown(u),
{
    match u {
        Some(x) => x.login,
        None => string_from_chars(&chars_of("unknown")),
    }
}

/// Sorts comments by creation time, keeping the order of comments written
/// at the same time; `items[k]` is entry `k`.
fn sort_by_created_at(items: Vec<UnifiedPrComment>) -> (r: Vec<UnifiedPrComment>)
    ensures
        exists|perm: Seq<int>|
            {
                &&& #[trigger] is_stable_order(r@, perm, items@.len() as int)
                &&& forall|k: int| 0 <= k < r@.len() ==> #[trigger] r@[k] == items@[perm[k]]
            },
{
    let ghost src = items@;
    let ghost n = items@.len() as int;
    let mut rest = items;
    let mut out: Vec<UnifiedPrComment> = Vec::new();
    let ghost mut perm: Seq<int> = Seq::empty();
    let mut i: usize = 0;
    let initial_len = rest.len();
    assert(n == initial_len);
    while rest.len() > 0
        invariant
            n == src.len(),
            n <= usize::MAX,
            i <= n,
            rest@ == src.skip(i as int),
            out@.len() == i,
            perm.len() == i,
            forall|k: int| 0 <= k < i ==> 0 <= #[trigger] perm[k] < i,
            forall|a: int, b: int| 0 <= a < b < i ==> #[trigger] perm[a] != #[trigger] perm[b],
            forall|k: int| 0 <= k < i ==> #[trigger] out@[k] == src[perm[k]],
            forall|a: int, b: int|
                0 <= a < b < i ==> (#[trigger] out@[a]).created_at_spec().le(
                    (#[trigger] out@[b]).created_at_spec(),
                ),
            forall|a: int, b: int|
                0 <= a < b < i && (#[trigger] out@[a]).created_at_spec() == (
                #[trigger] out@[b]).created_at_spec() ==> perm[a] < perm[b],
        decreases rest.len(),
    {
        let x = rest.remove(0);
        assert(x == src[i as int]);
        let t = x.created_at();
        let mut pos: usize = 0;
        while pos < out.len() && out[pos].created_at().le_exec(&t)
            invariant
                pos <= out@.len(),
                forall|k: int| 0 <= k < pos ==> (#[trigger] out@[k]).created_at_spec().le(t),
            decreases out@.len() - pos,
        {
            pos = pos + 1;
        }
        let ghost old_out = out@;
        let ghost old_perm = perm;
        proof {
            // Everything from `pos` on is strictly later than `t`.
            assert forall|k: int| pos <= k < old_out.len() implies !(
            #[trigger] old_out[k]).created_at_spec().le(t) by {
                if k > pos {
                    assert(old_out[pos as int].created_at_spec().le(old_out[k].created_at_spec()));
                }
            }
        }
        out.insert(pos, x);
        proof {
            perm = old_perm.insert(pos as int, i as int);
            let new_out = out@;
            assert(new_out == old_out.insert(pos as int, x));
            assert forall|k: int| 0 <= k < i + 1 implies 0 <= #[trigger] perm[k] < i + 1 by {
                if k < pos {
                    assert(perm[k] == old_perm[k]);
                } else if k > pos {
                    assert(perm[k] == old_perm[k - 1]);
                }
            }
            assert forall|a: int, b: int| 0 <= a < b < i + 1 implies #[trigger] perm[a]
                != #[trigger] perm[b] by {
                if a < pos && b < pos {
                    assert(old_perm[a] != old_perm[b]);
                } else if a < pos && b > pos {
                    assert(old_perm[a] != old_perm[b - 1]);
                } else if a > pos && b > pos {
                    assert(old_perm[a - 1] != old_perm[b - 1]);
                } else if a == pos {
                    assert(old_perm[b - 1] < i);
                } else {
                    assert(old_perm[a] < i);
                }
            }
            assert forall|k: int| 0 <= k < i + 1 implies #[trigger] new_out[k] == src[perm[k]] by {
                if k < pos {
                    assert(new_out[k] == old_out[k]);
                } else if k > pos {
                    assert(new_out[k] == old_out[k - 1]);
                }
            }
            assert forall|a: int, b: int| 0 <= a < b < i + 1 implies (
            #[trigger] new_out[a]).created_at_spec().le((#[trigger] new_out[b]).created_at_spec()) by {
                if a < pos && b < pos {
                    assert(old_out[a].created_at_spec().le(old_out[b].created_at_spec()));
                } else if a < pos && b == pos {
                    assert(old_out[a].created_at_spec().le(t));
                } else if a < pos && b > pos {
                    assert(old_out[a].created_at_spec().le(old_out[b - 1].created_at_spec()));
                } else if a == pos {
                    assert(!old_out[b - 1].created_at_spec().le(t));
                } else {
                    assert(old_out[a - 1].created_at_spec().le(old_out[b - 1].created_at_spec()));
                }
            }
            assert forall|a: int, b: int|
                0 <= a < b < i + 1 && (#[trigger] new_out[a]).created_at_spec() == (
                #[trigger] new_out[b]).created_at_spec() implies perm[a] < perm[b] by {
                if a < pos && b < pos {
                    assert(old_out[a].created_at_spec() == old_out[b].created_at_spec());
                } else if a < pos && b == pos {
                    assert(old_perm[a] < i);
                } else if a < pos && b > pos {
                    assert(old_out[a].created_at_spec() == old_out[b - 1].created_at_spec());
                } else if a == pos {
                    assert(!old_out[b - 1].created_at_spec().le(t));
                } else {
                    assert(old_out[a - 1].created_at_spec() == old_out[b - 1].created_at_spec());
                }
            }
        }
        assert(rest@ =~= src.skip(i + 1));
        i = i + 1;
    }
    assert(is_stable_order(out@, perm, n));
    out
}

impl GiteaClient {
    /// Unifies the conversation comments and the inline review comments (each
    /// paired with the user of its review) of a pull request into one list,
    /// sorted by creation time; comments written at the same time keep their
    /// order, conversation comments first.
    pub fn unify_comments(
        general: Vec<GiteaComment>,
        review_comments: Vec<(GiteaReviewComment, Option<GiteaUser>)>,
    ) -> (r: Vec<UnifiedPrComment>)
        ensures
            unified_comments_spec(r@, general@, review_comments@),
    {
        let ghost g = general@;
        let ghost rv = review_comments@;
        let mut items: Vec<UnifiedPrComment> = Vec::new();
        let mut rest = general;
        let mut i: usize = 0;
        let initial_len = rest.len();
        assert(g.len() == initial_len);
        while rest.len() > 0
            invariant
                i <= g.len(),
                g.len() <= usize::MAX,
                rest@ == g.skip(i as int),
                items@.len() == i,
                forall|k: int| 0 <= k < i ==> from_source(#[trigger] items@[k], g, rv, k),
            decreases rest.len(),
        {
            let c = rest.remove(0);
            assert(c == g[i as int]);
            let ghost c0 = c;
            let author = login_or_unknown_exec(c.user);
            let u = UnifiedPrComment::General {
                id: crate::text::i64_to_string(c.id),
                author,
                author_association: None,
                body: c.body,
                created_at: c.created_at,
                url: c.html_url,
            };
            assert(from_general(u, c0));
            items.push(u);
            assert(rest@ =~= g.skip(i + 1));
            i = i + 1;
        }
        assert(i == g.len());
        let mut rest2 = review_comments;
        let mut j: usize = 0;
        let initial_len2 = rest2.len();
        assert(rv.len() == initial_len2);
        while rest2.len() > 0
            invariant
                j <= rv.len(),
                rv.len() <= usize::MAX,
                rest2@ == rv.skip(j as int),
                items@.len() == g.len() + j,
                forall|k: int|
                    0 <= k < g.len() + j ==> from_source(#[trigger] items@[k], g, rv, k),
            decreases rest2.len(),
        {
            let (c, review_user) = rest2.remove(0);
            assert((c, review_user) == rv[j as int]);
            let ghost c0 = c;
            let ghost ru0 = review_user;
            let author = match c.user {
                Some(u) => u.login,
                None => login_or_unknown_exec(review_user),
            };
            let path = match c.path {
                Some(p) => p,
                None => String::new(),
            };
            let u = UnifiedPrComment::Review {
                id: c.id,
                author,
                author_association: None,
                body: c.body,
                created_at: c.created_at,
                url: c.html_url,
                path,
                line: c.line,
                side: None,
                diff_hunk: c.diff_hunk,
            };
            assert(from_review(u, c0, ru0));
            items.push(u);
            assert(rest2@ =~= rv.skip(j + 1));
            j = j + 1;
        }
        let ghost all = items@;
        let r = sort_by_created_at(items);
        proof {
            let perm = choose|perm: Seq<int>|
                {
                    &&& #[trigger] is_stable_order(r@, perm, all.len() as int)
                    &&& forall|k: int| 0 <= k < r@.len() ==> #[trigger] r@[k] == all[perm[k]]
                };
            assert forall|k: int| 0 <= k < r@.len() implies from_source(
                #[trigger] r@[k],
                g,
                rv,
                perm[k],
            ) by {
                assert(r@[k] == all[perm[k]]);
                assert(0 <= perm[k] < all.len());
            }
            assert(all.len() == g.len() + rv.len());
            assert(is_stable_order(r@, perm, (g.len() + rv.len()) as int));
        }
        r
    }
}

// ---------------------------------------------------------------------------
// Laws
// ---------------------------------------------------------------------------

/// Repository info read from a remote URL is normalised: the base URL has no
/// trailing `/` and the repository name no trailing `.git`.
pub proof fn law_repo_info_normalized(remote_url: Seq<char>, base_url: Seq<char>)
    ensures
        repo_info_spec(remote_url, base_url) matches Some((b, o, rp)) ==> !crate::text::has_suffix(
            b,
            "/"@,
        ) && !crate::text::has_suffix(rp, ".git"@),
{
    reveal_strlit("/");
    reveal_strlit(".git");
    crate::text::lemma_trim_end_no_suffix(base_url, "/"@);
    if let Some((_, _, _, path)) = url_parse(remote_url) {
        let segs = match path_segments_spec(path) {
            Some(s) => s,
            None => Seq::<Seq<char>>::empty(),
        };
        if segs.len() >= 2 {
            crate::text::lemma_trim_end_no_suffix(segs[1], ".git"@);
        }
    }
    let pieces = split_on(remote_url, ':');
    if pieces.len() > 1 {
        let parts = split_on(pieces[1], '/');
        if parts.len() >= 2 {
            crate::text::lemma_trim_end_no_suffix(parts[1], ".git"@);
        }
    }
}

/// A pull request is merged exactly when Gitea reports it closed with the
/// merged flag set, and open exactly when its state is `open`.
pub proof fn law_merge_status(state: Seq<char>, merged: Option<bool>)
    ensures
        merge_status_spec(state, merged) == MergeStatus::Merged <==> (state == "closed"@ && merged
            == Some(true)),
        merge_status_spec(state, merged) == MergeStatus::Open <==> state == "open"@,
        merge_status_spec(state, merged) == MergeStatus::Closed <==> (state == "closed"@ && merged
            != Some(true)),
        merge_status_spec(state, merged) == MergeStatus::Unknown <==> (state != "open"@ && state
            != "closed"@),
{
    reveal_strlit("open");
    reveal_strlit("closed");
    assert("open"@ != "closed"@) by {
        assert("open"@.len() != "closed"@.len());
    }
}

/// The message of an unsuccessful response starts with the status text; a
/// non-empty body follows after `": "`, an empty body adds nothing, and an
/// unreadable body is reported as such.
pub proof fn law_error_detail(status_text: Seq<char>, body: Option<Seq<char>>)
    ensures
        crate::text::has_prefix(detail_from_spec(status_text, body), status_text),
        body matches Some(b) ==> (b.len() > 0 ==> detail_from_spec(status_text, body)
            == status_text + ": "@ + b),
        body matches Some(b) ==> (b.len() == 0 ==> detail_from_spec(status_text, body)
            == status_text),
        body is None ==> detail_from_spec(status_text, body) == status_text
            + ": (could not read response body)"@,
{
    reveal_strlit(": ");
    reveal_strlit("(could not read response body)");
    reveal_strlit(": (could not read response body)");
    let d = detail_from_spec(status_text, body);
    assert(d.subrange(0, status_text.len() as int) =~= status_text);
    assert(status_text + ": "@ + unreadable_body_text() =~= status_text
        + ": (could not read response body)"@);
}

/// Asking for a head branch keeps only pull requests on that branch; asking
/// for none keeps every pull request.
pub proof fn law_selection(prs: Seq<GiteaPullRequest>, head_branch: Option<Seq<char>>)
    ensures
        head_branch is Some ==> forall|k: int|
            0 <= k < kept_prs(prs, head_branch).len() ==> {
                let pr = #[trigger] kept_prs(prs, head_branch)[k];
                pr.head is Some && pr.head->0.ref_name@ == head_branch->0
            },
        head_branch is None ==> kept_prs(prs, head_branch) == prs,
    decreases prs.len(),
{
    let pred = |pr: GiteaPullRequest| keeps_pr(pr, head_branch);
    prs.filter_lemma(pred);
    if head_branch is None && prs.len() > 0 {
        law_selection(prs.drop_last(), head_branch);
        reveal_with_fuel(Seq::<_>::filter, 1);
        assert(prs.drop_last().push(prs.last()) =~= prs);
    } else if head_branch is None {
        reveal_with_fuel(Seq::<_>::filter, 1);
    }
}

/// Asking for a head branch keeps exactly the listed pull requests whose
/// head branch is that branch, in the order listed, whatever their state or
/// merged flag: a closed or merged pull request on the branch is kept.
pub proof fn law_branch_filter_complete(prs: Seq<GiteaPullRequest>, branch: Seq<char>)
    ensures
        kept_prs(prs, Some(branch)) == prs.filter(
            |pr: GiteaPullRequest| pr.head is Some && pr.head->0.ref_name@ == branch,
        ),
        forall|i: int|
            0 <= i < prs.len() && (#[trigger] prs[i]).head is Some && prs[i].head->0.ref_name@
                == branch ==> kept_prs(prs, Some(branch)).contains(prs[i]),
{
    let hb = Some(branch);
    let on_branch = |pr: GiteaPullRequest| pr.head is Some && pr.head->0.ref_name@ == branch;
    assert((|pr: GiteaPullRequest| keeps_pr(pr, hb)) =~= on_branch);
    assert forall|i: int|
        0 <= i < prs.len() && (#[trigger] prs[i]).head is Some && prs[i].head->0.ref_name@
            == branch implies kept_prs(prs, hb).contains(prs[i]) by {
        prs.lemma_filter_contains(on_branch, i);
    }
}

/// Any remote URL that the `url` crate parses with at least two path
/// segments gives the first segment as owner and the second, without
/// trailing `.git`, as repository (a name without `.git` is kept as it is);
/// the base URL is the given one without trailing slashes.
pub proof fn law_repo_info_from_path(
    remote_url: Seq<char>,
    base_url: Seq<char>,
    scheme: Seq<char>,
    host: Option<Seq<char>>,
    port: Option<u16>,
    path: Seq<char>,
    segs: Seq<Seq<char>>,
)
    requires
        path_segments_spec(path) == Some(segs),
        segs.len() >= 2,
    ensures
        repo_info_from_spec(remote_url, base_url, Some((scheme, host, port, path))) == Some(
            (trim_end_matches(base_url, "/"@), segs[0], trim_end_matches(segs[1], ".git"@)),
        ),
        !crate::text::has_suffix(segs[1], ".git"@) ==> repo_info_from_spec(
            remote_url,
            base_url,
            Some((scheme, host, port, path)),
        ) == Some((trim_end_matches(base_url, "/"@), segs[0], segs[1])),
        url_parse(remote_url) == Some((scheme, host, port, path)) ==> repo_info_spec(
            remote_url,
            base_url,
        ) == Some((trim_end_matches(base_url, "/"@), segs[0], trim_end_matches(segs[1], ".git"@))),
{
    reveal_with_fuel(trim_end_matches, 1);
}

/// The base URL of a pull request URL is `scheme://host`, followed by
/// `:port` exactly when the URL has an explicit port, for every scheme;
/// owner and repository are the segments before `pulls` and the number the
/// one after it. Without a host there is no result.
pub proof fn law_pr_url_parts(
    pr_url: Seq<char>,
    scheme: Seq<char>,
    host: Option<Seq<char>>,
    port: Option<u16>,
    path: Seq<char>,
    segs: Seq<Seq<char>>,
    n: i64,
)
    requires
        path_segments_spec(path) == Some(segs),
        segs.len() >= 4,
        segs[2] == "pulls"@,
        parse_i64_spec(segs[3]) == Some(n),
    ensures
        host matches Some(h) ==> pr_parts_spec(Some((scheme, host, port, path))) == Some(
            (
                match port {
                    Some(p) => scheme + "://"@ + h + ":"@ + nat_decimal(p as nat),
                    None => scheme + "://"@ + h,
                },
                segs[0],
                segs[1],
                n,
            ),
        ),
        host is None ==> pr_parts_spec(Some((scheme, host, port, path))) is None,
        url_parse(pr_url) == Some((scheme, host, port, path)) ==> parse_pr_url_spec(pr_url)
            == pr_parts_spec(Some((scheme, host, port, path))),
{
}

/// Entry `j` of the comments appears in `r`.
pub open spec fn entry_listed(
    r: Seq<UnifiedPrComment>,
    general: Seq<GiteaComment>,
    reviews: Seq<(GiteaReviewComment, Option<GiteaUser>)>,
    j: int,
) -> bool {
    exists|k: int| 0 <= k < r.len() && #[trigger] from_source(r[k], general, reviews, j)
}

/// Distinct indices below `n`, `n` of them, hit every index below `n`.
proof fn lemma_perm_onto(perm: Seq<int>, n: int)
    requires
        perm.len() == n,
        forall|k: int| 0 <= k < n ==> 0 <= #[trigger] perm[k] < n,
        forall|a: int, b: int| 0 <= a < b < n ==> #[trigger] perm[a] != #[trigger] perm[b],
    ensures
        forall|j: int| 0 <= j < n ==> #[trigger] perm.contains(j),
{
    assert(perm.no_duplicates()) by {
        assert forall|a: int, b: int| 0 <= a < perm.len() && 0 <= b < perm.len() && a != b implies perm[a]
            != perm[b] by {
            if a < b {
                assert(perm[a] != perm[b]);
            } else {
                assert(perm[b] != perm[a]);
            }
        }
    }
    perm.unique_seq_to_set();
    let s = perm.to_set();
    let range = vstd::set_lib::set_int_range(0, n);
    vstd::set_lib::lemma_int_range(0, n);
    assert(s.subset_of(range)) by {
        assert forall|x: int| s.contains(x) implies range.contains(x) by {
            let k = choose|k: int| 0 <= k < perm.len() && perm[k] == x;
            assert(0 <= perm[k] < n);
        }
    }
    vstd::set_lib::lemma_len_subset(s, range);
    vstd::set_lib::lemma_subset_equality(s, range);
    assert forall|j: int| 0 <= j < n implies #[trigger] perm.contains(j) by {
        assert(range.contains(j));
        assert(s.contains(j));
    }
}

/// The unified comments are all the comments, each once, in chronological
/// order.
pub proof fn law_unified_comments_chronological(
    r: Seq<UnifiedPrComment>,
    general: Seq<GiteaComment>,
    reviews: Seq<(GiteaReviewComment, Option<GiteaUser>)>,
)
    requires
        unified_comments_spec(r, general, reviews),
    ensures
        r.len() == general.len() + reviews.len(),
        forall|a: int, b: int|
            0 <= a < b < r.len() ==> (#[trigger] r[a]).created_at_spec().le(
                (#[trigger] r[b]).created_at_spec(),
            ),
        forall|j: int|
            0 <= j < general.len() + reviews.len() ==> #[trigger] entry_listed(
                r,
                general,
                reviews,
                j,
            ),
{
    let n = (general.len() + reviews.len()) as int;
    let perm = choose|perm: Seq<int>|
        {
            &&& #[trigger] is_stable_order(r, perm, n)
            &&& forall|k: int|
                0 <= k < r.len() ==> from_source(#[trigger] r[k], general, reviews, perm[k])
        };
    lemma_perm_onto(perm, n);
    assert forall|j: int| 0 <= j < n implies #[trigger] entry_listed(r, general, reviews, j) by {
        assert(perm.contains(j));
        let k = choose|k: int| 0 <= k < perm.len() && perm[k] == j;
        assert(from_source(r[k], general, reviews, perm[k]));
    }
}

} // verus!
