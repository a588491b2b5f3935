//! Git hosting provider detection from repository and pull request URLs.
//!
//! The `GITEA_URL` setting that the detection consults is passed in by the
//! caller as `gitea_url` (`None` when it is not set).

use vstd::prelude::*;

use crate::text::{
    chars_of, contains_exec, has_prefix, nat_decimal, push_all, push_str_chars, seq_contains,
    split_exec, split_on, string_from_chars, vec_views, to_lowercase, trim_end_exec, trim_end_matches,
    trim_start_exec, trim_start_matches, u64_decimal, unicode_lowercase,
};
use crate::types::ProviderKind;
use crate::url_parts::{parse_url, parsed_view, url_parse, ParsedUrl};

verus! {

// ---------------------------------------------------------------------------
// Specifications
// ---------------------------------------------------------------------------

/// The host part of a lower-cased `GITEA_URL`: without a leading `https://`
/// or `http://` and without trailing slashes.
pub open spec fn gitea_host_spec(gitea_url_lower: Seq<char>) -> Seq<char> {
    trim_end_matches(
        trim_start_matches(trim_start_matches(gitea_url_lower, "https://"@), "http://"@),
        "/"@,
    )
}

/// The configured Gitea host matches a lower-cased URL: it is non-empty and
/// occurs in the URL.
pub open spec fn gitea_host_matches(url_lower: Seq<char>, host: Option<Seq<char>>) -> bool {
    match host {
        Some(h) => h.len() > 0 && seq_contains(url_lower, h),
        None => false,
    }
}

/// Provider of a lower-cased remote URL, given the host of the configured
/// Gitea instance (if any).
pub open spec fn classify_spec(url_lower: Seq<char>, host: Option<Seq<char>>) -> ProviderKind {
    if seq_contains(url_lower, "github.com"@) {
        ProviderKind::GitHub
    } else if seq_contains(url_lower, "dev.azure.com"@) || seq_contains(
        url_lower,
        ".visualstudio.com"@,
    ) || seq_contains(url_lower, "ssh.dev.azure.com"@) {
        ProviderKind::AzureDevOps
    } else if seq_contains(url_lower, "/_git/"@) {
        ProviderKind::AzureDevOps
    } else if seq_contains(url_lower, "github."@) {
        ProviderKind::GitHub
    } else if gitea_host_matches(url_lower, host) {
        ProviderKind::Gitea
    } else if seq_contains(url_lower, "gitea."@) || seq_contains(url_lower, "forgejo."@) {
        ProviderKind::Gitea
    } else if seq_contains(url_lower, "codeberg.org"@) {
        ProviderKind::Gitea
    } else {
        ProviderKind::Unknown
    }
}

/// The configured Gitea host for a `GITEA_URL` value.
pub open spec fn configured_host(gitea_url: Option<Seq<char>>) -> Option<Seq<char>> {
    match gitea_url {
        Some(g) => Some(gitea_host_spec(unicode_lowercase(g))),
        None => None,
    }
}

/// Provider of a remote URL.
pub open spec fn detect_spec(url: Seq<char>, gitea_url: Option<Seq<char>>) -> ProviderKind {
    classify_spec(unicode_lowercase(url), configured_host(gitea_url))
}

/// Provider of a lower-cased pull request URL, given the host of the
/// configured Gitea instance (if any).
pub open spec fn classify_pr_spec(pr_url_lower: Seq<char>, host: Option<Seq<char>>) -> ProviderKind {
    let l = pr_url_lower;
    if seq_contains(l, "/pull/"@) && (seq_contains(l, "github.com"@) || seq_contains(
        l,
        "github."@,
    )) {
        ProviderKind::GitHub
    } else if seq_contains(l, "/pullrequest/"@) {
        ProviderKind::AzureDevOps
    } else {
        classify_spec(l, host)
    }
}

/// Provider of a pull request URL.
pub open spec fn detect_pr_spec(pr_url: Seq<char>, gitea_url: Option<Seq<char>>) -> ProviderKind {
    classify_pr_spec(unicode_lowercase(pr_url), configured_host(gitea_url))
}

/// `scheme://host[:port]` with non-HTTP schemes replaced by `https`.
pub open spec fn origin_spec(scheme: Seq<char>, host: Seq<char>, port: Option<u16>) -> Seq<char> {
    let s = if scheme == "http"@ || scheme == "https"@ {
        scheme
    } else {
        "https"@
    };
    let base = s + "://"@ + host;
    match port {
        Some(p) => base + ":"@ + nat_decimal(p as nat),
        None => base,
    }
}

/// The base URL derived from a URL and what the `url` crate parsed of it:
/// `scheme://host[:port]` when there is a host, `https://host` for
/// `git@host:...`, else the URL itself.
pub open spec fn derived_base_spec(
    url: Seq<char>,
    parsed: Option<(Seq<char>, Option<Seq<char>>, Option<u16>, Seq<char>)>,
) -> Seq<char> {
    match parsed {
        Some((scheme, Some(host), port, _)) => origin_spec(scheme, host, port),
        _ => {
            if has_prefix(url, "git@"@) {
                "https://"@ + split_on(url.skip(4), ':')[0]
            } else {
                url
            }
        },
    }
}

/// The base URL of a Gitea instance for a remote or pull request URL.
pub open spec fn base_url_spec(url: Seq<char>, gitea_url: Option<Seq<char>>) -> Seq<char> {
    if gitea_url is Some && gitea_host_matches(
        unicode_lowercase(url),
        configured_host(gitea_url),
    ) {
        trim_end_matches(gitea_url->0, "/"@)
    } else {
        derived_base_spec(url, url_parse(url))
    }
}

// ---------------------------------------------------------------------------
// Executable code
// ---------------------------------------------------------------------------

fn contains_lit(s: &Vec<char>, p: &str) -> (r: bool)
    ensures
        r == seq_contains(s@, p@),
{
    let pv = chars_of(p);
    contains_exec(s, &pv)
}

/// The host part of a lower-cased `GITEA_URL` value.
pub fn gitea_host_from_lowered(gitea_url_lower: &str) -> (r: Vec<char>)
    ensures
        r@ == gitea_host_spec(gitea_url_lower@),
{
    let g = chars_of(gitea_url_lower);
    let https = chars_of("https://");
    let http = chars_of("http://");
    let slash = chars_of("/");
    let a = trim_start_exec(&g, &https);
    let b = trim_start_exec(&a, &http);
    trim_end_exec(&b, &slash)
}

/// Whether the configured host (if any) matches a lower-cased URL.
pub fn host_matches_exec(url_lower: &Vec<char>, host: &Option<Vec<char>>) -> (r: bool)
    ensures
        r == gitea_host_matches(url_lower@, host.deep_view()),
{
    match host {
        Some(h) => {
            assert(h.deep_view() =~= h@);
            h.len() > 0 && contains_exec(url_lower, h)
        },
        None => false,
    }
}

/// Classifies a lower-cased remote URL given the configured Gitea host.
pub fn classify_lowered_url(url_lower: &Vec<char>, host: &Option<Vec<char>>) -> (r: ProviderKind)
    ensures
        r == classify_spec(url_lower@, host.deep_view()),
{
    if contains_lit(url_lower, "github.com") {
        return ProviderKind::GitHub;
    }
    // Azure patterns are checked before GitHub Enterprise to avoid false positives.
    if contains_lit(url_lower, "dev.azure.com") || contains_lit(url_lower, ".visualstudio.com")
        || contains_lit(url_lower, "ssh.dev.azure.com") {
        return ProviderKind::AzureDevOps;
    }
    // `/_git/` is unique to Azure DevOps.
    if contains_lit(url_lower, "/_git/") {
        return ProviderKind::AzureDevOps;
    }
    if contains_lit(url_lower, "github.") {
        return ProviderKind::GitHub;
    }
    if host_matches_exec(url_lower, host) {
        return ProviderKind::Gitea;
    }
    if contains_lit(url_lower, "gitea.") || contains_lit(url_lower, "forgejo.") {
        return ProviderKind::Gitea;
    }
    // Codeberg is a large Forgejo instance.
    if contains_lit(url_lower, "codeberg.org") {
        return ProviderKind::Gitea;
    }
    ProviderKind::Unknown
}

/// The configured Gitea host for an optional `GITEA_URL` value.
fn configured_host_exec(gitea_url: Option<&str>) -> (r: Option<Vec<char>>)
    ensures
        r.deep_view() == configured_host(gitea_url.deep_view()),
{
    match gitea_url {
        Some(g) => {
            let lower = to_lowercase(g);
            let h = gitea_host_from_lowered(lower.as_str());
            let r = Some(h);
            assert(r.deep_view() =~= Some(h@)) by {
                assert(h.deep_view() =~= h@);
            }
            r
        },
        None => None,
    }
}

/// Detects the git hosting provider from a remote URL.
///
/// Supports GitHub.com (`https://github.com/owner/repo`,
/// `git@github.com:owner/repo.git`), GitHub Enterprise (URLs containing
/// `github.`), Azure DevOps (`dev.azure.com`, legacy `*.visualstudio.com`,
/// any `/_git/` path) and Gitea/Forgejo (the instance configured through
/// `gitea_url`, well-known `gitea.*`/`forgejo.*` hosts, `codeberg.org`).
pub fn detect_provider_from_url(url: &str, gitea_url: Option<&str>) -> (r: ProviderKind)
    ensures
        r == detect_spec(url@, gitea_url.deep_view()),
{
    let lower = to_lowercase(url);
    let lv = chars_of(lower.as_str());
    let host = configured_host_exec(gitea_url);
    classify_lowered_url(&lv, &host)
}

/// Detects the git hosting provider from a pull request URL: `/pull/` on a
/// GitHub host, `/pullrequest/` for Azure DevOps, otherwise as for remote
/// URLs (which covers Gitea's `/pulls/`).
pub fn detect_provider_from_pr_url(pr_url: &str, gitea_url: Option<&str>) -> (r: ProviderKind)
    ensures
        r == detect_pr_spec(pr_url@, gitea_url.deep_view()),
{
    let lower = to_lowercase(pr_url);
    let lv = chars_of(lower.as_str());
    let host = configured_host_exec(gitea_url);
    classify_lowered_pr_url(&lv, &host)
}

/// Classifies a lower-cased pull request URL given the configured Gitea host.
pub fn classify_lowered_pr_url(pr_url_lower: &Vec<char>, host: &Option<Vec<char>>) -> (r:
    ProviderKind)
    ensures
        r == classify_pr_spec(pr_url_lower@, host.deep_view()),
{
    // GitHub pattern: /pull/ on github.com or a GitHub Enterprise host.
    if contains_lit(pr_url_lower, "/pull/") {
        if contains_lit(pr_url_lower, "github.com") || contains_lit(pr_url_lower, "github.") {
            return ProviderKind::GitHub;
        }
    }
    // Azure DevOps pattern: /pullrequest/.
    if contains_lit(pr_url_lower, "/pullrequest/") {
        return ProviderKind::AzureDevOps;
    }
    // Fall back to remote URL detection (which covers Gitea's /pulls/).
    classify_lowered_url(pr_url_lower, host)
}

/// `scheme://host[:port]`, forcing `https` for schemes other than HTTP(S).
pub fn origin_from_parts(scheme: &str, host: &str, port: Option<u16>) -> (r: String)
    ensures
        r@ == origin_spec(scheme@, host@, port),
{
    let mut out: Vec<char> = Vec::new();
    let sv = chars_of(scheme);
    let http = chars_of("http");
    let https = chars_of("https");
    let is_http = sv.len() == http.len() && crate::text::occurs_at_exec(&sv, &http, 0);
    let is_https = sv.len() == https.len() && crate::text::occurs_at_exec(&sv, &https, 0);
    proof {
        if is_http {
            assert(sv@ =~= sv@.subrange(0, http@.len() as int));
        }
        if is_https {
            assert(sv@ =~= sv@.subrange(0, https@.len() as int));
        }
        if sv@ == "http"@ {
            assert(sv@.subrange(0, http@.len() as int) =~= sv@);
        }
        if sv@ == "https"@ {
            assert(sv@.subrange(0, https@.len() as int) =~= sv@);
        }
    }
    if is_http || is_https {
        push_all(&mut out, &sv);
    } else {
        push_all(&mut out, &https);
    }
    push_str_chars(&mut out, "://");
    push_str_chars(&mut out, host);
    if let Some(p) = port {
        push_str_chars(&mut out, ":");
        let d = u64_decimal(p as u64);
        push_all(&mut out, &d);
    }
    string_from_chars(&out)
}

/// The configured base URL, without trailing slashes.
pub fn configured_base_url(gitea_url: &str) -> (r: String)
    ensures
        r@ == trim_end_matches(gitea_url@, "/"@),
{
    let gv = chars_of(gitea_url);
    let slash = chars_of("/");
    let t = trim_end_exec(&gv, &slash);
    string_from_chars(&t)
}

/// The base URL derived from a URL and its parse: `scheme://host[:port]`
/// with `https` in place of non-HTTP schemes when there is a host,
/// `https://host` for `git@host:...`, else the URL itself.
pub fn derive_base_url(url: &str, parsed: Option<ParsedUrl>) -> (r: String)
    ensures
        r@ == derived_base_spec(url@, parsed_view(parsed)),
{
    if let Some(p) = parsed {
        if let Some(host) = &p.host {
            return origin_from_parts(p.scheme.as_str(), host.as_str(), p.port);
        }
    }
    let uv = chars_of(url);
    let git_at = chars_of("git@");
    proof {
        reveal_strlit("git@");
    }
    if git_at.len() <= uv.len() && crate::text::occurs_at_exec(&uv, &git_at, 0) {
        let mut rest: Vec<char> = Vec::new();
        let mut i: usize = 4;
        while i < uv.len()
            invariant
                4 <= i <= uv.len(),
                rest@ == uv@.subrange(4, i as int),
            decreases uv.len() - i,
        {
            rest.push(uv[i]);
            assert(uv@.subrange(4, i + 1) =~= uv@.subrange(4, i as int).push(uv@[i as int]));
            i = i + 1;
        }
        assert(rest@ =~= uv@.skip(4));
        let pieces = split_exec(&rest, ':');
        proof {
            crate::text::lemma_split_nonempty(rest@, ':');
            assert(vec_views(pieces@).len() == pieces@.len());
            assert(vec_views(pieces@)[0] == pieces@[0]@);
        }
        let mut out = chars_of("https://");
        push_all(&mut out, &pieces[0]);
        return string_from_chars(&out);
    }
    proof {
        if has_prefix(url@, "git@"@) {
            assert(uv@.subrange(0, git_at@.len() as int) =~= git_at@);
        }
    }
    string_from_chars(&uv)
}

/// The base URL of a Gitea instance for a remote or pull request URL.
///
/// The configured `gitea_url` is used only when the URL matches that
/// instance; otherwise the base is derived from the URL itself, with `https`
/// in place of non-HTTP schemes (`ssh://`, `git://`), and `git@host:...`
/// becomes `https://host`.
pub fn gitea_base_url(url: &str, gitea_url: Option<&str>) -> (r: String)
    ensures
        r@ == base_url_spec(url@, gitea_url.deep_view()),
{
    if let Some(g) = gitea_url {
        let host = configured_host_exec(gitea_url);
        let lower = to_lowercase(url);
        let lv = chars_of(lower.as_str());
        if host_matches_exec(&lv, &host) {
            return configured_base_url(g);
        }
    }
    derive_base_url(url, parse_url(url))
}

// ---------------------------------------------------------------------------
// Laws
// ---------------------------------------------------------------------------

/// Detection does not depend on letter case: URLs with the same lower-case
/// form are detected alike, as remote URLs and as pull request URLs.
pub proof fn law_detection_ignores_case(
    a: Seq<char>,
    b: Seq<char>,
    gitea_url: Option<Seq<char>>,
)
    requires
        unicode_lowercase(a) == unicode_lowercase(b),
    ensures
        detect_spec(a, gitea_url) == detect_spec(b, gitea_url),
        detect_pr_spec(a, gitea_url) == detect_pr_spec(b, gitea_url),
{
}

/// A `GITEA_URL` whose host part is empty (such as `""` or `"https://"`)
/// changes no detection: it does not make every URL match.
pub proof fn law_empty_gitea_url_matches_nothing(url: Seq<char>, gitea_url: Seq<char>)
    requires
        gitea_host_spec(unicode_lowercase(gitea_url)).len() == 0,
    ensures
        detect_spec(url, Some(gitea_url)) == detect_spec(url, None),
        base_url_spec(url, Some(gitea_url)) == base_url_spec(url, None),
{
}

/// `GITEA_URL` can only add Gitea detections: with it, a URL is detected as
/// without it, or as Gitea; GitHub and Azure DevOps detections never change.
pub proof fn law_gitea_url_only_adds_gitea(url: Seq<char>, gitea_url: Seq<char>)
    ensures
        detect_spec(url, Some(gitea_url)) == detect_spec(url, None) || detect_spec(
            url,
            Some(gitea_url),
        ) == ProviderKind::Gitea,
        detect_spec(url, None) == ProviderKind::GitHub ==> detect_spec(url, Some(gitea_url))
            == ProviderKind::GitHub,
        detect_spec(url, None) == ProviderKind::AzureDevOps ==> detect_spec(url, Some(gitea_url))
            == ProviderKind::AzureDevOps,
{
}

/// Azure DevOps patterns take precedence over GitHub Enterprise: a URL with
/// `/_git/` that does not mention `github.com` is Azure DevOps, whatever
/// `GITEA_URL` holds.
pub proof fn law_git_path_is_azure(url: Seq<char>, gitea_url: Option<Seq<char>>)
    requires
        seq_contains(unicode_lowercase(url), "/_git/"@),
        !seq_contains(unicode_lowercase(url), "github.com"@),
    ensures
        detect_spec(url, gitea_url) == ProviderKind::AzureDevOps,
{
}

/// A pull request URL without `/pull/` and `/pullrequest/` is detected as
/// the remote URL would be.
pub proof fn law_pr_detection_falls_back(pr_url: Seq<char>, gitea_url: Option<Seq<char>>)
    requires
        !seq_contains(unicode_lowercase(pr_url), "/pull/"@),
        !seq_contains(unicode_lowercase(pr_url), "/pullrequest/"@),
    ensures
        detect_pr_spec(pr_url, gitea_url) == detect_spec(pr_url, gitea_url),
{
}

/// The configured instance is used only for URLs that match it: otherwise
/// the base URL is what it would be without `GITEA_URL`.
pub proof fn law_base_url_ignores_other_instance(url: Seq<char>, gitea_url: Seq<char>)
    requires
        !gitea_host_matches(unicode_lowercase(url), configured_host(Some(gitea_url))),
    ensures
        base_url_spec(url, Some(gitea_url)) == base_url_spec(url, None),
{
}

/// A base URL derived from a parsed URL with a host always uses `http` or
/// `https` (`ssh://` and `git://` become `https://`).
pub proof fn law_derived_base_is_http(url: Seq<char>)
    requires
        url_parse(url) matches Some((_, Some(_), _, _)),
    ensures
        has_prefix(base_url_spec(url, None), "http://"@) || has_prefix(
            base_url_spec(url, None),
            "https://"@,
        ),
{
    let (scheme, host, port, path) = url_parse(url)->0;
    let h = host->0;
    let s = if scheme == "http"@ || scheme == "https"@ {
        scheme
    } else {
        "https"@
    };
    let base = s + "://"@ + h;
    let full = origin_spec(scheme, h, port);
    reveal_strlit("http");
    reveal_strlit("https");
    reveal_strlit("://");
    reveal_strlit("http://");
    reveal_strlit("https://");
    assert(full == base || full == base + ":"@ + nat_decimal(port->0 as nat));
    assert(full.subrange(0, (s.len() + 3) as int) =~= s + "://"@);
    if s == "http"@ {
        assert(full.subrange(0, 7) =~= "http://"@);
    } else {
        assert(full.subrange(0, 8) =~= "https://"@);
    }
}

/// A URL that holds the host of the configured Gitea instance is Gitea,
/// whatever its form (`https://`, `ssh://`, `git@host:...`), unless it
/// names GitHub or Azure DevOps. As a pull request URL it is Gitea too,
/// unless it has an Azure DevOps `/pullrequest/` path.
pub proof fn law_configured_host_is_gitea(url: Seq<char>, gitea_url: Seq<char>)
    requires
        gitea_host_spec(unicode_lowercase(gitea_url)).len() > 0,
        seq_contains(unicode_lowercase(url), gitea_host_spec(unicode_lowercase(gitea_url))),
        !seq_contains(unicode_lowercase(url), "github.com"@),
        !seq_contains(unicode_lowercase(url), "dev.azure.com"@),
        !seq_contains(unicode_lowercase(url), ".visualstudio.com"@),
        !seq_contains(unicode_lowercase(url), "/_git/"@),
        !seq_contains(unicode_lowercase(url), "github."@),
    ensures
        detect_spec(url, Some(gitea_url)) == ProviderKind::Gitea,
        !seq_contains(unicode_lowercase(url), "/pullrequest/"@) ==> detect_pr_spec(
            url,
            Some(gitea_url),
        ) == ProviderKind::Gitea,
{
    let l = unicode_lowercase(url);
    reveal_strlit("ssh.dev.azure.com");
    reveal_strlit("dev.azure.com");
    assert("ssh.dev.azure.com"@.subrange(4, 17) =~= "dev.azure.com"@);
    if seq_contains(l, "ssh.dev.azure.com"@) {
        crate::text::lemma_contains_inner(l, "ssh.dev.azure.com"@, "dev.azure.com"@, 4);
    }
}

/// The host of a `GITEA_URL` written as `https://host` or `http://host`,
/// with no `/` in the host, is that host.
pub proof fn law_gitea_host_of_plain_url(h: Seq<char>)
    requires
        h.len() > 0,
        forall|i: int| 0 <= i < h.len() ==> h[i] != '/',
    ensures
        gitea_host_spec("https://"@ + h) == h,
        gitea_host_spec("http://"@ + h) == h,
{
    reveal_strlit("https://");
    reveal_strlit("http://");
    reveal_strlit("/");
    reveal_with_fuel(trim_start_matches, 2);
    reveal_with_fuel(trim_end_matches, 2);
    let a = "https://"@ + h;
    let b = "http://"@ + h;
    assert(a.subrange(0, 8) =~= "https://"@);
    assert(a.skip(8) =~= h);
    assert(b.subrange(0, 7) =~= "http://"@);
    assert(b.skip(7) =~= h);
    if h.len() >= 8 {
        assert(h.subrange(0, 8)[6] == h[6]);
    }
    if h.len() >= 7 {
        assert(h.subrange(0, 7)[6] == h[6]);
    }
    if b.len() >= 8 {
        assert(b.subrange(0, 8)[4] == b[4]);
    }
    assert(h.subrange(h.len() - 1, h.len() as int)[0] == h[h.len() - 1]);
}

/// A URL on the host of a `GITEA_URL` of the form `https://host` or
/// `http://host` (lower-case, no `/` in the host) is Gitea unless it names
/// GitHub or Azure DevOps, SSH remotes such as `git@host:team/app.git`
/// included.
pub proof fn law_plain_gitea_url_detects_gitea(url: Seq<char>, gitea_url: Seq<char>, h: Seq<char>)
    requires
        unicode_lowercase(gitea_url) == "https://"@ + h || unicode_lowercase(gitea_url) == "http://"@
            + h,
        h.len() > 0,
        forall|i: int| 0 <= i < h.len() ==> h[i] != '/',
        seq_contains(unicode_lowercase(url), h),
        !seq_contains(unicode_lowercase(url), "github.com"@),
        !seq_contains(unicode_lowercase(url), "dev.azure.com"@),
        !seq_contains(unicode_lowercase(url), ".visualstudio.com"@),
        !seq_contains(unicode_lowercase(url), "/_git/"@),
        !seq_contains(unicode_lowercase(url), "github."@),
    ensures
        detect_spec(url, Some(gitea_url)) == ProviderKind::Gitea,
{
    law_gitea_host_of_plain_url(h);
    law_configured_host_is_gitea(url, gitea_url);
}

/// For a URL of the configured instance the base URL is `GITEA_URL` itself,
/// character for character (scheme and port kept), with only its trailing
/// slashes removed.
pub proof fn law_configured_base_url(url: Seq<char>, gitea_url: Seq<char>)
    requires
        gitea_host_spec(unicode_lowercase(gitea_url)).len() > 0,
        seq_contains(unicode_lowercase(url), gitea_host_spec(unicode_lowercase(gitea_url))),
    ensures
        base_url_spec(url, Some(gitea_url)) == trim_end_matches(gitea_url, "/"@),
        ({
            let r = base_url_spec(url, Some(gitea_url));
            &&& r.len() <= gitea_url.len()
            &&& gitea_url.subrange(0, r.len() as int) == r
            &&& forall|i: int| r.len() <= i < gitea_url.len() ==> gitea_url[i] == '/'
            &&& (r.len() == 0 || r.last() != '/')
        }),
{
    reveal_strlit("/");
    assert("/"@ =~= seq!['/']);
    crate::text::lemma_trim_end_char(gitea_url, '/');
}

/// The detection rules in order of precedence: a URL with `github.com` is
/// GitHub; else Azure DevOps hosts and `/_git/` paths are Azure DevOps; else
/// other `github.` hosts are GitHub Enterprise; else the configured
/// instance, `gitea.` and `forgejo.` hosts and `codeberg.org` are Gitea;
/// anything else is unknown.
pub proof fn law_detection_rules(url: Seq<char>, gitea_url: Option<Seq<char>>)
    ensures
        ({
            let l = unicode_lowercase(url);
            let on_instance = match gitea_url {
                Some(g) => gitea_host_spec(unicode_lowercase(g)).len() > 0 && seq_contains(
                    l,
                    gitea_host_spec(unicode_lowercase(g)),
                ),
                None => false,
            };
            let azure = seq_contains(l, "dev.azure.com"@) || seq_contains(l, ".visualstudio.com"@)
                || seq_contains(l, "/_git/"@);
            let gitea_name = seq_contains(l, "gitea."@) || seq_contains(l, "forgejo."@)
                || seq_contains(l, "codeberg.org"@);
            let k = detect_spec(url, gitea_url);
            &&& seq_contains(l, "github.com"@) ==> k == ProviderKind::GitHub
            &&& !seq_contains(l, "github.com"@) && azure ==> k == ProviderKind::AzureDevOps
            &&& !seq_contains(l, "github.com"@) && !azure && seq_contains(l, "github."@) ==> k
                == ProviderKind::GitHub
            &&& !seq_contains(l, "github.com"@) && !azure && !seq_contains(l, "github."@) && (
            on_instance || gitea_name) ==> k == ProviderKind::Gitea
            &&& !seq_contains(l, "github.com"@) && !azure && !seq_contains(l, "github."@)
                && !on_instance && !gitea_name ==> k == ProviderKind::Unknown
        }),
{
    let l = unicode_lowercase(url);
    reveal_strlit("ssh.dev.azure.com");
    reveal_strlit("dev.azure.com");
    assert("ssh.dev.azure.com"@.subrange(4, 17) =~= "dev.azure.com"@);
    if seq_contains(l, "ssh.dev.azure.com"@) {
        crate::text::lemma_contains_inner(l, "ssh.dev.azure.com"@, "dev.azure.com"@, 4);
    }
}

/// Pull request URLs: `/pull/` on a `github.com` or `github.` host is
/// GitHub; otherwise `/pullrequest/` is Azure DevOps.
pub proof fn law_pr_detection_rules(pr_url: Seq<char>, gitea_url: Option<Seq<char>>)
    ensures
        ({
            let l = unicode_lowercase(pr_url);
            let github_pull = seq_contains(l, "/pull/"@) && (seq_contains(l, "github.com"@)
                || seq_contains(l, "github."@));
            &&& github_pull ==> detect_pr_spec(pr_url, gitea_url) == ProviderKind::GitHub
            &&& !github_pull && seq_contains(l, "/pullrequest/"@) ==> detect_pr_spec(
                pr_url,
                gitea_url,
            ) == ProviderKind::AzureDevOps
        }),
{
}

/// Without a matching instance, the base URL of a URL that the `url` crate
/// parses with a host is `scheme://host`, followed by `:port` exactly when
/// there is an explicit port, with `https` in place of schemes other than
/// `http` and `https`.
pub proof fn law_derived_base_url(
    url: Seq<char>,
    scheme: Seq<char>,
    host: Seq<char>,
    port: Option<u16>,
    path: Seq<char>,
)
    requires
        url_parse(url) == Some((scheme, Some(host), port, path)),
    ensures
        ({
            let s = if scheme == "http"@ || scheme == "https"@ {
                scheme
            } else {
                "https"@
            };
            base_url_spec(url, None) == match port {
                Some(p) => s + "://"@ + host + ":"@ + nat_decimal(p as nat),
                None => s + "://"@ + host,
            }
        }),
{
}

/// A `git@host:path` remote that the `url` crate does not read a host
/// from has the base URL `https://host` when no instance matches.
pub proof fn law_git_at_base_url(url: Seq<char>, host: Seq<char>, rest: Seq<char>)
    requires
        url == "git@"@ + host + ":"@ + rest,
        forall|i: int| 0 <= i < host.len() ==> host[i] != ':',
        !(url_parse(url) matches Some((_, Some(_), _, _))),
    ensures
        base_url_spec(url, None) == "https://"@ + host,
{
    reveal_strlit("git@");
    reveal_strlit(":");
    assert(url.subrange(0, 4) =~= "git@"@);
    let t = url.skip(4);
    assert(t =~= host + ":"@ + rest);
    assert(t[host.len() as int] == ':');
    crate::text::lemma_split_first_piece(t, ':', host.len() as int);
    assert(t.take(host.len() as int) =~= host);
}

} // verus!
