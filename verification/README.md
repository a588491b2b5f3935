# git_host

Verified core of a git hosting layer:

- `src/detection.rs` — which hosting service (GitHub, GitHub Enterprise,
  Azure DevOps, Gitea/Forgejo) a remote or pull request URL belongs to, and
  the base URL of a Gitea instance. The `GITEA_URL` setting is an argument.
- `src/gitea/api.rs` — the Gitea REST API v1 without its transport: repository
  and pull request URL parsing, endpoint URLs, request payloads, status-code
  errors, pull request conversion and selection, and the merge of
  conversation and review comments into one chronological list.
- `src/gitea/mod.rs` — provider-level decisions: error mapping, cross-fork
  refusal, pull request targets.
- `src/executors/mistral_vibe.rs` — configuration of the Mistral Vibe agent.
- `src/text.rs`, `src/url_parts.rs`, `src/types.rs` — string helpers with
  exact specifications, the parts of a parsed URL, shared types.

`app/` holds what performs I/O: environment variables, HTTP requests with
retries, JSON forms of the API types, file-system probes, the API fallback
route.
