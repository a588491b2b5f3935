//! The Mistral Vibe coding agent (`vibe-acp`), driven over the Agent Client
//! Protocol: its configuration and the decisions made from it.

use std::sync::Arc;

use vstd::prelude::*;

use crate::text::chars_of;
use crate::text::string_from_chars;

verus! {

/// The command that starts the agent.
pub const VIBE_COMMAND: &'static str = "vibe-acp";

/// The namespace under which agent sessions are stored.
pub const SESSION_NAMESPACE: &'static str = "vibe_sessions";

/// Approves or denies the tool calls of a coding agent; implemented by the
/// host application.
pub trait ExecutorApprovalService {
}

/// `Option::<Arc<_>>::clone`. Trusted: the clone points at the same
/// approval service (`Arc::clone` shares the allocation).
#[verifier::external_body]
fn clone_approvals(a: &Option<Arc<dyn ExecutorApprovalService>>) -> (r: Option<
    Arc<dyn ExecutorApprovalService>,
>)
    ensures
        r == *a,
{
    a.clone()
}

/// Stores `value` in `slot`.
fn put_into<T>(value: T, slot: &mut Option<T>)
    ensures
        *final(slot) == Some(value),
{
    *slot = Some(value);
}

/// Text appended to every prompt.
#[derive(Debug, PartialEq)]
pub struct AppendPrompt(pub Option<String>);

/// User overrides of the agent command line.
#[derive(Debug, PartialEq)]
pub struct CmdOverrides {
    pub base_command_override: Option<String>,
    pub additional_params: Option<Vec<String>>,
}

/// Permission policy of a coding agent.
#[derive(Debug, Clone, Copy, PartialEq, Eq, Structural)]
pub enum PermissionPolicy {
    Auto,
    Supervised,
}

/// The coding agents.
#[derive(Debug, Clone, Copy, PartialEq, Eq, Structural)]
pub enum BaseCodingAgent {
    MistralVibe,
}

/// Whether a coding agent is installed.
#[derive(Debug, Clone, Copy, PartialEq, Eq, Structural)]
pub enum AvailabilityInfo {
    InstallationFound,
    NotFound,
}

/// Executor settings chosen by the user.
#[derive(Debug)]
pub struct ExecutorConfig {
    pub executor: BaseCodingAgent,
    pub variant: Option<String>,
    pub model_id: Option<String>,
    pub agent_id: Option<String>,
    pub reasoning_id: Option<String>,
    pub permission_policy: Option<PermissionPolicy>,
}

/// Errors while building an agent command line.
#[derive(Debug)]
pub enum CommandBuildError {
    InvalidBase(String),
    EmptyCommand,
}

/// An agent command line: a base command and optional extra parameters.
#[derive(Debug)]
pub struct CommandBuilder {
    pub base: String,
    pub params: Option<Vec<String>>,
}

impl CommandBuilder {
    /// A command line with the given base command and no parameters.
    pub fn new(base: &str) -> (r: CommandBuilder)
        ensures
            r.base@ == base@,
            r.params is None,
    {
        CommandBuilder { base: string_from_chars(&chars_of(base)), params: None }
    }

    /// The same command line with another base command.
    pub fn override_base(self, base: String) -> (r: CommandBuilder)
        ensures
            r.base == base,
            r.params == self.params,
    {
        CommandBuilder { base, params: self.params }
    }

    /// The same command line with `more` appended to its parameters.
    pub fn extend_params(self, more: Vec<String>) -> (r: CommandBuilder)
        ensures
            r.base == self.base,
            r.params is Some,
            r.params->0@ == (match self.params {
                Some(p) => p@,
                None => Seq::<String>::empty(),
            }) + more@,
    {
        let mut params = match self.params {
            Some(p) => p,
            None => Vec::new(),
        };
        let ghost start = params@;
        let mut more = more;
        let ghost added = more@;
        let mut i: usize = 0;
        let initial_len = more.len();
        assert(added.len() == initial_len);
        while more.len() > 0
            invariant
                i <= added.len(),
                added.len() <= usize::MAX,
                more@ == added.skip(i as int),
                params@ == start + added.take(i as int),
            decreases more.len(),
        {
            let x = more.remove(0);
            assert(added.take(i + 1) =~= added.take(i as int).push(x));
            params.push(x);
            assert(more@ =~= added.skip(i + 1));
            i = i + 1;
        }
        assert(added.take(i as int) =~= added);
        CommandBuilder { base: self.base, params: Some(params) }
    }
}

/// The base command after the overrides: the override when there is one.
pub open spec fn overridden_base(base: String, overrides: CmdOverrides) -> String {
    match overrides.base_command_override {
        Some(b) => b,
        None => base,
    }
}

/// Applies user overrides to a command line: the base command is replaced
/// when an override is given, extra parameters are appended.
pub fn apply_overrides(builder: CommandBuilder, overrides: &CmdOverrides) -> (r: Result<
    CommandBuilder,
    CommandBuildError,
>)
    ensures
        r is Ok,
        r->Ok_0.base == overridden_base(builder.base, *overrides),
        overrides.additional_params is None ==> r->Ok_0.params == builder.params,
        overrides.additional_params is Some ==> (r->Ok_0.params is Some && r->Ok_0.params->0@ == (
        match builder.params {
            Some(p) => p@,
            None => Seq::<String>::empty(),
        }) + overrides.additional_params->0@),
{
    let builder = match &overrides.base_command_override {
        Some(base) => builder.override_base(base.clone()),
        None => builder,
    };
    match &overrides.additional_params {
        Some(extra) => Ok(builder.extend_params(clone_strings(extra))),
        None => Ok(builder),
    }
}

/// A copy of a list of strings.
fn clone_strings(v: &Vec<String>) -> (r: Vec<String>)
    ensures
        r@ == v@,
{
    let mut r: Vec<String> = Vec::new();
    let mut i: usize = 0;
    while i < v.len()
        invariant
            i <= v.len(),
            r@ == v@.take(i as int),
        decreases v.len() - i,
    {
        r.push(v[i].clone());
        assert(v@.take(i + 1) =~= v@.take(i as int).push(v@[i as int]));
        i = i + 1;
    }
    assert(v@.take(v.len() as int) =~= v@);
    r
}

/// An Agent Client Protocol harness: the session namespace and the model to
/// request, if any.
#[derive(Debug)]
pub struct AcpAgentHarness {
    pub session_namespace: String,
    pub model: Option<String>,
}

impl AcpAgentHarness {
    /// A harness storing its sessions under `namespace`, with no model.
    pub fn with_session_namespace(namespace: &str) -> (r: AcpAgentHarness)
        ensures
            r.session_namespace@ == namespace@,
            r.model is None,
    {
        AcpAgentHarness { session_namespace: string_from_chars(&chars_of(namespace)), model: None }
    }

    /// The same harness requesting `model`.
    pub fn with_model(self, model: &str) -> (r: AcpAgentHarness)
        ensures
            r.session_namespace == self.session_namespace,
            r.model is Some,
            r.model->0@ == model@,
    {
        AcpAgentHarness {
            session_namespace: self.session_namespace,
            model: Some(string_from_chars(&chars_of(model))),
        }
    }
}

/// The Mistral Vibe executor configuration.
pub struct MistralVibe {
    pub append_prompt: AppendPrompt,
    pub model: Option<String>,
    pub auto_approve: Option<bool>,
    pub cmd: CmdOverrides,
    pub approvals: Option<Arc<dyn ExecutorApprovalService>>,
}

impl MistralVibe {
    /// Whether tool calls are approved automatically (`auto_approve`, off by
    /// default).
    pub open spec fn auto_approves(&self) -> bool {
        self.auto_approve == Some(true)
    }

    /// The permission policy this configuration presents.
    pub open spec fn preset_policy(&self) -> PermissionPolicy {
        if self.auto_approves() {
            PermissionPolicy::Auto
        } else {
            PermissionPolicy::Supervised
        }
    }

    /// `after` is `before` with the model and permission policy of `config`
    /// taken over where `config` sets them.
    pub open spec fn overrides_applied(
        before: MistralVibe,
        after: MistralVibe,
        config: ExecutorConfig,
    ) -> bool {
        &&& after.model == (match config.model_id {
            Some(m) => Some(m),
            None => before.model,
        })
        &&& after.auto_approve == (match config.permission_policy {
            Some(p) => Some(p == PermissionPolicy::Auto),
            None => before.auto_approve,
        })
        &&& after.append_prompt == before.append_prompt
        &&& after.cmd == before.cmd
        &&& after.approvals == before.approvals
    }

    /// The approval service to use: none when tool calls are approved
    /// automatically, else the configured one.
    pub fn effective_approvals(&self) -> (r: Option<Arc<dyn ExecutorApprovalService>>)
        ensures
            self.auto_approves() ==> r is None,
            !self.auto_approves() ==> r == self.approvals,
    {
        let auto = match self.auto_approve {
            Some(b) => b,
            None => false,
        };
        if auto {
            None
        } else {
            clone_approvals(&self.approvals)
        }
    }
}

impl MistralVibe {
    /// The command line: `vibe-acp` with the user's overrides applied.
    pub fn build_command_builder(&self) -> (r: Result<CommandBuilder, CommandBuildError>)
        ensures
            r is Ok,
            r->Ok_0.base@ == (match self.cmd.base_command_override {
                Some(b) => b@,
                None => VIBE_COMMAND@,
            }),
            self.cmd.additional_params is None ==> r->Ok_0.params is None,
            self.cmd.additional_params is Some ==> (r->Ok_0.params is Some
                && r->Ok_0.params->0@ == self.cmd.additional_params->0@),
    {
        let builder = CommandBuilder::new(VIBE_COMMAND);
        let r = apply_overrides(builder, &self.cmd);
        proof {
            if self.cmd.additional_params is Some {
                assert(Seq::<String>::empty() + self.cmd.additional_params->0@
                    =~= self.cmd.additional_params->0@);
            }
        }
        r
    }

    /// The harness: sessions under `vibe_sessions`, requesting the configured
    /// model if there is one.
    pub fn build_harness(&self) -> (h: AcpAgentHarness)
        ensures
            h.session_namespace@ == SESSION_NAMESPACE@,
            self.model is None ==> h.model is None,
            self.model is Some ==> (h.model is Some && h.model->0@ == self.model->0@),
    {
        let mut harness = AcpAgentHarness::with_session_namespace(SESSION_NAMESPACE);
        if let Some(model) = &self.model {
            harness = harness.with_model(model.as_str());
        }
        harness
    }

    /// Takes over the model and permission policy of an executor
    /// configuration, where it sets them.
    pub fn apply_overrides(&mut self, executor_config: &ExecutorConfig)
        ensures
            MistralVibe::overrides_applied(*old(self), *final(self), *executor_config),
    {
        if let Some(model_id) = &executor_config.model_id {
            self.model = Some(model_id.clone());
        }
        if let Some(permission_policy) = executor_config.permission_policy {
            self.auto_approve = Some(
                match permission_policy {
                    PermissionPolicy::Auto => true,
                    _ => false,
                },
            );
        }
    }

    /// Installs the approval service.
    pub fn use_approvals(&mut self, approvals: Arc<dyn ExecutorApprovalService>)
        ensures
            final(self).approvals == Some(approvals),
            final(self).model == old(self).model,
            final(self).auto_approve == old(self).auto_approve,
            final(self).append_prompt == old(self).append_prompt,
            final(self).cmd == old(self).cmd,
    {
        put_into(approvals, &mut self.approvals);
    }

    /// The preset options of this configuration: the Mistral Vibe executor,
    /// its model, and `Auto` or `Supervised` permissions.
    pub fn get_preset_options(&self) -> (c: ExecutorConfig)
        ensures
            c.executor == BaseCodingAgent::MistralVibe,
            c.variant is None,
            c.model_id == self.model,
            c.agent_id is None,
            c.reasoning_id is None,
            c.permission_policy == Some(self.preset_policy()),
    {
        let model_id = match &self.model {
            Some(m) => Some(m.clone()),
            None => None,
        };
        let auto = match self.auto_approve {
            Some(b) => b,
            None => false,
        };
        ExecutorConfig {
            executor: BaseCodingAgent::MistralVibe,
            variant: None,
            model_id,
            agent_id: None,
            reasoning_id: None,
            permission_policy: Some(
                if auto {
                    PermissionPolicy::Auto
                } else {
                    PermissionPolicy::Supervised
                },
            ),
        }
    }

    /// Availability from what was found on disk: installed when the MCP
    /// configuration or the installation directory exists.
    pub fn availability_from(mcp_config_found: bool, installation_indicator_found: bool) -> (r:
        AvailabilityInfo)
        ensures
            r == (if mcp_config_found || installation_indicator_found {
                AvailabilityInfo::InstallationFound
            } else {
                AvailabilityInfo::NotFound
            }),
    {
        if mcp_config_found || installation_indicator_found {
            AvailabilityInfo::InstallationFound
        } else {
            AvailabilityInfo::NotFound
        }
    }
}

/// Applying a configuration and then asking for the preset options gives
/// back the configuration's model and permission policy where it sets them;
/// an `Auto` policy turns the approval service off.
pub proof fn law_overrides_then_preset(
    before: MistralVibe,
    after: MistralVibe,
    config: ExecutorConfig,
)
    requires
        MistralVibe::overrides_applied(before, after, config),
    ensures
        config.model_id is Some ==> after.model == config.model_id,
        config.model_id is None ==> after.model == before.model,
        config.permission_policy is Some ==> Some(after.preset_policy())
            == config.permission_policy,
        config.permission_policy is None ==> after.preset_policy() == before.preset_policy(),
        config.permission_policy == Some(PermissionPolicy::Auto) ==> after.auto_approves(),
{
}

} // verus!
