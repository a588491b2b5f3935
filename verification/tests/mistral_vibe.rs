use std::sync::Arc;

use git_host::executors::mistral_vibe::{
    apply_overrides, AppendPrompt, AvailabilityInfo, BaseCodingAgent, CmdOverrides,
    CommandBuilder, ExecutorApprovalService, ExecutorConfig, MistralVibe, PermissionPolicy,
};

struct Approver;
impl ExecutorApprovalService for Approver {}

fn vibe(model: Option<&str>, auto_approve: Option<bool>) -> MistralVibe {
    MistralVibe {
        append_prompt: AppendPrompt(None),
        model: model.map(|m| m.to_string()),
        auto_approve,
        cmd: CmdOverrides { base_command_override: None, additional_params: None },
        approvals: Some(Arc::new(Approver)),
    }
}

fn config(model: Option<&str>, policy: Option<PermissionPolicy>) -> ExecutorConfig {
    ExecutorConfig {
        executor: BaseCodingAgent::MistralVibe,
        variant: None,
        model_id: model.map(|m| m.to_string()),
        agent_id: None,
        reasoning_id: None,
        permission_policy: policy,
    }
}

#[test]
fn approvals_off_when_auto_approving() {
    assert!(vibe(None, Some(true)).effective_approvals().is_none());
    assert!(vibe(None, Some(false)).effective_approvals().is_some());
    assert!(vibe(None, None).effective_approvals().is_some());
}

#[test]
fn harness_and_command() {
    let h = vibe(Some("devstral"), None).build_harness();
    assert_eq!(h.session_namespace, "vibe_sessions");
    assert_eq!(h.model.as_deref(), Some("devstral"));
    assert!(vibe(None, None).build_harness().model.is_none());

    let b = vibe(None, None).build_command_builder().unwrap();
    assert_eq!(b.base, "vibe-acp");
    assert!(b.params.is_none());

    let mut v = vibe(None, None);
    v.cmd = CmdOverrides {
        base_command_override: Some("npx vibe-acp".to_string()),
        additional_params: Some(vec!["--verbose".to_string()]),
    };
    let b = v.build_command_builder().unwrap();
    assert_eq!(b.base, "npx vibe-acp");
    assert_eq!(b.params, Some(vec!["--verbose".to_string()]));
}

#[test]
fn overrides_extend_existing_params() {
    let b = CommandBuilder { base: "x".to_string(), params: Some(vec!["-a".to_string()]) };
    let o = CmdOverrides { base_command_override: None, additional_params: Some(vec!["-b".to_string()]) };
    let b = apply_overrides(b, &o).unwrap();
    assert_eq!(b.base, "x");
    assert_eq!(b.params, Some(vec!["-a".to_string(), "-b".to_string()]));
}

#[test]
fn overrides_then_preset_round_trip() {
    let mut v = vibe(Some("old"), Some(false));
    v.apply_overrides(&config(Some("new"), Some(PermissionPolicy::Auto)));
    let preset = v.get_preset_options();
    assert_eq!(preset.model_id.as_deref(), Some("new"));
    assert_eq!(preset.permission_policy, Some(PermissionPolicy::Auto));
    assert_eq!(preset.executor, BaseCodingAgent::MistralVibe);
    assert!(v.effective_approvals().is_none());

    v.apply_overrides(&config(None, Some(PermissionPolicy::Supervised)));
    let preset = v.get_preset_options();
    assert_eq!(preset.model_id.as_deref(), Some("new"));
    assert_eq!(preset.permission_policy, Some(PermissionPolicy::Supervised));

    v.apply_overrides(&config(None, None));
    assert_eq!(v.auto_approve, Some(false));
}

#[test]
fn use_approvals_installs_service() {
    let mut v = vibe(None, None);
    v.approvals = None;
    assert!(v.effective_approvals().is_none());
    v.use_approvals(Arc::new(Approver));
    assert!(v.effective_approvals().is_some());
}

#[test]
fn availability() {
    assert_eq!(MistralVibe::availability_from(true, false), AvailabilityInfo::InstallationFound);
    assert_eq!(MistralVibe::availability_from(false, true), AvailabilityInfo::InstallationFound);
    assert_eq!(MistralVibe::availability_from(false, false), AvailabilityInfo::NotFound);
}
