use feverthoth::context::{ContextAssembler, ContextKind, SessionMemory};
use feverthoth::permissions::{PermissionClass, PermissionManager, PermissionPolicy, RiskTier};
use feverthoth::routing::{LatencyMode, ModelRouter, ModelRoutingConfig, TaskType};

#[test]
fn default_policies() {
    let pm = PermissionManager::new();
    assert_eq!(pm.check(PermissionClass::ReadWorkspace), PermissionPolicy::Allowed);
    assert_eq!(pm.check(PermissionClass::UploadRawScreenshot), PermissionPolicy::Denied);
    assert_eq!(pm.check(PermissionClass::WriteWorkspace), PermissionPolicy::RequiresApproval);
    assert_eq!(pm.check(PermissionClass::PushChanges), PermissionPolicy::RequiresApproval);
}

#[test]
fn policy_update_is_read_back() {
    let mut pm = PermissionManager::default();
    pm.grant(PermissionClass::RunShellCommand);
    assert_eq!(pm.check(PermissionClass::RunShellCommand), PermissionPolicy::Allowed);
    pm.deny(PermissionClass::RunShellCommand);
    assert_eq!(pm.check(PermissionClass::RunShellCommand), PermissionPolicy::Denied);
    pm.set_policy(PermissionClass::CommitChanges, PermissionPolicy::Allowed);
    assert_eq!(pm.check(PermissionClass::CommitChanges), PermissionPolicy::Allowed);
    assert_eq!(pm.check(PermissionClass::ReadWorkspace), PermissionPolicy::Allowed);
    assert_eq!(pm.check(PermissionClass::UploadRawScreenshot), PermissionPolicy::Denied);
}

#[test]
fn all_classes_in_order() {
    let all = PermissionClass::all();
    assert_eq!(all.len(), 8);
    assert_eq!(all[0], PermissionClass::ReadWorkspace);
    assert_eq!(all[7], PermissionClass::PushChanges);
}

#[test]
fn risk_tiers() {
    assert_eq!(RiskTier::from_action(1, false, false, false, false), RiskTier::Low);
    assert_eq!(RiskTier::from_action(0, false, false, false, false), RiskTier::Low);
    assert_eq!(RiskTier::from_action(2, false, false, false, false), RiskTier::Medium);
    assert_eq!(RiskTier::from_action(1, false, true, false, false), RiskTier::Medium);
    assert_eq!(RiskTier::from_action(1, true, false, false, false), RiskTier::High);
    assert_eq!(RiskTier::from_action(5, false, true, true, false), RiskTier::High);
    assert_eq!(RiskTier::from_action(1, false, false, false, true), RiskTier::High);
}

#[test]
fn describe_action_names_class() {
    let d = PermissionManager::describe_action(
        PermissionClass::SendToCloudProvider,
        "send prompt",
        "needs a large model",
        true,
    );
    assert_eq!(d.action, "SendToCloudProvider");
    assert_eq!(d.description, "send prompt");
    assert_eq!(d.reason, "needs a large model");
    assert!(d.data_leaves_machine);
}

fn router(config: ModelRoutingConfig) -> ModelRouter {
    ModelRouter::new(config, PermissionManager::new())
}

#[test]
fn pinned_provider_overrides_everything() {
    let config = ModelRoutingConfig {
        pinned_provider: Some("openai".to_string()),
        pinned_model: Some("gpt-4o".to_string()),
        prefer_local: true,
        latency_mode: LatencyMode::Fast,
    };
    let d = router(config).route(&TaskType::VisionSummary, true, false);
    assert_eq!(d.provider_id, "openai");
    assert_eq!(d.model_id, "gpt-4o");
    assert!(d.data_leaves_machine);
    let local = ModelRoutingConfig {
        pinned_provider: Some("ollama".to_string()),
        pinned_model: Some("mistral".to_string()),
        prefer_local: false,
        latency_mode: LatencyMode::Quality,
    };
    let d2 = router(local).route(&TaskType::Chat, false, false);
    assert_eq!(d2.provider_id, "ollama");
    assert!(!d2.data_leaves_machine);
}

#[test]
fn vision_stays_local_by_default() {
    let d = router(ModelRoutingConfig::default()).route(&TaskType::Chat, true, false);
    assert_eq!(d.provider_id, "ollama");
    assert_eq!(d.model_id, "qwen2.5-vl");
    assert!(!d.data_leaves_machine);
}

#[test]
fn chat_and_plans_follow_prefer_local() {
    let d = router(ModelRoutingConfig::default()).route(&TaskType::Chat, false, false);
    assert_eq!(d.provider_id, "ollama");
    assert_eq!(d.model_id, "llama3.2");
    let cloud = ModelRoutingConfig {
        pinned_provider: None,
        pinned_model: None,
        prefer_local: false,
        latency_mode: LatencyMode::Balanced,
    };
    let r = router(cloud);
    let c = r.route(&TaskType::Chat, false, false);
    assert_eq!(c.provider_id, "openai");
    assert!(c.data_leaves_machine);
    let p = r.route(&TaskType::CodingPlan, false, false);
    assert_eq!(p.provider_id, "zai");
    assert_eq!(p.model_id, "coding-plan");
    let b = r.route(&TaskType::BroadAccess, false, false);
    assert_eq!(b.provider_id, "openrouter");
    let m = r.route(&TaskType::BrowserInspection, false, false);
    assert_eq!(m.provider_id, "mcp");
    assert_eq!(m.model_id, "playwright");
}

#[test]
fn review_depends_on_latency_mode() {
    let quality = ModelRoutingConfig {
        pinned_provider: None,
        pinned_model: None,
        prefer_local: true,
        latency_mode: LatencyMode::Quality,
    };
    let d = router(quality).route(&TaskType::Review, false, false);
    assert_eq!(d.provider_id, "openai");
    let fast = ModelRoutingConfig {
        pinned_provider: None,
        pinned_model: None,
        prefer_local: true,
        latency_mode: LatencyMode::Fast,
    };
    let d2 = router(fast).route(&TaskType::Review, false, false);
    assert_eq!(d2.provider_id, "ollama");
}

#[test]
fn vision_with_cloud_denied_stays_local() {
    let mut perms = PermissionManager::new();
    perms.deny(PermissionClass::SendToCloudProvider);
    let config = ModelRoutingConfig {
        pinned_provider: None,
        pinned_model: None,
        prefer_local: false,
        latency_mode: LatencyMode::Balanced,
    };
    let d = ModelRouter::new(config, perms).route(&TaskType::BroadAccess, true, false);
    assert_eq!(d.provider_id, "ollama");
    assert_eq!(d.model_id, "qwen2.5-vl");
}

#[test]
fn memory_records_each_item_once() {
    let mut m = SessionMemory::new();
    m.record_preference("tabs".to_string());
    m.record_preference("tabs".to_string());
    m.record_convention("snake_case".to_string());
    m.record_tech("rust".to_string());
    m.record_tech("rust".to_string());
    assert_eq!(m.user_preferences, vec!["tabs".to_string()]);
    assert_eq!(m.repo_conventions, vec!["snake_case".to_string()]);
    assert_eq!(m.tech_stack, vec!["rust".to_string()]);
}

#[test]
fn assemble_orders_by_priority() {
    let mut a = ContextAssembler::new();
    a.add_source(ContextKind::GitDiff, "diff".to_string());
    a.add_source(ContextKind::UserRequest, "please fix".to_string());
    a.add_source(ContextKind::WorkspaceSummary, "a workspace".to_string());
    let ctx = a.assemble(10_000);
    assert_eq!(ctx.sources.len(), 3);
    assert_eq!(ctx.sources[0].kind, ContextKind::UserRequest);
    assert_eq!(ctx.sources[0].priority, 10);
    assert_eq!(ctx.sources[1].kind, ContextKind::WorkspaceSummary);
    assert_eq!(ctx.sources[2].kind, ContextKind::GitDiff);
    assert_eq!(ctx.estimated_tokens, 10 / 4 + 11 / 4 + 4 / 4);
}

#[test]
fn assemble_truncates_lowest_priority_first() {
    let mut a = ContextAssembler::new();
    a.add_source(ContextKind::UserRequest, "x".repeat(40));
    a.add_source(ContextKind::Diagnostics, "y".repeat(400));
    let ctx = a.assemble(20);
    assert_eq!(ctx.sources.len(), 1);
    assert_eq!(ctx.sources[0].kind, ContextKind::UserRequest);
    assert_eq!(ctx.estimated_tokens, 10);
    let tiny = a.assemble(0);
    assert_eq!(tiny.sources.len(), 1);
}

#[test]
fn assemble_separates_facts_and_assumptions() {
    let mut a = ContextAssembler::new();
    a.memory_mut().record_preference("no unwrap".to_string());
    a.add_source(
        ContextKind::ExplicitConstraints,
        "keep the API\nassume: tests pass\n  \nassuming linux".to_string(),
    );
    let ctx = a.assemble(1000);
    assert_eq!(
        ctx.facts,
        vec!["[user preference] no unwrap".to_string(), "keep the API".to_string()]
    );
    assert_eq!(
        ctx.assumptions,
        vec!["assume: tests pass".to_string(), "assuming linux".to_string()]
    );
}

#[test]
fn later_source_of_same_kind_replaces_earlier() {
    let mut a = ContextAssembler::new();
    a.add_source(ContextKind::FileSnippet, "old".to_string());
    a.add_source(ContextKind::FileSnippet, "new".to_string());
    let ctx = a.assemble(1000);
    assert_eq!(ctx.sources.len(), 1);
    assert_eq!(ctx.sources[0].content, "new");
}

#[test]
fn pinned_provider_alone_overrides() {
    let config = ModelRoutingConfig {
        pinned_provider: Some("openai".to_string()),
        pinned_model: None,
        prefer_local: true,
        latency_mode: LatencyMode::Balanced,
    };
    let d = router(config).route(&TaskType::Chat, true, false);
    assert_eq!(d.provider_id, "openai");
    assert_eq!(d.model_id, "gpt-4o");
    assert_eq!(d.reason, "User-pinned provider override");
    assert!(d.data_leaves_machine);
    let odd = ModelRoutingConfig {
        pinned_provider: Some("acme".to_string()),
        pinned_model: None,
        prefer_local: false,
        latency_mode: LatencyMode::Fast,
    };
    assert_eq!(router(odd).route(&TaskType::Review, false, false).model_id, "default");
}

#[test]
fn vision_needs_explicit_cloud_permission() {
    let config = ModelRoutingConfig {
        pinned_provider: None,
        pinned_model: None,
        prefer_local: false,
        latency_mode: LatencyMode::Balanced,
    };
    // Cloud sending defaults to RequiresApproval: the image stays local.
    let d = ModelRouter::new(config.duplicate(), PermissionManager::new()).route(&TaskType::Chat, true, false);
    assert_eq!(d.provider_id, "ollama");
    assert!(!d.data_leaves_machine);
    let mut allowed = PermissionManager::new();
    allowed.grant(PermissionClass::SendToCloudProvider);
    let c = ModelRouter::new(config, allowed).route(&TaskType::Chat, true, false);
    assert_eq!(c.provider_id, "openai");
}
