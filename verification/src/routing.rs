//! Model routing policy: which provider and model handle each task.
//!
//! Inputs: task type, privacy policy, vision need, user-pinned preferences
//! and the latency/quality mode.

use vstd::prelude::*;
use crate::agents::opt_view;
use crate::permissions::{PermissionClass, PermissionManager, PermissionPolicy};
use crate::text::{own, str_eq};

verus! {

/// Latency vs quality tradeoff mode.
#[derive(Debug, Clone, Copy, PartialEq, Eq, Structural)]
pub enum LatencyMode {
    /// Prefer speed, accept lower quality.
    Fast,
    /// Balance speed and quality.
    Balanced,
    /// Prefer quality, accept higher latency.
    Quality,
}

/// Configuration for model routing decisions.
pub struct ModelRoutingConfig {
    /// User-pinned provider (overrides all routing logic).
    pub pinned_provider: Option<String>,
    /// User-pinned model within the provider.
    pub pinned_model: Option<String>,
    /// Whether to prefer local models for privacy.
    pub prefer_local: bool,
    /// Latency vs quality tradeoff.
    pub latency_mode: LatencyMode,
}

pub struct ModelRoutingConfigView {
    pub pinned_provider: Option<Seq<char>>,
    pub pinned_model: Option<Seq<char>>,
    pub prefer_local: bool,
    pub latency_mode: LatencyMode,
}

impl View for ModelRoutingConfig {
    type V = ModelRoutingConfigView;

    open spec fn view(&self) -> ModelRoutingConfigView {
        ModelRoutingConfigView {
            pinned_provider: opt_view(self.pinned_provider),
            pinned_model: opt_view(self.pinned_model),
            prefer_local: self.prefer_local,
            latency_mode: self.latency_mode,
        }
    }
}

/// No pin, local models preferred, balanced latency.
pub open spec fn default_routing() -> ModelRoutingConfigView {
    ModelRoutingConfigView {
        pinned_provider: None,
        pinned_model: None,
        prefer_local: true,
        latency_mode: LatencyMode::Balanced,
    }
}

impl Default for ModelRoutingConfig {
    /// No pin, local models preferred, balanced latency.
    fn default() -> (res: Self)
        ensures
            res@ == default_routing(),
    {
        ModelRoutingConfig {
            pinned_provider: None,
            pinned_model: None,
            prefer_local: true,
            latency_mode: LatencyMode::Balanced,
        }
    }
}

impl ModelRoutingConfig {
    /// A copy of this configuration.
    pub fn duplicate(&self) -> (res: Self)
        ensures
            res@ == self@,
    {
        ModelRoutingConfig {
            pinned_provider: self.pinned_provider.clone(),
            pinned_model: self.pinned_model.clone(),
            prefer_local: self.prefer_local,
            latency_mode: self.latency_mode,
        }
    }
}

/// The type of task being routed.
#[derive(Debug, Clone, Copy, PartialEq, Eq, Structural)]
pub enum TaskType {
    /// Screenshot analysis / vision task.
    VisionSummary,
    /// Browser inspection via MCP.
    BrowserInspection,
    /// Heavy coding plan generation.
    CodingPlan,
    /// Broad multi-model access.
    BroadAccess,
    /// Simple offline/local text request.
    LocalText,
    /// General chat / clarification.
    Chat,
    /// Code review.
    Review,
    /// Context gathering / repo analysis.
    ContextGathering,
}

/// Routing decision output.
#[derive(Debug, Clone)]
pub struct RoutingDecision {
    /// Recommended provider ID (e.g. "ollama", "openai", "openrouter").
    pub provider_id: String,
    /// Recommended model ID (e.g. "qwen2.5-vl", "gpt-4o").
    pub model_id: String,
    /// Why this routing was chosen.
    pub reason: String,
    /// Whether data will leave the machine.
    pub data_leaves_machine: bool,
}

pub struct RoutingDecisionView {
    pub provider_id: Seq<char>,
    pub model_id: Seq<char>,
    pub reason: Seq<char>,
    pub data_leaves_machine: bool,
}

impl View for RoutingDecision {
    type V = RoutingDecisionView;

    open spec fn view(&self) -> RoutingDecisionView {
        RoutingDecisionView {
            provider_id: self.provider_id@,
            model_id: self.model_id@,
            reason: self.reason@,
            data_leaves_machine: self.data_leaves_machine,
        }
    }
}

pub open spec fn decision(
    provider: Seq<char>,
    model: Seq<char>,
    reason: Seq<char>,
    leaves: bool,
) -> RoutingDecisionView {
    RoutingDecisionView {
        provider_id: provider,
        model_id: model,
        reason: reason,
        data_leaves_machine: leaves,
    }
}

/// The model a provider uses when none is pinned: each known provider's own
/// default (`llama3.2` for `ollama`, `gpt-4o` for `openai`,
/// `gemini-2.0-flash` for `gemini`, `openrouter/auto` for `openrouter`,
/// `zai-coding-plan` for `zai`), and `default` for any other provider.
pub open spec fn provider_default_model(provider: Seq<char>) -> Seq<char> {
    if provider == "ollama"@ {
        "llama3.2"@
    } else if provider == "openai"@ {
        "gpt-4o"@
    } else if provider == "gemini"@ {
        "gemini-2.0-flash"@
    } else if provider == "openrouter"@ {
        "openrouter/auto"@
    } else if provider == "zai"@ {
        "zai-coding-plan"@
    } else {
        "default"@
    }
}

fn default_model_of(provider: &str) -> (res: String)
    ensures
        res@ == provider_default_model(provider@),
{
    if str_eq(provider, "ollama") {
        own("llama3.2")
    } else if str_eq(provider, "openai") {
        own("gpt-4o")
    } else if str_eq(provider, "gemini") {
        own("gemini-2.0-flash")
    } else if str_eq(provider, "openrouter") {
        own("openrouter/auto")
    } else if str_eq(provider, "zai") {
        own("zai-coding-plan")
    } else {
        own("default")
    }
}

/// The routing policy.
///
/// 1. A pinned provider wins over every other rule, with the pinned model,
///    or the provider's default model when no model is pinned; data leaves
///    the machine unless the provider is `ollama`.
/// 2. A vision task stays on local Ollama unless sending to the cloud is
///    allowed outright and local models are not preferred.
/// 3. Otherwise the task type decides.
pub open spec fn route_spec(
    config: ModelRoutingConfigView,
    permissions: Map<PermissionClass, PermissionPolicy>,
    task: TaskType,
    needs_vision: bool,
) -> RoutingDecisionView {
    if config.pinned_provider is Some {
        let provider = config.pinned_provider.unwrap();
        match config.pinned_model {
            Some(model) => decision(
                provider,
                model,
                "User-pinned provider and model override"@,
                provider != "ollama"@,
            ),
            None => decision(
                provider,
                provider_default_model(provider),
                "User-pinned provider override"@,
                provider != "ollama"@,
            ),
        }
    } else if needs_vision && (permissions[PermissionClass::SendToCloudProvider]
        != PermissionPolicy::Allowed || config.prefer_local) {
        decision("ollama"@, "qwen2.5-vl"@, "Vision task routed to local Ollama for privacy"@, false)
    } else {
        match task {
            TaskType::VisionSummary => decision(
                "ollama"@,
                "qwen2.5-vl"@,
                "Screenshot summary uses local vision model"@,
                false,
            ),
            TaskType::BrowserInspection => decision(
                "mcp"@,
                "playwright"@,
                "Browser inspection via Playwright/Chrome MCP"@,
                false,
            ),
            TaskType::CodingPlan => if config.prefer_local {
                decision(
                    "ollama"@,
                    "llama3.2"@,
                    "Heavy coding plan routed to local Ollama (prefer_local=true)"@,
                    false,
                )
            } else {
                decision("zai"@, "coding-plan"@, "Heavy coding plan routed to Z.AI Coding Plan"@, true)
            },
            TaskType::BroadAccess => decision(
                "openrouter"@,
                "auto"@,
                "Broad model access fallback via OpenRouter"@,
                true,
            ),
            TaskType::LocalText => decision(
                "ollama"@,
                "llama3.2"@,
                "Offline/local text request uses Ollama"@,
                false,
            ),
            TaskType::Chat => if config.prefer_local {
                decision("ollama"@, "llama3.2"@, "Chat routed to local model"@, false)
            } else {
                decision("openai"@, "gpt-4o"@, "Chat routed to cloud for quality"@, true)
            },
            TaskType::Review => match config.latency_mode {
                LatencyMode::Quality => decision(
                    "openai"@,
                    "gpt-4o"@,
                    "Code review uses high-quality cloud model"@,
                    true,
                ),
                _ => decision(
                    "ollama"@,
                    "llama3.2"@,
                    "Code review uses local model (fast/balanced mode)"@,
                    false,
                ),
            },
            TaskType::ContextGathering => decision(
                "ollama"@,
                "llama3.2"@,
                "Context gathering uses local model for speed"@,
                false,
            ),
        }
    }
}

fn make(provider: &str, model: &str, reason: &str, leaves: bool) -> (res: RoutingDecision)
    ensures
        res@ == decision(provider@, model@, reason@, leaves),
{
    RoutingDecision {
        provider_id: own(provider),
        model_id: own(model),
        reason: own(reason),
        data_leaves_machine: leaves,
    }
}

/// The model router evaluates task characteristics and picks the best
/// provider/model.
pub struct ModelRouter {
    config: ModelRoutingConfig,
    permissions: PermissionManager,
}

impl ModelRouter {
    /// The routing configuration in force.
    pub closed spec fn config_view(&self) -> ModelRoutingConfigView {
        self.config@
    }

    /// The permissions the router consults.
    pub closed spec fn permissions_view(&self) -> Map<PermissionClass, PermissionPolicy> {
        self.permissions@
    }

    pub fn new(config: ModelRoutingConfig, permissions: PermissionManager) -> (res: Self)
        ensures
            res.config_view() == config@,
            res.permissions_view() == permissions@,
    {
        Self { config, permissions }
    }

    /// Route a task to the best available provider/model.
    pub fn route(&self, task: &TaskType, needs_vision: bool, _needs_tools: bool) -> (res:
        RoutingDecision)
        ensures
            res@ == route_spec(self.config_view(), self.permissions_view(), *task, needs_vision),
    {
        // Guardrail: never ignore explicit user/provider pin
        if let Some(provider) = &self.config.pinned_provider {
            let leaves = !str_eq(provider.as_str(), "ollama");
            return match &self.config.pinned_model {
                Some(model) => RoutingDecision {
                    provider_id: provider.clone(),
                    model_id: model.clone(),
                    reason: own("User-pinned provider and model override"),
                    data_leaves_machine: leaves,
                },
                None => RoutingDecision {
                    provider_id: provider.clone(),
                    model_id: default_model_of(provider.as_str()),
                    reason: own("User-pinned provider override"),
                    data_leaves_machine: leaves,
                },
            };
        }
        // Guardrail: never send raw images to cloud without permission
        if needs_vision {
            let cloud_check = self.permissions.check(PermissionClass::SendToCloudProvider);
            if cloud_check != PermissionPolicy::Allowed || self.config.prefer_local {
                return make("ollama", "qwen2.5-vl", "Vision task routed to local Ollama for privacy", false);
            }
        }
        match task {
            TaskType::VisionSummary => make(
                "ollama",
                "qwen2.5-vl",
                "Screenshot summary uses local vision model",
                false,
            ),
            TaskType::BrowserInspection => make(
                "mcp",
                "playwright",
                "Browser inspection via Playwright/Chrome MCP",
                false,
            ),
            TaskType::CodingPlan => {
                if self.config.prefer_local {
                    make(
                        "ollama",
                        "llama3.2",
                        "Heavy coding plan routed to local Ollama (prefer_local=true)",
                        false,
                    )
                } else {
                    make("zai", "coding-plan", "Heavy coding plan routed to Z.AI Coding Plan", true)
                }
            },
            TaskType::BroadAccess => make(
                "openrouter",
                "auto",
                "Broad model access fallback via OpenRouter",
                true,
            ),
            TaskType::LocalText => make(
                "ollama",
                "llama3.2",
                "Offline/local text request uses Ollama",
                false,
            ),
            TaskType::Chat => {
                if self.config.prefer_local {
                    make("ollama", "llama3.2", "Chat routed to local model", false)
                } else {
                    make("openai", "gpt-4o", "Chat routed to cloud for quality", true)
                }
            },
            TaskType::Review => match self.config.latency_mode {
                LatencyMode::Quality => make(
                    "openai",
                    "gpt-4o",
                    "Code review uses high-quality cloud model",
                    true,
                ),
                _ => make(
                    "ollama",
                    "llama3.2",
                    "Code review uses local model (fast/balanced mode)",
                    false,
                ),
            },
            TaskType::ContextGathering => make(
                "ollama",
                "llama3.2",
                "Context gathering uses local model for speed",
                false,
            ),
        }
    }
}

/// A pinned provider is never overridden: the decision names the pinned
/// provider whatever the task, with the pinned model or, when none is
/// pinned, that provider's default model.
pub proof fn law_pin_overrides(
    config: ModelRoutingConfigView,
    permissions: Map<PermissionClass, PermissionPolicy>,
    task: TaskType,
    needs_vision: bool,
)
    requires
        config.pinned_provider is Some,
    ensures
        route_spec(config, permissions, task, needs_vision).provider_id
            == config.pinned_provider.unwrap(),
        route_spec(config, permissions, task, needs_vision).model_id == match config.pinned_model {
            Some(m) => m,
            None => provider_default_model(config.pinned_provider.unwrap()),
        },
        route_spec(config, permissions, task, needs_vision).data_leaves_machine
            <==> config.pinned_provider.unwrap() != "ollama"@,
{
}

/// Images never go to the cloud without permission: unless a provider is
/// pinned, a vision need is routed to local Ollama and keeps data on the
/// machine whenever cloud sending is not allowed outright, or local models
/// are preferred.
pub proof fn law_vision_stays_local(
    config: ModelRoutingConfigView,
    permissions: Map<PermissionClass, PermissionPolicy>,
    task: TaskType,
)
    requires
        config.pinned_provider is None,
        permissions[PermissionClass::SendToCloudProvider] != PermissionPolicy::Allowed
            || config.prefer_local,
    ensures
        route_spec(config, permissions, task, true).provider_id == "ollama"@,
        !route_spec(config, permissions, task, true).data_leaves_machine,
{
}

/// Without a pinned provider, data leaves the machine exactly when the chosen provider
/// is a cloud provider (`zai`, `openrouter` or `openai`); `ollama` and
/// `mcp` stay local.
pub proof fn law_leaving_means_cloud_provider(
    config: ModelRoutingConfigView,
    permissions: Map<PermissionClass, PermissionPolicy>,
    task: TaskType,
    needs_vision: bool,
)
    requires
        config.pinned_provider is None,
    ensures
        ({
            let d = route_spec(config, permissions, task, needs_vision);
            d.data_leaves_machine <==> (d.provider_id == "zai"@ || d.provider_id == "openrouter"@
                || d.provider_id == "openai"@)
        }),
{
    reveal_strlit("zai");
    reveal_strlit("openrouter");
    reveal_strlit("openai");
    reveal_strlit("ollama");
    reveal_strlit("mcp");
    assert("ollama"@.len() != "zai"@.len());
    assert("ollama"@.len() != "openrouter"@.len());
    assert("ollama"@[1] != "openai"@[1]);
    assert("mcp"@[0] != "zai"@[0]);
    assert("mcp"@.len() != "openrouter"@.len());
    assert("mcp"@.len() != "openai"@.len());
}

/// With local models preferred and no pinned provider, screenshot summaries, coding
/// plans, chat, local text and context gathering all stay on the machine.
pub proof fn law_prefer_local_keeps_data(
    config: ModelRoutingConfigView,
    permissions: Map<PermissionClass, PermissionPolicy>,
    task: TaskType,
    needs_vision: bool,
)
    requires
        config.pinned_provider is None,
        config.prefer_local,
        task != TaskType::BroadAccess,
        task != TaskType::Review || config.latency_mode != LatencyMode::Quality,
    ensures
        !route_spec(config, permissions, task, needs_vision).data_leaves_machine,
{
}


/// Local work stays local: without a pinned provider, offline/local text
/// and context gathering go to `ollama` with `llama3.2`, and screenshot
/// summaries to `ollama` with `qwen2.5-vl`, whatever local models are
/// preferred or not, whatever the latency mode and permissions; none of them
/// sends data off the machine, with or without a vision need.
pub proof fn law_local_tasks_stay_local(
    config: ModelRoutingConfigView,
    permissions: Map<PermissionClass, PermissionPolicy>,
    needs_vision: bool,
)
    requires
        config.pinned_provider is None,
    ensures
        route_spec(config, permissions, TaskType::LocalText, false).provider_id == "ollama"@,
        route_spec(config, permissions, TaskType::LocalText, false).model_id == "llama3.2"@,
        route_spec(config, permissions, TaskType::ContextGathering, false).provider_id == "ollama"@,
        route_spec(config, permissions, TaskType::ContextGathering, false).model_id == "llama3.2"@,
        route_spec(config, permissions, TaskType::VisionSummary, needs_vision).provider_id == "ollama"@,
        route_spec(config, permissions, TaskType::VisionSummary, needs_vision).model_id
            == "qwen2.5-vl"@,
        route_spec(config, permissions, TaskType::LocalText, needs_vision).provider_id == "ollama"@,
        route_spec(config, permissions, TaskType::ContextGathering, needs_vision).provider_id
            == "ollama"@,
        !route_spec(config, permissions, TaskType::LocalText, needs_vision).data_leaves_machine,
        !route_spec(config, permissions, TaskType::ContextGathering, needs_vision).data_leaves_machine,
        !route_spec(config, permissions, TaskType::VisionSummary, needs_vision).data_leaves_machine,
{
}


/// The rest of the routing table, without a pinned provider or a vision
/// need: browser inspection goes to the `mcp` Playwright tools, broad access
/// to OpenRouter's automatic choice, coding plans and chat to local
/// `llama3.2` when local models are preferred (else to Z.AI's coding plan
/// and to `gpt-4o`), and reviews to `gpt-4o` in quality mode only, else to
/// local `llama3.2`.
pub proof fn law_task_table(config: ModelRoutingConfigView, permissions: Map<PermissionClass, PermissionPolicy>)
    requires
        config.pinned_provider is None,
    ensures
        route_spec(config, permissions, TaskType::BrowserInspection, false).provider_id == "mcp"@,
        route_spec(config, permissions, TaskType::BrowserInspection, false).model_id == "playwright"@,
        route_spec(config, permissions, TaskType::BroadAccess, false).provider_id == "openrouter"@,
        route_spec(config, permissions, TaskType::BroadAccess, false).model_id == "auto"@,
        route_spec(config, permissions, TaskType::CodingPlan, false).provider_id == if config.prefer_local {
            "ollama"@
        } else {
            "zai"@
        },
        route_spec(config, permissions, TaskType::Chat, false).provider_id == if config.prefer_local {
            "ollama"@
        } else {
            "openai"@
        },
        route_spec(config, permissions, TaskType::Review, false).provider_id == if config.latency_mode
            == LatencyMode::Quality {
            "openai"@
        } else {
            "ollama"@
        },
{
}

} // verus!
