//! AI provider data model: identifiers, chat messages and requests, model
//! descriptions, the cloud provider configurations and the registry.

use vstd::prelude::*;
use crate::agents::opt_view;
use crate::text::{chars_of, concat, contains, contains_seq, decimal, decimal_seq, own, str_eq, trim, trim_seq, views};

verus! {

/// Identifier of a provider (e.g. `"ollama"`).
#[derive(Debug, Clone)]
pub struct ProviderId(pub String);

/// Identifier of a model (e.g. `"llama3.2"`).
#[derive(Debug, Clone)]
pub struct ModelId(pub String);

/// The author of a chat message.
#[derive(Debug, Clone, Copy, PartialEq, Eq, Structural)]
pub enum MessageRole {
    System,
    User,
    Assistant,
    Tool,
}

/// One chat message; `images` are base64-encoded.
#[derive(Debug, Clone)]
pub struct ChatMessage {
    pub role: MessageRole,
    pub content: String,
    pub images: Option<Vec<String>>,
}

pub struct ChatMessageView {
    pub role: MessageRole,
    pub content: Seq<char>,
    pub images: Option<Seq<Seq<char>>>,
}

impl View for ChatMessage {
    type V = ChatMessageView;

    open spec fn view(&self) -> ChatMessageView {
        ChatMessageView {
            role: self.role,
            content: self.content@,
            images: match self.images {
                Some(v) => Some(views(v@)),
                None => None,
            },
        }
    }
}

/// A text-only message.
pub open spec fn text_message(role: MessageRole, content: Seq<char>) -> ChatMessageView {
    ChatMessageView { role, content, images: None }
}

impl ChatMessage {
    /// A text-only message.
    pub fn text(role: MessageRole, content: String) -> (res: Self)
        ensures
            res@ == text_message(role, content@),
    {
        ChatMessage { role, content, images: None }
    }
}

/// A chat request.
///
/// The sampling temperature is held in hundredths (`30` stands for `0.3`).
#[derive(Debug, Clone)]
pub struct ChatRequest {
    pub model: ModelId,
    pub messages: Vec<ChatMessage>,
    pub stream: bool,
    pub temperature_centi: Option<u32>,
    pub max_tokens: Option<u32>,
}

pub struct ChatRequestView {
    pub model: Seq<char>,
    pub messages: Seq<ChatMessageView>,
    pub stream: bool,
    pub temperature_centi: Option<u32>,
    pub max_tokens: Option<u32>,
}

impl View for ChatRequest {
    type V = ChatRequestView;

    open spec fn view(&self) -> ChatRequestView {
        ChatRequestView {
            model: self.model.0@,
            messages: self.messages@.map_values(|m: ChatMessage| m@),
            stream: self.stream,
            temperature_centi: self.temperature_centi,
            max_tokens: self.max_tokens,
        }
    }
}

/// Token counts reported for a reply.
#[derive(Debug, Clone)]
pub struct TokenUsage {
    pub prompt_tokens: u32,
    pub completion_tokens: u32,
    pub total_tokens: u32,
}

/// A provider's reply.
#[derive(Debug, Clone)]
pub struct ChatResponse {
    pub content: String,
    pub model: ModelId,
    pub provider: ProviderId,
    pub usage: Option<TokenUsage>,
    pub done: Option<bool>,
}

/// What a model can do.
#[derive(Debug, Clone)]
pub struct ModelCapabilities {
    pub supports_text: bool,
    pub supports_vision: bool,
    pub supports_tools: bool,
    pub supports_reasoning: bool,
    pub supports_json_mode: bool,
    pub supports_streaming: bool,
    pub supports_mcp_bridge: bool,
}

/// A model offered by a provider.
#[derive(Debug, Clone)]
pub struct ModelInfo {
    pub id: ModelId,
    pub name: String,
    pub provider: ProviderId,
    pub context_window: Option<u32>,
    pub capabilities: ModelCapabilities,
}


pub struct ModelInfoView {
    pub id: Seq<char>,
    pub name: Seq<char>,
    pub provider: Seq<char>,
    pub context_window: Option<u32>,
    pub capabilities: ModelCapabilities,
}

impl View for ModelInfo {
    type V = ModelInfoView;

    open spec fn view(&self) -> ModelInfoView {
        ModelInfoView {
            id: self.id.0@,
            name: self.name@,
            provider: self.provider.0@,
            context_window: self.context_window,
            capabilities: self.capabilities,
        }
    }
}

/// Capabilities from their seven flags, in field order.
pub open spec fn caps(
    text: bool,
    vision: bool,
    tools: bool,
    reasoning: bool,
    json_mode: bool,
    streaming: bool,
    mcp_bridge: bool,
) -> ModelCapabilities {
    ModelCapabilities {
        supports_text: text,
        supports_vision: vision,
        supports_tools: tools,
        supports_reasoning: reasoning,
        supports_json_mode: json_mode,
        supports_streaming: streaming,
        supports_mcp_bridge: mcp_bridge,
    }
}

fn make_caps(
    text: bool,
    vision: bool,
    tools: bool,
    reasoning: bool,
    json_mode: bool,
    streaming: bool,
    mcp_bridge: bool,
) -> (res: ModelCapabilities)
    ensures
        res == caps(text, vision, tools, reasoning, json_mode, streaming, mcp_bridge),
{
    ModelCapabilities {
        supports_text: text,
        supports_vision: vision,
        supports_tools: tools,
        supports_reasoning: reasoning,
        supports_json_mode: json_mode,
        supports_streaming: streaming,
        supports_mcp_bridge: mcp_bridge,
    }
}

/// A model description from its parts.
pub open spec fn model(
    id: Seq<char>,
    name: Seq<char>,
    provider: Seq<char>,
    context_window: Option<u32>,
    capabilities: ModelCapabilities,
) -> ModelInfoView {
    ModelInfoView { id, name, provider, context_window, capabilities }
}

/// The views of a list of model descriptions.
pub open spec fn model_views(ms: Seq<ModelInfo>) -> Seq<ModelInfoView> {
    ms.map_values(|m: ModelInfo| m@)
}

/// The value of an option, or a default.
pub open spec fn or_default(o: Option<Seq<char>>, default: Seq<char>) -> Seq<char> {
    match o {
        Some(s) => s,
        None => default,
    }
}

fn string_or(o: Option<String>, default: &str) -> (res: String)
    ensures
        res@ == or_default(opt_view(o), default@),
{
    match o {
        Some(s) => s,
        None => own(default),
    }
}

/// The OpenAI API.
pub struct OpenAiProvider {
    api_key: String,
    base_url: String,
    model: String,
}

/// Google Gemini.
pub struct GeminiProvider {
    api_key: String,
    model: String,
}

/// OpenRouter.
pub struct OpenRouterProvider {
    api_key: String,
    model: String,
}

/// The Z.AI coding plan.
pub struct ZaiCodingProvider {
    api_key: String,
    model: String,
}

impl OpenAiProvider {
    pub closed spec fn api_key_spec(&self) -> Seq<char> {
        self.api_key@
    }

    pub closed spec fn base_url_spec(&self) -> Seq<char> {
        self.base_url@
    }

    pub closed spec fn model_spec(&self) -> Seq<char> {
        self.model@
    }

    /// A client of the OpenAI API; the base URL defaults to
    /// `https://api.openai.com/v1` and the model to `gpt-4o`.
    pub fn new(api_key: String, base_url: Option<String>, model: Option<String>) -> (res: Self)
        ensures
            res.api_key_spec() == api_key@,
            res.base_url_spec() == or_default(opt_view(base_url), "https://api.openai.com/v1"@),
            res.model_spec() == or_default(opt_view(model), "gpt-4o"@),
    {
        OpenAiProvider {
            api_key,
            base_url: string_or(base_url, "https://api.openai.com/v1"),
            model: string_or(model, "gpt-4o"),
        }
    }

    /// A client of the OpenAI API for the `codex` model.
    pub fn codex(api_key: String) -> (res: Self)
        ensures
            res.api_key_spec() == api_key@,
            res.base_url_spec() == "https://api.openai.com/v1"@,
            res.model_spec() == "codex"@,
    {
        OpenAiProvider { api_key, base_url: own("https://api.openai.com/v1"), model: own("codex") }
    }

    /// The provider's identifier, `openai`.
    pub fn id(&self) -> (res: ProviderId)
        ensures
            res.0@ == "openai"@,
    {
        ProviderId(own("openai"))
    }

    /// The provider's display name.
    pub fn name(&self) -> (res: &'static str)
        ensures
            res@ == "OpenAI"@,
    {
        "OpenAI"
    }

    /// Cloud providers are not local.
    pub fn is_local(&self) -> (res: bool)
        ensures
            !res,
    {
        false
    }

    /// Usable when an API key is set.
    pub fn is_available(&self) -> (res: bool)
        ensures
            res == (self.api_key_spec().len() > 0),
    {
        !self.api_key.as_str().is_empty()
    }

    /// The models offered: GPT-4o and GPT-4o Mini.
    pub fn list_models(&self) -> (res: Vec<ModelInfo>)
        ensures
            model_views(res@) == seq![
                model("gpt-4o"@, "GPT-4o"@, "openai"@, Some(128000u32), caps(true, true, true, true, true, true, false)),
                model("gpt-4o-mini"@, "GPT-4o Mini"@, "openai"@, Some(128000u32), caps(true, true, true, false, true, true, false)),
            ],
    {
        let mut res: Vec<ModelInfo> = Vec::new();
        res.push(ModelInfo {
            id: ModelId(own("gpt-4o")),
            name: own("GPT-4o"),
            provider: self.id(),
            context_window: Some(128000),
            capabilities: make_caps(true, true, true, true, true, true, false),
        });
        res.push(ModelInfo {
            id: ModelId(own("gpt-4o-mini")),
            name: own("GPT-4o Mini"),
            provider: self.id(),
            context_window: Some(128000),
            capabilities: make_caps(true, true, true, false, true, true, false),
        });
        assert(model_views(res@) =~= seq![
            model("gpt-4o"@, "GPT-4o"@, "openai"@, Some(128000u32), caps(true, true, true, true, true, true, false)),
            model("gpt-4o-mini"@, "GPT-4o Mini"@, "openai"@, Some(128000u32), caps(true, true, true, false, true, true, false)),
        ]);
        res
    }
}

impl GeminiProvider {
    pub closed spec fn api_key_spec(&self) -> Seq<char> {
        self.api_key@
    }

    pub closed spec fn model_spec(&self) -> Seq<char> {
        self.model@
    }

    /// A Gemini client; the model defaults to `gemini-2.0-flash`.
    pub fn new(api_key: String, model: Option<String>) -> (res: Self)
        ensures
            res.api_key_spec() == api_key@,
            res.model_spec() == or_default(opt_view(model), "gemini-2.0-flash"@),
    {
        GeminiProvider { api_key, model: string_or(model, "gemini-2.0-flash") }
    }

    /// The provider's identifier, `gemini`.
    pub fn id(&self) -> (res: ProviderId)
        ensures
            res.0@ == "gemini"@,
    {
        ProviderId(own("gemini"))
    }

    /// The provider's display name.
    pub fn name(&self) -> (res: &'static str)
        ensures
            res@ == "Google Gemini"@,
    {
        "Google Gemini"
    }

    /// Cloud providers are not local.
    pub fn is_local(&self) -> (res: bool)
        ensures
            !res,
    {
        false
    }

    /// Usable when an API key is set.
    pub fn is_available(&self) -> (res: bool)
        ensures
            res == (self.api_key_spec().len() > 0),
    {
        !self.api_key.as_str().is_empty()
    }

    /// The configured model, shown as `Gemini (<model>)`.
    pub fn list_models(&self) -> (res: Vec<ModelInfo>)
        ensures
            model_views(res@) == seq![
                model(self.model_spec(), "Gemini ("@ + self.model_spec() + ")"@, "gemini"@, Some(1000000u32), caps(true, true, true, true, true, true, false)),
            ],
    {
        let with_open = concat("Gemini (", self.model.as_str());
        let name = concat(with_open.as_str(), ")");
        let mut res: Vec<ModelInfo> = Vec::new();
        res.push(ModelInfo {
            id: ModelId(own(self.model.as_str())),
            name,
            provider: self.id(),
            context_window: Some(1000000),
            capabilities: make_caps(true, true, true, true, true, true, false),
        });
        assert(model_views(res@) =~= seq![
            model(self.model_spec(), "Gemini ("@ + self.model_spec() + ")"@, "gemini"@, Some(1000000u32), caps(true, true, true, true, true, true, false)),
        ]);
        res
    }
}

impl OpenRouterProvider {
    pub closed spec fn api_key_spec(&self) -> Seq<char> {
        self.api_key@
    }

    pub closed spec fn model_spec(&self) -> Seq<char> {
        self.model@
    }

    /// An OpenRouter client; the model defaults to
    /// `openrouter/auto`.
    pub fn new(api_key: String, model: Option<String>) -> (res: Self)
        ensures
            res.api_key_spec() == api_key@,
            res.model_spec() == or_default(opt_view(model), "openrouter/auto"@),
    {
        OpenRouterProvider { api_key, model: string_or(model, "openrouter/auto") }
    }

    /// The provider's identifier, `openrouter`.
    pub fn id(&self) -> (res: ProviderId)
        ensures
            res.0@ == "openrouter"@,
    {
        ProviderId(own("openrouter"))
    }

    /// The provider's display name.
    pub fn name(&self) -> (res: &'static str)
        ensures
            res@ == "OpenRouter"@,
    {
        "OpenRouter"
    }

    /// Cloud providers are not local.
    pub fn is_local(&self) -> (res: bool)
        ensures
            !res,
    {
        false
    }

    /// Usable when an API key is set.
    pub fn is_available(&self) -> (res: bool)
        ensures
            res == (self.api_key_spec().len() > 0),
    {
        !self.api_key.as_str().is_empty()
    }

    /// The configured model, under its own name.
    pub fn list_models(&self) -> (res: Vec<ModelInfo>)
        ensures
            model_views(res@) == seq![
                model(self.model_spec(), self.model_spec(), "openrouter"@, Some(200000u32), caps(true, false, true, true, true, true, false)),
            ],
    {
        let mut res: Vec<ModelInfo> = Vec::new();
        res.push(ModelInfo {
            id: ModelId(own(self.model.as_str())),
            name: own(self.model.as_str()),
            provider: self.id(),
            context_window: Some(200000),
            capabilities: make_caps(true, false, true, true, true, true, false),
        });
        assert(model_views(res@) =~= seq![
            model(self.model_spec(), self.model_spec(), "openrouter"@, Some(200000u32), caps(true, false, true, true, true, true, false)),
        ]);
        res
    }
}

impl ZaiCodingProvider {
    pub closed spec fn api_key_spec(&self) -> Seq<char> {
        self.api_key@
    }

    pub closed spec fn model_spec(&self) -> Seq<char> {
        self.model@
    }

    /// A client of the Z.AI coding plan.
    pub fn new(api_key: String) -> (res: Self)
        ensures
            res.api_key_spec() == api_key@,
            res.model_spec() == "zai-coding-plan"@,
    {
        ZaiCodingProvider { api_key, model: own("zai-coding-plan") }
    }

    /// The provider's identifier, `zai`.
    pub fn id(&self) -> (res: ProviderId)
        ensures
            res.0@ == "zai"@,
    {
        ProviderId(own("zai"))
    }

    /// The provider's display name.
    pub fn name(&self) -> (res: &'static str)
        ensures
            res@ == "Z.AI Coding Plan"@,
    {
        "Z.AI Coding Plan"
    }

    /// Cloud providers are not local.
    pub fn is_local(&self) -> (res: bool)
        ensures
            !res,
    {
        false
    }

    /// Usable when an API key is set.
    pub fn is_available(&self) -> (res: bool)
        ensures
            res == (self.api_key_spec().len() > 0),
    {
        !self.api_key.as_str().is_empty()
    }

    /// The coding plan model.
    pub fn list_models(&self) -> (res: Vec<ModelInfo>)
        ensures
            model_views(res@) == seq![
                model(self.model_spec(), "Z.AI Coding Plan"@, "zai"@, Some(200000u32), caps(true, false, true, true, true, true, true)),
            ],
    {
        let mut res: Vec<ModelInfo> = Vec::new();
        res.push(ModelInfo {
            id: ModelId(own(self.model.as_str())),
            name: own("Z.AI Coding Plan"),
            provider: self.id(),
            context_window: Some(200000),
            capabilities: make_caps(true, false, true, true, true, true, true),
        });
        assert(model_views(res@) =~= seq![
            model(self.model_spec(), "Z.AI Coding Plan"@, "zai"@, Some(200000u32), caps(true, false, true, true, true, true, true)),
        ]);
        res
    }
}


/// Where the local Ollama server is looked for by default.
pub const DEFAULT_OLLAMA_URL: &'static str = "http://localhost";

/// The default port of the local Ollama server.
pub const DEFAULT_OLLAMA_PORT: u16 = 11434;

/// The model used to read screenshots by default.
pub const DEFAULT_VISION_MODEL: &'static str = "qwen2.5vl";

/// The model used for chat by default.
pub const DEFAULT_CHAT_MODEL: &'static str = "llama3.2";

/// The local Ollama provider: where its server is and which models it uses.
pub struct OllamaProvider {
    url: String,
    port: u16,
    vision_model: String,
    default_model: String,
}

/// An optional text, or a default.
pub open spec fn str_opt_or(o: Option<&str>, default: Seq<char>) -> Seq<char> {
    match o {
        Some(s) => s@,
        None => default,
    }
}

fn str_or(o: Option<&str>, default: &str) -> (res: String)
    ensures
        res@ == str_opt_or(o, default@),
{
    match o {
        Some(s) => own(s),
        None => own(default),
    }
}

impl OllamaProvider {
    pub closed spec fn url_spec(&self) -> Seq<char> {
        self.url@
    }

    pub closed spec fn port_spec(&self) -> u16 {
        self.port
    }

    pub closed spec fn vision_model_spec(&self) -> Seq<char> {
        self.vision_model@
    }

    pub closed spec fn default_model_spec(&self) -> Seq<char> {
        self.default_model@
    }

    /// The provider for the Ollama server at `url` and `port`, by default
    /// `http://localhost:11434`, with `qwen2.5vl` to read screenshots and
    /// `llama3.2` to chat unless others are given.
    pub fn new(
        url: Option<&str>,
        port: Option<u16>,
        vision_model: Option<&str>,
        default_model: Option<&str>,
    ) -> (res: Self)
        ensures
            res.url_spec() == str_opt_or(url, DEFAULT_OLLAMA_URL@),
            res.port_spec() == match port {
                Some(p) => p,
                None => DEFAULT_OLLAMA_PORT,
            },
            res.vision_model_spec() == str_opt_or(vision_model, DEFAULT_VISION_MODEL@),
            res.default_model_spec() == str_opt_or(default_model, DEFAULT_CHAT_MODEL@),
    {
        OllamaProvider {
            url: str_or(url, DEFAULT_OLLAMA_URL),
            port: match port {
                Some(p) => p,
                None => DEFAULT_OLLAMA_PORT,
            },
            vision_model: str_or(vision_model, DEFAULT_VISION_MODEL),
            default_model: str_or(default_model, DEFAULT_CHAT_MODEL),
        }
    }

    /// The provider with every default.
    pub fn with_default() -> (res: Self)
        ensures
            res.url_spec() == DEFAULT_OLLAMA_URL@,
            res.port_spec() == DEFAULT_OLLAMA_PORT,
            res.vision_model_spec() == DEFAULT_VISION_MODEL@,
            res.default_model_spec() == DEFAULT_CHAT_MODEL@,
    {
        OllamaProvider::new(None, None, None, None)
    }

    /// The server's address.
    pub fn url(&self) -> (res: &str)
        ensures
            res@ == self.url_spec(),
    {
        self.url.as_str()
    }

    /// The server's port.
    pub fn port(&self) -> (res: u16)
        ensures
            res == self.port_spec(),
    {
        self.port
    }

    /// The model that reads screenshots.
    pub fn vision_model(&self) -> (res: &str)
        ensures
            res@ == self.vision_model_spec(),
    {
        self.vision_model.as_str()
    }

    /// The model used for chat.
    pub fn default_model(&self) -> (res: &str)
        ensures
            res@ == self.default_model_spec(),
    {
        self.default_model.as_str()
    }

    /// The provider's identifier, `ollama`.
    pub fn id(&self) -> (res: ProviderId)
        ensures
            res.0@ == "ollama"@,
    {
        ProviderId(own("ollama"))
    }

    /// The provider's display name.
    pub fn name(&self) -> (res: &'static str)
        ensures
            res@ == "Ollama (Local)"@,
    {
        "Ollama (Local)"
    }

    /// Ollama runs on this machine.
    pub fn is_local(&self) -> (res: bool)
        ensures
            res,
    {
        true
    }
}

/// Whether a local model's name marks it as able to see images.
pub open spec fn name_says_vision(name: Seq<char>) -> bool {
    contains_seq(name, "vl"@) || contains_seq(name, "vision"@) || contains_seq(name, "llava"@)
        || contains_seq(name, "qwen2.5vl"@)
}

/// Whether a local model's name marks it as a reasoning model.
pub open spec fn name_says_reasoning(name: Seq<char>) -> bool {
    contains_seq(name, "reasoner"@) || contains_seq(name, "think"@)
}

/// The description of a local model, its capabilities guessed from its
/// name.
pub open spec fn local_model(name: Seq<char>) -> ModelInfoView {
    model(
        name,
        name,
        "ollama"@,
        None,
        caps(true, name_says_vision(name), true, name_says_reasoning(name), true, true, false),
    )
}

/// Describes a model installed in Ollama, from its name.
pub fn ollama_model(name: String) -> (res: ModelInfo)
    ensures
        res@ == local_model(name@),
{
    let has_vision = contains(name.as_str(), "vl") || contains(name.as_str(), "vision") || contains(
        name.as_str(),
        "llava",
    ) || contains(name.as_str(), "qwen2.5vl");
    let has_reasoning = contains(name.as_str(), "reasoner") || contains(name.as_str(), "think");
    ModelInfo {
        id: ModelId(own(name.as_str())),
        name,
        provider: ProviderId(own("ollama")),
        context_window: None,
        capabilities: make_caps(true, has_vision, true, has_reasoning, true, true, false),
    }
}

/// Describes each model installed in Ollama, in order.
pub fn ollama_models(names: Vec<String>) -> (res: Vec<ModelInfo>)
    ensures
        model_views(res@) == views(names@).map_values(|n: Seq<char>| local_model(n)),
{
    let ghost all = names@;
    let mut rest = names;
    let mut res: Vec<ModelInfo> = Vec::new();
    let n = rest.len();
    let mut i: usize = 0;
    while rest.len() > 0
        invariant
            i + rest@.len() == n,
            n == all.len(),
            rest@ == all.subrange(i as int, n as int),
            res@.len() == i,
            model_views(res@) == views(all.subrange(0, i as int)).map_values(
                |n: Seq<char>| local_model(n),
            ),
        decreases rest@.len(),
    {
        let name = rest.remove(0);
        assert(name == all[i as int]);
        let ghost before = res@;
        res.push(ollama_model(name));
        proof {
            assert(rest@ =~= all.subrange(i + 1, n as int));
            assert(res@[i as int]@ == local_model(all[i as int]@));
            assert forall|k: int| 0 <= k < i + 1 implies #[trigger] model_views(res@)[k] == views(
                all.subrange(0, i + 1),
            ).map_values(|n: Seq<char>| local_model(n))[k] by {
                if k < i {
                    assert(res@[k] == before[k]);
                    assert(model_views(before)[k] == views(all.subrange(0, i as int)).map_values(
                        |n: Seq<char>| local_model(n),
                    )[k]);
                }
            }
            assert(model_views(res@) =~= views(all.subrange(0, i + 1)).map_values(
                |n: Seq<char>| local_model(n),
            ));
        }
        i += 1;
    }
    assert(all.subrange(0, n as int) =~= all);
    res
}

/// The token counts of a finished reply, from the counts of the prompt and
/// of the answer.
pub fn token_usage(prompt_eval_count: u16, eval_count: u16) -> (res: TokenUsage)
    requires
        prompt_eval_count + eval_count <= u16::MAX,
    ensures
        res.prompt_tokens == prompt_eval_count,
        res.completion_tokens == eval_count,
        res.total_tokens == prompt_eval_count + eval_count,
{
    TokenUsage {
        prompt_tokens: prompt_eval_count as u32,
        completion_tokens: eval_count as u32,
        total_tokens: (prompt_eval_count + eval_count) as u32,
    }
}


/// The instructions given to the vision model with a screenshot.
pub const SCREENSHOT_SYSTEM_PROMPT: &'static str = "You are a screenshot analysis engine for an AI-first IDE.\nAnalyze the provided screenshot and return a JSON object with this exact structure:\n{\n  \"visible_text\": [\"list of visible text snippets\"],\n  \"ui_elements\": [{\"element_type\": \"button|input|panel|tab|menu|label\", \"label\": \"text\", \"state\": \"active|inactive|error|loading\"}],\n  \"detected_errors\": [{\"message\": \"error text\", \"severity\": \"error|warning|info\", \"source\": \"source if known\"}],\n  \"likely_context\": \"description of what the user is doing\",\n  \"user_goal_hypothesis\": \"what the user likely wants to accomplish\",\n  \"ambiguity_flags\": [\"list of unclear aspects\"],\n  \"followup_questions\": [\"questions to ask the user\"],\n  \"relevant_regions\": [{\"x\": 0, \"y\": 0, \"width\": 100, \"height\": 100}]\n}\nReturn ONLY valid JSON.";

/// A UI element seen in a screenshot.
#[derive(Debug, Clone)]
pub struct UiElement {
    pub element_type: String,
    pub label: String,
    pub state: String,
}

/// An error message seen in a screenshot.
#[derive(Debug, Clone)]
pub struct DetectedError {
    pub message: String,
    pub severity: String,
    pub source: Option<String>,
}

/// A region of a screenshot, in pixels.
#[derive(Debug, Clone)]
pub struct Region {
    pub x: u32,
    pub y: u32,
    pub width: u32,
    pub height: u32,
}

/// What the vision model read from a screenshot.
#[derive(Debug, Clone)]
pub struct ScreenshotAnalysis {
    pub visible_text: Vec<String>,
    pub ui_elements: Vec<UiElement>,
    pub detected_errors: Vec<DetectedError>,
    pub likely_context: String,
    pub user_goal_hypothesis: String,
    pub ambiguity_flags: Vec<String>,
    pub followup_questions: Vec<String>,
    pub relevant_regions: Vec<Region>,
}

impl ScreenshotAnalysis {
    /// An analysis that holds only the model's reply, as the likely context.
    pub fn from_reply(content: String) -> (res: Self)
        ensures
            res.likely_context@ == content@,
            res.visible_text@.len() == 0,
            res.ui_elements@.len() == 0,
            res.detected_errors@.len() == 0,
            res.user_goal_hypothesis@.len() == 0,
            res.ambiguity_flags@.len() == 0,
            res.followup_questions@.len() == 0,
            res.relevant_regions@.len() == 0,
    {
        ScreenshotAnalysis {
            visible_text: Vec::new(),
            ui_elements: Vec::new(),
            detected_errors: Vec::new(),
            likely_context: content,
            user_goal_hypothesis: String::new(),
            ambiguity_flags: Vec::new(),
            followup_questions: Vec::new(),
            relevant_regions: Vec::new(),
        }
    }
}

/// How a vision reply is read: the trimmed reply is parsed as an analysis
/// when it starts with `{`; otherwise, or when that parse fails, the trimmed
/// reply becomes the likely context.
pub enum ScreenshotReply {
    /// Parse this text as an analysis; fall back to it as the context.
    Parse(String),
    /// The reply, used as the context.
    Context(String),
}

/// Sorts out a vision reply (see [`ScreenshotReply`]).
pub fn screenshot_reply(content: &str) -> (res: ScreenshotReply)
    ensures
        match res {
            ScreenshotReply::Parse(t) => t@ == trim_seq(content@) && trim_seq(content@).len() > 0
                && trim_seq(content@)[0] == '{',
            ScreenshotReply::Context(t) => t@ == trim_seq(content@) && !(trim_seq(content@).len() > 0
                && trim_seq(content@)[0] == '{'),
        },
{
    let trimmed = trim(content);
    let cs = chars_of(trimmed.as_str());
    if cs.len() > 0 && cs[0] == '{' {
        ScreenshotReply::Parse(trimmed)
    } else {
        ScreenshotReply::Context(trimmed)
    }
}

/// The standard base64 encoding (with padding) of `bytes`, as
/// `base64::engine::general_purpose::STANDARD.encode` gives it.
pub uninterp spec fn base64_standard(bytes: Seq<u8>) -> Seq<char>;

/// Encodes `bytes` in standard base64 with padding
/// (`base64::engine::general_purpose::STANDARD.encode`). The result is
/// named; the contract adds its length, four characters per started group
/// of three bytes, which the padded encoding always has.
#[verifier::external_body]
fn encode_base64(bytes: &[u8]) -> (res: String)
    requires
        4 * ((bytes@.len() + 2) / 3) <= usize::MAX,
    ensures
        res@ == base64_standard(bytes@),
        res@.len() == 4 * ((bytes@.len() + 2) / 3),
{
    base64::Engine::encode(&base64::engine::general_purpose::STANDARD, bytes)
}

/// The request that asks the vision model about a screenshot: the
/// screenshot instructions, then the user's prompt with the image in base64.
pub fn screenshot_request(vision_model: &str, prompt: &str, image_bytes: &[u8]) -> (res: ChatRequest)
    requires
        4 * ((image_bytes@.len() + 2) / 3) <= usize::MAX,
    ensures
        res@ == (ChatRequestView {
            model: vision_model@,
            messages: seq![
                text_message(MessageRole::System, SCREENSHOT_SYSTEM_PROMPT@),
                ChatMessageView {
                    role: MessageRole::User,
                    content: prompt@,
                    images: Some(seq![base64_standard(image_bytes@)]),
                },
            ],
            stream: false,
            temperature_centi: None,
            max_tokens: None,
        }),
{
    let b64 = encode_base64(image_bytes);
    let mut images: Vec<String> = Vec::new();
    images.push(b64);
    let mut messages: Vec<ChatMessage> = Vec::new();
    messages.push(ChatMessage::text(MessageRole::System, own(SCREENSHOT_SYSTEM_PROMPT)));
    messages.push(ChatMessage { role: MessageRole::User, content: own(prompt), images: Some(images) });
    let res = ChatRequest {
        model: ModelId(own(vision_model)),
        messages,
        stream: false,
        temperature_centi: None,
        max_tokens: None,
    };
    assert(views(images@) =~= seq![base64_standard(image_bytes@)]);
    assert(res@.messages =~= seq![
        text_message(MessageRole::System, SCREENSHOT_SYSTEM_PROMPT@),
        ChatMessageView {
            role: MessageRole::User,
            content: prompt@,
            images: Some(seq![base64_standard(image_bytes@)]),
        },
    ]);
    res
}

/// Where the local Ollama server answers when it is up:
/// `http://localhost:11434/`.
pub fn ollama_health_url() -> (res: String)
    ensures
        res@ == "http://localhost:"@ + decimal_seq(DEFAULT_OLLAMA_PORT as nat) + "/"@,
{
    let with_port = concat("http://localhost:", decimal(DEFAULT_OLLAMA_PORT as usize).as_str());
    concat(with_port.as_str(), "/")
}

} // verus!
