use feverthoth::providers::{
    screenshot_reply, screenshot_request, ScreenshotAnalysis, ScreenshotReply, SCREENSHOT_SYSTEM_PROMPT,
    ollama_model, ollama_models, token_usage, ChatMessage, GeminiProvider, MessageRole, OllamaProvider,
    OpenAiProvider, OpenRouterProvider, ZaiCodingProvider,
};

#[test]
fn openai_defaults_and_models() {
    let p = OpenAiProvider::new("k".to_string(), None, None);
    assert!(p.is_available());
    assert!(!p.is_local());
    assert_eq!(p.id().0, "openai");
    assert_eq!(p.name(), "OpenAI");
    let ms = p.list_models();
    assert_eq!(ms.len(), 2);
    assert_eq!(ms[0].id.0, "gpt-4o");
    assert_eq!(ms[1].name, "GPT-4o Mini");
    assert!(!ms[1].capabilities.supports_reasoning);
    assert_eq!(ms[0].context_window, Some(128000));
    assert!(!OpenAiProvider::codex(String::new()).is_available());
}

#[test]
fn gemini_model_name() {
    let g = GeminiProvider::new("k".to_string(), None);
    let ms = g.list_models();
    assert_eq!(ms[0].id.0, "gemini-2.0-flash");
    assert_eq!(ms[0].name, "Gemini (gemini-2.0-flash)");
    let g2 = GeminiProvider::new(String::new(), Some("pro".to_string()));
    assert_eq!(g2.list_models()[0].name, "Gemini (pro)");
    assert!(!g2.is_available());
}

#[test]
fn openrouter_and_zai() {
    let o = OpenRouterProvider::new("k".to_string(), None);
    let m = &o.list_models()[0];
    assert_eq!(m.id.0, "openrouter/auto");
    assert_eq!(m.name, "openrouter/auto");
    assert!(!m.capabilities.supports_vision);
    let z = ZaiCodingProvider::new("k".to_string());
    let zm = &z.list_models()[0];
    assert_eq!(zm.id.0, "zai-coding-plan");
    assert!(zm.capabilities.supports_mcp_bridge);
    assert_eq!(z.id().0, "zai");
}

#[test]
fn ollama_defaults() {
    let p = OllamaProvider::with_default();
    assert_eq!(p.url(), "http://localhost");
    assert_eq!(p.port(), 11434);
    assert_eq!(p.vision_model(), "qwen2.5vl");
    assert_eq!(p.default_model(), "llama3.2");
    assert!(p.is_local());
    let q = OllamaProvider::new(Some("http://box"), Some(1), None, Some("mistral"));
    assert_eq!(q.url(), "http://box");
    assert_eq!(q.port(), 1);
    assert_eq!(q.default_model(), "mistral");
}

#[test]
fn local_model_capabilities_from_name() {
    let v = ollama_model("qwen2.5vl:7b".to_string());
    assert!(v.capabilities.supports_vision);
    assert!(!v.capabilities.supports_reasoning);
    assert_eq!(v.provider.0, "ollama");
    assert!(v.context_window.is_none());
    assert!(ollama_model("llava".to_string()).capabilities.supports_vision);
    let r = ollama_model("deepseek-reasoner".to_string());
    assert!(r.capabilities.supports_reasoning && !r.capabilities.supports_vision);
    let plain = ollama_model("llama3.2".to_string());
    assert!(!plain.capabilities.supports_vision && !plain.capabilities.supports_reasoning);
    let all = ollama_models(vec!["a".to_string(), "think-x".to_string()]);
    assert_eq!(all.len(), 2);
    assert_eq!(all[1].name, "think-x");
    assert!(all[1].capabilities.supports_reasoning);
}

#[test]
fn usage_totals() {
    let u = token_usage(10, 32);
    assert_eq!(u.prompt_tokens, 10);
    assert_eq!(u.completion_tokens, 32);
    assert_eq!(u.total_tokens, 42);
}

#[test]
fn text_messages_have_no_images() {
    let m = ChatMessage::text(MessageRole::User, "hi".to_string());
    assert_eq!(m.content, "hi");
    assert!(m.images.is_none());
}

#[test]
fn screenshot_request_carries_base64_image() {
    let r = screenshot_request("qwen2.5vl", "what is shown?", &[1, 2, 3, 255]);
    assert_eq!(r.model.0, "qwen2.5vl");
    assert_eq!(r.messages.len(), 2);
    assert_eq!(r.messages[0].role, MessageRole::System);
    assert_eq!(r.messages[0].content, SCREENSHOT_SYSTEM_PROMPT);
    assert_eq!(r.messages[1].content, "what is shown?");
    assert_eq!(r.messages[1].images.as_ref().unwrap(), &vec!["AQID/w==".to_string()]);
    assert!(!r.stream);
}

#[test]
fn screenshot_replies_sorted_out() {
    assert!(matches!(screenshot_reply("  {\"a\":1} \n"), ScreenshotReply::Parse(t) if t == "{\"a\":1}"));
    assert!(matches!(screenshot_reply(" a login form "), ScreenshotReply::Context(t) if t == "a login form"));
    let a = ScreenshotAnalysis::from_reply("ctx".to_string());
    assert_eq!(a.likely_context, "ctx");
    assert!(a.visible_text.is_empty() && a.relevant_regions.is_empty());
}

#[test]
fn health_url_uses_default_port() {
    assert_eq!(feverthoth::providers::ollama_health_url(), "http://localhost:11434/");
}
