use std::path::PathBuf;
use feverthoth::info::{app_info, CoreError, PACKAGE_NAME, PACKAGE_VERSION};
use feverthoth::mcp::{McpManager, McpProviderType};
use feverthoth::registry::ProviderRegistry;
use feverthoth::providers::{ProviderId};
use feverthoth::security::{AuditEntry, SecurityManager};
use feverthoth::settings::{AppMode, PrivacyMode, Settings, SettingsManager};
use feverthoth::terminal::select_shells;
use feverthoth::workspace::{arrange_entries, name_for, FileEntry, Workspace, WorkspaceManager, MAX_RECENT};

#[test]
fn mcp_defaults_disabled() {
    let m = McpManager::new();
    let ps = m.list_providers();
    assert_eq!(ps.len(), 2);
    assert_eq!(ps[0].name, "Chrome DevTools MCP");
    assert_eq!(ps[0].provider_type, McpProviderType::Chrome);
    assert_eq!(ps[1].command, "playwright-mcp");
    assert!(ps.iter().all(|p| !p.enabled));
}

#[test]
fn mcp_enable_disable_only_touches_named() {
    let mut m = McpManager::default();
    m.enable("playwright");
    {
        let ps = m.list_providers();
        assert!(!ps[0].enabled);
        assert!(ps[1].enabled);
    }
    m.enable("unknown");
    m.disable("playwright");
    m.disable("playwright");
    let ps = m.list_providers();
    assert!(!ps[0].enabled && !ps[1].enabled);
    assert_eq!(ps[1].name, "Playwright MCP");
}

fn entry(action: &str) -> AuditEntry {
    AuditEntry {
        timestamp: "t".to_string(),
        action: action.to_string(),
        provider: None,
        model: None,
        details: String::new(),
        approved: true,
    }
}

#[test]
fn audit_log_appends() {
    let mut s = SecurityManager::new();
    assert!(s.audit_log().is_empty());
    s.log_action(entry("a"));
    s.log_action(entry("b"));
    let log = s.audit_log();
    assert_eq!(log.len(), 2);
    assert_eq!(log[0].action, "a");
    assert_eq!(log[1].action, "b");
}

#[test]
fn upload_prompting_by_mode() {
    let s = SecurityManager::default();
    assert!(s.should_prompt_for_upload("strict", false));
    assert!(s.should_prompt_for_upload("strict", true));
    assert!(s.should_prompt_for_upload("balanced", true));
    assert!(!s.should_prompt_for_upload("balanced", false));
    assert!(!s.should_prompt_for_upload("open", true));
    assert!(s.should_prompt_for_upload("weird", false));
}

#[test]
fn redaction_in_order() {
    assert_eq!(
        SecurityManager::redact_secrets("key=abc123 and abc123", &["abc123"]),
        "key=[REDACTED] and [REDACTED]"
    );
    assert_eq!(SecurityManager::redact_secrets("clean text", &["secret"]), "clean text");
    assert_eq!(SecurityManager::redact_secrets("aaa", &[]), "aaa");
    assert_eq!(
        SecurityManager::redact_secrets("token sk-1", &["sk-1", "REDACTED"]),
        "token [[REDACTED]]"
    );
}

fn ws(root: &str, id: &str) -> Workspace {
    Workspace {
        id: id.to_string(),
        name: root.to_string(),
        root_path: PathBuf::from(root),
        open_files: vec![],
        recent_files: vec![],
        last_opened: String::new(),
    }
}

#[test]
fn open_names_workspace_by_last_component() {
    let mut m = WorkspaceManager::new();
    let w = m.open(PathBuf::from("/home/me/project"));
    assert_eq!(w.name, "project");
    assert_eq!(w.root_path, PathBuf::from("/home/me/project"));
    assert!(w.open_files.is_empty());
    assert!(!w.id.is_empty());
    assert!(m.current().is_some());
    m.close();
    assert!(m.current().is_none());
    let root = m.open(PathBuf::from("/"));
    assert_eq!(root.name, "Untitled");
    let up = m.open(PathBuf::from("a/.."));
    assert_eq!(up.name, "Untitled");
}

#[test]
fn name_defaults_to_untitled() {
    assert_eq!(name_for(None), "Untitled");
    assert_eq!(name_for(Some("x".to_string())), "x");
}

#[test]
fn recent_list_moves_to_front_and_caps() {
    let mut m = WorkspaceManager::default();
    for i in 0..12 {
        m.add_recent(ws(&format!("/p{}", i), "x"));
    }
    assert_eq!(m.recent_workspaces().len(), MAX_RECENT);
    assert_eq!(m.recent_workspaces()[0].root_path, PathBuf::from("/p11"));
    assert_eq!(m.recent_workspaces()[9].root_path, PathBuf::from("/p2"));
    m.add_recent(ws("/p5", "again"));
    let r = m.recent_workspaces();
    assert_eq!(r.len(), MAX_RECENT);
    assert_eq!(r[0].root_path, PathBuf::from("/p5"));
    assert_eq!(r[0].id, "again");
    assert_eq!(r.iter().filter(|w| w.root_path == PathBuf::from("/p5")).count(), 1);
    assert_eq!(r[1].root_path, PathBuf::from("/p11"));
}

fn fe(name: &str, dir: bool) -> FileEntry {
    FileEntry { name: name.to_string(), path: PathBuf::from(format!("/d/{}", name)), is_dir: dir, children: None, size: None }
}

#[test]
fn listing_dirs_first_by_lowercase_name() {
    let entries = vec![
        fe("b.txt", false),
        fe(".git", true),
        fe("Src", true),
        fe("a.txt", false),
        fe("docs", true),
        fe(".env", false),
        fe("B.md", false),
    ];
    let out = arrange_entries(entries);
    let names: Vec<&str> = out.iter().map(|e| e.name.as_str()).collect();
    assert_eq!(names, vec!["docs", "Src", "a.txt", "B.md", "b.txt"]);
}

#[test]
fn listing_keeps_ties_in_order() {
    let out = arrange_entries(vec![fe("README", false), fe("readme", false), fe("Readme", false)]);
    let names: Vec<&str> = out.iter().map(|e| e.name.as_str()).collect();
    assert_eq!(names, vec!["README", "readme", "Readme"]);
    assert!(arrange_entries(vec![]).is_empty());
}

#[test]
fn settings_defaults() {
    let s = Settings::default();
    assert_eq!(s.general.mode, AppMode::Simple);
    assert_eq!(s.general.auto_save_delay_ms, 1000);
    assert_eq!(s.editor.font_family, "Fira Code");
    assert_eq!(s.editor.tab_size, 4);
    assert_eq!(s.terminal.cursor_style, "block");
    assert_eq!(s.ai.ollama_port, 11434);
    assert_eq!(s.ai.privacy_mode, PrivacyMode::Balanced);
    assert_eq!(s.ai.privacy_mode.name(), "balanced");
    assert_eq!(s.appearance.theme, "frutiger-light");
    assert!(s.extra.is_empty());
}

#[test]
fn settings_update_keeps_path() {
    let mut m = SettingsManager::new(Settings::default(), "/cfg/settings.json".to_string());
    let mut s = Settings::default();
    s.editor.font_size = 18;
    m.update(s);
    assert_eq!(m.get().editor.font_size, 18);
    assert_eq!(m.path(), "/cfg/settings.json");
}

#[test]
fn registry_register_get_unregister() {
    let mut r: ProviderRegistry<&str> = ProviderRegistry::new();
    r.register(ProviderId("ollama".to_string()), "local");
    r.register(ProviderId("openai".to_string()), "cloud");
    assert_eq!(r.get(&ProviderId("ollama".to_string())), Some(&"local"));
    r.register(ProviderId("ollama".to_string()), "local2");
    assert_eq!(r.get(&ProviderId("ollama".to_string())), Some(&"local2"));
    assert_eq!(r.list_providers().len(), 2);
    r.unregister(&ProviderId("ollama".to_string()));
    assert!(r.get(&ProviderId("ollama".to_string())).is_none());
    assert_eq!(r.get(&ProviderId("openai".to_string())), Some(&"cloud"));
    assert_eq!(r.list_providers(), vec![&"cloud"]);
}

#[test]
fn shells_chosen_or_default() {
    let cands = vec!["/bin/zsh".to_string(), "/bin/bash".to_string(), "/bin/sh".to_string()];
    assert_eq!(
        select_shells(cands.clone(), &[false, true, true], "/x".to_string()),
        vec!["/bin/bash".to_string(), "/bin/sh".to_string()]
    );
    assert_eq!(select_shells(cands, &[false, false, false], "/x".to_string()), vec!["/x".to_string()]);
}

#[test]
fn app_info_and_errors() {
    let i = app_info();
    assert_eq!(i.name, PACKAGE_NAME);
    assert_eq!(i.version, PACKAGE_VERSION);
    assert_eq!(i.mode, "simple");
    assert_eq!(CoreError::NotFound("file".to_string()).message(), "Not found: file");
    assert_eq!(CoreError::Io("disk".to_string()).message(), "IO error: disk");
    assert_eq!(CoreError::Cancelled.message(), "Cancelled");
    assert_eq!(CoreError::Lsp("down".to_string()).message(), "LSP error: down");
}

#[test]
fn default_provider_prefers_ollama() {
    let mut r: ProviderRegistry<u32> = ProviderRegistry::new();
    assert!(r.default_provider().is_none());
    r.register(ProviderId("openai".to_string()), 1);
    assert_eq!(r.default_provider(), Some(&1));
    r.register(ProviderId("ollama".to_string()), 2);
    assert_eq!(r.default_provider(), Some(&2));
}

#[test]
fn greeting() {
    assert_eq!(feverthoth::info::greet("Ada"), "Welcome to FeverThoth IDE, Ada!");
}

#[test]
fn estimate_fits_small_context() {
    let mut a = feverthoth::context::ContextAssembler::new();
    assert!(a.estimate_fits());
    a.add_source(feverthoth::context::ContextKind::GitDiff, "diff".to_string());
    assert!(a.estimate_fits());
}

#[test]
fn recent_roots_compare_as_paths() {
    let mut m = WorkspaceManager::new();
    m.add_recent(ws("/a/", "old"));
    m.add_recent(ws("/x//y", "old2"));
    m.add_recent(ws("/a", "new"));
    m.add_recent(ws("/x/y/", "new2"));
    let r = m.recent_workspaces();
    assert_eq!(r.len(), 2);
    assert_eq!(r[0].id, "new2");
    assert_eq!(r[1].id, "new");
    m.add_recent(ws("/a/./", "third"));
    assert_eq!(m.recent_workspaces().len(), 2);
    assert_eq!(m.recent_workspaces()[0].id, "third");
}
