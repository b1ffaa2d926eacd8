//! MCP (Model Context Protocol) provider configurations and their manager.

use vstd::prelude::*;
use crate::json::JsonValue;
use crate::text::{own, str_eq, views};

verus! {

/// A tool offered by an MCP provider.
#[derive(Debug)]
pub struct McpTool {
    pub name: String,
    pub description: String,
    pub input_schema: JsonValue,
}

/// A call of an MCP tool.
#[derive(Debug)]
pub struct McpToolCall {
    pub tool_name: String,
    pub arguments: JsonValue,
}

/// What an MCP tool call gave back.
#[derive(Debug, Clone)]
pub struct McpToolResult {
    pub content: String,
    pub is_error: bool,
}

/// The kind of an MCP provider.
#[derive(Debug, Clone, Copy, PartialEq, Eq, Structural)]
pub enum McpProviderType {
    Chrome,
    Playwright,
    ThinkIn,
    Agent,
    Custom,
}

/// How to start an MCP provider. `env` holds the extra environment
/// variables as name/value pairs.
#[derive(Debug, Clone)]
pub struct McpProviderConfig {
    pub name: String,
    pub provider_type: McpProviderType,
    pub command: String,
    pub args: Vec<String>,
    pub env: Vec<(String, String)>,
    pub enabled: bool,
}

pub struct McpProviderConfigView {
    pub name: Seq<char>,
    pub provider_type: McpProviderType,
    pub command: Seq<char>,
    pub args: Seq<Seq<char>>,
    pub env: Seq<(Seq<char>, Seq<char>)>,
    pub enabled: bool,
}

impl View for McpProviderConfig {
    type V = McpProviderConfigView;

    open spec fn view(&self) -> McpProviderConfigView {
        McpProviderConfigView {
            name: self.name@,
            provider_type: self.provider_type,
            command: self.command@,
            args: views(self.args@),
            env: self.env@.map_values(|p: (String, String)| (p.0@, p.1@)),
            enabled: self.enabled,
        }
    }
}

/// A provider with no arguments or environment, switched off.
pub open spec fn disabled_provider(
    name: Seq<char>,
    provider_type: McpProviderType,
    command: Seq<char>,
) -> McpProviderConfigView {
    McpProviderConfigView {
        name,
        provider_type,
        command,
        args: seq![],
        env: seq![],
        enabled: false,
    }
}

/// The providers a new manager knows, by key: Chrome DevTools and
/// Playwright, both switched off.
pub open spec fn default_providers() -> Seq<(Seq<char>, McpProviderConfigView)> {
    seq![
        ("chrome"@, disabled_provider("Chrome DevTools MCP"@, McpProviderType::Chrome, "chrome-devtools-mcp"@)),
        ("playwright"@, disabled_provider("Playwright MCP"@, McpProviderType::Playwright, "playwright-mcp"@)),
    ]
}

/// The provider table with the provider under key `key` switched to
/// `enabled`; every other entry, and every other field, as it was.
pub open spec fn set_enabled(
    table: Seq<(Seq<char>, McpProviderConfigView)>,
    key: Seq<char>,
    enabled: bool,
) -> Seq<(Seq<char>, McpProviderConfigView)> {
    table.map_values(
        |e: (Seq<char>, McpProviderConfigView)|
            if e.0 == key {
                (e.0, McpProviderConfigView { enabled, ..e.1 })
            } else {
                e
            },
    )
}

/// Whether no key occurs twice in a table.
pub open spec fn keys_unique<V>(table: Seq<(Seq<char>, V)>) -> bool {
    forall|i: int, j: int| 0 <= i < j < table.len() ==> #[trigger] table[i].0 != #[trigger] table[j].0
}

/// The MCP providers the application knows, each under its key.
pub struct McpManager {
    providers: Vec<(String, McpProviderConfig)>,
}

impl McpManager {
    /// The providers with their keys, in table order.
    pub closed spec fn table(&self) -> Seq<(Seq<char>, McpProviderConfigView)> {
        self.providers@.map_values(|e: (String, McpProviderConfig)| (e.0@, e.1@))
    }

    #[verifier::type_invariant]
    closed spec fn keys_distinct(&self) -> bool {
        keys_unique(self.table())
    }

    /// A manager that knows the default providers.
    pub fn new() -> (res: Self)
        ensures
            res.table() == default_providers(),
    {
        let mut providers: Vec<(String, McpProviderConfig)> = Vec::new();
        providers.push(
            (
                own("chrome"),
                McpProviderConfig {
                    name: own("Chrome DevTools MCP"),
                    provider_type: McpProviderType::Chrome,
                    command: own("chrome-devtools-mcp"),
                    args: Vec::new(),
                    env: Vec::new(),
                    enabled: false,
                },
            ),
        );
        providers.push(
            (
                own("playwright"),
                McpProviderConfig {
                    name: own("Playwright MCP"),
                    provider_type: McpProviderType::Playwright,
                    command: own("playwright-mcp"),
                    args: Vec::new(),
                    env: Vec::new(),
                    enabled: false,
                },
            ),
        );
        proof {
            let t = providers@.map_values(|e: (String, McpProviderConfig)| (e.0@, e.1@));
            assert(t[0].1.args =~= seq![]);
            assert(t[0].1.env =~= seq![]);
            assert(t[1].1.args =~= seq![]);
            assert(t[1].1.env =~= seq![]);
            assert(t =~= default_providers());
            reveal_strlit("chrome");
            reveal_strlit("playwright");
            assert("chrome"@.len() != "playwright"@.len());
        }
        McpManager { providers }
    }

    /// Every known provider, in table order.
    pub fn list_providers(&self) -> (res: Vec<&McpProviderConfig>)
        ensures
            res@.len() == self.table().len(),
            forall|i: int| 0 <= i < res@.len() ==> (#[trigger] res@[i])@ == self.table()[i].1,
    {
        let mut res: Vec<&McpProviderConfig> = Vec::new();
        let mut i: usize = 0;
        while i < self.providers.len()
            invariant
                i <= self.providers@.len(),
                res@.len() == i,
                forall|k: int| 0 <= k < i ==> (#[trigger] res@[k])@ == self.table()[k].1,
            decreases self.providers@.len() - i,
        {
            res.push(&self.providers[i].1);
            i += 1;
        }
        res
    }

    /// Switches on the provider under `key`; an unknown key changes nothing.
    pub fn enable(&mut self, key: &str)
        ensures
            final(self).table() == set_enabled(old(self).table(), key@, true),
    {
        self.set_flag(key, true);
    }

    /// Switches off the provider under `key`; an unknown key changes nothing.
    pub fn disable(&mut self, key: &str)
        ensures
            final(self).table() == set_enabled(old(self).table(), key@, false),
    {
        self.set_flag(key, false);
    }

    fn set_flag(&mut self, key: &str, enabled: bool)
        ensures
            final(self).table() == set_enabled(old(self).table(), key@, enabled),
    {
        proof {
            use_type_invariant(&*self);
        }
        let ghost before = self.table();
        let mut providers: Vec<(String, McpProviderConfig)> = Vec::new();
        std::mem::swap(&mut providers, &mut self.providers);
        let ghost initial = providers@;
        let mut i: usize = 0;
        while i < providers.len()
            invariant
                i <= providers@.len(),
                providers@.len() == initial.len(),
                before == initial.map_values(|e: (String, McpProviderConfig)| (e.0@, e.1@)),
                forall|k: int|
                    0 <= k < providers@.len() ==> (#[trigger] providers@[k]).0@ == initial[k].0@,
                forall|k: int|
                    i <= k < providers@.len() ==> #[trigger] providers@[k] == initial[k],
                forall|k: int|
                    0 <= k < i ==> (providers@[k].0@, (#[trigger] providers@[k]).1@) == set_enabled(
                        before,
                        key@,
                        enabled,
                    )[k],
            decreases providers@.len() - i,
        {
            if str_eq(providers[i].0.as_str(), key) {
                let mut entry = providers.remove(i);
                entry.1.enabled = enabled;
                providers.insert(i, entry);
            }
            i += 1;
        }
        proof {
            let t = providers@.map_values(|e: (String, McpProviderConfig)| (e.0@, e.1@));
            assert(t =~= set_enabled(before, key@, enabled));
            assert(keys_unique(t));
        }
        self.providers = providers;
    }
}

impl Default for McpManager {
    fn default() -> (res: Self)
        ensures
            res.table() == default_providers(),
    {
        McpManager::new()
    }
}

/// Switching a provider on or off only touches that provider's flag: the
/// keys, the other providers and all other fields stay as they were.
pub proof fn law_switch_touches_only_flag(
    table: Seq<(Seq<char>, McpProviderConfigView)>,
    key: Seq<char>,
    enabled: bool,
)
    ensures
        set_enabled(table, key, enabled).len() == table.len(),
        forall|i: int|
            0 <= i < table.len() ==> {
                let after = #[trigger] set_enabled(table, key, enabled)[i];
                &&& after.0 == table[i].0
                &&& after.1.name == table[i].1.name
                &&& after.1.provider_type == table[i].1.provider_type
                &&& after.1.command == table[i].1.command
                &&& after.1.args == table[i].1.args
                &&& after.1.env == table[i].1.env
                &&& after.1.enabled == if table[i].0 == key {
                    enabled
                } else {
                    table[i].1.enabled
                }
            },
{
}

/// The last switch wins: switching a provider twice is the same as
/// switching it once to the second setting.
pub proof fn law_last_switch_wins(
    table: Seq<(Seq<char>, McpProviderConfigView)>,
    key: Seq<char>,
    first: bool,
    second: bool,
)
    ensures
        set_enabled(set_enabled(table, key, first), key, second) == set_enabled(table, key, second),
{
    assert(set_enabled(set_enabled(table, key, first), key, second) =~= set_enabled(
        table,
        key,
        second,
    ));
}

/// A new manager knows exactly the two built-in providers, both off.
pub proof fn law_defaults_start_disabled()
    ensures
        default_providers().len() == 2,
        forall|i: int| 0 <= i < 2 ==> !(#[trigger] default_providers()[i]).1.enabled,
{
}

} // verus!
