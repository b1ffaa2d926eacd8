//! Core logic of the FeverThoth IDE: permissions, model routing, context
//! assembly, the agent pipeline state machine, and the parsers behind the
//! git, LSP and provider integrations.

pub mod agents;
pub mod context;
pub mod events;
pub mod git;
pub mod ids;
pub mod json;
pub mod lsp;
pub mod mcp;
pub mod permissions;
pub mod pipeline;
pub mod prompts;
pub mod providers;
pub mod routing;
pub mod security;
pub mod text;
pub mod workspace;
pub mod settings;
pub mod info;
pub mod terminal;
pub mod registry;
