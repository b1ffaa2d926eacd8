//! What the application says about itself, and the errors its parts report.

use vstd::prelude::*;
use crate::text::{concat, own};

verus! {

/// The interface mode of the application.
#[derive(Debug, Clone, Copy, PartialEq, Eq, Structural)]
pub enum AppMode {
    Simple,
    Advanced,
}

/// Name, version and mode of the application.
#[derive(Debug, Clone)]
pub struct AppInfo {
    pub name: String,
    pub version: String,
    pub mode: String,
}

/// The package name.
pub const PACKAGE_NAME: &'static str = "feverthoth";

/// The package version.
pub const PACKAGE_VERSION: &'static str = "0.1.0";

/// The package's name and version, in simple mode.
pub fn app_info() -> (res: AppInfo)
    ensures
        res.name@ == PACKAGE_NAME@,
        res.version@ == PACKAGE_VERSION@,
        res.mode@ == "simple"@,
{
    AppInfo { name: own(PACKAGE_NAME), version: own(PACKAGE_VERSION), mode: own("simple") }
}

/// An error of one of the application's parts, with the text of its cause.
#[derive(Debug, Clone)]
pub enum CoreError {
    Io(String),
    Serialization(String),
    Provider(String),
    Lsp(String),
    Workspace(String),
    Settings(String),
    Security(String),
    NotFound(String),
    AlreadyExists(String),
    Cancelled,
}

/// The message an error is shown with: the kind of error, a colon, and its
/// cause.
pub open spec fn error_message(e: CoreError) -> Seq<char> {
    match e {
        CoreError::Io(m) => "IO error: "@ + m@,
        CoreError::Serialization(m) => "Serialization error: "@ + m@,
        CoreError::Provider(m) => "Provider error: "@ + m@,
        CoreError::Lsp(m) => "LSP error: "@ + m@,
        CoreError::Workspace(m) => "Workspace error: "@ + m@,
        CoreError::Settings(m) => "Settings error: "@ + m@,
        CoreError::Security(m) => "Security error: "@ + m@,
        CoreError::NotFound(m) => "Not found: "@ + m@,
        CoreError::AlreadyExists(m) => "Already exists: "@ + m@,
        CoreError::Cancelled => "Cancelled"@,
    }
}

impl CoreError {
    /// The message the error is shown with.
    pub fn message(&self) -> (res: String)
        ensures
            res@ == error_message(*self),
    {
        match self {
            CoreError::Io(m) => concat("IO error: ", m.as_str()),
            CoreError::Serialization(m) => concat("Serialization error: ", m.as_str()),
            CoreError::Provider(m) => concat("Provider error: ", m.as_str()),
            CoreError::Lsp(m) => concat("LSP error: ", m.as_str()),
            CoreError::Workspace(m) => concat("Workspace error: ", m.as_str()),
            CoreError::Settings(m) => concat("Settings error: ", m.as_str()),
            CoreError::Security(m) => concat("Security error: ", m.as_str()),
            CoreError::NotFound(m) => concat("Not found: ", m.as_str()),
            CoreError::AlreadyExists(m) => concat("Already exists: ", m.as_str()),
            CoreError::Cancelled => own("Cancelled"),
        }
    }
}


/// The welcome line for a user: `Welcome to FeverThoth IDE, <name>!`.
pub fn greet(name: &str) -> (res: String)
    ensures
        res@ == "Welcome to FeverThoth IDE, "@ + name@ + "!"@,
{
    let head = concat("Welcome to FeverThoth IDE, ", name);
    concat(head.as_str(), "!")
}

} // verus!
