//! Execution backends and the selector strings that name them.

use vstd::prelude::*;
use vstd::string::*;

verus! {

/// The backend that drives an asynchronous call to completion.
#[derive(Clone, Copy, Debug, PartialEq, Eq, Structural)]
pub enum BackendProfile {
    /// A fresh runtime is built for every call and blocks on the future.
    Tokio,
    /// The future is handed to the global blocking entry point.
    AsyncStd,
}

/// A statement that prepares the backend before the blocking call.
#[derive(Clone, Copy, Debug, PartialEq, Eq, Structural)]
pub enum SetupStatement {
    /// `use tokio::runtime::Runtime;`
    UseRuntime,
    /// `let mut rt = Runtime::new().unwrap();`: a runtime of its own for this call.
    NewRuntime,
    /// `use async_std::task;`
    UseTask,
}

/// The entry point that blocks on the call.
#[derive(Clone, Copy, Debug, PartialEq, Eq, Structural)]
pub enum BlockingEntry {
    /// `rt.block_on(..)` on the runtime that the setup built.
    OnRuntime,
    /// `task::block_on(..)`, the global entry point.
    GlobalTask,
}

/// The selector was neither `tokio` nor `async-std`.
#[derive(Debug, PartialEq, Eq)]
pub struct ConfigError {
    /// The selector as it was given.
    pub selector: String,
}

/// The backend that a selector names, if it names one.
pub open spec fn spec_resolve(selector: Seq<char>) -> Option<BackendProfile> {
    if selector == "tokio"@ {
        Some(BackendProfile::Tokio)
    } else if selector == "async-std"@ {
        Some(BackendProfile::AsyncStd)
    } else {
        None
    }
}

/// Interprets a selector: `tokio` and `async-std` name a backend, every
/// other string is an error that carries the selector.
pub fn resolve(selector: &str) -> (r: Result<BackendProfile, ConfigError>)
    ensures
        match spec_resolve(selector@) {
            Some(p) => r == Ok::<BackendProfile, ConfigError>(p),
            None => r matches Err(e) && e.selector@ == selector@,
        },
{
    let given = String::from_str(selector);
    if given == String::from_str("tokio") {
        Ok(BackendProfile::Tokio)
    } else if given == String::from_str("async-std") {
        Ok(BackendProfile::AsyncStd)
    } else {
        Err(ConfigError { selector: given })
    }
}

impl BackendProfile {
    /// The statements that prepare this backend, in order.
    pub open spec fn spec_setup(self) -> Seq<SetupStatement> {
        match self {
            BackendProfile::Tokio => seq![SetupStatement::UseRuntime, SetupStatement::NewRuntime],
            BackendProfile::AsyncStd => seq![SetupStatement::UseTask],
        }
    }

    /// The entry point that this backend blocks with.
    pub open spec fn spec_entry(self) -> BlockingEntry {
        match self {
            BackendProfile::Tokio => BlockingEntry::OnRuntime,
            BackendProfile::AsyncStd => BlockingEntry::GlobalTask,
        }
    }

    /// The selector that names this backend.
    pub open spec fn spec_selector(self) -> Seq<char> {
        match self {
            BackendProfile::Tokio => "tokio"@,
            BackendProfile::AsyncStd => "async-std"@,
        }
    }

    /// The statements that prepare this backend: Tokio imports the runtime
    /// type and builds a runtime, async-std imports the task module.
    pub fn setup(self) -> (r: Vec<SetupStatement>)
        ensures
            r@ == self.spec_setup(),
    {
        let mut out: Vec<SetupStatement> = Vec::new();
        match self {
            BackendProfile::Tokio => {
                out.push(SetupStatement::UseRuntime);
                out.push(SetupStatement::NewRuntime);
            },
            BackendProfile::AsyncStd => {
                out.push(SetupStatement::UseTask);
            },
        }
        out
    }

    /// The entry point that this backend blocks with.
    pub fn entry(self) -> (r: BlockingEntry)
        ensures
            r == self.spec_entry(),
    {
        match self {
            BackendProfile::Tokio => BlockingEntry::OnRuntime,
            BackendProfile::AsyncStd => BlockingEntry::GlobalTask,
        }
    }

    /// The selector that names this backend.
    pub fn selector(self) -> (r: &'static str)
        ensures
            r@ == self.spec_selector(),
    {
        match self {
            BackendProfile::Tokio => "tokio",
            BackendProfile::AsyncStd => "async-std",
        }
    }
}

impl ConfigError {
    /// The text that reports the error.
    pub fn message(&self) -> (r: String)
        ensures
            r@ == "Only `tokio` and `async-std` backends are supported!"@,
    {
        String::from_str("Only `tokio` and `async-std` backends are supported!")
    }
}

/// Every backend is named by its own selector, and by no other string.
pub proof fn lemma_selector_names_backend(profile: BackendProfile, selector: Seq<char>)
    ensures
        spec_resolve(selector) == Some(profile) <==> selector == profile.spec_selector(),
{
    reveal_strlit("tokio");
    reveal_strlit("async-std");
    assert("tokio"@.len() == 5);
    assert("async-std"@.len() == 9);
}

} // verus!
