//! Tools the agent can invoke.

pub mod browser;
pub mod servicor;

use vstd::prelude::*;

verus! {

/// What a tool hands back to the agent.
#[derive(Debug, Clone, PartialEq, Eq)]
pub struct ToolResult {
    pub content: String,
    pub is_error: bool,
}

impl ToolResult {
    /// A result that reports success.
    pub fn success(content: String) -> (r: Self)
        ensures
            r.content == content,
            !r.is_error,
    {
        ToolResult { content, is_error: false }
    }

    /// A result that reports failure.
    pub fn error(content: String) -> (r: Self)
        ensures
            r.content == content,
            r.is_error,
    {
        ToolResult { content, is_error: true }
    }
}

} // verus!
