//! The model's answers as the browsing agent's client reports them.

use vstd::prelude::*;

verus! {

/// A tool call the model asked for.
#[derive(Debug, Clone, PartialEq)]
pub struct FunctionCall {
    pub id: String,
    pub arguments: String,
    pub name: String,
}

/// Token counts of a request.
#[derive(Debug, Clone, Copy, PartialEq, Eq, Structural)]
pub struct RequestUsage {
    pub prompt_tokens: u32,
    pub completion_tokens: u32,
}

/// What the model produced.
#[derive(Debug, Clone)]
pub enum LLMOutput {
    Text(String),
    FunctionCalls(Vec<FunctionCall>),
}

} // verus!
