//! What a provider can take, and how it wants it.

use vstd::prelude::*;

verus! {

/// How the content of a message is written.
#[derive(Clone, Copy, Debug, PartialEq, Eq, Structural)]
pub enum ContentBlockMode {
    /// As content blocks.
    Standard,
    /// As text alone.
    TextOnly,
    /// As the provider's native message.
    NativeMessage,
}

/// What stands for the content of an assistant message that makes calls and says nothing.
#[derive(Clone, Copy, Debug, PartialEq, Eq, Structural)]
pub enum EmptyAssistantToolContentStrategy {
    Null,
    EmptyString,
    EmptyArray,
}

/// How a request asks for reasoning.
#[derive(Clone, Copy, Debug, PartialEq, Eq, Structural)]
pub enum ReasoningRequestStrategy {
    /// By an effort.
    ReasoningEffort,
    /// By a budget of tokens.
    ThinkingBudget,
}

/// Where a response carries its reasoning.
#[derive(Clone, Copy, Debug, PartialEq, Eq, Structural)]
pub enum StreamReasoningStrategy {
    /// In a field of its own.
    SeparateField,
    /// In the content, between think tags.
    EmbeddedThinkTags,
}

/// How much a model is asked to reason.
#[derive(Clone, Copy, Debug, PartialEq, Eq, Structural)]
pub enum ReasoningEffort {
    Low,
    Medium,
    High,
}

/// What a request says about reasoning.
#[derive(Clone, Copy, Debug, PartialEq, Eq, Structural)]
pub struct ReasoningRequestParts {
    pub reasoning_effort: Option<ReasoningEffort>,
    pub thinking_budget: Option<u32>,
}

} // verus!
