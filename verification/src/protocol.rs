//! The conversation items, stream events and tool-call values that the
//! advisor reads and produces.
use vstd::prelude::*;

verus! {

/// One part of a message's content.
#[derive(Clone, Debug, PartialEq, Eq)]
pub enum ContentItem {
    /// Text written by the user or injected as input.
    InputText { text: String },
    /// An image attached to the input.
    InputImage { image_url: String },
    /// Text produced by a model.
    OutputText { text: String },
}

/// One item of a conversation's history, or of a model's output.
#[derive(Clone, Debug, PartialEq, Eq)]
#[allow(inconsistent_fields)]
pub enum ResponseItem {
    /// A message with a role (`user`, `assistant`, `developer`, `system`, ...).
    Message { role: String, content: Vec<ContentItem> },
    /// A tool call made by the model.
    FunctionCall { name: String, arguments: String, call_id: String },
    /// The result handed back for a tool call. `text_content` is the result's
    /// text, when the result is text.
    FunctionCallOutput { call_id: String, name: Option<String>, text_content: Option<String> },
    /// Any other kind of item (reasoning, searches, ...), which the advisor does
    /// not read.
    Other,
}

/// An error returned to the model in place of a tool's output.
#[derive(Clone, Debug, PartialEq, Eq)]
pub enum FunctionCallError {
    RespondToModel(String),
}

impl FunctionCallError {
    /// The message that the model receives.
    pub open spec fn message(self) -> Seq<char> {
        match self {
            FunctionCallError::RespondToModel(m) => m@,
        }
    }
}

/// The payload with which a tool is invoked.
#[derive(Clone, Debug, PartialEq, Eq)]
pub enum ToolPayload {
    /// A function call, with its JSON arguments as text.
    Function { arguments: String },
    /// A free-form call, with its raw input.
    Custom { input: String },
}

/// Base instructions given to a model with a prompt.
#[derive(Clone, Debug, PartialEq, Eq)]
pub struct BaseInstructions {
    pub text: String,
}

/// What is sent to a model: the input items, the tools it may call, and
/// the base instructions.
#[derive(Debug, PartialEq, Eq)]
pub struct Prompt {
    pub input: Vec<ResponseItem>,
    pub tools: Vec<crate::tool_spec::ToolSpec>,
    pub base_instructions: BaseInstructions,
}

/// A reasoning item shown to the user while a tool works.
#[derive(Clone, Debug, PartialEq, Eq)]
pub struct ReasoningItem {
    pub id: String,
    pub summary_text: Vec<String>,
    pub raw_content: Vec<String>,
}

/// The output of a function tool: its text and whether it succeeded.
#[derive(Clone, Debug, PartialEq, Eq)]
pub struct FunctionToolOutput {
    pub text: String,
    pub success: Option<bool>,
}

/// How much reasoning a model is asked for.
#[derive(Clone, Copy, Debug, PartialEq, Eq)]
pub enum ReasoningEffort {
    Minimal,
    Low,
    Medium,
    High,
}

/// Which summary of its reasoning a model is asked for.
#[derive(Clone, Copy, Debug, PartialEq, Eq)]
pub enum ReasoningSummary {
    Auto,
    Concise,
    Detailed,
    /// No summary (the `none` setting).
    Disabled,
}

/// An event of a model's response stream.
#[derive(Clone, Debug, PartialEq, Eq)]
pub enum ResponseEvent {
    /// An output item is complete.
    OutputItemDone(ResponseItem),
    /// The response is complete.
    Completed,
    /// Any other event (creation, deltas, rate limits, ...).
    Other,
}

} // verus!
