//! Advisor consultation for a coding agent: the bounded transcript and
//! request handed to a second model, the tool specifications, the advice
//! collected from its response stream, and the advisor model picker.

pub mod text;
pub mod protocol;
pub mod transcript;
pub mod tool_spec;
pub mod advisor;
pub mod fragments;
pub mod advisor_popup;
pub mod resume_metadata;
pub mod call;
