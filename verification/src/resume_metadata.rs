//! Resume metadata stored directly on a compaction.
use vstd::prelude::*;

verus! {

/// The multi-agent runtime that a session selected.
#[derive(Clone, Copy, Debug, PartialEq, Eq)]
pub enum MultiAgentVersion {
    V1,
    V2,
}

/// Resume metadata that is not represented by the companion records after a
/// compaction.
///
/// Presence distinguishes compactions that explicitly persisted these
/// values from older compactions that did not. Each field is authoritative,
/// including an intentionally absent value.
#[derive(Clone, Debug, PartialEq, Eq)]
pub struct CompactionResumeMetadata {
    /// Selected runtime, including when the companion turn context is absent.
    pub multi_agent_version: Option<MultiAgentVersion>,
    /// Turn identity used to admit continuations after cold resume.
    pub last_started_turn_id: Option<String>,
    pub previous_turn_settings: Option<PreviousTurnSettings>,
}

/// Previous user-turn settings used to reconstruct context changes after
/// resume.
#[derive(Clone, Debug, PartialEq, Eq)]
pub struct PreviousTurnSettings {
    pub model: String,
    pub comp_hash: Option<String>,
    pub realtime_active: Option<bool>,
}

} // verus!
