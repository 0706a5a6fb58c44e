//! Contextual user fragments that carry an advisor consultation and the
//! advisor's guidance into a conversation.
use vstd::prelude::*;

use crate::text::concat;

verus! {

/// The kind of a content item, by name.
#[derive(Clone, Debug, PartialEq, Eq)]
pub struct ContentItemKind(pub String);

/// A piece of context injected into the conversation as a user message,
/// framed by a start and an end marker.
pub trait ContextualUserFragment {
    /// The kind of content item that carries the fragment.
    fn content_kind(&self) -> ContentItemKind;

    /// The role of the message that carries the fragment.
    fn role(&self) -> &'static str;

    /// The fragment's start and end markers.
    fn markers(&self) -> (&'static str, &'static str);

    /// The start and end markers of every fragment of this type.
    fn type_markers() -> (&'static str, &'static str);

    /// The text between the markers.
    fn body(&self) -> String;
}

/// The instruction that opens every consultation's body.
pub const CONSULTATION_PREAMBLE: &'static str = "Review the executor transcript below. Give concise strategic guidance for the executor's next action. Do not answer the end user directly.\n\n";

/// A request to the advisor to review an executor transcript.
#[derive(Clone, Debug, PartialEq, Eq)]
pub struct AdvisorConsultation {
    transcript: String,
}

impl View for AdvisorConsultation {
    type V = Seq<char>;

    /// The transcript under review.
    closed spec fn view(&self) -> Seq<char> {
        self.transcript@
    }
}

impl AdvisorConsultation {
    /// A consultation on `transcript`.
    pub fn new(transcript: String) -> (res: Self)
        ensures
            res@ == transcript@,
    {
        Self { transcript }
    }
}

impl ContextualUserFragment for AdvisorConsultation {
    fn content_kind(&self) -> (res: ContentItemKind)
        ensures
            res.0@ == "advisor.consultation"@,
    {
        ContentItemKind(String::from_str("advisor.consultation"))
    }

    fn role(&self) -> (res: &'static str)
        ensures
            res@ == "user"@,
    {
        "user"
    }

    fn markers(&self) -> (res: (&'static str, &'static str))
        ensures
            res.0@ == "<advisor_consultation>\n"@,
            res.1@ == "\n</advisor_consultation>"@,
    {
        Self::type_markers()
    }

    fn type_markers() -> (res: (&'static str, &'static str))
        ensures
            res.0@ == "<advisor_consultation>\n"@,
            res.1@ == "\n</advisor_consultation>"@,
    {
        ("<advisor_consultation>\n", "\n</advisor_consultation>")
    }

    /// The review instruction followed by the transcript.
    fn body(&self) -> (res: String)
        ensures
            res@ == CONSULTATION_PREAMBLE@ + self@,
    {
        concat(CONSULTATION_PREAMBLE, self.transcript.as_str())
    }
}

/// The advisor's guidance, handed back to the executor.
#[derive(Clone, Debug, PartialEq, Eq)]
pub struct AdvisorGuidance {
    guidance: String,
}

impl View for AdvisorGuidance {
    type V = Seq<char>;

    /// The guidance.
    closed spec fn view(&self) -> Seq<char> {
        self.guidance@
    }
}

impl AdvisorGuidance {
    /// Guidance with the text `guidance`.
    pub fn new(guidance: String) -> (res: Self)
        ensures
            res@ == guidance@,
    {
        Self { guidance }
    }
}

impl ContextualUserFragment for AdvisorGuidance {
    fn content_kind(&self) -> (res: ContentItemKind)
        ensures
            res.0@ == "advisor.guidance"@,
    {
        ContentItemKind(String::from_str("advisor.guidance"))
    }

    fn role(&self) -> (res: &'static str)
        ensures
            res@ == "user"@,
    {
        "user"
    }

    fn markers(&self) -> (res: (&'static str, &'static str))
        ensures
            res.0@ == "<advisor_guidance>\n"@,
            res.1@ == "\n</advisor_guidance>"@,
    {
        Self::type_markers()
    }

    fn type_markers() -> (res: (&'static str, &'static str))
        ensures
            res.0@ == "<advisor_guidance>\n"@,
            res.1@ == "\n</advisor_guidance>"@,
    {
        ("<advisor_guidance>\n", "\n</advisor_guidance>")
    }

    /// The guidance as it is.
    fn body(&self) -> (res: String)
        ensures
            res@ == self@,
    {
        self.guidance.clone()
    }
}

} // verus!
