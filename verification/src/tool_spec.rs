//! Tool specifications offered to the model: their JSON schemas and the
//! advisor tool's specification.
use vstd::prelude::*;

use crate::text::str_eq;

verus! {

/// A JSON schema for a tool's parameters.
#[derive(Debug, PartialEq, Eq)]
pub enum JsonSchema {
    /// A string, with an optional description.
    String { description: Option<String> },
    /// An object with named properties (listed in key order), the names of
    /// the required ones, and whether properties beyond these are allowed.
    Object {
        properties: Vec<(String, JsonSchema)>,
        required: Option<Vec<String>>,
        additional_properties: Option<bool>,
    },
}

/// Whether `a` comes strictly before `b` in lexicographic order of code
/// points (the order of `String` keys).
pub open spec fn key_less(a: Seq<char>, b: Seq<char>) -> bool
    decreases a.len(),
{
    if a.len() == 0 {
        b.len() > 0
    } else if b.len() == 0 {
        false
    } else if a[0] != b[0] {
        (a[0] as u32) < (b[0] as u32)
    } else {
        key_less(a.drop_first(), b.drop_first())
    }
}

/// Whether the properties' keys are in strictly increasing order, as those
/// of a map from names to schemas are: each name occurs once.
pub open spec fn keys_in_order(properties: Seq<(String, JsonSchema)>) -> bool {
    forall|i: int| 0 <= i < properties.len() - 1 ==> key_less(#[trigger] properties[i].0@, properties[i + 1].0@)
}

impl JsonSchema {
    /// A string schema.
    pub fn string(description: Option<String>) -> (res: JsonSchema)
        ensures
            res == (JsonSchema::String { description }),
    {
        JsonSchema::String { description }
    }

    /// An object schema. Its properties form a map from names to schemas,
    /// listed in key order.
    pub fn object(
        properties: Vec<(String, JsonSchema)>,
        required: Option<Vec<String>>,
        additional_properties: Option<bool>,
    ) -> (res: JsonSchema)
        requires
            keys_in_order(properties@),
        ensures
            res == (JsonSchema::Object { properties, required, additional_properties }),
    {
        JsonSchema::Object { properties, required, additional_properties }
    }
}

/// Whether `entry` is the property `key`, a string schema described by
/// `description`.
pub open spec fn is_string_property(
    entry: (String, JsonSchema),
    key: Seq<char>,
    description: Seq<char>,
) -> bool {
    &&& entry.0@ == key
    &&& entry.1 matches JsonSchema::String { description: Some(d) }
    &&& d@ == description
}

/// A function tool of the Responses API.
#[derive(Debug, PartialEq, Eq)]
pub struct ResponsesApiTool {
    pub name: String,
    pub description: String,
    pub strict: bool,
    pub defer_loading: Option<bool>,
    pub parameters: JsonSchema,
    pub output_schema: Option<JsonSchema>,
}

/// The specification of a tool offered to the model.
#[derive(Debug, PartialEq, Eq)]
pub enum ToolSpec {
    Function(ResponsesApiTool),
}

/// The name under which a tool is registered.
#[derive(Debug, PartialEq, Eq)]
pub struct ToolName {
    pub name: String,
}

impl ToolName {
    /// A name outside any namespace.
    pub fn plain(name: &str) -> (res: ToolName)
        ensures
            res.name@ == name@,
    {
        ToolName { name: String::from_str(name) }
    }
}

/// The name of the probability-judging advisor tool.
pub const ADVISOR_TOOL_NAME: &'static str = "advisor";

/// The model that answers yes/no judgments with a probability.
pub const JEV_MODEL: &'static str = "jev-latest";

/// Description of the judgment advisor tool.
pub const JEV_TOOL_DESCRIPTION: &'static str = "Ask Jev one focused yes/no question about the recent transcript. Jev returns a probability, not text or a plan. Use the result as one piece of evidence when deciding what to do next. The question must be answerable from the transcript.";

/// Description of the advisor tool for any other model.
pub const ADVISOR_TOOL_DESCRIPTION: &'static str = "Consult the configured read-only advisor model. This tool takes no parameters. Call it after initial read-only orientation and before substantial work on complex or ambiguous tasks, when stuck or changing approach, and before declaring difficult work complete. The advisor receives a bounded recent transcript, cannot use tools, and returns guidance for you to evaluate before continuing.";

/// Description of the judgment tool's `question` parameter.
pub const JEV_QUESTION_DESCRIPTION: &'static str = "One focused yes/no question about the recent transcript. Ask for a judgment, not generated advice.";

/// The specification of the advisor tool for `model`. The judgment model
/// takes one required `question`; any other model takes no parameters.
/// Neither admits parameters beyond these, nor is strict.
pub fn create_advisor_tool(model: &str) -> (res: ToolSpec)
    ensures
        res matches ToolSpec::Function(tool) && {
            &&& tool.name@ == ADVISOR_TOOL_NAME@
            &&& !tool.strict
            &&& tool.output_schema is None
            &&& tool.defer_loading is None
            &&& tool.parameters matches JsonSchema::Object { properties, required, additional_properties }
            &&& additional_properties == Some(false)
            &&& if model@ == JEV_MODEL@ {
                &&& tool.description@ == JEV_TOOL_DESCRIPTION@
                &&& properties@.len() == 1
                &&& is_string_property(properties@[0], "question"@, JEV_QUESTION_DESCRIPTION@)
                &&& required matches Some(r) && r@.len() == 1 && r@[0]@ == "question"@
            } else {
                &&& tool.description@ == ADVISOR_TOOL_DESCRIPTION@
                &&& properties@.len() == 0
                &&& required is None
            }
        },
{
    let is_jev = str_eq(model, JEV_MODEL);
    let parameters = if is_jev {
        let mut properties: Vec<(String, JsonSchema)> = Vec::new();
        properties.push(
            (
                String::from_str("question"),
                JsonSchema::string(Some(String::from_str(JEV_QUESTION_DESCRIPTION))),
            ),
        );
        let mut required: Vec<String> = Vec::new();
        required.push(String::from_str("question"));
        JsonSchema::object(properties, Some(required), Some(false))
    } else {
        JsonSchema::object(Vec::new(), None, Some(false))
    };
    let description = if is_jev {
        JEV_TOOL_DESCRIPTION
    } else {
        ADVISOR_TOOL_DESCRIPTION
    };
    ToolSpec::Function(
        ResponsesApiTool {
            name: String::from_str(ADVISOR_TOOL_NAME),
            description: String::from_str(description),
            strict: false,
            parameters,
            output_schema: None,
            defer_loading: None,
        },
    )
}

} // verus!
