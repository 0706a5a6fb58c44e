use codex_advisor::tool_spec::create_advisor_tool;
use codex_advisor::tool_spec::JsonSchema;
use codex_advisor::tool_spec::ToolSpec;
use codex_advisor::tool_spec::ADVISOR_TOOL_DESCRIPTION;
use codex_advisor::tool_spec::JEV_TOOL_DESCRIPTION;

#[test]
fn judgment_model_requires_a_question() {
    let ToolSpec::Function(tool) = create_advisor_tool("jev-latest");
    assert_eq!(tool.name, "advisor");
    assert_eq!(tool.description, JEV_TOOL_DESCRIPTION);
    assert!(!tool.strict);
    assert_eq!(tool.output_schema, None);
    assert_eq!(tool.defer_loading, None);
    assert_eq!(
        tool.parameters,
        JsonSchema::Object {
            properties: vec![(
                "question".to_string(),
                JsonSchema::String {
                    description: Some(
                        "One focused yes/no question about the recent transcript. Ask for a judgment, not generated advice."
                            .to_string()
                    )
                }
            )],
            required: Some(vec!["question".to_string()]),
            additional_properties: Some(false),
        }
    );
}

#[test]
fn other_models_take_no_parameters() {
    let ToolSpec::Function(tool) = create_advisor_tool("gpt-5.5");
    assert_eq!(tool.name, "advisor");
    assert_eq!(tool.description, ADVISOR_TOOL_DESCRIPTION);
    assert_eq!(
        tool.parameters,
        JsonSchema::Object { properties: vec![], required: None, additional_properties: Some(false) }
    );
    // The match on the judgment model is exact.
    let ToolSpec::Function(tool) = create_advisor_tool("JEV-LATEST");
    assert_eq!(tool.description, ADVISOR_TOOL_DESCRIPTION);
}
