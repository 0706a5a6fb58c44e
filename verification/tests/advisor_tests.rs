use codex_advisor::advisor::activity_summary;
use codex_advisor::advisor::advisor_input;
use codex_advisor::advisor::changed_files_from_text;
use codex_advisor::advisor::changed_files_summary;
use codex_advisor::advisor::finish_advice;
use codex_advisor::advisor::request_failed;
use codex_advisor::advisor::settle;
use codex_advisor::advisor::tool_output;
use codex_advisor::advisor::AdviceCollector;
use codex_advisor::advisor::AdvisorArgs;
use codex_advisor::advisor::AdvisorHandler;
use codex_advisor::advisor::CollectStep;
use codex_advisor::advisor::ConsultationEnd;
use codex_advisor::advisor::GitStatusOutput;
use codex_advisor::advisor::ADVISOR_INSTRUCTIONS;
use codex_advisor::advisor::MAX_ADVICE_CHARS;
use codex_advisor::call::AdvisorCall;
use codex_advisor::call::CallAction;
use codex_advisor::call::CallEvent;
use codex_advisor::call::Interruption;
use codex_advisor::protocol::ContentItem;
use codex_advisor::protocol::ReasoningSummary;
use codex_advisor::protocol::FunctionCallError;
use codex_advisor::protocol::ResponseEvent;
use codex_advisor::protocol::ResponseItem;
use codex_advisor::protocol::ToolPayload;
use codex_advisor::tool_spec::JsonSchema;
use codex_advisor::tool_spec::ToolSpec;

fn err_text(e: &FunctionCallError) -> &str {
    match e {
        FunctionCallError::RespondToModel(m) => m.as_str(),
    }
}

fn assistant(texts: &[&str]) -> ResponseEvent {
    ResponseEvent::OutputItemDone(ResponseItem::Message {
        role: "assistant".to_string(),
        content: texts
            .iter()
            .map(|t| ContentItem::OutputText { text: t.to_string() })
            .collect(),
    })
}

#[test]
fn advisor_tool_is_named_and_takes_question_and_draft() {
    let handler = AdvisorHandler;
    assert_eq!(handler.tool_name().name, "ask_advisor");
    let ToolSpec::Function(tool) = handler.spec();
    assert_eq!(tool.name, "ask_advisor");
    assert!(!tool.strict);
    assert!(tool.description.starts_with("Consult a separate advisor model for a second opinion."));
    match tool.parameters {
        JsonSchema::Object { properties, required, additional_properties } => {
            let names: Vec<&str> = properties.iter().map(|(k, _)| k.as_str()).collect();
            assert_eq!(names, vec!["draft", "question"]);
            assert_eq!(required, None);
            assert_eq!(additional_properties, Some(false));
        }
        _ => panic!("parameters must be an object"),
    }
}

#[test]
fn advisor_refuses_a_non_function_payload() {
    let handler = AdvisorHandler;
    let err = handler.arguments(&ToolPayload::Custom { input: "x".to_string() }).unwrap_err();
    assert_eq!(err_text(&err), "ask_advisor received an unsupported payload");
    let args = handler
        .arguments(&ToolPayload::Function { arguments: "{}".to_string() })
        .unwrap();
    assert_eq!(args, "{}");
}

#[test]
fn advisor_reports_bad_arguments_then_a_missing_model() {
    let handler = AdvisorHandler;
    let err = handler
        .resolve(Err("unknown field `x`".to_string()), &Some("gpt-5.5".to_string()))
        .unwrap_err();
    assert_eq!(err_text(&err), "invalid advisor arguments: unknown field `x`");
    let err = handler
        .resolve(Ok(AdvisorArgs { question: None, draft: None }), &None)
        .unwrap_err();
    assert_eq!(
        err_text(&err),
        "Set advisor_model in config.toml or select a model with /advisor."
    );
    let (args, model) = handler
        .resolve(
            Ok(AdvisorArgs { question: Some("q".to_string()), draft: None }),
            &Some("gpt-5.5".to_string()),
        )
        .unwrap();
    assert_eq!(model, "gpt-5.5");
    assert_eq!(args.question.as_deref(), Some("q"));
}

#[test]
fn changed_files_summary_reads_successful_output_only() {
    assert_eq!(changed_files_summary(&None), "");
    let failed = GitStatusOutput { success: false, stdout: b" M src/lib.rs\n".to_vec() };
    assert_eq!(changed_files_summary(&Some(failed)), "");
    let ok = GitStatusOutput { success: true, stdout: b" M src/lib.rs\n".to_vec() };
    assert_eq!(changed_files_summary(&Some(ok)), " M src/lib.rs\n");
}

#[test]
fn changed_files_summary_replaces_invalid_utf8() {
    let ok = GitStatusOutput { success: true, stdout: vec![b'a', 0xff, b'b'] };
    assert_eq!(changed_files_summary(&Some(ok)), "a\u{FFFD}b");
}

#[test]
fn changed_files_summary_is_cut_to_its_bound() {
    let long = "x".repeat(3_000);
    assert_eq!(changed_files_from_text(&long).chars().count(), 1_000);
    let ok = GitStatusOutput { success: true, stdout: long.into_bytes() };
    assert_eq!(changed_files_summary(&Some(ok)).chars().count(), 1_000);
}

#[test]
fn advisor_input_frames_each_section() {
    let entries = vec!["user: a".to_string(), "assistant: b".to_string()];
    let input = advisor_input(&entries, "M x", "plan", "why?");
    assert_eq!(
        input,
        "<conversation untrusted=\"true\">\nuser: a\n\nassistant: b\n</conversation>\n<changed_files untrusted=\"true\">\nM x\n</changed_files>\n<executor_draft untrusted=\"true\">\nplan\n</executor_draft>\n<focus untrusted=\"true\">\nwhy?\n</focus>"
    );
}

#[test]
fn advisor_receives_bounded_context_without_tools_and_returns_advice() {
    let payload = ToolPayload::Function {
        arguments: r#"{"question":"Review the plan","draft":"Deploy after tests"}"#.to_string(),
    };
    let (call, action) = AdvisorCall::start(&payload, "advisor-call", Some("gpt-5.5".to_string()));
    let CallAction::ParseArguments(arguments) = action else { panic!("arguments expected") };
    assert!(arguments.contains("Deploy after tests"));
    let args = AdvisorArgs {
        question: Some("Review the plan".to_string()),
        draft: Some("Deploy after tests".to_string()),
    };
    let (call, action) = call.step(CallEvent::ArgumentsParsed(Ok(args)));
    assert!(matches!(action, CallAction::GatherContext));
    let history = vec![ResponseItem::Message {
        role: "user".to_string(),
        content: vec![ContentItem::InputText { text: "A".repeat(16_000) }],
    }];
    let (call, action) = call.step(CallEvent::ContextGathered { history, git_status: None });
    let CallAction::StartConsultation(request) = action else { panic!("a request expected") };
    assert_eq!(request.model, "gpt-5.5");
    assert_eq!(request.model_info_for, "gpt-5.5");
    assert_eq!(request.effort, None);
    assert_eq!(request.reasoning_summary, ReasoningSummary::Disabled);
    assert_eq!(request.activity.id, "advisor-advisor-call");
    assert_eq!(request.activity.summary_text, vec!["Consulting advisor (gpt-5.5)".to_string()]);
    assert!(request.activity.raw_content.is_empty());
    assert_eq!(request.prompt.base_instructions.text, ADVISOR_INSTRUCTIONS);
    assert!(request.prompt.tools.is_empty());
    assert_eq!(request.prompt.input.len(), 1);
    let input = match &request.prompt.input[0] {
        ResponseItem::Message { role, content } => {
            assert_eq!(role, "user");
            match &content[..] {
                [ContentItem::InputText { text }] => text.clone(),
                _ => panic!("one input text expected"),
            }
        }
        _ => panic!("a message expected"),
    };
    assert!(input.contains("Deploy after tests"));
    assert!(input.contains("Review the plan"));
    assert!(input.len() < 10_000, "advisor context exceeded its bound");

    let (call, action) = call.step(CallEvent::StreamOpened(Ok(())));
    assert!(matches!(action, CallAction::ReadStream));
    let (call, action) = call.step(CallEvent::StreamItem(Some(Ok(ResponseEvent::Other))));
    assert!(matches!(action, CallAction::ReadStream));
    let (call, action) = call.step(CallEvent::StreamItem(Some(Ok(assistant(&[
        "Check rollback before deploy.",
    ])))));
    assert!(matches!(action, CallAction::ReadStream));
    let (call, action) = call.step(CallEvent::StreamItem(Some(Ok(ResponseEvent::Completed))));
    assert!(matches!(action, CallAction::MeasureElapsed));
    let (call, action) = call.step(CallEvent::Elapsed("0.4".to_string()));
    let CallAction::CompleteActivity(item) = action else { panic!("activity expected") };
    assert_eq!(item.id, "advisor-advisor-call");
    assert!(item.summary_text[0].contains("Check rollback before deploy."));
    let (call, action) = call.step(CallEvent::ActivityCompleted);
    assert!(matches!(call, AdvisorCall::Done));
    let CallAction::Respond(Ok(output)) = action else { panic!("an answer expected") };
    assert!(output.text.contains("Check rollback before deploy."));
    assert_eq!(output.success, Some(true));
}

#[test]
fn advisor_call_stops_before_any_request_on_bad_input() {
    let (call, action) =
        AdvisorCall::start(&ToolPayload::Custom { input: "x".to_string() }, "c", None);
    assert!(matches!(call, AdvisorCall::Done));
    match action {
        CallAction::Respond(Err(e)) => {
            assert_eq!(err_text(&e), "ask_advisor received an unsupported payload")
        }
        _ => panic!("an error expected"),
    }
    let payload = ToolPayload::Function { arguments: "{}".to_string() };
    let (call, _) = AdvisorCall::start(&payload, "c", None);
    let (call, action) = call.step(CallEvent::ArgumentsParsed(Ok(AdvisorArgs {
        question: None,
        draft: None,
    })));
    assert!(matches!(call, AdvisorCall::Done));
    match action {
        CallAction::Respond(Err(e)) => assert_eq!(
            err_text(&e),
            "Set advisor_model in config.toml or select a model with /advisor."
        ),
        _ => panic!("an error expected"),
    }
}

#[test]
fn advisor_call_completes_its_activity_on_failure() {
    let payload = ToolPayload::Function { arguments: "{}".to_string() };
    let (call, _) = AdvisorCall::start(&payload, "c1", Some("m".to_string()));
    let (call, _) = call.step(CallEvent::ArgumentsParsed(Ok(AdvisorArgs {
        question: None,
        draft: None,
    })));
    let (call, _) = call.step(CallEvent::ContextGathered { history: Vec::new(), git_status: None });
    let (call, action) = call.step(CallEvent::Interrupted(Interruption::TimedOut));
    assert!(matches!(action, CallAction::MeasureElapsed));
    let (call, action) = call.step(CallEvent::Elapsed("120.0".to_string()));
    let CallAction::CompleteActivity(item) = action else { panic!("activity expected") };
    assert_eq!(item.summary_text, vec!["Advisor (m) failed in 120.0s: advisor request timed out".to_string()]);
    let (_, action) = call.step(CallEvent::ActivityCompleted);
    match action {
        CallAction::Respond(Err(e)) => assert_eq!(err_text(&e), "advisor request timed out"),
        _ => panic!("an error expected"),
    }
}

#[test]
fn advisor_request_cuts_question_and_draft() {
    let handler = AdvisorHandler;
    let args = AdvisorArgs {
        question: Some("q".repeat(900)),
        draft: Some("d".repeat(2_000)),
    };
    let request = handler.build_request(&args, "m", &Vec::new(), "", "c");
    let ResponseItem::Message { content, .. } = &request.prompt.input[0] else {
        panic!("a message expected");
    };
    let ContentItem::InputText { text } = &content[0] else {
        panic!("input text expected");
    };
    assert!(text.contains(&format!("\n{}\n</executor_draft>", "d".repeat(1_500))));
    assert!(!text.contains(&"d".repeat(1_501)));
    assert!(text.contains(&format!("\n{}\n</focus>", "q".repeat(500))));
    assert!(!text.contains(&"q".repeat(501)));
}

#[test]
fn collector_gathers_output_text_until_completion() {
    let mut collector = AdviceCollector::new();
    assert!(matches!(collector.on_event(Some(Ok(ResponseEvent::Other))), CollectStep::Continue));
    assert!(matches!(
        collector.on_event(Some(Ok(assistant(&["Check rollback ", "before deploy."])))),
        CollectStep::Continue
    ));
    assert!(matches!(
        collector.on_event(Some(Ok(ResponseEvent::OutputItemDone(ResponseItem::Other)))),
        CollectStep::Continue
    ));
    assert_eq!(collector.advice(), "Check rollback before deploy.");
    match collector.on_event(Some(Ok(ResponseEvent::Completed))) {
        CollectStep::Finished(Ok(advice)) => assert_eq!(advice, "Check rollback before deploy."),
        other => panic!("unexpected {other:?}"),
    }
}

#[test]
fn collector_ignores_input_text_of_messages() {
    let mut collector = AdviceCollector::new();
    collector.on_event(Some(Ok(ResponseEvent::OutputItemDone(ResponseItem::Message {
        role: "assistant".to_string(),
        content: vec![
            ContentItem::InputText { text: "not advice".to_string() },
            ContentItem::OutputText { text: "advice".to_string() },
        ],
    }))));
    assert_eq!(collector.advice(), "advice");
}

#[test]
fn collector_keeps_at_most_the_advice_bound() {
    let mut collector = AdviceCollector::new();
    let a = "a".repeat(3_000);
    let b = "b".repeat(3_000);
    collector.on_event(Some(Ok(assistant(&[&a]))));
    collector.on_event(Some(Ok(assistant(&[&b, "c"]))));
    let advice = collector.advice();
    assert_eq!(advice.chars().count(), MAX_ADVICE_CHARS);
    assert_eq!(advice, format!("{}{}", a, "b".repeat(1_000)));
}

#[test]
fn collector_reports_failure_early_end_and_blank_advice() {
    let mut collector = AdviceCollector::new();
    match collector.on_event(Some(Err("boom".to_string()))) {
        CollectStep::Finished(Err(e)) => assert_eq!(err_text(&e), "advisor request failed: boom"),
        other => panic!("unexpected {other:?}"),
    }
    match collector.on_event(None) {
        CollectStep::Finished(Err(e)) => assert_eq!(err_text(&e), "advisor response ended early"),
        other => panic!("unexpected {other:?}"),
    }
    collector.on_event(Some(Ok(assistant(&[" \n\t\u{3000}"]))));
    match collector.on_event(Some(Ok(ResponseEvent::Completed))) {
        CollectStep::Finished(Err(e)) => assert_eq!(err_text(&e), "advisor returned no advice"),
        other => panic!("unexpected {other:?}"),
    }
}

#[test]
fn finish_advice_accepts_text_with_surrounding_space() {
    assert_eq!(finish_advice("  ok \n".to_string()), Ok("  ok \n".to_string()));
    assert!(finish_advice(String::new()).is_err());
}

#[test]
fn settle_reports_cancellation_and_timeout() {
    assert_eq!(
        err_text(&settle(ConsultationEnd::Cancelled).unwrap_err()),
        "advisor request cancelled"
    );
    assert_eq!(
        err_text(&settle(ConsultationEnd::TimedOut).unwrap_err()),
        "advisor request timed out"
    );
    assert_eq!(
        settle(ConsultationEnd::Finished(Ok("x".to_string()))),
        Ok("x".to_string())
    );
    assert_eq!(err_text(&request_failed("503")), "advisor request failed: 503");
}

#[test]
fn summaries_and_output_carry_the_advice() {
    let ok: Result<String, FunctionCallError> = Ok("Check rollback before deploy.".to_string());
    assert_eq!(
        activity_summary("gpt-5.5", "1.2", &ok),
        "Advisor (gpt-5.5) reviewed in 1.2s:\nCheck rollback before deploy."
    );
    let failed: Result<String, FunctionCallError> =
        Err(FunctionCallError::RespondToModel("advisor request timed out".to_string()));
    assert_eq!(
        activity_summary("gpt-5.5", "120.0", &failed),
        "Advisor (gpt-5.5) failed in 120.0s: advisor request timed out"
    );
    let output = tool_output("gpt-5.5", "Check rollback before deploy.");
    assert_eq!(output.text, "Advisor (gpt-5.5):\n\nCheck rollback before deploy.");
    assert_eq!(output.success, Some(true));
}
