use codex_advisor::fragments::AdvisorConsultation;
use codex_advisor::fragments::AdvisorGuidance;
use codex_advisor::fragments::ContextualUserFragment;

#[test]
fn consultation_body_prefixes_the_review_instruction() {
    let c = AdvisorConsultation::new("user: hi".to_string());
    assert_eq!(
        c.body(),
        "Review the executor transcript below. Give concise strategic guidance for the executor's next action. Do not answer the end user directly.\n\nuser: hi"
    );
    assert_eq!(c.content_kind().0, "advisor.consultation");
    assert_eq!(c.role(), "user");
    assert_eq!(c.markers(), ("<advisor_consultation>\n", "\n</advisor_consultation>"));
    assert_eq!(AdvisorConsultation::type_markers(), c.markers());
}

#[test]
fn guidance_body_is_the_guidance() {
    let g = AdvisorGuidance::new("Check rollback.".to_string());
    assert_eq!(g.body(), "Check rollback.");
    assert_eq!(g.content_kind().0, "advisor.guidance");
    assert_eq!(g.role(), "user");
    assert_eq!(g.markers(), ("<advisor_guidance>\n", "\n</advisor_guidance>"));
    assert_eq!(AdvisorGuidance::type_markers(), g.markers());
}
