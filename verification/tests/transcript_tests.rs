use codex_advisor::protocol::ContentItem;
use codex_advisor::protocol::ResponseItem;
use codex_advisor::transcript::bounded_transcript;
use codex_advisor::transcript::render_entry;
use codex_advisor::transcript::MAX_CONTEXT_CHARS;
use codex_advisor::transcript::MAX_ENTRY_CHARS;

fn message(role: &str, text: &str) -> ResponseItem {
    ResponseItem::Message {
        role: role.to_string(),
        content: vec![ContentItem::InputText { text: text.to_string() }],
    }
}

#[test]
fn transcript_renders_each_kind_of_item() {
    let history = vec![
        message("user", "hello"),
        ResponseItem::Message {
            role: "assistant".to_string(),
            content: vec![
                ContentItem::OutputText { text: "part one, ".to_string() },
                ContentItem::InputImage { image_url: "img".to_string() },
                ContentItem::OutputText { text: "part two".to_string() },
            ],
        },
        ResponseItem::FunctionCall {
            name: "shell".to_string(),
            arguments: "{}".to_string(),
            call_id: "c1".to_string(),
        },
        ResponseItem::FunctionCallOutput {
            call_id: "c1".to_string(),
            name: Some("shell".to_string()),
            text_content: Some("ok".to_string()),
        },
        ResponseItem::FunctionCallOutput {
            call_id: "c2".to_string(),
            name: None,
            text_content: None,
        },
    ];
    assert_eq!(
        bounded_transcript(&history),
        vec![
            "user: hello".to_string(),
            "assistant: part one, part two".to_string(),
            "Tool call: shell".to_string(),
            "Tool result (shell): ok".to_string(),
            "Tool result (unknown): [non-text result]".to_string(),
        ]
    );
}

#[test]
fn transcript_skips_other_roles_and_items() {
    let history = vec![
        message("developer", "instructions"),
        message("system", "rules"),
        ResponseItem::Other,
        message("user", "hi"),
    ];
    assert_eq!(bounded_transcript(&history), vec!["user: hi".to_string()]);
    assert_eq!(render_entry(&ResponseItem::Other), None);
    assert_eq!(render_entry(&message("developer", "x")), None);
}

#[test]
fn transcript_cuts_a_long_entry_to_its_bound() {
    let history = vec![message("user", &"A".repeat(16_000))];
    let entries = bounded_transcript(&history);
    assert_eq!(entries.len(), 1);
    assert_eq!(entries[0].chars().count(), MAX_ENTRY_CHARS);
    assert_eq!(entries[0], format!("user: {}", "A".repeat(MAX_ENTRY_CHARS - 6)));
}

#[test]
fn transcript_is_bounded_and_keeps_the_latest_items() {
    let history: Vec<ResponseItem> =
        (0..20).map(|i| message("user", &format!("{i:02}{}", "x".repeat(2_000)))).collect();
    let entries = bounded_transcript(&history);
    let total: usize = entries.iter().map(|e| e.chars().count()).sum();
    assert_eq!(total, MAX_CONTEXT_CHARS);
    assert_eq!(entries.len(), 5);
    assert!(entries.iter().all(|e| e.chars().count() <= MAX_ENTRY_CHARS));
    // The newest four items fill 4800 characters; the fifth newest gets the rest.
    assert!(entries[4].starts_with("user: 19"));
    assert!(entries[3].starts_with("user: 18"));
    assert!(entries[0].starts_with("user: 15"));
    assert_eq!(entries[0].chars().count(), 200);
}

#[test]
fn transcript_keeps_everything_when_it_fits() {
    let history = vec![message("user", "one"), message("assistant", "two"), message("user", "three")];
    assert_eq!(
        bounded_transcript(&history),
        vec!["user: one".to_string(), "assistant: two".to_string(), "user: three".to_string()]
    );
}

#[test]
fn transcript_ends_with_the_latest_item_even_when_long() {
    let mut history = vec![message("user", "early")];
    history.push(ResponseItem::FunctionCallOutput {
        call_id: "c".to_string(),
        name: Some("read".to_string()),
        text_content: Some("é".repeat(3_000)),
    });
    let entries = bounded_transcript(&history);
    assert_eq!(entries.len(), 2);
    let last = &entries[1];
    assert_eq!(last.chars().count(), MAX_ENTRY_CHARS);
    assert!(last.starts_with("Tool result (read): é"));
}

#[test]
fn transcript_of_an_empty_history_is_empty() {
    assert!(bounded_transcript(&Vec::new()).is_empty());
}
