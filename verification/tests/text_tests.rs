use codex_advisor::resume_metadata::CompactionResumeMetadata;
use codex_advisor::resume_metadata::MultiAgentVersion;
use codex_advisor::resume_metadata::PreviousTurnSettings;
use codex_advisor::text::eq_ignore_ascii_case;
use codex_advisor::text::is_blank;
use codex_advisor::text::join_strings;
use codex_advisor::text::str_eq;
use codex_advisor::text::take_chars;

#[test]
fn take_chars_counts_characters() {
    assert_eq!(take_chars("héllo", 2), "hé");
    assert_eq!(take_chars("abc", 10), "abc");
    assert_eq!(take_chars("abc", 0), "");
}

#[test]
fn ascii_case_is_ignored_only_for_ascii() {
    assert!(eq_ignore_ascii_case("OfF", "off"));
    assert!(!eq_ignore_ascii_case("off", "of"));
    assert!(!eq_ignore_ascii_case("É", "é"));
    assert!(str_eq("a", "a"));
    assert!(!str_eq("a", "A"));
}

#[test]
fn blank_texts_hold_only_white_space() {
    assert!(is_blank(""));
    assert!(is_blank(" \t\n\u{85}\u{a0}\u{2028}"));
    assert!(!is_blank(" x "));
    assert!(!is_blank("\u{200b}"));
}

#[test]
fn join_puts_the_separator_between_parts() {
    let parts = vec!["a".to_string(), "b".to_string(), "c".to_string()];
    assert_eq!(join_strings(&parts, "\n\n"), "a\n\nb\n\nc");
    assert_eq!(join_strings(&Vec::new(), ","), "");
}

#[test]
fn previous_turn_settings_compare_by_fields() {
    let a = PreviousTurnSettings {
        model: "gpt-5.5".to_string(),
        comp_hash: None,
        realtime_active: Some(false),
    };
    assert_eq!(a.clone(), a);
    assert_ne!(a, PreviousTurnSettings { realtime_active: None, ..a.clone() });
}

#[test]
fn compaction_resume_metadata_keeps_absent_values() {
    let meta = CompactionResumeMetadata {
        multi_agent_version: Some(MultiAgentVersion::V2),
        last_started_turn_id: None,
        previous_turn_settings: Some(PreviousTurnSettings {
            model: "gpt-5.5".to_string(),
            comp_hash: Some("h".to_string()),
            realtime_active: None,
        }),
    };
    assert_eq!(meta.clone(), meta);
    assert_ne!(meta, CompactionResumeMetadata { multi_agent_version: None, ..meta.clone() });
}
