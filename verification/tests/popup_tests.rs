use codex_advisor::advisor_popup::AppEvent;
use codex_advisor::advisor_popup::ChatWidget;
use codex_advisor::advisor_popup::Config;
use codex_advisor::advisor_popup::HistoryMessage;
use codex_advisor::advisor_popup::ModelPreset;

fn preset(model: &str, display: &str, shown: bool) -> ModelPreset {
    ModelPreset {
        model: model.to_string(),
        display_name: display.to_string(),
        show_in_picker: shown,
    }
}

fn widget(enabled: bool, current: Option<&str>) -> ChatWidget {
    ChatWidget {
        config: Config {
            advisor_feature_enabled: enabled,
            advisor_model: current.map(str::to_string),
        },
        model_catalog: Some(vec![
            preset("gpt-5.5", "GPT-5.5", true),
            preset("hidden", "Hidden", false),
            preset("gpt-5.5-mini", "GPT-5.5 Mini", true),
        ]),
        history: Vec::new(),
        app_events: Vec::new(),
        selection_view: None,
    }
}

#[test]
fn advisor_model_picker_shows_available_models_and_off() {
    let mut chat = widget(true, Some("gpt-5.5"));
    chat.open_advisor_popup();
    let view = chat.selection_view.expect("a popup");
    assert_eq!(view.title.as_deref(), Some("Select advisor model"));
    assert_eq!(
        view.subtitle.as_deref(),
        Some("Codex consults it for consequential decisions and completion reviews.")
    );
    let names: Vec<&str> = view.items.iter().map(|i| i.name.as_str()).collect();
    assert_eq!(names, vec!["Off", "GPT-5.5", "GPT-5.5 Mini"]);
    let current: Vec<bool> = view.items.iter().map(|i| i.is_current).collect();
    assert_eq!(current, vec![false, true, false]);
    assert_eq!(view.items[0].description.as_deref(), Some("Do not consult an advisor"));
    assert_eq!(view.items[0].action, AppEvent::PersistAdvisorModel { model: None });
    assert_eq!(view.items[2].description.as_deref(), Some("gpt-5.5-mini"));
    assert_eq!(
        view.items[2].action,
        AppEvent::PersistAdvisorModel { model: Some("gpt-5.5-mini".to_string()) }
    );
    assert!(chat.history.is_empty());
}

#[test]
fn picker_marks_off_when_no_model_is_configured() {
    let mut chat = widget(true, None);
    chat.model_catalog = None;
    chat.open_advisor_popup();
    let view = chat.selection_view.expect("a popup");
    assert_eq!(view.items.len(), 1);
    assert!(view.items[0].is_current);
}

#[test]
fn picker_needs_the_feature() {
    let mut chat = widget(false, None);
    chat.open_advisor_popup();
    assert!(chat.selection_view.is_none());
    assert_eq!(
        chat.history,
        vec![HistoryMessage::Info {
            message: "Enable Advisor in /experimental before choosing an advisor model."
                .to_string(),
            hint: None,
        }]
    );
}

#[test]
fn command_switches_the_advisor_off() {
    let mut chat = widget(true, Some("gpt-5.5"));
    chat.set_advisor_from_command("OFF");
    chat.set_advisor_from_command("None");
    assert_eq!(
        chat.app_events,
        vec![
            AppEvent::PersistAdvisorModel { model: None },
            AppEvent::PersistAdvisorModel { model: None }
        ]
    );
    assert!(chat.history.is_empty());
}

#[test]
fn command_selects_by_identifier_or_display_name() {
    let mut chat = widget(true, None);
    chat.set_advisor_from_command("gpt-5.5-mini");
    chat.set_advisor_from_command("gpt-5.5 MINI");
    chat.set_advisor_from_command("hidden");
    assert_eq!(
        chat.app_events,
        vec![
            AppEvent::PersistAdvisorModel { model: Some("gpt-5.5-mini".to_string()) },
            AppEvent::PersistAdvisorModel { model: Some("gpt-5.5-mini".to_string()) },
            AppEvent::PersistAdvisorModel { model: Some("hidden".to_string()) },
        ]
    );
}

#[test]
fn command_reports_an_unknown_model_and_a_disabled_feature() {
    let mut chat = widget(true, None);
    chat.set_advisor_from_command("GPT-5.5-MINI-X");
    assert_eq!(
        chat.history,
        vec![HistoryMessage::Error {
            message: "Advisor model 'GPT-5.5-MINI-X' is unavailable.".to_string()
        }]
    );
    let mut off = widget(false, None);
    off.set_advisor_from_command("gpt-5.5");
    assert_eq!(
        off.history,
        vec![HistoryMessage::Error { message: "Enable Advisor in /experimental first.".to_string() }]
    );
    assert!(off.app_events.is_empty());
}

#[test]
fn updated_model_is_current_in_the_picker() {
    let mut chat = widget(true, None);
    chat.update_advisor_model(Some("gpt-5.5-mini".to_string()));
    assert_eq!(chat.config.advisor_model.as_deref(), Some("gpt-5.5-mini"));
    chat.open_advisor_popup();
    let view = chat.selection_view.expect("a popup");
    let current: Vec<bool> = view.items.iter().map(|i| i.is_current).collect();
    assert_eq!(current, vec![false, false, true]);
}
