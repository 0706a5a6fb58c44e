//! Advisor model selection for the experimental consultation tool: the
//! picker popup, the `/advisor` command, and the configured model.
use vstd::prelude::*;

use crate::text::eq_ignore_ascii_case;
use crate::text::eq_ignore_ascii_case_spec;
use crate::text::concat;
use crate::text::ascii_lower_code;

verus! {

/// A model that the catalog offers.
#[derive(Clone, Debug, PartialEq, Eq)]
pub struct ModelPreset {
    /// The model's identifier.
    pub model: String,
    /// The name shown to the user.
    pub display_name: String,
    /// Whether the model is listed in pickers.
    pub show_in_picker: bool,
}

/// An event sent to the application.
#[derive(Clone, Debug, PartialEq, Eq)]
pub enum AppEvent {
    /// Store the advisor model (`None`: no advisor) in the configuration.
    PersistAdvisorModel { model: Option<String> },
}

/// One choice of a selection popup, with the event that choosing it sends.
#[derive(Clone, Debug, PartialEq, Eq)]
pub struct SelectionItem {
    pub name: String,
    pub description: Option<String>,
    pub is_current: bool,
    pub action: AppEvent,
}

/// A selection popup shown in the bottom pane.
#[derive(Clone, Debug, PartialEq, Eq)]
pub struct SelectionViewParams {
    pub title: Option<String>,
    pub subtitle: Option<String>,
    pub items: Vec<SelectionItem>,
}

/// A message added to the chat history.
#[derive(Clone, Debug, PartialEq, Eq)]
pub enum HistoryMessage {
    Info { message: String, hint: Option<String> },
    Error { message: String },
}

/// The part of the configuration that the advisor uses.
#[derive(Clone, Debug, PartialEq, Eq)]
pub struct Config {
    /// Whether the experimental advisor feature is enabled.
    pub advisor_feature_enabled: bool,
    /// The configured advisor model, if any.
    pub advisor_model: Option<String>,
}

/// The chat widget's advisor-related state.
#[derive(Clone, Debug, PartialEq, Eq)]
pub struct ChatWidget {
    pub config: Config,
    /// The catalog's models, or `None` when they could not be listed.
    pub model_catalog: Option<Vec<ModelPreset>>,
    /// Messages added to the history.
    pub history: Vec<HistoryMessage>,
    /// Events sent to the application.
    pub app_events: Vec<AppEvent>,
    /// The popup shown in the bottom pane, if any.
    pub selection_view: Option<SelectionViewParams>,
}

/// The catalog's models; none when they could not be listed.
pub open spec fn listed_models(catalog: Option<Vec<ModelPreset>>) -> Seq<ModelPreset> {
    match catalog {
        Some(v) => v@,
        None => Seq::empty(),
    }
}

/// The models shown in the picker, in catalog order.
pub open spec fn picker_models(models: Seq<ModelPreset>) -> Seq<ModelPreset>
    decreases models.len(),
{
    if models.len() == 0 {
        Seq::empty()
    } else if models.last().show_in_picker {
        picker_models(models.drop_last()).push(models.last())
    } else {
        picker_models(models.drop_last())
    }
}

/// Whether `current` is the model `model`.
pub open spec fn is_current_model(current: Option<String>, model: String) -> bool {
    current matches Some(m) && m@ == model@
}

/// Whether `item` is the picker's first choice, "Off".
pub open spec fn is_off_item(item: SelectionItem, current: Option<String>) -> bool {
    &&& item.name@ == "Off"@
    &&& item.description matches Some(d) && d@ == "Do not consult an advisor"@
    &&& item.is_current == (current is None)
    &&& item.action == (AppEvent::PersistAdvisorModel { model: None })
}

/// Whether `item` is the picker's choice for `preset`.
pub open spec fn is_model_item(item: SelectionItem, preset: ModelPreset, current: Option<String>) -> bool {
    &&& item.name == preset.display_name
    &&& item.description == Some(preset.model)
    &&& item.is_current == is_current_model(current, preset.model)
    &&& item.action == (AppEvent::PersistAdvisorModel { model: Some(preset.model) })
}

/// Whether `items` are the picker's choices for `models` with `current`
/// configured: "Off", then one choice per model shown in pickers.
pub open spec fn is_advisor_picker(
    items: Seq<SelectionItem>,
    models: Seq<ModelPreset>,
    current: Option<String>,
) -> bool {
    let shown = picker_models(models);
    &&& items.len() == shown.len() + 1
    &&& is_off_item(items[0], current)
    &&& forall|i: int| 0 <= i < shown.len() ==> is_model_item(#[trigger] items[i + 1], shown[i], current)
}

/// Whether `preset` answers to `requested`: by its identifier exactly, or by
/// its display name with ASCII case ignored.
pub open spec fn preset_matches(preset: ModelPreset, requested: Seq<char>) -> bool {
    preset.model@ == requested || eq_ignore_ascii_case_spec(preset.display_name@, requested)
}

/// Whether `j` is the first model that answers to `requested`.
pub open spec fn is_first_match(models: Seq<ModelPreset>, requested: Seq<char>, j: int) -> bool {
    &&& 0 <= j < models.len()
    &&& preset_matches(models[j], requested)
    &&& forall|k: int| 0 <= k < j ==> !preset_matches(#[trigger] models[k], requested)
}

/// Whether `new` is `old` with one more element at its end.
pub open spec fn is_one_more<T>(old: Seq<T>, new: Seq<T>) -> bool {
    new.len() == old.len() + 1 && new.drop_last() =~= old
}

/// The requested name that switches the advisor off.
pub open spec fn is_off_request(requested: Seq<char>) -> bool {
    eq_ignore_ascii_case_spec(requested, "off"@) || eq_ignore_ascii_case_spec(requested, "none"@)
}

/// The popup's title.
pub const PICKER_TITLE: &'static str = "Select advisor model";

/// The popup's subtitle.
pub const PICKER_SUBTITLE: &'static str = "Codex consults it for consequential decisions and completion reviews.";

/// The message shown when the picker is opened with the feature disabled.
pub const PICKER_DISABLED: &'static str = "Enable Advisor in /experimental before choosing an advisor model.";

/// The error shown when the command is used with the feature disabled.
pub const COMMAND_DISABLED: &'static str = "Enable Advisor in /experimental first.";

fn model_item(preset: &ModelPreset, current: &Option<String>) -> (res: SelectionItem)
    ensures
        is_model_item(res, *preset, *current),
{
    let selected = match current {
        Some(m) => *m == preset.model,
        None => false,
    };
    SelectionItem {
        name: preset.display_name.clone(),
        description: Some(preset.model.clone()),
        is_current: selected,
        action: AppEvent::PersistAdvisorModel { model: Some(preset.model.clone()) },
    }
}

fn advisor_picker_items(models: &Vec<ModelPreset>, current: &Option<String>) -> (res: Vec<SelectionItem>)
    ensures
        is_advisor_picker(res@, models@, *current),
{
    let mut items: Vec<SelectionItem> = Vec::new();
    items.push(
        SelectionItem {
            name: String::from_str("Off"),
            description: Some(String::from_str("Do not consult an advisor")),
            is_current: current.is_none(),
            action: AppEvent::PersistAdvisorModel { model: None },
        },
    );
    let mut i: usize = 0;
    while i < models.len()
        invariant
            i <= models@.len(),
            is_advisor_picker(items@, models@.take(i as int), *current),
        decreases models.len() - i,
    {
        proof {
            assert(models@.take(i + 1).drop_last() =~= models@.take(i as int));
            assert(models@.take(i + 1).last() == models@[i as int]);
        }
        let preset = &models[i];
        if preset.show_in_picker {
            let ghost before = items@;
            let item = model_item(preset, current);
            items.push(item);
            proof {
                let shown = picker_models(models@.take(i as int));
                let shown2 = picker_models(models@.take(i + 1));
                assert(shown2 == shown.push(models@[i as int]));
                assert forall|k: int| 0 <= k < shown2.len() implies is_model_item(
                    #[trigger] items@[k + 1],
                    shown2[k],
                    *current,
                ) by {
                    if k < shown.len() {
                        assert(items@[k + 1] == before[k + 1]);
                    }
                }
            }
        }
        i = i + 1;
    }
    assert(models@.take(models@.len() as int) =~= models@);
    items
}

impl ChatWidget {
    /// Opens the advisor model picker: "Off", then every catalog model shown
    /// in pickers, the configured one marked current. With the feature
    /// disabled, adds an info message instead.
    pub fn open_advisor_popup(&mut self)
        ensures
            final(self).config == old(self).config,
            final(self).model_catalog == old(self).model_catalog,
            final(self).app_events == old(self).app_events,
            if !old(self).config.advisor_feature_enabled {
                &&& final(self).selection_view == old(self).selection_view
                &&& is_one_more(old(self).history@, final(self).history@)
                &&& final(self).history@.last() matches HistoryMessage::Info { message, hint }
                &&& message@ == PICKER_DISABLED@
                &&& hint is None
            } else {
                &&& final(self).history == old(self).history
                &&& final(self).selection_view matches Some(view)
                &&& view.title matches Some(t) && t@ == PICKER_TITLE@
                &&& view.subtitle matches Some(s) && s@ == PICKER_SUBTITLE@
                &&& is_advisor_picker(
                    view.items@,
                    listed_models(old(self).model_catalog),
                    old(self).config.advisor_model,
                )
            },
    {
        if !self.config.advisor_feature_enabled {
            self.history.push(
                HistoryMessage::Info { message: String::from_str(PICKER_DISABLED), hint: None },
            );
            return ;
        }
        let items = match &self.model_catalog {
            Some(models) => advisor_picker_items(models, &self.config.advisor_model),
            None => {
                let empty: Vec<ModelPreset> = Vec::new();
                advisor_picker_items(&empty, &self.config.advisor_model)
            },
        };
        self.selection_view = Some(
            SelectionViewParams {
                title: Some(String::from_str(PICKER_TITLE)),
                subtitle: Some(String::from_str(PICKER_SUBTITLE)),
                items,
            },
        );
    }

    /// Handles `/advisor <requested>`: "off" or "none" (any ASCII case)
    /// switches the advisor off; otherwise the first catalog model whose
    /// identifier is `requested`, or whose display name matches it with
    /// ASCII case ignored, is chosen; an unknown name is reported. With the
    /// feature disabled, an error is reported instead.
    pub fn set_advisor_from_command(&mut self, requested: &str)
        ensures
            final(self).config == old(self).config,
            final(self).model_catalog == old(self).model_catalog,
            final(self).selection_view == old(self).selection_view,
            ({
                let models = listed_models(old(self).model_catalog);
                if !old(self).config.advisor_feature_enabled {
                    &&& final(self).app_events == old(self).app_events
                    &&& is_one_more(old(self).history@, final(self).history@)
                    &&& final(self).history@.last() matches HistoryMessage::Error { message }
                    &&& message@ == COMMAND_DISABLED@
                } else if is_off_request(requested@) {
                    &&& final(self).history == old(self).history
                    &&& final(self).app_events@ == old(self).app_events@.push(
                        AppEvent::PersistAdvisorModel { model: None },
                    )
                } else if exists|j: int| is_first_match(models, requested@, j) {
                    &&& final(self).history == old(self).history
                    &&& exists|j: int|
                        is_first_match(models, requested@, j) && final(self).app_events@
                            == old(self).app_events@.push(
                            AppEvent::PersistAdvisorModel { model: Some(models[j].model) },
                        )
                } else {
                    &&& final(self).app_events == old(self).app_events
                    &&& is_one_more(old(self).history@, final(self).history@)
                    &&& final(self).history@.last() matches HistoryMessage::Error { message }
                    &&& message@ == "Advisor model '"@ + requested@ + "' is unavailable."@
                }
            }),
    {
        if !self.config.advisor_feature_enabled {
            self.history.push(HistoryMessage::Error { message: String::from_str(COMMAND_DISABLED) });
            return ;
        }
        if eq_ignore_ascii_case(requested, "off") || eq_ignore_ascii_case(requested, "none") {
            self.app_events.push(AppEvent::PersistAdvisorModel { model: None });
            return ;
        }
        let found = match &self.model_catalog {
            Some(models) => first_matching_model(models, requested),
            None => None,
        };
        match found {
            Some(model) => {
                self.app_events.push(AppEvent::PersistAdvisorModel { model: Some(model) });
            },
            None => {
                let head = concat("Advisor model '", requested);
                let message = concat(head.as_str(), "' is unavailable.");
                self.history.push(HistoryMessage::Error { message });
            },
        }
    }

    /// Sets the configured advisor model.
    pub fn update_advisor_model(&mut self, model: Option<String>)
        ensures
            final(self).config.advisor_model == model,
            final(self).config.advisor_feature_enabled == old(self).config.advisor_feature_enabled,
            final(self).model_catalog == old(self).model_catalog,
            final(self).history == old(self).history,
            final(self).app_events == old(self).app_events,
            final(self).selection_view == old(self).selection_view,
    {
        self.config.advisor_model = model;
    }
}

fn first_matching_model(models: &Vec<ModelPreset>, requested: &str) -> (res: Option<String>)
    ensures
        match res {
            Some(m) => exists|j: int| is_first_match(models@, requested@, j) && m == models@[j].model,
            None => !exists|j: int| is_first_match(models@, requested@, j),
        },
{
    let mut i: usize = 0;
    while i < models.len()
        invariant
            i <= models@.len(),
            forall|k: int| 0 <= k < i ==> !preset_matches(#[trigger] models@[k], requested@),
        decreases models.len() - i,
    {
        let preset = &models[i];
        if crate::text::str_eq(preset.model.as_str(), requested) || eq_ignore_ascii_case(
            preset.display_name.as_str(),
            requested,
        ) {
            proof {
                assert(is_first_match(models@, requested@, i as int));
            }
            return Some(preset.model.clone());
        }
        i = i + 1;
    }
    None
}

/// The picker marks exactly the configured model as current: "Off" is
/// current when no advisor model is configured, and a model's choice is
/// current when, and only when, it is the configured model.
pub proof fn picker_marks_the_configured_model(
    items: Seq<SelectionItem>,
    models: Seq<ModelPreset>,
    current: Option<String>,
)
    requires
        is_advisor_picker(items, models, current),
    ensures
        items[0].is_current <==> current is None,
        forall|i: int|
            0 < i < items.len() ==> (#[trigger] items[i].is_current <==> (current matches Some(m)
                && m@ == picker_models(models)[i - 1].model@)),
{
    assert forall|i: int| 0 < i < items.len() implies (#[trigger] items[i].is_current <==> (
    current matches Some(m) && m@ == picker_models(models)[i - 1].model@)) by {
        assert(is_model_item(items[(i - 1) + 1], picker_models(models)[i - 1], current));
    }
}

/// A model answers to a request only by its whole identifier or by its
/// whole display name: the identifier equals the request, or the display
/// name has the request's length and equals it character by character once
/// ASCII letters are lower-cased. So a display name longer or shorter than
/// the request never matches by itself.
pub proof fn models_match_by_whole_name(preset: ModelPreset, requested: Seq<char>)
    ensures
        preset_matches(preset, requested) <==> (preset.model@ == requested || (
        preset.display_name@.len() == requested.len() && forall|i: int|
            0 <= i < requested.len() ==> ascii_lower_code(#[trigger] preset.display_name@[i])
                == ascii_lower_code(requested[i]))),
        preset.display_name@.len() != requested.len() && preset.model@ != requested
            ==> !preset_matches(preset, requested),
{
}

/// The command chooses the first model that answers to the request: every
/// model before it does not answer, and the one chosen does.
pub proof fn command_chooses_the_first_answering_model(
    models: Seq<ModelPreset>,
    requested: Seq<char>,
    j: int,
)
    requires
        is_first_match(models, requested, j),
    ensures
        models[j].model@ == requested || (models[j].display_name@.len() == requested.len()
            && forall|i: int|
            0 <= i < requested.len() ==> ascii_lower_code(#[trigger] models[j].display_name@[i])
                == ascii_lower_code(requested[i])),
        forall|k: int|
            0 <= k < j ==> (#[trigger] models[k]).model@ != requested && !(models[k].display_name@.len()
                == requested.len() && forall|i: int|
                0 <= i < requested.len() ==> ascii_lower_code(#[trigger] models[k].display_name@[i])
                    == ascii_lower_code(requested[i])),
{
    models_match_by_whole_name(models[j], requested);
    assert forall|k: int| 0 <= k < j implies (#[trigger] models[k]).model@ != requested && !(
    models[k].display_name@.len() == requested.len() && forall|i: int|
        0 <= i < requested.len() ==> ascii_lower_code(#[trigger] models[k].display_name@[i])
            == ascii_lower_code(requested[i])) by {
        models_match_by_whole_name(models[k], requested);
    }
}

/// A request switches the advisor off exactly when it is "off" or "none"
/// in any ASCII case.
pub proof fn off_requests_are_off_and_none(requested: Seq<char>)
    ensures
        is_off_request(requested) <==> (requested.len() == 3 && ascii_lower_code(requested[0])
            == 'o' as u32 && ascii_lower_code(requested[1]) == 'f' as u32 && ascii_lower_code(
            requested[2],
        ) == 'f' as u32) || (requested.len() == 4 && ascii_lower_code(requested[0]) == 'n' as u32
            && ascii_lower_code(requested[1]) == 'o' as u32 && ascii_lower_code(requested[2])
            == 'n' as u32 && ascii_lower_code(requested[3]) == 'e' as u32),
{
    reveal_strlit("off");
    reveal_strlit("none");
    let off: Seq<char> = "off"@;
    let none: Seq<char> = "none"@;
    assert(off[0] == 'o' && off[1] == 'f' && off[2] == 'f');
    assert(none[0] == 'n' && none[1] == 'o' && none[2] == 'n' && none[3] == 'e');
    if requested.len() == 3 && ascii_lower_code(requested[0]) == 'o' as u32 && ascii_lower_code(requested[1]) == 'f' as u32
        && ascii_lower_code(requested[2]) == 'f' as u32 {
        assert forall|i: int| 0 <= i < requested.len() implies ascii_lower_code(#[trigger] requested[i])
            == ascii_lower_code(off[i]) by {
            if i == 0 {} else if i == 1 {} else {}
        }
    }
    if requested.len() == 4 && ascii_lower_code(requested[0]) == 'n' as u32 && ascii_lower_code(requested[1]) == 'o' as u32
        && ascii_lower_code(requested[2]) == 'n' as u32 && ascii_lower_code(requested[3]) == 'e' as u32 {
        assert forall|i: int| 0 <= i < requested.len() implies ascii_lower_code(#[trigger] requested[i])
            == ascii_lower_code(none[i]) by {
            if i == 0 {} else if i == 1 {} else if i == 2 {} else {}
        }
    }
    if crate::text::eq_ignore_ascii_case_spec(requested, off) {
        assert(ascii_lower_code(requested[0]) == ascii_lower_code(off[0]));
        assert(ascii_lower_code(requested[1]) == ascii_lower_code(off[1]));
        assert(ascii_lower_code(requested[2]) == ascii_lower_code(off[2]));
    }
    if crate::text::eq_ignore_ascii_case_spec(requested, none) {
        assert(ascii_lower_code(requested[0]) == ascii_lower_code(none[0]));
        assert(ascii_lower_code(requested[1]) == ascii_lower_code(none[1]));
        assert(ascii_lower_code(requested[2]) == ascii_lower_code(none[2]));
        assert(ascii_lower_code(requested[3]) == ascii_lower_code(none[3]));
    }
}

/// Every choice of the picker persists its own model: "Off" persists no
/// model, and the choice for each model shown persists that model, whether
/// or not it is the current one. Each choice is named after its model's
/// display name and described by its identifier.
pub proof fn picker_choices_persist_their_models(
    items: Seq<SelectionItem>,
    models: Seq<ModelPreset>,
    current: Option<String>,
)
    requires
        is_advisor_picker(items, models, current),
    ensures
        items[0].action == (AppEvent::PersistAdvisorModel { model: None }),
        items[0].name@ == "Off"@,
        items[0].is_current == (current is None),
        items.len() == picker_models(models).len() + 1,
        forall|i: int|
            0 <= i < picker_models(models).len() ==> (#[trigger] items[i + 1]).action == (
            AppEvent::PersistAdvisorModel { model: Some(picker_models(models)[i].model) })
                && items[i + 1].name == picker_models(models)[i].display_name
                && items[i + 1].description == Some(picker_models(models)[i].model),
{
    assert forall|i: int| 0 <= i < picker_models(models).len() implies (#[trigger] items[i
        + 1]).action == (AppEvent::PersistAdvisorModel { model: Some(picker_models(models)[i].model) })
        && items[i + 1].name == picker_models(models)[i].display_name
        && items[i + 1].description == Some(picker_models(models)[i].model) by {
        assert(is_model_item(items[i + 1], picker_models(models)[i], current));
    }
}

/// A catalog that could not be listed offers no models; a listed one
/// offers its models as they are.
pub proof fn listed_models_of_the_catalog(catalog: Option<Vec<ModelPreset>>)
    ensures
        catalog is None ==> listed_models(catalog).len() == 0,
        catalog matches Some(v) ==> listed_models(catalog) == v@,
{
}

/// The picker shows exactly the catalog's models marked for pickers, in
/// catalog order: a model is shown when, and only when, it is marked.
pub proof fn picker_shows_the_marked_models(models: Seq<ModelPreset>, p: ModelPreset)
    ensures
        picker_models(models.push(p)) == if p.show_in_picker {
            picker_models(models).push(p)
        } else {
            picker_models(models)
        },
        picker_models(Seq::<ModelPreset>::empty()).len() == 0,
{
    assert(models.push(p).drop_last() =~= models);
}

} // verus!
