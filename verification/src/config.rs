//! The stored preferences: their defaults, where they are kept, what a load
//! makes of what it finds there, and how a change is applied.

use vstd::prelude::*;
use crate::catalog::{ModelView, StoredModel};
use crate::error::ConfigError;
use crate::text::{chars_of, joined};

verus! {

/// What the user has chosen, as it is kept between runs.
#[derive(Debug, PartialEq, Eq)]
pub struct Preferences {
    /// The model used where the user has chosen none.
    pub default_model: StoredModel,
    /// The model that messages are generated with.
    pub user_selected_model: StoredModel,
    /// Whether an accepted message is committed at once.
    pub auto_commit: bool,
}

/// Preferences as contracts speak of them.
pub struct PreferencesView {
    pub default_model: ModelView,
    pub user_selected_model: ModelView,
    pub auto_commit: bool,
}

impl View for Preferences {
    type V = PreferencesView;

    open spec fn view(&self) -> PreferencesView {
        PreferencesView {
            default_model: self.default_model@,
            user_selected_model: self.user_selected_model@,
            auto_commit: self.auto_commit,
        }
    }
}

impl Clone for Preferences {
    fn clone(&self) -> (copy: Self)
        ensures
            copy == *self,
    {
        Preferences {
            default_model: self.default_model.clone(),
            user_selected_model: self.user_selected_model.clone(),
            auto_commit: self.auto_commit,
        }
    }
}

/// The model that a fresh installation uses.
pub open spec fn default_model_view() -> ModelView {
    ModelView {
        name: "Google: Gemini 2.5 Flash Preview 09-2025"@,
        canonical_slug: "google/gemini-2.5-flash-preview-09-2025"@,
    }
}

/// The preferences of a fresh installation: the default model, selected,
/// and no automatic commit.
pub open spec fn default_preferences_view() -> PreferencesView {
    PreferencesView {
        default_model: default_model_view(),
        user_selected_model: default_model_view(),
        auto_commit: false,
    }
}

/// The model that a fresh installation uses.
pub fn default_model() -> (model: StoredModel)
    ensures
        model@ == default_model_view(),
{
    StoredModel {
        name: "Google: Gemini 2.5 Flash Preview 09-2025".to_owned(),
        canonical_slug: "google/gemini-2.5-flash-preview-09-2025".to_owned(),
    }
}

/// The preferences of a fresh installation.
pub fn default_preferences() -> (preferences: Preferences)
    ensures
        preferences@ == default_preferences_view(),
{
    Preferences {
        default_model: default_model(),
        user_selected_model: default_model(),
        auto_commit: false,
    }
}

/// The path of `file` inside the directory `dir`, with one `/` between the
/// two unless `dir` is empty or already ends in one: what joining a
/// directory and a file name gives where `/` parts directories.
pub open spec fn path_in(dir: Seq<char>, file: Seq<char>) -> Seq<char> {
    if dir.len() == 0 {
        file
    } else if dir.last() == '/' {
        dir + file
    } else {
        dir + "/"@ + file
    }
}

/// The path of `file` inside the directory `dir`.
fn file_in(dir: &str, file: &str) -> (path: String)
    ensures
        path@ == path_in(dir@, file@),
{
    let chars = chars_of(dir);
    if chars.len() == 0 {
        file.to_owned()
    } else if chars[chars.len() - 1] == '/' {
        joined(dir.to_owned(), file)
    } else {
        joined(joined(dir.to_owned(), "/"), file)
    }
}

/// Where the preferences are kept, given the configuration directory.
pub fn config_file_path(config_dir: &str) -> (path: String)
    ensures
        path@ == path_in(config_dir@, "git-acm-prefs.json"@),
{
    file_in(config_dir, "git-acm-prefs.json")
}

/// Where the catalog is cached, given the configuration directory.
pub fn models_file_path(config_dir: &str) -> (path: String)
    ensures
        path@ == path_in(config_dir@, "models.json"@),
{
    file_in(config_dir, "models.json")
}

/// Where a file's new content is written before it replaces the file, so
/// that the file itself is never seen half written.
pub fn staging_file_path(target: &str) -> (path: String)
    ensures
        path@ == target@ + ".tmp"@,
{
    joined(target.to_owned(), ".tmp")
}

/// What was found where the preferences are kept.
#[derive(Debug, PartialEq, Eq)]
pub enum ConfigState {
    /// The configuration directory is missing and could not be created.
    NoDirectory,
    /// The directory is there; the preferences file is not.
    NoFile,
    /// The file is there but could not be read.
    Unreadable,
    /// The file was read but does not hold a preferences record.
    Corrupt,
    /// The file holds this record.
    Holds(Preferences),
}

/// What was found, as contracts speak of it.
pub enum ConfigStateView {
    NoDirectory,
    NoFile,
    Unreadable,
    Corrupt,
    Holds(PreferencesView),
}

impl View for ConfigState {
    type V = ConfigStateView;

    open spec fn view(&self) -> ConfigStateView {
        match self {
            ConfigState::NoDirectory => ConfigStateView::NoDirectory,
            ConfigState::NoFile => ConfigStateView::NoFile,
            ConfigState::Unreadable => ConfigStateView::Unreadable,
            ConfigState::Corrupt => ConfigStateView::Corrupt,
            ConfigState::Holds(preferences) => ConfigStateView::Holds(preferences@),
        }
    }
}

/// What is to be done on disk after a load.
#[derive(Clone, Copy, Debug, PartialEq, Eq, Structural)]
pub enum LoadAction {
    /// Nothing: the file was used as it is.
    Keep,
    /// The file is missing: write the defaults to it.
    CreateDefaults,
    /// The directory is missing: say so, and go on with the defaults.
    WarnNoDirectory,
    /// The file cannot be used: say so, leave it as it is for the user to
    /// mend, and go on with the defaults.
    WarnUnusable(ConfigError),
}

/// The result of a load: the preferences to go on with, and what is to be
/// done on disk.
#[derive(Debug, PartialEq, Eq)]
pub struct Loaded {
    /// The preferences that the run uses.
    pub preferences: Preferences,
    /// What the caller does about the file.
    pub action: LoadAction,
}

/// The preferences that a load gives: those in the file where it holds
/// some, the defaults in every other case.
pub open spec fn loaded_preferences(found: ConfigStateView) -> PreferencesView {
    match found {
        ConfigStateView::Holds(preferences) => preferences,
        _ => default_preferences_view(),
    }
}

/// What a load does about the file: a missing file is created, one that
/// cannot be used is reported and never overwritten.
pub open spec fn load_action(found: ConfigStateView) -> LoadAction {
    match found {
        ConfigStateView::NoDirectory => LoadAction::WarnNoDirectory,
        ConfigStateView::NoFile => LoadAction::CreateDefaults,
        ConfigStateView::Unreadable => LoadAction::WarnUnusable(ConfigError::Unreadable),
        ConfigStateView::Corrupt => LoadAction::WarnUnusable(ConfigError::Corrupt),
        ConfigStateView::Holds(_) => LoadAction::Keep,
    }
}

/// Decides what a run goes on with, given what was found on disk. Every
/// state gives preferences; none fails.
pub fn load_preferences(found: ConfigState) -> (loaded: Loaded)
    ensures
        loaded.preferences@ == loaded_preferences(found@),
        loaded.action == load_action(found@),
{
    match found {
        ConfigState::NoDirectory => Loaded {
            preferences: default_preferences(),
            action: LoadAction::WarnNoDirectory,
        },
        ConfigState::NoFile => Loaded {
            preferences: default_preferences(),
            action: LoadAction::CreateDefaults,
        },
        ConfigState::Unreadable => Loaded {
            preferences: default_preferences(),
            action: LoadAction::WarnUnusable(ConfigError::Unreadable),
        },
        ConfigState::Corrupt => Loaded {
            preferences: default_preferences(),
            action: LoadAction::WarnUnusable(ConfigError::Corrupt),
        },
        ConfigState::Holds(preferences) => Loaded { preferences, action: LoadAction::Keep },
    }
}

/// The model that messages are generated with, given what was found on disk.
pub fn load_model_from_pref(found: ConfigState) -> (model: StoredModel)
    ensures
        model@ == loaded_preferences(found@).user_selected_model,
{
    load_preferences(found).preferences.user_selected_model
}

/// Whether accepted messages are committed at once, given what was found on disk.
pub fn load_auto_commit(found: ConfigState) -> (enabled: bool)
    ensures
        enabled == loaded_preferences(found@).auto_commit,
{
    load_preferences(found).preferences.auto_commit
}

/// What a save that succeeded leaves on disk: a file that holds the record.
pub open spec fn saved(preferences: PreferencesView) -> ConfigStateView {
    ConfigStateView::Holds(preferences)
}

/// Loading what was saved gives it back, and asks for nothing to be done
/// about the file.
pub proof fn law_load_returns_what_was_saved(preferences: PreferencesView)
    ensures
        loaded_preferences(saved(preferences)) == preferences,
        load_action(saved(preferences)) == LoadAction::Keep,
{
}

/// One change to the preferences.
#[derive(Debug, PartialEq, Eq)]
pub enum PreferenceChange {
    /// Select this model.
    SelectModel(StoredModel),
    /// Switch the automatic commit on or off.
    SetAutoCommit(bool),
}

/// A change as contracts speak of it.
pub enum PreferenceChangeView {
    SelectModel(ModelView),
    SetAutoCommit(bool),
}

impl View for PreferenceChange {
    type V = PreferenceChangeView;

    open spec fn view(&self) -> PreferenceChangeView {
        match self {
            PreferenceChange::SelectModel(model) => PreferenceChangeView::SelectModel(model@),
            PreferenceChange::SetAutoCommit(enabled) => PreferenceChangeView::SetAutoCommit(
                *enabled,
            ),
        }
    }
}

/// `preferences` after `change`: the one field that the change names is
/// replaced, the others stay.
pub open spec fn changed(preferences: PreferencesView, change: PreferenceChangeView) -> PreferencesView {
    match change {
        PreferenceChangeView::SelectModel(model) => PreferencesView {
            user_selected_model: model,
            ..preferences
        },
        PreferenceChangeView::SetAutoCommit(enabled) => PreferencesView {
            auto_commit: enabled,
            ..preferences
        },
    }
}

/// The record to write after `change`, given what was found on disk; or the
/// reason why nothing is written. A file that cannot be used is never
/// replaced; a missing one counts as holding the defaults.
pub open spec fn updated(found: ConfigStateView, change: PreferenceChangeView) -> Result<
    PreferencesView,
    ConfigError,
> {
    match found {
        ConfigStateView::Unreadable => Err(ConfigError::Unreadable),
        ConfigStateView::Corrupt => Err(ConfigError::Corrupt),
        _ => Ok(changed(loaded_preferences(found), change)),
    }
}

/// An update's result as contracts speak of it.
pub open spec fn update_view(update: Result<Preferences, ConfigError>) -> Result<
    PreferencesView,
    ConfigError,
> {
    match update {
        Ok(preferences) => Ok(preferences@),
        Err(error) => Err(error),
    }
}

/// Applies `change` to `preferences`.
pub fn apply_change(preferences: Preferences, change: &PreferenceChange) -> (after: Preferences)
    ensures
        after@ == changed(preferences@, change@),
{
    match change {
        PreferenceChange::SelectModel(model) => Preferences {
            default_model: preferences.default_model,
            user_selected_model: model.clone(),
            auto_commit: preferences.auto_commit,
        },
        PreferenceChange::SetAutoCommit(enabled) => Preferences {
            default_model: preferences.default_model,
            user_selected_model: preferences.user_selected_model,
            auto_commit: *enabled,
        },
    }
}

/// Reads, changes and hands back for writing: the record that is to
/// replace the file, or the reason why the file is left alone.
pub fn try_update_preferences(found: ConfigState, change: &PreferenceChange) -> (update: Result<
    Preferences,
    ConfigError,
>)
    ensures
        update_view(update) == updated(found@, change@),
{
    match found {
        ConfigState::Unreadable => Err(ConfigError::Unreadable),
        ConfigState::Corrupt => Err(ConfigError::Corrupt),
        other => Ok(apply_change(load_preferences(other).preferences, change)),
    }
}

/// The record to write once `model` is selected.
pub fn save_model_value(found: ConfigState, model: &StoredModel) -> (update: Result<
    Preferences,
    ConfigError,
>)
    ensures
        update_view(update) == updated(found@, PreferenceChangeView::SelectModel(model@)),
{
    try_update_preferences(found, &PreferenceChange::SelectModel(model.clone()))
}

/// The record to write once the automatic commit is switched on or off.
pub fn save_auto_commit(found: ConfigState, enabled: bool) -> (update: Result<
    Preferences,
    ConfigError,
>)
    ensures
        update_view(update) == updated(found@, PreferenceChangeView::SetAutoCommit(enabled)),
{
    try_update_preferences(found, &PreferenceChange::SetAutoCommit(enabled))
}

/// A change that was written is what the next load finds: the record as it
/// was found, or the defaults where none was found, with the one field
/// changed.
pub proof fn law_update_then_load(found: ConfigStateView, change: PreferenceChangeView)
    requires
        updated(found, change) is Ok,
    ensures
        loaded_preferences(saved(updated(found, change).unwrap())) == changed(
            loaded_preferences(found),
            change,
        ),
{
}

/// A file that cannot be used is left as it is for the user to mend: a
/// load does not ask for it to be created anew, and an update writes
/// nothing over it.
pub proof fn law_unusable_file_is_kept(found: ConfigStateView, change: PreferenceChangeView)
    requires
        found is Unreadable || found is Corrupt,
    ensures
        load_action(found) is WarnUnusable,
        loaded_preferences(found) == default_preferences_view(),
        updated(found, change) is Err,
{
}

/// Selecting a model changes the selected model and nothing else.
pub proof fn law_selection_keeps_the_rest(preferences: PreferencesView, model: ModelView)
    ensures
        changed(preferences, PreferenceChangeView::SelectModel(model)).user_selected_model
            == model,
        changed(preferences, PreferenceChangeView::SelectModel(model)).auto_commit
            == preferences.auto_commit,
        changed(preferences, PreferenceChangeView::SelectModel(model)).default_model
            == preferences.default_model,
{
}

/// What a word asks of the automatic commit: `enable` switches it on,
/// `disable` off, and any other word asks for nothing.
pub open spec fn autocommit_choice(word: Seq<char>) -> Option<bool> {
    if word == "enable"@ {
        Some(true)
    } else if word == "disable"@ {
        Some(false)
    } else {
        None
    }
}

/// Reads the word that follows `autocommit` on the command line.
pub fn handle_autocommit(word: &str) -> (choice: Option<bool>)
    ensures
        choice == autocommit_choice(word@),
{
    let word = word.to_owned();
    if word == "enable".to_owned() {
        Some(true)
    } else if word == "disable".to_owned() {
        Some(false)
    } else {
        None
    }
}

} // verus!
