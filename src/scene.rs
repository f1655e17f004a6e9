//! The screens of the application and how each is entered.
use crate::config::Config;
use crate::editor::Editor;
use crate::model::Target;
use vstd::prelude::*;

verus! {

/// The screen that is shown. Exactly one is active; a transition replaces it
/// whole.
#[derive(Debug, Clone)]
pub enum Scene {
    /// Entry of the passphrase: set twice on the first run, once afterwards.
    Initial { passphrase1: String, passphrase2: String, error: Option<String> },
    /// The targets of the chosen repository, one row each, with at most one
    /// row expanded.
    Overview { rows: usize, selected_target: Option<usize> },
    /// The editor on a target that is not saved yet.
    CreateTarget { editor: Editor },
    /// The form that creates a repository.
    CreateRepo { name: String, home: Option<String>, error: Option<String> },
    /// The editor on a copy of the target at `target_index`.
    EditTarget { editor: Editor, target_index: usize },
    Settings,
}

/// A press on a row of the overview.
#[derive(Debug, Clone, Copy, PartialEq, Eq, Structural)]
pub enum ListItemMessage {
    Expand,
    Edit,
}

/// The number of targets of the chosen repository, none when no existing
/// repository is chosen.
pub open spec fn target_count(c: Config) -> nat {
    match c.spec_selected_repo() {
        Some(repo) => repo.targets@.len(),
        None => 0,
    }
}

/// The overview as it is entered: one row per target of the chosen
/// repository, none expanded.
pub open spec fn overview_of(c: Config) -> Scene {
    Scene::Overview { rows: target_count(c) as usize, selected_target: None }
}

/// The editor of a scene that has one.
pub open spec fn scene_editor(s: Scene) -> Option<Editor> {
    match s {
        Scene::CreateTarget { editor } => Some(editor),
        Scene::EditTarget { editor, .. } => Some(editor),
        _ => None,
    }
}

/// The same editing scene with its editor replaced.
pub open spec fn with_editor(s: Scene, e: Editor) -> Scene {
    match s {
        Scene::EditTarget { target_index, .. } => Scene::EditTarget { editor: e, target_index },
        _ => Scene::CreateTarget { editor: e },
    }
}

/// The position that an editing scene saves to: its index, or none for a new
/// target.
pub open spec fn scene_target_index(s: Scene) -> Option<usize> {
    match s {
        Scene::EditTarget { target_index, .. } => Some(target_index),
        _ => None,
    }
}

impl Scene {
    /// The passphrase screen, empty.
    pub fn init() -> (r: Scene)
        ensures
            r matches Scene::Initial { passphrase1, passphrase2, error } && passphrase1@.len() == 0
                && passphrase2@.len() == 0 && error is None,
    {
        Scene::Initial { passphrase1: String::new(), passphrase2: String::new(), error: None }
    }

    /// The overview of the chosen repository's targets.
    pub fn overview(config: &Config) -> (r: Scene)
        requires
            config.wf(),
        ensures
            r == overview_of(*config),
    {
        let rows = match config.selected_repo() {
            Some(repo) => repo.targets.len(),
            None => 0,
        };
        Scene::Overview { rows, selected_target: None }
    }

    /// The editor on a new, empty target of repository `repo_id`.
    pub fn create_target(repo_id: u128) -> (r: Scene)
        ensures
            r matches Scene::CreateTarget { editor } && editor.target.repo == repo_id
                && editor.target.name@.len() == 0 && editor.target.sources@.len() == 0
                && editor.target.excludes@.len() == 0 && editor.target.duplication@.len() == 0
                && editor.error is None,
    {
        Scene::CreateTarget { editor: Editor::new_target(repo_id) }
    }

    /// The form that creates a repository, empty.
    pub fn create_repo() -> (r: Scene)
        ensures
            r matches Scene::CreateRepo { name, home, error } && name@.len() == 0 && home is None
                && error is None,
    {
        Scene::CreateRepo { name: String::new(), home: None, error: None }
    }

    /// The editor on a copy of the chosen repository's target at
    /// `target_index`.
    pub fn edit(target_index: usize, config: &Config) -> (r: Scene)
        requires
            config.wf(),
            config.spec_selected_repo() matches Some(repo) && target_index < repo.targets@.len(),
        ensures
            r matches Scene::EditTarget { editor, target_index: i } && i == target_index
                && editor.error is None
                && editor.target@ == config.spec_selected_repo()->Some_0.targets@[target_index as int]@,
    {
        let repo = match config.selected_repo() {
            Some(repo) => repo,
            None => {
                proof {
                    assert(false);
                }
                return Scene::settings();
            }
        };
        let target: Target = repo.targets[target_index].duplicate();
        Scene::EditTarget { editor: Editor::with_target(target), target_index }
    }

    /// The settings screen.
    pub fn settings() -> (r: Scene)
        ensures
            r is Settings,
    {
        Scene::Settings
    }
}

} // verus!
