//! The scene controller: the application's state and its reaction to each
//! message. Outside work (dialogs, opening or creating a repository on disk)
//! is handed back as an `Action`; its outcome comes back as a `Message`.
use crate::config::{committed, Config};
use crate::editor::{editor_action, editor_step, Editor, EditorAction, EditorMessage};
use crate::model::{Opt, RepoOption, Target};
use crate::path;
use crate::repos::{has_key, inserted, key_index, lookup, repo_entries};
use crate::scene::{overview_of, scene_editor, scene_target_index, with_editor, ListItemMessage, Scene};
use crate::secret::{hash_passphrase, new_repo_id, passphrase_matches, verify_passphrase};
use crate::validate::{target_valid, verify_target};
use vstd::prelude::*;
use vstd::string::*;

verus! {

broadcast use vstd::string::to_string_from_display_ensures_for_str;

/// An event of the user interface, or the outcome of outside work.
#[derive(Debug)]
pub enum Message {
    /// The periodic wake-up of the event loop.
    Tick,
    ToOverview,
    NewTarget,
    EditTarget(usize),
    ListItem(usize, ListItemMessage),
    TargetEditor(EditorMessage),
    OpenSettings,
    PickRepo(Opt<RepoOption>),
    SetPassphrase1(String),
    SetPassphrase2(String),
    InitialConfirm,
    SetRepoName(String),
    SetRepoHome(String),
    SaveRepo,
    RepoHome(path::Message),
    /// The outcome of creating or opening the repository of the creation form.
    RepoSaveResult(Result<(), String>),
    /// The outcome of opening a repository chosen from the list.
    RepoOpenResult(Opt<RepoOption>, Result<(), String>),
}

/// Outside work that a message calls for.
#[derive(Debug, Clone)]
pub enum Action {
    Nothing,
    /// Run the folder dialog for the editor's source at this position; its
    /// outcome comes back as `EditorMessage::Source`.
    PickSource(usize),
    /// Run the folder dialog for the home of the repository being created;
    /// its outcome comes back as `Message::RepoHome`.
    PickRepoHome,
    /// Open the repository at `home`; the outcome comes back as
    /// `Message::RepoOpenResult` with `option`.
    OpenRepo { option: Opt<RepoOption>, home: String },
    /// Create a repository at `home` (open it, if the folder is not empty);
    /// the outcome comes back as `Message::RepoSaveResult`.
    InitRepo { home: String, passphrase: String },
    /// Tell the user of an error.
    ReportError(String),
}

/// The application: its configuration, the active scene, and the passphrase
/// once it was confirmed.
#[derive(Debug)]
pub struct Ui {
    pub config: Config,
    pub scene: Scene,
    pub passphrase: Option<String>,
}

/// The messages that the passphrase screen reacts to.
pub open spec fn is_initial_message(m: Message) -> bool {
    ||| m is Tick
    ||| m is SetPassphrase1
    ||| m is SetPassphrase2
    ||| m is InitialConfirm
}

/// `n` is `o` with the overview of `o`'s configuration entered.
pub open spec fn entered_overview(o: Ui, n: Ui) -> bool {
    n == Ui { scene: overview_of(o.config), ..o }
}

/// `s` is the empty form that creates a repository.
pub open spec fn fresh_repo_form(s: Scene) -> bool {
    s matches Scene::CreateRepo { name, home, error } && name@.len() == 0 && home is None && error is None
}

/// Reaction to a request for a new target: the empty editor for the chosen
/// repository, or nothing when none is chosen.
pub open spec fn new_target_step(o: Ui, n: Ui) -> bool {
    match o.config.selected_id() {
        Some(id) => {
            &&& n.config == o.config
            &&& n.passphrase == o.passphrase
            &&& n.scene matches Scene::CreateTarget { editor } && editor.target.repo == id
                && editor.target.name@.len() == 0 && editor.target.sources@.len() == 0
                && editor.target.excludes@.len() == 0 && editor.target.duplication@.len() == 0
                && editor.error is None
        },
        None => n == o,
    }
}

/// Reaction to a request to edit the target at `i`: the editor on a copy of
/// it, or nothing when the chosen repository has no such target.
pub open spec fn edit_target_step(o: Ui, n: Ui, i: usize) -> bool {
    match o.config.spec_selected_repo() {
        Some(repo) => if i < repo.targets@.len() {
            &&& n.config == o.config
            &&& n.passphrase == o.passphrase
            &&& n.scene matches Scene::EditTarget { editor, target_index } && target_index == i
                && editor.error is None && editor.target@ == repo.targets@[i as int]@
        } else {
            n == o
        },
        None => n == o,
    }
}

/// Reaction to a press on a row: the expanded row is folded, or, with none
/// expanded, row `i` is expanded.
pub open spec fn expand_step(o: Ui, n: Ui, i: usize) -> bool {
    match o.scene {
        Scene::Overview { rows, selected_target } => n == Ui {
            scene: Scene::Overview {
                rows,
                selected_target: if selected_target is Some {
                    None
                } else {
                    Some(i)
                },
            },
            ..o
        },
        _ => n == o,
    }
}

/// Reaction to the save button of the editor. A valid target is saved at
/// the editor's index (appended for a new target) and the overview is
/// entered; an invalid one stays in the editor with the reason recorded.
/// Nothing happens outside an editor, or when there is nowhere to save.
pub open spec fn save_step(o: Ui, n: Ui) -> bool {
    match scene_editor(o.scene) {
        Some(e) => if target_valid(e.target) {
            if o.config.can_commit(scene_target_index(o.scene)) {
                &&& committed(o.config, n.config, scene_target_index(o.scene), e.target)
                &&& n.scene == overview_of(n.config)
                &&& n.passphrase == o.passphrase
            } else {
                n == o
            }
        } else {
            &&& n.config == o.config
            &&& n.passphrase == o.passphrase
            &&& scene_editor(n.scene) matches Some(e1) && editor_step(e, e1, EditorMessage::Save, EditorAction::Nothing)
                && n.scene == with_editor(o.scene, e1)
        },
        None => n == o,
    }
}

/// Reaction to the cancel button of the editor: the overview is entered and
/// the configuration stays as it was.
pub open spec fn cancel_step(o: Ui, n: Ui) -> bool {
    match scene_editor(o.scene) {
        Some(_) => entered_overview(o, n),
        None => n == o,
    }
}

/// The action for the work that the editor asks for.
pub open spec fn action_of(a: EditorAction) -> Action {
    match a {
        EditorAction::Nothing => Action::Nothing,
        EditorAction::PickSource(i) => Action::PickSource(i),
    }
}

/// Reaction to an edit of the working target: handed to the editor.
pub open spec fn edit_step(o: Ui, n: Ui, m: EditorMessage, r: Action) -> bool {
    match scene_editor(o.scene) {
        Some(e) => {
            &&& n.config == o.config
            &&& n.passphrase == o.passphrase
            &&& r == action_of(editor_action(e.target, m))
            &&& scene_editor(n.scene) matches Some(e1) && editor_step(e, e1, m, editor_action(e.target, m))
                && n.scene == with_editor(o.scene, e1)
        },
        None => n == o && r is Nothing,
    }
}

/// Reaction to a choice in the repository list: the creation form for a new
/// repository; for an existing one, a request to open it at its home, or an
/// error when it is not in the configuration.
pub open spec fn pick_repo_step(o: Ui, n: Ui, opt: Opt<RepoOption>, r: Action) -> bool {
    match opt.value {
        RepoOption::New => {
            &&& n.config == o.config
            &&& n.passphrase == o.passphrase
            &&& fresh_repo_form(n.scene)
            &&& r is Nothing
        },
        RepoOption::Select(id) => {
            &&& n == o
            &&& match lookup(repo_entries(o.config.repos), id) {
                Some(repo) => r == Action::OpenRepo { option: opt, home: repo.home },
                None => r matches Action::ReportError(e) && e@ == "Cannot find repo"@,
            }
        },
    }
}

/// Reaction to the outcome of opening a chosen repository: on success it is
/// chosen, and an overview on screen is entered again for it.
pub open spec fn repo_opened_step(o: Ui, n: Ui, opt: Opt<RepoOption>, res: Result<(), String>, r: Action) -> bool {
    match res {
        Ok(()) => {
            let c = Config { selected_repo: Some(opt), ..o.config };
            &&& n.config == c
            &&& n.passphrase == o.passphrase
            &&& n.scene == (if o.scene is Overview { overview_of(c) } else { o.scene })
            &&& r is Nothing
        },
        Err(e) => n == o && r == Action::ReportError(e),
    }
}

/// Reaction to the confirmation of a stored passphrase, given whether it
/// matches the stored hash: the overview, or the passphrase screen with an
/// error.
pub open spec fn unlock_step(o: Ui, n: Ui, matches: bool) -> bool {
    match o.scene {
        Scene::Initial { passphrase1, passphrase2, .. } => if matches {
            &&& n.config == o.config
            &&& n.passphrase == Some(passphrase1)
            &&& n.scene == overview_of(o.config)
        } else {
            &&& n.config == o.config
            &&& n.passphrase == o.passphrase
            &&& n.scene matches Scene::Initial { passphrase1: first, passphrase2: second, error: Some(e) }
                && first == passphrase1 && second == passphrase2 && e@ == "Wrong passphrase"@
        },
        _ => n == o,
    }
}

/// Reaction to the hash of a new passphrase: stored, with the overview
/// entered, or the hasher's error shown on the passphrase screen.
pub open spec fn new_passphrase_step(o: Ui, n: Ui, hashed: Result<String, String>) -> bool {
    match o.scene {
        Scene::Initial { passphrase1, passphrase2, .. } => match hashed {
            Ok(h) => {
                &&& n.config == Config { passphrase_hash: Some(h), ..o.config }
                &&& n.passphrase == Some(passphrase1)
                &&& n.scene == overview_of(n.config)
            },
            Err(e) => n == Ui {
                scene: Scene::Initial { passphrase1, passphrase2, error: Some(e) },
                ..o
            },
        },
        _ => n == o,
    }
}

/// Reaction to the confirm button of the passphrase screen. With a stored
/// hash, the passphrase is checked against it; on the first run, the two
/// entries must agree, and the passphrase is then hashed with a fresh salt.
pub open spec fn confirm_step(o: Ui, n: Ui) -> bool {
    match o.scene {
        Scene::Initial { passphrase1, passphrase2, .. } => match o.config.passphrase_hash {
            Some(h) => unlock_step(o, n, passphrase_matches(passphrase1@, h@)),
            None => if passphrase1@ == passphrase2@ {
                exists|hashed: Result<String, String>| new_passphrase_step(o, n, hashed)
            } else {
                &&& n.config == o.config
                &&& n.passphrase == o.passphrase
                &&& n.scene matches Scene::Initial { passphrase1: first, passphrase2: second, error: Some(e) }
                    && first == passphrase1 && second == passphrase2 && e@ == "Passphrases don't match"@
            },
        },
        _ => n == o,
    }
}

/// Reaction to the save button of the creation form: the request to create
/// the repository, or the reason it cannot be made.
pub open spec fn save_repo_step(o: Ui, n: Ui, r: Action) -> bool {
    match o.scene {
        Scene::CreateRepo { name, home, .. } => if name@.len() == 0 {
            &&& n.config == o.config
            &&& n.passphrase == o.passphrase
            &&& n.scene matches Scene::CreateRepo { name: n1, home: h1, error: Some(e) } && n1 == name
                && h1 == home && e@ == "Name must be non-empty"@
            &&& r is Nothing
        } else {
            match home {
                Some(h) => n == o && r == Action::InitRepo { home: h, passphrase: o.passphrase->Some_0 },
                None => {
                    &&& n.config == o.config
                    &&& n.passphrase == o.passphrase
                    &&& n.scene matches Scene::CreateRepo { name: n1, home: h1, error: Some(e) } && n1
                        == name && h1 == home && e@ == "Home path must be set"@
                    &&& r is Nothing
                },
            }
        },
        _ => n == o && r is Nothing,
    }
}

/// Reaction to the outcome of creating the repository of the form, given
/// the identifier it gets: stored, chosen, and the overview entered.
pub open spec fn repo_created_step(o: Ui, n: Ui, id: u128) -> bool {
    match o.scene {
        Scene::CreateRepo { name, home: Some(h), .. } => {
            &&& lookup(repo_entries(n.config.repos), id) matches Some(v) && v.id == id && v.name == name
                && v.home == h && v.targets@.len() == 0 && repo_entries(n.config.repos) == inserted(
                repo_entries(o.config.repos),
                id,
                v,
            )
            &&& n.config.selected_id() == Some(id)
            &&& n.config.selected_repo matches Some(opt) && opt.name == name
            &&& n.config.passphrase_hash == o.config.passphrase_hash
            &&& n.passphrase == o.passphrase
            &&& n.scene == overview_of(n.config)
        },
        _ => n == o,
    }
}

/// Reaction to the outcome of creating the repository of the form.
pub open spec fn repo_saved_step(o: Ui, n: Ui, res: Result<(), String>) -> bool {
    match res {
        Ok(()) => exists|id: u128| repo_created_step(o, n, id),
        Err(e) => match o.scene {
            Scene::CreateRepo { name, home, .. } => n == Ui {
                scene: Scene::CreateRepo { name, home, error: Some(e) },
                ..o
            },
            _ => n == o,
        },
    }
}

/// `n` and `r` are the application `o` after message `m` and the outside
/// work it asks for. While the passphrase screen is shown, only its own
/// messages are heard.
pub open spec fn ui_step(o: Ui, n: Ui, m: Message, r: Action) -> bool {
    if o.scene is Initial && !is_initial_message(m) {
        n == o && r is Nothing
    } else {
        match m {
            Message::Tick => n == o && r is Nothing,
            Message::ToOverview => entered_overview(o, n) && r is Nothing,
            Message::NewTarget => new_target_step(o, n) && r is Nothing,
            Message::EditTarget(i) => edit_target_step(o, n, i) && r is Nothing,
            Message::ListItem(i, ListItemMessage::Edit) => edit_target_step(o, n, i) && r is Nothing,
            Message::ListItem(i, ListItemMessage::Expand) => expand_step(o, n, i) && r is Nothing,
            Message::TargetEditor(em) => match em {
                EditorMessage::Save => save_step(o, n) && r is Nothing,
                EditorMessage::Cancel => cancel_step(o, n) && r is Nothing,
                _ => edit_step(o, n, em, r),
            },
            Message::OpenSettings => n == Ui { scene: Scene::Settings, ..o } && r is Nothing,
            Message::PickRepo(opt) => pick_repo_step(o, n, opt, r),
            Message::SetPassphrase1(p) => match o.scene {
                Scene::Initial { passphrase2, error, .. } => n == Ui {
                    scene: Scene::Initial { passphrase1: p, passphrase2, error },
                    ..o
                } && r is Nothing,
                _ => n == o && r is Nothing,
            },
            Message::SetPassphrase2(p) => match o.scene {
                Scene::Initial { passphrase1, error, .. } => n == Ui {
                    scene: Scene::Initial { passphrase1, passphrase2: p, error },
                    ..o
                } && r is Nothing,
                _ => n == o && r is Nothing,
            },
            Message::InitialConfirm => confirm_step(o, n) && r is Nothing,
            Message::SetRepoName(new_name) => match o.scene {
                Scene::CreateRepo { home, error, .. } => n == Ui {
                    scene: Scene::CreateRepo { name: new_name, home, error },
                    ..o
                } && r is Nothing,
                _ => n == o && r is Nothing,
            },
            Message::SetRepoHome(new_home) => match o.scene {
                Scene::CreateRepo { name, error, .. } => n == Ui {
                    scene: Scene::CreateRepo { name, home: Some(new_home), error },
                    ..o
                } && r is Nothing,
                _ => n == o && r is Nothing,
            },
            Message::SaveRepo => save_repo_step(o, n, r),
            Message::RepoHome(pm) => match o.scene {
                Scene::CreateRepo { name, home, error } => {
                    &&& n == Ui {
                        scene: Scene::CreateRepo {
                            name,
                            home: match pm {
                                path::Message::Path(p) => Some(p),
                                _ => home,
                            },
                            error,
                        },
                        ..o
                    }
                    &&& r == (if pm is SelectPath { Action::PickRepoHome } else { Action::Nothing })
                },
                _ => n == o && r is Nothing,
            },
            Message::RepoSaveResult(res) => repo_saved_step(o, n, res) && r is Nothing,
            Message::RepoOpenResult(opt, res) => repo_opened_step(o, n, opt, res, r),
        }
    }
}

impl Ui {
    /// The configuration is well formed, and a passphrase was confirmed
    /// before any screen but the passphrase screen is shown.
    pub open spec fn wf(&self) -> bool {
        &&& self.config.wf()
        &&& !(self.scene is Initial) ==> self.passphrase is Some
    }

    /// The application at start: the passphrase screen over `config`.
    pub fn new(config: Config) -> (r: Ui)
        requires
            config.wf(),
        ensures
            r.wf(),
            r.config == config,
            r.passphrase is None,
            r.scene matches Scene::Initial { passphrase1, passphrase2, error } && passphrase1@.len() == 0
                && passphrase2@.len() == 0 && error is None,
    {
        Ui { config, scene: Scene::init(), passphrase: None }
    }

    /// The window title.
    pub fn title(&self) -> (r: String)
        ensures
            r@ == "Ui - Iced"@,
    {
        "Ui - Iced".to_string()
    }

    /// Handles one message, and says what outside work it calls for.
    pub fn update(&mut self, message: Message) -> (r: Action)
        requires
            old(self).wf(),
        ensures
            final(self).wf(),
            ui_step(*old(self), *final(self), message, r),
    {
        let initial = match &self.scene {
            Scene::Initial { .. } => true,
            _ => false,
        };
        if initial {
            match &message {
                Message::Tick | Message::SetPassphrase1(_) | Message::SetPassphrase2(_)
                | Message::InitialConfirm => {},
                _ => return Action::Nothing,
            }
        }
        match message {
            Message::Tick => Action::Nothing,
            Message::ToOverview => {
                self.scene = Scene::overview(&self.config);
                Action::Nothing
            },
            Message::NewTarget => {
                if let Some(selected) = &self.config.selected_repo {
                    if let RepoOption::Select(repo_id) = selected.value {
                        self.scene = Scene::create_target(repo_id);
                    }
                }
                Action::Nothing
            },
            Message::EditTarget(index) => {
                self.edit_target(index);
                Action::Nothing
            },
            Message::ListItem(i, item) => {
                match item {
                    ListItemMessage::Edit => self.edit_target(i),
                    ListItemMessage::Expand => {
                        if let Scene::Overview { selected_target, .. } = &mut self.scene {
                            if selected_target.is_some() {
                                *selected_target = None;
                            } else {
                                *selected_target = Some(i);
                            }
                        }
                    },
                }
                Action::Nothing
            },
            Message::TargetEditor(em) => match em {
                EditorMessage::Save => {
                    self.save_target();
                    Action::Nothing
                },
                EditorMessage::Cancel => {
                    let editing = match &self.scene {
                        Scene::CreateTarget { .. } | Scene::EditTarget { .. } => true,
                        _ => false,
                    };
                    if editing {
                        self.scene = Scene::overview(&self.config);
                    }
                    Action::Nothing
                },
                _ => self.edit(em),
            },
            Message::OpenSettings => {
                self.scene = Scene::settings();
                Action::Nothing
            },
            Message::PickRepo(opt) => match opt.value {
                RepoOption::New => {
                    self.scene = Scene::create_repo();
                    Action::Nothing
                },
                RepoOption::Select(id) => match self.config.find_repo(id) {
                    Some(repo) => Action::OpenRepo { option: opt, home: repo.home.clone() },
                    None => Action::ReportError("Cannot find repo".to_string()),
                },
            },
            Message::RepoOpenResult(opt, res) => match res {
                Ok(()) => {
                    self.config.selected_repo = Some(opt);
                    let overview = match &self.scene {
                        Scene::Overview { .. } => true,
                        _ => false,
                    };
                    if overview {
                        self.scene = Scene::overview(&self.config);
                    }
                    Action::Nothing
                },
                Err(e) => Action::ReportError(e),
            },
            Message::SetPassphrase1(pass) => {
                if let Scene::Initial { passphrase1, .. } = &mut self.scene {
                    *passphrase1 = pass;
                }
                Action::Nothing
            },
            Message::SetPassphrase2(pass) => {
                if let Scene::Initial { passphrase2, .. } = &mut self.scene {
                    *passphrase2 = pass;
                }
                Action::Nothing
            },
            Message::InitialConfirm => {
                self.confirm();
                Action::Nothing
            },
            Message::SetRepoName(new_name) => {
                if let Scene::CreateRepo { name, .. } = &mut self.scene {
                    *name = new_name;
                }
                Action::Nothing
            },
            Message::SetRepoHome(new_home) => {
                if let Scene::CreateRepo { home, .. } = &mut self.scene {
                    *home = Some(new_home);
                }
                Action::Nothing
            },
            Message::SaveRepo => self.save_repo(),
            Message::RepoHome(pm) => {
                if let Scene::CreateRepo { home, .. } = &mut self.scene {
                    match pm {
                        path::Message::Path(p) => {
                            *home = Some(p);
                            Action::Nothing
                        },
                        path::Message::SelectPath => Action::PickRepoHome,
                        path::Message::Error(_) => Action::Nothing,
                    }
                } else {
                    Action::Nothing
                }
            },
            Message::RepoSaveResult(res) => {
                match res {
                    Ok(()) => {
                        let ready = match &self.scene {
                            Scene::CreateRepo { home: Some(_), .. } => true,
                            _ => false,
                        };
                        if ready {
                            let id = new_repo_id();
                            self.add_created_repo(id);
                        } else {
                            assert(repo_created_step(*old(self), *self, 0));
                        }
                    },
                    Err(e) => {
                        if let Scene::CreateRepo { error, .. } = &mut self.scene {
                            *error = Some(e);
                        }
                    },
                }
                Action::Nothing
            },
        }
    }

    fn edit_target(&mut self, index: usize)
        requires
            old(self).wf(),
            !(old(self).scene is Initial),
        ensures
            final(self).wf(),
            edit_target_step(*old(self), *final(self), index),
    {
        let fits = match self.config.selected_repo() {
            Some(repo) => index < repo.targets.len(),
            None => false,
        };
        if fits {
            self.scene = Scene::edit(index, &self.config);
        }
    }

    fn edit(&mut self, message: EditorMessage) -> (r: Action)
        requires
            old(self).wf(),
            !(old(self).scene is Initial),
        ensures
            final(self).wf(),
            edit_step(*old(self), *final(self), message, r),
    {
        let a = match &mut self.scene {
            Scene::CreateTarget { editor } => editor.update(message),
            Scene::EditTarget { editor, .. } => editor.update(message),
            _ => return Action::Nothing,
        };
        match a {
            EditorAction::Nothing => Action::Nothing,
            EditorAction::PickSource(i) => Action::PickSource(i),
        }
    }

    fn save_target(&mut self)
        requires
            old(self).wf(),
            !(old(self).scene is Initial),
        ensures
            final(self).wf(),
            save_step(*old(self), *final(self)),
    {
        let index: Option<usize> = match &self.scene {
            Scene::CreateTarget { .. } => None,
            Scene::EditTarget { target_index, .. } => Some(*target_index),
            _ => return ,
        };
        let valid = match &self.scene {
            Scene::CreateTarget { editor } => verify_target(&editor.target).is_ok(),
            Scene::EditTarget { editor, .. } => verify_target(&editor.target).is_ok(),
            _ => false,
        };
        if !valid {
            let _ = self.edit(EditorMessage::Save);
            return ;
        }
        let fits = match self.config.selected_repo() {
            Some(repo) => match index {
                Some(i) => i < repo.targets.len(),
                None => true,
            },
            None => false,
        };
        if !fits {
            return ;
        }
        let mut scene = Scene::Settings;
        std::mem::swap(&mut self.scene, &mut scene);
        let editor: Editor = match scene {
            Scene::CreateTarget { editor } => editor,
            Scene::EditTarget { editor, .. } => editor,
            _ => {
                proof {
                    assert(false);
                }
                return ;
            },
        };
        let _ = self.config.commit_target(index, editor.target);
        self.scene = Scene::overview(&self.config);
    }

    /// Confirms the stored passphrase, given whether the entry matches its
    /// hash.
    pub fn unlock(&mut self, matches: bool)
        requires
            old(self).wf(),
        ensures
            final(self).wf(),
            unlock_step(*old(self), *final(self), matches),
    {
        if let Scene::Initial { passphrase1, passphrase2, error } = &mut self.scene {
            if matches {
                let p = passphrase1.clone();
                self.passphrase = Some(p);
                self.scene = Scene::overview(&self.config);
            } else {
                *error = Some("Wrong passphrase".to_string());
            }
        }
    }

    /// Stores the hash of a new passphrase, or shows the hasher's error.
    pub fn accept_new_passphrase(&mut self, hashed: Result<String, String>)
        requires
            old(self).wf(),
        ensures
            final(self).wf(),
            new_passphrase_step(*old(self), *final(self), hashed),
    {
        if let Scene::Initial { passphrase1, error, .. } = &mut self.scene {
            match hashed {
                Ok(h) => {
                    let p = passphrase1.clone();
                    self.config.passphrase_hash = Some(h);
                    self.passphrase = Some(p);
                    self.scene = Scene::overview(&self.config);
                },
                Err(e) => {
                    *error = Some(e);
                },
            }
        }
    }

    fn confirm(&mut self)
        requires
            old(self).wf(),
        ensures
            final(self).wf(),
            confirm_step(*old(self), *final(self)),
    {
        let (first, second) = match &self.scene {
            Scene::Initial { passphrase1, passphrase2, .. } => (passphrase1.clone(), passphrase2.clone()),
            _ => return ,
        };
        let matches = match &self.config.passphrase_hash {
            Some(h) => Some(verify_passphrase(first.as_str(), h.as_str())),
            None => None,
        };
        match matches {
            Some(m) => self.unlock(m),
            None => {
                if first == second {
                    let hashed = hash_passphrase(first.as_str());
                    self.accept_new_passphrase(hashed);
                } else if let Scene::Initial { error, .. } = &mut self.scene {
                    *error = Some("Passphrases don't match".to_string());
                }
            },
        }
    }

    fn save_repo(&mut self) -> (r: Action)
        requires
            old(self).wf(),
            !(old(self).scene is Initial),
        ensures
            final(self).wf(),
            save_repo_step(*old(self), *final(self), r),
    {
        let passphrase = match &self.passphrase {
            Some(p) => p.clone(),
            None => return Action::Nothing,
        };
        if let Scene::CreateRepo { name, home, error } = &mut self.scene {
            if name.as_str().is_empty() {
                *error = Some("Name must be non-empty".to_string());
                Action::Nothing
            } else {
                match home {
                    Some(h) => Action::InitRepo { home: h.clone(), passphrase },
                    None => {
                        *error = Some("Home path must be set".to_string());
                        Action::Nothing
                    },
                }
            }
        } else {
            Action::Nothing
        }
    }

    /// Stores the repository of the creation form under `id`, chooses it,
    /// and enters the overview.
    pub fn add_created_repo(&mut self, id: u128)
        requires
            old(self).wf(),
        ensures
            final(self).wf(),
            repo_created_step(*old(self), *final(self), id),
    {
        let (name, home) = match &self.scene {
            Scene::CreateRepo { name, home: Some(h), .. } => (name.clone(), h.clone()),
            _ => return ,
        };
        self.config.add_repo(id, name, home);
        self.scene = Scene::overview(&self.config);
    }
}

/// Saving a valid edit of the target at position `i` replaces exactly that
/// target of the chosen repository: every other target and every other
/// repository stays as it was, in its place.
pub proof fn lemma_save_replaces_only_edited_target(o: Ui, n: Ui, r: Action)
    requires
        o.wf(),
        o.scene matches Scene::EditTarget { editor, target_index } && target_valid(editor.target)
            && o.config.can_commit(Some(target_index)),
        ui_step(o, n, Message::TargetEditor(EditorMessage::Save), r),
    ensures
        ({
            let s0 = repo_entries(o.config.repos);
            let s1 = repo_entries(n.config.repos);
            let id = o.config.selected_id()->Some_0;
            let k = key_index(s0, id);
            let i = o.scene->target_index as int;
            let t: Target = o.scene->EditTarget_editor.target;
            &&& s1.len() == s0.len()
            &&& forall|j: int| 0 <= j < s0.len() && j != k ==> #[trigger] s1[j] == s0[j]
            &&& s1[k].0 == s0[k].0
            &&& s1[k].1.id == s0[k].1.id
            &&& s1[k].1.name == s0[k].1.name
            &&& s1[k].1.home == s0[k].1.home
            &&& s1[k].1.targets@.len() == s0[k].1.targets@.len()
            &&& s1[k].1.targets@[i] == t
            &&& forall|j: int|
                0 <= j < s0[k].1.targets@.len() && j != i ==> #[trigger] s1[k].1.targets@[j]
                    == s0[k].1.targets@[j]
        }),
        n.config.selected_repo == o.config.selected_repo,
        n.scene == overview_of(n.config),
{
    let s0 = repo_entries(o.config.repos);
    let id = o.config.selected_id()->Some_0;
    let k = key_index(s0, id);
    assert(has_key(s0, id));
    assert(s0[k].0 == id);
    let v = lookup(repo_entries(n.config.repos), id)->Some_0;
    assert(repo_entries(n.config.repos) == s0.update(k, (id, v)));
}

/// Cancelling an edit leaves the configuration exactly as it was.
pub proof fn lemma_cancel_keeps_config(o: Ui, n: Ui, r: Action)
    requires
        ui_step(o, n, Message::TargetEditor(EditorMessage::Cancel), r),
    ensures
        n.config == o.config,
        r is Nothing,
{
}

/// Asking for a new target while no repository is chosen leaves the
/// application as it was, the active scene included.
pub proof fn lemma_new_target_needs_repo(o: Ui, n: Ui, r: Action)
    requires
        o.config.selected_id() is None,
        ui_step(o, n, Message::NewTarget, r),
    ensures
        n == o,
        n.scene == o.scene,
        r is Nothing,
{
}

} // verus!
