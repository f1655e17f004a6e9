use bup::path;
use bup::{Action, Config, EditorMessage, ListItemMessage, Message, Opt, RepoOption, Scene, Ui};

fn unlocked() -> Ui {
    let mut ui = Ui::new(Config::new());
    ui.update(Message::SetPassphrase1("pw".to_string()));
    ui.accept_new_passphrase(Ok("stored-hash".to_string()));
    ui
}

fn with_repo(id: u128) -> Ui {
    let mut ui = unlocked();
    ui.update(Message::PickRepo(Opt { name: "New repo...".to_string(), value: RepoOption::New }));
    ui.update(Message::SetRepoName("Main".to_string()));
    ui.update(Message::SetRepoHome("/backup".to_string()));
    ui.add_created_repo(id);
    ui
}

fn add_target(ui: &mut Ui, name: &str, source: &str) {
    ui.update(Message::NewTarget);
    ui.update(Message::TargetEditor(EditorMessage::SetName(name.to_string())));
    ui.update(Message::TargetEditor(EditorMessage::NewSource));
    ui.update(Message::TargetEditor(EditorMessage::Source(0, path::Message::Path(source.to_string()))));
    ui.update(Message::TargetEditor(EditorMessage::Save));
}

fn target_names(ui: &Ui) -> Vec<String> {
    ui.config.selected_repo().unwrap().targets.iter().map(|t| t.name.clone()).collect()
}

#[test]
fn starts_on_passphrase_screen() {
    let ui = Ui::new(Config::new());
    assert!(matches!(ui.scene, Scene::Initial { .. }));
    assert!(ui.passphrase.is_none());
    assert_eq!(ui.title(), "Ui - Iced");
}

#[test]
fn other_messages_wait_for_the_passphrase() {
    let mut ui = Ui::new(Config::new());
    assert!(matches!(ui.update(Message::OpenSettings), Action::Nothing));
    ui.update(Message::ToOverview);
    assert!(matches!(ui.scene, Scene::Initial { .. }));
}

#[test]
fn mismatched_first_passphrases_are_refused() {
    let mut ui = Ui::new(Config::new());
    ui.update(Message::SetPassphrase1("a".to_string()));
    ui.update(Message::SetPassphrase2("b".to_string()));
    ui.update(Message::InitialConfirm);
    match &ui.scene {
        Scene::Initial { error, .. } => assert_eq!(error.as_deref(), Some("Passphrases don't match")),
        _ => panic!("left the passphrase screen"),
    }
    assert!(ui.config.passphrase_hash.is_none());
}

#[test]
fn first_passphrase_is_hashed_and_checked_later() {
    let mut ui = Ui::new(Config::new());
    ui.update(Message::SetPassphrase1("secret".to_string()));
    ui.update(Message::SetPassphrase2("secret".to_string()));
    ui.update(Message::InitialConfirm);
    assert!(matches!(ui.scene, Scene::Overview { rows: 0, selected_target: None }));
    assert_eq!(ui.passphrase.as_deref(), Some("secret"));
    let hash = ui.config.passphrase_hash.clone().unwrap();
    assert_ne!(hash, "secret");

    let mut again = Ui::new(Config::new());
    again.config.passphrase_hash = Some(hash.clone());
    again.update(Message::SetPassphrase1("wrong".to_string()));
    again.update(Message::InitialConfirm);
    match &again.scene {
        Scene::Initial { error, .. } => assert_eq!(error.as_deref(), Some("Wrong passphrase")),
        _ => panic!("a wrong passphrase was accepted"),
    }
    again.update(Message::SetPassphrase1("secret".to_string()));
    again.update(Message::InitialConfirm);
    assert!(matches!(again.scene, Scene::Overview { .. }));
    assert_eq!(again.passphrase.as_deref(), Some("secret"));
}

#[test]
fn malformed_stored_hash_matches_nothing() {
    let mut ui = Ui::new(Config::new());
    ui.config.passphrase_hash = Some("not a hash".to_string());
    ui.update(Message::SetPassphrase1("not a hash".to_string()));
    ui.update(Message::InitialConfirm);
    assert!(matches!(ui.scene, Scene::Initial { error: Some(_), .. }));
}

#[test]
fn hasher_error_is_shown() {
    let mut ui = Ui::new(Config::new());
    ui.accept_new_passphrase(Err("hashing failed".to_string()));
    match &ui.scene {
        Scene::Initial { error, .. } => assert_eq!(error.as_deref(), Some("hashing failed")),
        _ => panic!("left the passphrase screen"),
    }
}

#[test]
fn unlock_follows_the_match() {
    let mut ui = Ui::new(Config::new());
    ui.update(Message::SetPassphrase1("pw".to_string()));
    ui.unlock(false);
    assert!(matches!(ui.scene, Scene::Initial { error: Some(_), .. }));
    ui.unlock(true);
    assert!(matches!(ui.scene, Scene::Overview { .. }));
    assert_eq!(ui.passphrase.as_deref(), Some("pw"));
}

#[test]
fn new_target_without_repo_changes_nothing() {
    let mut ui = unlocked();
    ui.update(Message::OpenSettings);
    ui.update(Message::NewTarget);
    assert!(matches!(ui.scene, Scene::Settings));
    ui.update(Message::ToOverview);
    ui.update(Message::NewTarget);
    assert!(matches!(ui.scene, Scene::Overview { .. }));
}

#[test]
fn edit_without_repo_changes_nothing() {
    let mut ui = unlocked();
    ui.update(Message::ToOverview);
    ui.update(Message::EditTarget(0));
    ui.update(Message::ListItem(0, ListItemMessage::Edit));
    assert!(matches!(ui.scene, Scene::Overview { .. }));
}

#[test]
fn created_target_is_appended() {
    let mut ui = with_repo(9);
    add_target(&mut ui, "Photos", "/home/u/pics");
    add_target(&mut ui, "Docs", "/home/u/docs");
    assert_eq!(target_names(&ui), vec!["Photos".to_string(), "Docs".to_string()]);
    let repo = ui.config.selected_repo().unwrap();
    assert_eq!(repo.targets[0].repo, 9);
    assert_eq!(repo.targets[0].sources, vec![Some("/home/u/pics".to_string())]);
    assert!(matches!(ui.scene, Scene::Overview { rows: 2, selected_target: None }));
}

#[test]
fn saved_edit_replaces_only_its_target() {
    let mut ui = with_repo(9);
    add_target(&mut ui, "A", "/a");
    add_target(&mut ui, "B", "/b");
    add_target(&mut ui, "C", "/c");
    ui.update(Message::ListItem(1, ListItemMessage::Edit));
    assert!(matches!(ui.scene, Scene::EditTarget { target_index: 1, .. }));
    ui.update(Message::TargetEditor(EditorMessage::SetName("B2".to_string())));
    ui.update(Message::TargetEditor(EditorMessage::Save));
    assert_eq!(target_names(&ui), vec!["A".to_string(), "B2".to_string(), "C".to_string()]);
    assert!(matches!(ui.scene, Scene::Overview { rows: 3, .. }));
}

#[test]
fn cancelled_edit_changes_nothing() {
    let mut ui = with_repo(9);
    add_target(&mut ui, "A", "/a");
    ui.update(Message::EditTarget(0));
    ui.update(Message::TargetEditor(EditorMessage::SetName("Z".to_string())));
    ui.update(Message::TargetEditor(EditorMessage::DelSource(0)));
    ui.update(Message::TargetEditor(EditorMessage::Cancel));
    assert_eq!(target_names(&ui), vec!["A".to_string()]);
    assert_eq!(ui.config.selected_repo().unwrap().targets[0].sources, vec![Some("/a".to_string())]);
    assert!(matches!(ui.scene, Scene::Overview { .. }));
}

#[test]
fn invalid_save_stays_in_editor() {
    let mut ui = with_repo(9);
    ui.update(Message::NewTarget);
    ui.update(Message::TargetEditor(EditorMessage::SetName("A".to_string())));
    ui.update(Message::TargetEditor(EditorMessage::Save));
    match &ui.scene {
        Scene::CreateTarget { editor } => {
            assert_eq!(editor.error.as_deref(), Some("Should have at least one source"))
        }
        _ => panic!("left the editor"),
    }
    assert!(target_names(&ui).is_empty());
}

#[test]
fn editor_picker_press_asks_for_dialog() {
    let mut ui = with_repo(9);
    ui.update(Message::NewTarget);
    ui.update(Message::TargetEditor(EditorMessage::NewSource));
    let a = ui.update(Message::TargetEditor(EditorMessage::Source(0, path::Message::SelectPath)));
    assert!(matches!(a, Action::PickSource(0)));
}

#[test]
fn expand_toggles_a_row() {
    let mut ui = with_repo(9);
    add_target(&mut ui, "A", "/a");
    ui.update(Message::ListItem(0, ListItemMessage::Expand));
    assert!(matches!(ui.scene, Scene::Overview { selected_target: Some(0), .. }));
    ui.update(Message::ListItem(0, ListItemMessage::Expand));
    assert!(matches!(ui.scene, Scene::Overview { selected_target: None, .. }));
}

#[test]
fn repo_form_errors() {
    let mut ui = unlocked();
    ui.update(Message::PickRepo(Opt { name: "New repo...".to_string(), value: RepoOption::New }));
    assert!(matches!(ui.update(Message::SaveRepo), Action::Nothing));
    match &ui.scene {
        Scene::CreateRepo { error, .. } => assert_eq!(error.as_deref(), Some("Name must be non-empty")),
        _ => panic!("left the form"),
    }
    ui.update(Message::SetRepoName("Main".to_string()));
    ui.update(Message::SaveRepo);
    match &ui.scene {
        Scene::CreateRepo { error, .. } => assert_eq!(error.as_deref(), Some("Home path must be set")),
        _ => panic!("left the form"),
    }
}

#[test]
fn repo_form_asks_to_create_and_stores_result() {
    let mut ui = unlocked();
    ui.update(Message::PickRepo(Opt { name: "New repo...".to_string(), value: RepoOption::New }));
    ui.update(Message::SetRepoName("Main".to_string()));
    assert!(matches!(ui.update(Message::RepoHome(path::Message::SelectPath)), Action::PickRepoHome));
    ui.update(Message::RepoHome(path::Message::Path("/backup".to_string())));
    match ui.update(Message::SaveRepo) {
        Action::InitRepo { home, passphrase } => {
            assert_eq!(home, "/backup");
            assert_eq!(passphrase, "pw");
        }
        _ => panic!("no request to create the repository"),
    }
    ui.update(Message::RepoSaveResult(Err("disk full".to_string())));
    assert!(matches!(&ui.scene, Scene::CreateRepo { error: Some(e), .. } if e == "disk full"));
    ui.update(Message::RepoSaveResult(Ok(())));
    assert!(matches!(ui.scene, Scene::Overview { rows: 0, .. }));
    let repo = ui.config.selected_repo().unwrap();
    assert_eq!(repo.name, "Main");
    assert_eq!(repo.home, "/backup");
    let first = repo.id;

    ui.update(Message::PickRepo(Opt { name: "New repo...".to_string(), value: RepoOption::New }));
    ui.update(Message::SetRepoName("Second".to_string()));
    ui.update(Message::SetRepoHome("/backup2".to_string()));
    ui.update(Message::RepoSaveResult(Ok(())));
    let second = ui.config.selected_repo().unwrap().id;
    assert_ne!(first, second);
    assert!(ui.config.find_repo(first).is_some());
}

#[test]
fn picking_a_repo_opens_it_first() {
    let mut ui = with_repo(9);
    add_target(&mut ui, "A", "/a");
    ui.config.selected_repo = None;
    let opt = Opt { name: "Main".to_string(), value: RepoOption::Select(9) };
    match ui.update(Message::PickRepo(opt.clone())) {
        Action::OpenRepo { option, home } => {
            assert_eq!(option.value, RepoOption::Select(9));
            assert_eq!(home, "/backup");
        }
        _ => panic!("no request to open"),
    }
    assert!(ui.config.selected_repo.is_none());
    ui.update(Message::RepoOpenResult(opt.clone(), Err("bad".to_string())));
    assert!(ui.config.selected_repo.is_none());
    ui.update(Message::ToOverview);
    assert!(matches!(ui.scene, Scene::Overview { rows: 0, .. }));
    ui.update(Message::RepoOpenResult(opt, Ok(())));
    assert_eq!(ui.config.selected_repo.as_ref().map(|o| o.value), Some(RepoOption::Select(9)));
    assert!(matches!(ui.scene, Scene::Overview { rows: 1, .. }));
}

#[test]
fn picking_an_unknown_repo_reports_it() {
    let mut ui = unlocked();
    match ui.update(Message::PickRepo(Opt { name: "X".to_string(), value: RepoOption::Select(77) })) {
        Action::ReportError(e) => assert_eq!(e, "Cannot find repo"),
        _ => panic!("no error"),
    }
}

#[test]
fn settings_and_back() {
    let mut ui = unlocked();
    ui.update(Message::OpenSettings);
    assert!(matches!(ui.scene, Scene::Settings));
    assert!(matches!(ui.update(Message::Tick), Action::Nothing));
    ui.update(Message::ToOverview);
    assert!(matches!(ui.scene, Scene::Overview { .. }));
}
