//! Configuration model and UI state machines of a desktop backup planner.
//!
//! A configuration holds repositories, each with an ordered list of backup
//! targets. The scene controller and the target editor are written as plain
//! state machines: they take a message, update their state, and hand back the
//! outside work (a file dialog, opening a repository) for the caller to run.
pub mod config;
pub mod editor;
pub mod icon;
pub mod model;
pub mod path;
pub mod repos;
pub mod scene;
pub mod secret;
pub mod ui;
pub mod util;
pub mod validate;

pub use config::{repo_options, Config};
pub use editor::{Editor, EditorAction, EditorMessage};
pub use icon::Icon;
pub use path::FilePicker;
pub use model::{Duplication, DuplicationKind, Opt, PreviousSnapshot, Redacted, RepoConfig, RepoOption, Target};
pub use validate::verify_target;
pub use scene::{ListItemMessage, Scene};
pub use ui::{Action, Message, Ui};
pub use util::{h3, icon, icon_h3, text, zip_list, Label, LabelText, BUTTON_PAD, H3_SIZE, TEXT_SIZE};
