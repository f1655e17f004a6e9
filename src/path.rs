//! The file picker: a button that asks the caller to run a folder dialog and
//! receives the outcome as a message.
use vstd::prelude::*;

verus! {

/// What the picker receives: a failure of the dialog (a cancellation among
/// them), a chosen path, or a press of its button.
#[derive(Debug, Clone)]
pub enum Message {
    Error(String),
    Path(String),
    SelectPath,
}

/// What the caller must do for the picker.
#[derive(Debug, Clone, Copy, PartialEq, Eq, Structural)]
pub enum PickerAction {
    Nothing,
    /// Run the folder dialog away from the event loop and hand its outcome
    /// back as a `Message`.
    OpenDialog,
}

/// A folder picker. Its chosen path is kept by its owner.
#[derive(Debug, Clone, Default)]
pub struct FilePicker {}

impl FilePicker {
    pub fn new() -> (r: FilePicker) {
        FilePicker {}
    }

    /// A press of the button asks for the dialog; a path or an error needs
    /// nothing more from the picker.
    pub fn update(&mut self, msg: Message) -> (r: PickerAction)
        ensures
            r == (if msg is SelectPath { PickerAction::OpenDialog } else { PickerAction::Nothing }),
    {
        match msg {
            Message::SelectPath => PickerAction::OpenDialog,
            _ => PickerAction::Nothing,
        }
    }
}

} // verus!
