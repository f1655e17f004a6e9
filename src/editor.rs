//! The target editor: edits a working copy of one target.
use crate::model::Target;
use crate::path;
use crate::validate::{target_error, verify_target};
use vstd::prelude::*;

verus! {

/// An edit of the working target, or the user's request to save or cancel.
/// Sources and excludes are addressed by their position in the lists.
#[derive(Debug, Clone)]
pub enum EditorMessage {
    SetName(String),

    NewSource,
    Source(usize, path::Message),
    DelSource(usize),

    NewExclude,
    SetExclude(usize, String),
    DelExclude(usize),

    /// The save button was pressed.
    Save,
    /// The cancel button was pressed.
    Cancel,
}

/// What the caller must do for the editor.
#[derive(Debug, Clone, Copy, PartialEq, Eq, Structural)]
pub enum EditorAction {
    Nothing,
    /// Run the folder dialog for the source at this position, and hand its
    /// outcome back as `EditorMessage::Source` at the same position.
    PickSource(usize),
}

/// The editor's state: the working copy of the target, and the reason the
/// last save was refused, if it was.
#[derive(Debug, Clone, Default)]
pub struct Editor {
    pub target: Target,
    pub error: Option<String>,
}

/// The source slots after a message: a new slot is empty, a chosen path
/// fills its slot, a deletion removes its slot. A position past the list
/// changes nothing.
pub open spec fn edited_sources(s: Seq<Option<String>>, m: EditorMessage) -> Seq<Option<String>> {
    match m {
        EditorMessage::NewSource => s.push(None),
        EditorMessage::Source(i, msg) => match msg {
            path::Message::Path(p) => if i < s.len() {
                s.update(i as int, Some(p))
            } else {
                s
            },
            _ => s,
        },
        EditorMessage::DelSource(i) => if i < s.len() {
            s.remove(i as int)
        } else {
            s
        },
        _ => s,
    }
}

/// `v` is the exclude list `s` after a message: a new pattern is empty, a
/// pattern is replaced or removed at its position. A position past the list
/// changes nothing.
pub open spec fn edited_excludes(s: Seq<String>, v: Seq<String>, m: EditorMessage) -> bool {
    match m {
        EditorMessage::NewExclude => v.len() == s.len() + 1 && v.take(s.len() as int) == s
            && v.last()@.len() == 0,
        EditorMessage::SetExclude(i, e) => if i < s.len() {
            v == s.update(i as int, e)
        } else {
            v == s
        },
        EditorMessage::DelExclude(i) => if i < s.len() {
            v == s.remove(i as int)
        } else {
            v == s
        },
        _ => v == s,
    }
}

/// `u` is the working target `t` after message `m`.
pub open spec fn edited(t: Target, u: Target, m: EditorMessage) -> bool {
    &&& u.repo == t.repo
    &&& u.duplication == t.duplication
    &&& u.name == (match m {
        EditorMessage::SetName(n) => n,
        _ => t.name,
    })
    &&& u.sources@ == edited_sources(t.sources@, m)
    &&& edited_excludes(t.excludes@, u.excludes@, m)
}

/// The outside work a message asks for: the dialog for an existing source
/// whose picker was pressed.
pub open spec fn editor_action(t: Target, m: EditorMessage) -> EditorAction {
    match m {
        EditorMessage::Source(i, msg) => if i < t.sources@.len() && msg is SelectPath {
            EditorAction::PickSource(i)
        } else {
            EditorAction::Nothing
        },
        _ => EditorAction::Nothing,
    }
}

/// `e1` and `r` are the editor `e0` after message `m` and the work it asks
/// for. A refused save records the first rule broken; the error is otherwise
/// kept as it was.
pub open spec fn editor_step(e0: Editor, e1: Editor, m: EditorMessage, r: EditorAction) -> bool {
    &&& edited(e0.target, e1.target, m)
    &&& r == editor_action(e0.target, m)
    &&& if m is Save && target_error(e0.target) is Some {
        e1.error matches Some(e) && target_error(e0.target) == Some(e@)
    } else {
        e1.error == e0.error
    }
}

impl Editor {
    /// An editor on a copy of an existing target.
    pub fn with_target(target: Target) -> (r: Editor)
        ensures
            r.target == target,
            r.error is None,
    {
        Editor { target, error: None }
    }

    /// An editor on a new, empty target of repository `repo_id`.
    pub fn new_target(repo_id: u128) -> (r: Editor)
        ensures
            r.target.repo == repo_id,
            r.target.name@.len() == 0,
            r.target.sources@.len() == 0,
            r.target.excludes@.len() == 0,
            r.target.duplication@.len() == 0,
            r.error is None,
    {
        Editor {
            target: Target {
                repo: repo_id,
                name: String::new(),
                sources: Vec::new(),
                excludes: Vec::new(),
                duplication: Vec::new(),
            },
            error: None,
        }
    }

    /// Applies one message to the working target. A refused save records
    /// why; saving and cancelling are otherwise left to the owner.
    pub fn update(&mut self, message: EditorMessage) -> (r: EditorAction)
        ensures
            editor_step(*old(self), *final(self), message, r),
    {
        match message {
            EditorMessage::SetName(name) => {
                self.target.name = name;
                EditorAction::Nothing
            },
            EditorMessage::NewSource => {
                self.target.sources.push(None);
                EditorAction::Nothing
            },
            EditorMessage::Source(i, msg) => {
                if i >= self.target.sources.len() {
                    return EditorAction::Nothing;
                }
                match msg {
                    path::Message::Path(p) => {
                        self.target.sources.set(i, Some(p));
                        EditorAction::Nothing
                    },
                    path::Message::SelectPath => EditorAction::PickSource(i),
                    path::Message::Error(_) => EditorAction::Nothing,
                }
            },
            EditorMessage::DelSource(i) => {
                if i < self.target.sources.len() {
                    let _ = self.target.sources.remove(i);
                }
                EditorAction::Nothing
            },
            EditorMessage::NewExclude => {
                self.target.excludes.push(String::new());
                assert(self.target.excludes@.take(old(self).target.excludes@.len() as int)
                    =~= old(self).target.excludes@);
                EditorAction::Nothing
            },
            EditorMessage::SetExclude(i, exclude) => {
                if i < self.target.excludes.len() {
                    self.target.excludes.set(i, exclude);
                }
                EditorAction::Nothing
            },
            EditorMessage::DelExclude(i) => {
                if i < self.target.excludes.len() {
                    let _ = self.target.excludes.remove(i);
                }
                EditorAction::Nothing
            },
            EditorMessage::Save => {
                if let Err(error) = verify_target(&self.target) {
                    self.error = Some(error);
                }
                EditorAction::Nothing
            },
            EditorMessage::Cancel => EditorAction::Nothing,
        }
    }
}

/// Adding a source slot and deleting it at once gives back the target as it
/// was.
pub proof fn lemma_new_source_then_delete(t0: Target, t1: Target, t2: Target, n: usize)
    requires
        n == t0.sources@.len(),
        edited(t0, t1, EditorMessage::NewSource),
        edited(t1, t2, EditorMessage::DelSource(n)),
    ensures
        t2.sources@ == t0.sources@,
        t2.excludes@ == t0.excludes@,
        t2.name == t0.name,
        t2.repo == t0.repo,
        t2.duplication == t0.duplication,
{
    assert(t0.sources@.push(None).remove(n as int) =~= t0.sources@);
}

/// Adding an exclude pattern and deleting it at once gives back the target
/// as it was.
pub proof fn lemma_new_exclude_then_delete(t0: Target, t1: Target, t2: Target, n: usize)
    requires
        n == t0.excludes@.len(),
        edited(t0, t1, EditorMessage::NewExclude),
        edited(t1, t2, EditorMessage::DelExclude(n)),
    ensures
        t2.sources@ == t0.sources@,
        t2.excludes@ == t0.excludes@,
        t2.name == t0.name,
        t2.repo == t0.repo,
        t2.duplication == t0.duplication,
{
    assert(t1.excludes@.remove(n as int) =~= t1.excludes@.take(n as int));
}

} // verus!
