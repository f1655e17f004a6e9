use crate::util::{Label, LabelText, H3_SIZE, ICON_H3_WIDTH, TEXT_SIZE};
use vstd::prelude::*;

verus! {

/// The icons of the user interface, each a glyph of the icon font.
#[derive(Debug, Copy, Clone, PartialEq, Eq, Structural)]
pub enum Icon {
    Folder,
    Delete,
    Edit,
    New,
    Settings,
    Repo,
}

impl Icon {
    /// The code point of the icon in the icon font.
    pub open spec fn spec_glyph(&self) -> char {
        match self {
            Icon::Folder => '\u{f74a}',
            Icon::Delete => '\u{f00d}',
            Icon::Edit => '\u{f044}',
            Icon::New => '\u{f44d}',
            Icon::Settings => '\u{f992}',
            Icon::Repo => '\u{f401}',
        }
    }

    #[verifier::when_used_as_spec(spec_glyph)]
    pub fn glyph(&self) -> (r: char)
        ensures
            r == self.spec_glyph(),
    {
        match self {
            Icon::Folder => '\u{f74a}',
            Icon::Delete => '\u{f00d}',
            Icon::Edit => '\u{f044}',
            Icon::New => '\u{f44d}',
            Icon::Settings => '\u{f992}',
            Icon::Repo => '\u{f401}',
        }
    }

    /// The icon at body size, as it stands on buttons.
    pub fn text(&self) -> (r: Label)
        ensures
            r.content == LabelText::Glyph(self.spec_glyph()),
            r.size == TEXT_SIZE,
            r.width == Some(TEXT_SIZE),
            r.icon_font,
            !r.muted,
            !r.centered,
    {
        Label {
            content: LabelText::Glyph(self.glyph()),
            size: TEXT_SIZE,
            width: Some(TEXT_SIZE),
            icon_font: true,
            muted: false,
            centered: false,
        }
    }

    /// The icon at heading size, in the muted heading colour.
    pub fn h3(&self) -> (r: Label)
        ensures
            r.content == LabelText::Glyph(self.spec_glyph()),
            r.size == H3_SIZE,
            r.width == Some(ICON_H3_WIDTH),
            r.icon_font,
            r.muted,
            !r.centered,
    {
        Label {
            content: LabelText::Glyph(self.glyph()),
            size: H3_SIZE,
            width: Some(ICON_H3_WIDTH),
            icon_font: true,
            muted: true,
            centered: false,
        }
    }
}

} // verus!
