use vstd::prelude::*;

verus! {

/// Size of body text.
pub const TEXT_SIZE: u16 = 20;

/// Size of section headings.
pub const H3_SIZE: u16 = 24;

/// Padding inside small buttons.
pub const BUTTON_PAD: u16 = 2;

/// Size of the headings made by `h3` and `icon_h3`.
pub const HEADING_SIZE: u16 = 22;

/// Width of a heading-sized icon.
pub const ICON_H3_WIDTH: u16 = 20;

/// What a piece of text shows: one glyph of the icon font, or words.
#[derive(Clone, Debug)]
pub enum LabelText {
    Glyph(char),
    Words(String),
}

/// A piece of text as the user interface draws it: what it shows, its size,
/// an optional fixed width, whether it is set in the icon font, whether it is
/// drawn in the muted heading colour, and whether it is centred.
#[derive(Clone, Debug)]
pub struct Label {
    pub content: LabelText,
    pub size: u16,
    pub width: Option<u16>,
    pub icon_font: bool,
    pub muted: bool,
    pub centered: bool,
}

/// One glyph of the icon font, at body size and body width.
pub fn icon(unicode: char) -> (r: Label)
    ensures
        r.content == LabelText::Glyph(unicode),
        r.size == TEXT_SIZE,
        r.width == Some(TEXT_SIZE),
        r.icon_font,
        !r.muted,
        !r.centered,
{
    Label {
        content: LabelText::Glyph(unicode),
        size: TEXT_SIZE,
        width: Some(TEXT_SIZE),
        icon_font: true,
        muted: false,
        centered: false,
    }
}

/// One glyph of the icon font, at heading size.
pub fn icon_h3(unicode: char) -> (r: Label)
    ensures
        r.content == LabelText::Glyph(unicode),
        r.size == HEADING_SIZE,
        r.width == Some(ICON_H3_WIDTH),
        r.icon_font,
        !r.muted,
        !r.centered,
{
    Label {
        content: LabelText::Glyph(unicode),
        size: HEADING_SIZE,
        width: Some(ICON_H3_WIDTH),
        icon_font: true,
        muted: false,
        centered: false,
    }
}

/// Body text, set in the icon font so that glyphs may stand among the words.
pub fn text(words: String) -> (r: Label)
    ensures
        r.content == LabelText::Words(words),
        r.size == TEXT_SIZE,
        r.width is None,
        r.icon_font,
        !r.muted,
        !r.centered,
{
    Label { content: LabelText::Words(words), size: TEXT_SIZE, width: None, icon_font: true, muted: false, centered: false }
}

/// A centred section heading in the muted colour.
pub fn h3(words: String) -> (r: Label)
    ensures
        r.content == LabelText::Words(words),
        r.size == HEADING_SIZE,
        r.width is None,
        !r.icon_font,
        r.muted,
        r.centered,
{
    Label { content: LabelText::Words(words), size: HEADING_SIZE, width: None, icon_font: false, muted: true, centered: true }
}

/// Brings a list of per-row states to `len` rows: rows past `len` are
/// dropped, missing rows are added fresh, and the rows kept are unchanged.
pub fn zip_list<S: Default>(len: usize, state: &mut Vec<S>)
    ensures
        final(state)@.len() == len,
        forall|i: int|
            0 <= i < len && i < old(state)@.len() ==> #[trigger] final(state)@[i] == old(state)@[i],
{
    if state.len() > len {
        state.truncate(len);
    }
    let ghost kept = state@;
    assert(forall|i: int| 0 <= i < kept.len() ==> kept[i] == old(state)@[i]);
    while state.len() < len
        invariant
            kept.len() <= state@.len() <= len || (kept.len() == len && state@ == kept),
            kept.len() == len || kept.len() == old(state)@.len(),
            kept.len() <= len,
            kept.len() <= old(state)@.len(),
            forall|i: int| 0 <= i < kept.len() ==> #[trigger] state@[i] == kept[i],
            forall|i: int| 0 <= i < kept.len() ==> kept[i] == old(state)@[i],
        decreases len - state@.len(),
    {
        state.push(S::default());
    }
}

} // verus!
