use bup::{h3, icon, icon_h3, text, zip_list, Icon, LabelText, Redacted, H3_SIZE, TEXT_SIZE};

#[test]
fn icon_glyphs() {
    assert_eq!(Icon::Folder.glyph(), '\u{f74a}');
    assert_eq!(Icon::Delete.glyph(), '\u{f00d}');
    assert_eq!(Icon::Edit.glyph(), '\u{f044}');
    assert_eq!(Icon::New.glyph(), '\u{f44d}');
    assert_eq!(Icon::Settings.glyph(), '\u{f992}');
    assert_eq!(Icon::Repo.glyph(), '\u{f401}');
}

#[test]
fn icon_labels() {
    let t = Icon::Delete.text();
    assert!(matches!(t.content, LabelText::Glyph('\u{f00d}')));
    assert_eq!((t.size, t.width, t.icon_font, t.muted), (TEXT_SIZE, Some(20), true, false));
    let h = Icon::Folder.h3();
    assert!(matches!(h.content, LabelText::Glyph('\u{f74a}')));
    assert_eq!((h.size, h.width, h.muted), (H3_SIZE, Some(20), true));
}

#[test]
fn text_labels() {
    let i = icon('x');
    assert_eq!((i.size, i.width, i.icon_font), (20, Some(20), true));
    let ih = icon_h3('y');
    assert!(matches!(ih.content, LabelText::Glyph('y')));
    assert_eq!((ih.size, ih.width), (22, Some(20)));
    let t = text("Sources".to_string());
    assert!(matches!(&t.content, LabelText::Words(w) if w == "Sources"));
    assert_eq!((t.size, t.width, t.icon_font, t.centered), (20, None, true, false));
    let h = h3("Excludes".to_string());
    assert_eq!((h.size, h.muted, h.centered, h.icon_font), (22, true, true, false));
}

#[test]
fn zip_list_grows_and_shrinks() {
    let mut rows: Vec<u32> = vec![5, 6, 7];
    zip_list(5, &mut rows);
    assert_eq!(rows, vec![5, 6, 7, 0, 0]);
    zip_list(2, &mut rows);
    assert_eq!(rows, vec![5, 6]);
    zip_list(0, &mut rows);
    assert!(rows.is_empty());
}

#[test]
fn redacted_hides_its_value() {
    let r = Redacted("secret".to_string());
    assert_eq!(r.describe(), "<redacted>");
    assert_eq!(r.0, "secret");
}
