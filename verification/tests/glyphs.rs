use fennec::editors::events::EditorEvent;
use fennec::editors::glyph_editors::GlyphEditor;
use fennec::language::glyphs::Glyph;
use fennec::views::GlyphView;

#[test]
fn toggling_sets_the_bit_of_the_segment() {
    assert_eq!(Glyph(0).with_toggled_segment(0).unwrap(), Glyph(0b1000_0000_0000_0000));
    assert_eq!(Glyph(0).with_toggled_segment(1).unwrap(), Glyph(0b0100_0000_0000_0000));
    assert_eq!(Glyph(0).with_toggled_segment(15).unwrap(), Glyph(0b0000_0000_0000_0001));
    assert_eq!(Glyph(0b1010).with_toggled_segment(12).unwrap(), Glyph(0b0010));
    assert_eq!(Glyph(0b1010).with_toggled_segment(13).unwrap(), Glyph(0b1110));
}

#[test]
fn toggling_a_segment_twice_gives_the_glyph_back() {
    for code in [0u16, 1, 0x8000, 0x1234, 0xffff, 0x0f0f] {
        for segment in 0..16 {
            let glyph = Glyph(code);
            let once = glyph.with_toggled_segment(segment).unwrap();
            assert_ne!(once, glyph);
            assert_eq!(once.with_toggled_segment(segment).unwrap(), glyph);
        }
    }
}

#[test]
fn toggling_segment_16_fails_and_says_why() {
    let glyph = Glyph(0x1234);

    let error = glyph.with_toggled_segment(16).unwrap_err();

    assert_eq!(error.glyph(), glyph);
    assert_eq!(error.description(), "Unexpected segment index: 16");
}

#[test]
fn toggling_a_far_segment_names_it_in_decimal() {
    let error = Glyph(0).with_toggled_segment(1205).unwrap_err();
    assert_eq!(error.description(), "Unexpected segment index: 1205");

    let error = Glyph(0).with_toggled_segment(usize::MAX).unwrap_err();
    assert_eq!(error.description(), format!("Unexpected segment index: {}", usize::MAX));
}

#[test]
fn includes_segment_reads_single_bits() {
    let glyph = Glyph(0b1000_0000_0000_0101);

    assert_eq!(glyph.includes_segment(0), Some(true));
    assert_eq!(glyph.includes_segment(1), Some(false));
    assert_eq!(glyph.includes_segment(13), Some(true));
    assert_eq!(glyph.includes_segment(14), Some(false));
    assert_eq!(glyph.includes_segment(15), Some(true));
    assert_eq!(glyph.includes_segment(16), None);
    assert_eq!(glyph.includes_segment(u16::MAX), None);
}

#[test]
fn masks_and_segment_indices_are_inverse() {
    for index in 0..16u16 {
        let mask = Glyph::mask_from_usize(index as usize).unwrap();
        assert_eq!(mask, 0x8000 >> index);
        assert_eq!(Glyph::segment_index_from_mask(mask), Some(index));
    }
    assert_eq!(Glyph::mask_from_usize(16), None);
    assert_eq!(Glyph::segment_index_from_mask(0), None);
    assert_eq!(Glyph::segment_index_from_mask(0b11), None);
}

#[test]
fn blank_glyph_has_no_segment() {
    assert!(Glyph::blank().is_blank());
    assert!(Glyph::default().is_blank());
    assert!(!Glyph(0x0100).is_blank());
    assert_eq!(Glyph::blank(), Glyph(0));
}

#[test]
fn glyph_editor_toggles_a_segment() {
    let editor = GlyphEditor::new(Glyph(0));

    let editor = editor.with_segment_toggled(3).unwrap();

    assert_eq!(editor.glyph, Glyph(0b0001_0000_0000_0000));
}

#[test]
fn glyph_editor_refuses_segment_16() {
    let editor = GlyphEditor::new(Glyph(7));

    let error = editor.with_segment_toggled(16).unwrap_err();

    assert_eq!(error.glyph(), Glyph(7));
}

#[test]
fn glyph_editor_toggles_in_place() {
    let mut editor = GlyphEditor::new(Glyph(0));

    assert!(editor.toggle_segment(15).is_ok());
    assert_eq!(editor.glyph, Glyph(1));
    assert!(editor.toggle_segment(16).is_err());
    assert_eq!(editor.glyph, Glyph(1));
    assert!(editor.toggle_segment(15).is_ok());
    assert_eq!(editor.glyph, Glyph(0));
}

#[test]
fn glyph_editor_reacts_to_toggle_events_only() {
    let editor = GlyphEditor::new(Glyph(0));

    let toggled = editor.apply(EditorEvent::ToggleSegmentOnSelectedGlyph(0));
    assert_eq!(toggled.glyph, Glyph(0x8000));

    let unchanged = toggled.apply(EditorEvent::ToggleSegmentOnSelectedGlyph(16));
    assert_eq!(unchanged, toggled);

    let unchanged = toggled.apply(EditorEvent::MoveGlyphCursorForward);
    assert_eq!(unchanged, toggled);
    let unchanged = toggled.apply(EditorEvent::NoOp);
    assert_eq!(unchanged, toggled);
}

#[test]
fn glyph_editor_toggles_several_segments_in_order() {
    let editor = GlyphEditor::new(Glyph(0));

    let toggled = editor.apply(EditorEvent::ToggleSegmentsOnSelectedGlyph(vec![1, 3]));
    assert_eq!(toggled.glyph, Glyph(0b0101_0000_0000_0000));

    let skipped = editor.apply(EditorEvent::ToggleSegmentsOnSelectedGlyph(vec![1, 16, 3, 1]));
    assert_eq!(skipped.glyph, Glyph(0b0001_0000_0000_0000));

    let nothing = editor.apply(EditorEvent::ToggleSegmentsOnSelectedGlyph(vec![]));
    assert_eq!(nothing, editor);
}

#[test]
fn glyph_editor_view_carries_glyph_and_selection() {
    let editor = GlyphEditor::new(Glyph(9));

    assert_eq!(editor.to_view(true), GlyphView { glyph: Glyph(9), selected: true });
    assert_eq!(editor.to_view(false), GlyphView { glyph: Glyph(9), selected: false });
    assert_eq!(GlyphEditor::default().glyph, Glyph(0));
}
