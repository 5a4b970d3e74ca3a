use fennec::editors::events::EditorEvent;
use fennec::editors::snippet_editors::{SnippetEditor, MAX_VISIBLE_WORDS};
use fennec::language::dictionary::{Definition, Dictionary};
use fennec::language::glyphs::Glyph;
use fennec::language::snippets::Snippet;
use fennec::language::words::{TunicWord, Word};

fn tunic(codes: &[u16]) -> Word {
    Word::tunic(codes.iter().map(|code| Glyph(*code)).collect())
}

fn english(text: &str) -> Word {
    Word::english(text.to_string())
}

fn snippet_of(words: Vec<Word>) -> Snippet {
    Snippet { words, ..Snippet::default() }
}

fn numbered_words(count: u16) -> Vec<Word> {
    (1..=count).map(|number| tunic(&[number])).collect()
}

#[test]
fn a_new_editor_selects_the_first_word() {
    let editor = SnippetEditor::new(snippet_of(numbered_words(3)));

    assert_eq!(editor.selected_word_index(), 0);
    assert_eq!(editor.word_editor().unwrap().selected_word(), tunic(&[1]));
    assert_eq!(editor.selected_snippet(), snippet_of(numbered_words(3)));
}

#[test]
fn an_editor_of_an_empty_snippet_has_no_word_editor() {
    let editor = SnippetEditor::new(Snippet::default());

    assert_eq!(editor.selected_word_index(), 0);
    assert!(editor.word_editor().is_none());
}

#[test]
fn selecting_a_word_opens_the_word_editor_on_it() {
    let editor = SnippetEditor::new(snippet_of(numbered_words(3))).with_word_selected(2);

    assert_eq!(editor.selected_word_index(), 2);
    assert_eq!(editor.word_editor().unwrap().selected_word(), tunic(&[3]));

    let editor = editor.with_word_selected(7);
    assert_eq!(editor.selected_word_index(), 2);
}

#[test]
fn selection_stays_inside_the_window() {
    let editor = SnippetEditor::new(snippet_of(numbered_words(30)));

    let editor = editor.with_word_selected(25);
    assert_eq!(editor.selected_word_index(), MAX_VISIBLE_WORDS - 1);
    assert_eq!(editor.word_editor().unwrap().selected_word(), tunic(&[20]));

    let editor = editor.with_word_selection_moved_forward(5).with_visible_word_selected();
    assert_eq!(editor.selected_word_index(), 19);
    let editor = editor.with_word_selection_moved_backward(3).with_visible_word_selected();
    assert_eq!(editor.selected_word_index(), 16);
    assert_eq!(editor.word_editor().unwrap().selected_word(), tunic(&[17]));
}

#[test]
fn scrolling_pulls_the_selection_along() {
    let editor = SnippetEditor::new(snippet_of(numbered_words(30)));

    let editor = editor.apply(EditorEvent::MoveWordsViewSliceForward(5));
    assert_eq!(editor.selected_word_index(), 5);
    assert_eq!(editor.word_editor().unwrap().selected_word(), tunic(&[6]));

    let editor = editor.with_word_selected(29);
    assert_eq!(editor.selected_word_index(), 24);

    let editor = editor.apply(EditorEvent::MoveWordsViewSliceBackward(2));
    assert_eq!(editor.selected_word_index(), 22);

    let editor = editor.apply(EditorEvent::MoveWordsViewSliceForward(100));
    assert_eq!(editor.selected_word_index(), 29);
}

#[test]
fn a_new_word_goes_behind_the_cursor_and_is_selected() {
    let editor = SnippetEditor::new(snippet_of(numbered_words(3))).with_word_selected(1);

    let editor = editor.with_new_english_word_at_cursor("and".to_string());

    assert_eq!(
        editor.selected_snippet().words,
        vec![tunic(&[1]), tunic(&[2]), english("and"), tunic(&[3])]
    );
    assert_eq!(editor.selected_word_index(), 2);
    assert_eq!(editor.word_editor().unwrap().selected_word(), english("and"));

    let editor = editor.apply(EditorEvent::AddNewTunicWordAtCursor);
    assert_eq!(editor.selected_snippet().words[3], tunic(&[0]));
    assert_eq!(editor.selected_word_index(), 3);
    assert_eq!(editor.selected_snippet().words.len(), 5);
}

#[test]
fn a_new_word_in_an_empty_snippet_becomes_the_first() {
    let editor = SnippetEditor::new(Snippet::default()).with_new_tunic_word_at_cursor();

    assert_eq!(editor.selected_snippet().words, vec![tunic(&[0])]);
    assert_eq!(editor.selected_word_index(), 0);
    assert_eq!(editor.word_editor().unwrap().selected_word(), tunic(&[0]));
}

#[test]
fn inserting_then_deleting_a_word_is_a_round_trip() {
    for count in [0u16, 1, 2, 5, 19, 25] {
        for start in 0..count.max(1) as usize {
            let before = SnippetEditor::new(snippet_of(numbered_words(count)))
                .with_word_selected(start);
            if count > 0 && before.selected_word_index() + 1 >= MAX_VISIBLE_WORDS {
                continue;
            }

            let after = before
                .clone()
                .with_new_word_at_cursor(english("new"))
                .with_word_at_cursor_deleted();

            assert_eq!(after.selected_snippet(), before.selected_snippet());
            assert_eq!(after.selected_word_index(), before.selected_word_index());

            let after = before
                .clone()
                .apply(EditorEvent::AddNewTunicWordAtCursor)
                .apply(EditorEvent::DeleteWordAtCursor);

            assert_eq!(after.selected_snippet(), before.selected_snippet());
            assert_eq!(after.selected_word_index(), before.selected_word_index());
        }
    }
}

#[test]
fn a_word_put_out_of_view_is_not_selected() {
    let before = SnippetEditor::new(snippet_of(numbered_words(25))).with_word_selected(19);

    let inserted = before.clone().with_new_word_at_cursor(english("new"));

    assert_eq!(inserted.selected_snippet().words[20], english("new"));
    assert_eq!(inserted.selected_word_index(), 19);
    assert_eq!(inserted.word_editor().unwrap().selected_word(), tunic(&[20]));
}

#[test]
fn deleting_the_only_word_leaves_an_empty_snippet_and_the_cursor_at_zero() {
    let editor = SnippetEditor::new(snippet_of(vec![tunic(&[5, 6])]));

    let editor = editor.with_word_at_cursor_deleted();

    assert!(editor.selected_snippet().words.is_empty());
    assert_eq!(editor.selected_word_index(), 0);

    let again = editor.clone().with_word_at_cursor_deleted();
    assert!(again.selected_snippet().words.is_empty());
    assert_eq!(again.selected_word_index(), 0);

    let applied = editor.apply(EditorEvent::DeleteWordAtCursor);
    assert!(applied.selected_snippet().words.is_empty());
    assert_eq!(applied.selected_word_index(), 0);
}

#[test]
fn deleting_a_word_selects_the_one_before() {
    let editor = SnippetEditor::new(snippet_of(numbered_words(4))).with_word_selected(2);

    let editor = editor.apply(EditorEvent::DeleteWordAtCursor);

    assert_eq!(editor.selected_snippet().words, vec![tunic(&[1]), tunic(&[2]), tunic(&[4])]);
    assert_eq!(editor.selected_word_index(), 1);
    assert_eq!(editor.word_editor().unwrap().selected_word(), tunic(&[2]));

    let editor = editor.with_word_selected(0).apply(EditorEvent::DeleteWordAtCursor);
    assert_eq!(editor.selected_snippet().words, vec![tunic(&[2]), tunic(&[4])]);
    assert_eq!(editor.selected_word_index(), 0);
    assert_eq!(editor.word_editor().unwrap().selected_word(), tunic(&[2]));
}

#[test]
fn deleting_the_last_word_of_a_scrolled_window_keeps_the_cursor_on_a_word() {
    let editor = SnippetEditor::new(snippet_of(numbered_words(30)))
        .apply(EditorEvent::MoveWordsViewSliceForward(100));
    assert_eq!(editor.selected_word_index(), 29);

    let editor = editor.apply(EditorEvent::DeleteWordAtCursor);

    assert_eq!(editor.selected_snippet().words.len(), 29);
    assert_eq!(editor.selected_word_index(), 28);
    assert_eq!(editor.word_editor().unwrap().selected_word(), tunic(&[29]));
}

#[test]
fn word_events_change_the_word_under_the_cursor() {
    let editor = SnippetEditor::new(snippet_of(numbered_words(3))).with_word_selected(1);

    let editor = editor.apply(EditorEvent::ToggleSegmentOnSelectedGlyph(0));
    assert_eq!(
        editor.selected_snippet().words,
        vec![tunic(&[1]), tunic(&[0x8002]), tunic(&[3])]
    );

    let editor = editor.apply(EditorEvent::AddNewGlyphToTunicWordAtCursor);
    assert_eq!(editor.selected_snippet().words[1], tunic(&[0x8002, 0]));
    assert_eq!(
        editor.word_editor().unwrap().tunic_editor().unwrap().selected_glyph_index(),
        Some(1)
    );

    let editor = editor.apply(EditorEvent::NoOp);
    assert_eq!(editor.selected_snippet().words[1], tunic(&[0x8002, 0]));
    assert_eq!(editor.selected_word_index(), 1);
}

#[test]
fn the_word_editor_is_brought_back_in_line_after_a_move_past_the_last_glyph() {
    let editor = SnippetEditor::new(snippet_of(vec![tunic(&[1, 2]), tunic(&[9])]));

    let editor = editor.apply(EditorEvent::MoveGlyphCursorForward);
    assert_eq!(
        editor.word_editor().unwrap().tunic_editor().unwrap().selected_glyph_index(),
        Some(1)
    );

    let editor = editor.apply(EditorEvent::MoveGlyphCursorForward);
    let word_editor = editor.word_editor().unwrap().tunic_editor().unwrap();
    assert_eq!(word_editor.selected_glyph_index(), Some(0));
    assert_eq!(word_editor.glyph_editor().unwrap().glyph, Glyph(1));
    assert_eq!(editor.selected_snippet().words, vec![tunic(&[1, 2]), tunic(&[9])]);
    assert_eq!(editor.selected_word_index(), 0);
}

#[test]
fn deleting_a_glyph_that_leaves_more_than_a_blank_keeps_the_word() {
    let editor = SnippetEditor::new(snippet_of(vec![tunic(&[1, 2, 3]), tunic(&[9])]));
    assert!(!editor.glyph_deletion_blanks_word());

    let editor = editor.apply(EditorEvent::DeleteGlyphAtCursor);

    assert_eq!(editor.selected_snippet().words, vec![tunic(&[2, 3]), tunic(&[9])]);
}

#[test]
fn deleting_a_glyph_that_would_blank_the_word_deletes_the_word() {
    let editor = SnippetEditor::new(snippet_of(vec![tunic(&[1]), tunic(&[9])]));
    assert!(editor.glyph_deletion_blanks_word());
    let editor = editor.apply(EditorEvent::DeleteGlyphAtCursor);
    assert_eq!(editor.selected_snippet().words, vec![tunic(&[9])]);
    assert_eq!(editor.selected_word_index(), 0);

    let editor = SnippetEditor::new(snippet_of(vec![tunic(&[1, 0]), tunic(&[9])]));
    assert!(editor.glyph_deletion_blanks_word());
    let editor = editor.apply(EditorEvent::DeleteGlyphAtCursor);
    assert_eq!(editor.selected_snippet().words, vec![tunic(&[9])]);

    let editor = SnippetEditor::new(snippet_of(vec![english(""), tunic(&[9])]));
    assert!(editor.glyph_deletion_blanks_word());
    let editor = editor.apply(EditorEvent::DeleteGlyphAtCursor);
    assert_eq!(editor.selected_snippet().words, vec![tunic(&[9])]);

    let editor = SnippetEditor::new(snippet_of(vec![english("kept"), tunic(&[9])]));
    assert!(!editor.glyph_deletion_blanks_word());
    let editor = editor.apply(EditorEvent::DeleteGlyphAtCursor);
    assert_eq!(editor.selected_snippet().words, vec![english("kept"), tunic(&[9])]);
}

#[test]
fn transcription_state_toggles() {
    let editor = SnippetEditor::new(Snippet::starting_snippet());

    let editor = editor.apply(EditorEvent::ToggleSnippetTranscriptionState);
    assert!(editor.selected_snippet().transcribed);
    let editor = editor.with_transcription_state_toggled();
    assert!(!editor.selected_snippet().transcribed);
}

#[test]
fn word_cursor_events_move_by_one() {
    let editor = SnippetEditor::new(snippet_of(numbered_words(3)));

    let editor = editor.apply(EditorEvent::MoveWordCursorForward);
    assert_eq!(editor.selected_word_index(), 1);
    assert_eq!(editor.word_editor().unwrap().selected_word(), tunic(&[2]));
    let editor = editor.apply(EditorEvent::MoveWordCursorForward);
    let editor = editor.apply(EditorEvent::MoveWordCursorForward);
    assert_eq!(editor.selected_word_index(), 2);
    let editor = editor.apply(EditorEvent::MoveWordCursorBackward);
    assert_eq!(editor.selected_word_index(), 1);
}

#[test]
fn view_shows_every_word_with_its_place_in_the_window() {
    let known = TunicWord::new(vec![Glyph(2)]);
    let dictionary = Dictionary::new().with_new_definition(&known, "two".to_string());
    let mut words = numbered_words(25);
    words[2] = english("and");
    let editor = SnippetEditor::new(snippet_of(words)).with_word_selected(1);

    let view = editor.to_view(true, true, &dictionary);

    assert!(view.selected);
    assert!(view.retained);
    assert!(!view.transcribed);
    assert_eq!(view.snippet, editor.selected_snippet());
    assert_eq!(view.word_views.len(), 25);
    for (index, word_view) in view.word_views.iter().enumerate() {
        assert_eq!(word_view.index, index);
        assert_eq!(word_view.selected, index == 1);
        assert_eq!(word_view.within_visible_range, index < 20);
        assert_eq!(word_view.word, editor.selected_snippet().words[index]);
    }
    assert_eq!(view.word_views[0].definition, Definition::Undefined);
    assert_eq!(view.word_views[1].definition, Definition::Tentative("two".to_string()));
    assert_eq!(view.word_views[2].definition, Definition::Confirmed("and".to_string()));
    assert!(view.word_views[1].glyph_views[0].selected);
    assert!(!view.word_views[0].glyph_views[0].selected);

    let view = editor.to_view(false, false, &dictionary);
    assert!(!view.selected);
    assert!(!view.retained);
    assert!(view.word_views.iter().all(|word_view| !word_view.selected));
}

#[test]
fn definition_for_a_word() {
    let known = TunicWord::new(vec![Glyph(2)]);
    let dictionary = Dictionary::new().with_new_definition(&known, "two".to_string());

    assert_eq!(
        SnippetEditor::definition_for(&tunic(&[2]), &dictionary),
        Definition::Tentative("two".to_string())
    );
    assert_eq!(SnippetEditor::definition_for(&tunic(&[3]), &dictionary), Definition::Undefined);
    assert_eq!(
        SnippetEditor::definition_for(&english("a"), &dictionary),
        Definition::Confirmed("a".to_string())
    );
}

#[test]
fn snippet_editor_input_callbacks() {
    let editor = SnippetEditor::new(snippet_of(numbered_words(3)));

    let event = editor.on_input(|editor: &SnippetEditor| {
        EditorEvent::MoveWordsViewSliceForward(editor.selected_word_index() + 4)
    });

    assert_eq!(event, EditorEvent::MoveWordsViewSliceForward(4));
}
