use fennec::editors::events::EditorEvent;
use fennec::editors::notebook_editors::{
    NotebookEditor, NotebookEditorFilters, NotebookEditorState,
};
use fennec::editors::snippet_editors::SnippetEditor;
use fennec::language::dictionary::Dictionary;
use fennec::language::glyphs::Glyph;
use fennec::language::notebooks::Notebook;
use fennec::language::snippets::Snippet;
use fennec::language::words::Word;

fn snippet(code: u16, transcribed: bool) -> Snippet {
    Snippet {
        words: vec![Word::single_glyph(Glyph(code))],
        description: format!("snippet {}", code),
        transcribed,
        ..Snippet::default()
    }
}

/// Snippets 0..6, of which 1 and 4 are transcribed.
fn notebook() -> Notebook {
    Notebook::from(vec![
        snippet(0, false),
        snippet(1, true),
        snippet(2, false),
        snippet(3, false),
        snippet(4, true),
        snippet(5, false),
    ])
}

#[test]
fn a_new_editor_edits_shows_untranscribed_snippets_and_selects_nothing() {
    let editor = NotebookEditor::new(notebook());

    assert_eq!(editor.state(), NotebookEditorState::EditingSnippet);
    assert_eq!(editor.filters(), NotebookEditorFilters { has_been_transcribed: Some(false) });
    assert_eq!(editor.selected_snippet_index(), None);
    assert!(editor.snippet_editor().is_none());
    assert_eq!(editor.to_source(), notebook());
}

#[test]
fn filters_retain_by_transcription_state() {
    let untranscribed = NotebookEditorFilters { has_been_transcribed: Some(false) };
    let transcribed = NotebookEditorFilters { has_been_transcribed: Some(true) };
    let all = NotebookEditorFilters { has_been_transcribed: None };

    assert!(untranscribed.retains(&snippet(0, false)));
    assert!(!untranscribed.retains(&snippet(0, true)));
    assert!(!transcribed.retains(&snippet(0, false)));
    assert!(transcribed.retains(&snippet(0, true)));
    assert!(all.retains(&snippet(0, false)));
    assert!(all.retains(&snippet(0, true)));
}

#[test]
fn outcomes_rank_the_retained_snippets() {
    let editor = NotebookEditor::new(notebook());

    let outcomes = editor.retained_snippet_outcomes();

    assert_eq!(outcomes.len(), 6);
    let retained: Vec<bool> = outcomes.iter().map(|outcome| outcome.retained).collect();
    assert_eq!(retained, vec![true, false, true, true, false, true]);
    let relative: Vec<Option<usize>> =
        outcomes.iter().map(|outcome| outcome.relative_index).collect();
    assert_eq!(relative, vec![Some(0), None, Some(1), Some(2), None, Some(3)]);
    for (index, outcome) in outcomes.iter().enumerate() {
        assert_eq!(outcome.absolute_index, index);
        assert_eq!(outcome.snippet, notebook().snippets[index]);
    }
}

#[test]
fn relative_indices_increase_and_equal_the_rank() {
    let editor = NotebookEditor::new(notebook());

    let outcomes = editor.retained_snippet_outcomes();

    let mut rank = 0;
    for outcome in outcomes.iter() {
        if outcome.retained {
            assert_eq!(outcome.relative_index, Some(rank));
            rank += 1;
        } else {
            assert_eq!(outcome.relative_index, None);
        }
    }
    assert_eq!(rank, 4);
}

#[test]
fn absolute_selection_opens_a_snippet_editor() {
    let editor = NotebookEditor::new(notebook()).with_absolute_snippet_selected(1);

    assert_eq!(editor.selected_snippet_index(), Some(1));
    assert_eq!(editor.snippet_editor().unwrap().selected_snippet(), snippet(1, true));

    let editor = editor.with_absolute_snippet_selected(6);
    assert_eq!(editor.selected_snippet_index(), Some(1));
}

#[test]
fn relative_selection_counts_retained_snippets_only() {
    let editor = NotebookEditor::new(notebook());

    assert_eq!(editor.clone().with_relative_snippet_selected(0).selected_snippet_index(), Some(0));
    assert_eq!(editor.clone().with_relative_snippet_selected(1).selected_snippet_index(), Some(2));
    assert_eq!(editor.clone().with_relative_snippet_selected(2).selected_snippet_index(), Some(3));
    assert_eq!(editor.clone().with_relative_snippet_selected(3).selected_snippet_index(), Some(5));
    assert_eq!(editor.clone().with_relative_snippet_selected(4).selected_snippet_index(), None);
}

#[test]
fn moving_forward_skips_what_the_filter_hides() {
    let editor = NotebookEditor::new(notebook()).with_absolute_snippet_selected(0);

    let editor = editor.with_snippet_selection_moved_forward(1);
    assert_eq!(editor.selected_snippet_index(), Some(2));
    let editor = editor.apply(EditorEvent::MoveSnippetCursorForward);
    assert_eq!(editor.selected_snippet_index(), Some(3));
    let editor = editor.apply(EditorEvent::MoveSnippetCursorForward);
    assert_eq!(editor.selected_snippet_index(), Some(5));
    let editor = editor.apply(EditorEvent::MoveSnippetCursorForward);
    assert_eq!(editor.selected_snippet_index(), Some(5));
    let editor = editor.with_snippet_selection_moved_forward(usize::MAX);
    assert_eq!(editor.selected_snippet_index(), Some(5));
}

#[test]
fn moving_backward_skips_what_the_filter_hides() {
    let editor = NotebookEditor::new(notebook()).with_absolute_snippet_selected(5);

    let editor = editor.apply(EditorEvent::MoveSnippetCursorBackward);
    assert_eq!(editor.selected_snippet_index(), Some(3));
    let editor = editor.with_snippet_selection_moved_backward(2);
    assert_eq!(editor.selected_snippet_index(), Some(0));
    let editor = editor.with_snippet_selection_moved_backward(1);
    assert_eq!(editor.selected_snippet_index(), Some(0));
}

#[test]
fn moving_without_a_selection_selects_the_first_snippet() {
    let editor = NotebookEditor::new(notebook()).with_snippet_selection_moved_forward(3);
    assert_eq!(editor.selected_snippet_index(), Some(0));

    let editor = NotebookEditor::new(notebook()).with_snippet_selection_moved_backward(3);
    assert_eq!(editor.selected_snippet_index(), Some(0));
}

#[test]
fn moving_when_nothing_is_retained_goes_to_the_first_snippet() {
    let all_transcribed = Notebook::from(vec![snippet(0, true), snippet(1, true)]);
    let editor = NotebookEditor::new(all_transcribed).with_absolute_snippet_selected(1);

    let editor = editor.with_snippet_selection_moved_forward(1);

    assert_eq!(editor.selected_snippet_index(), Some(0));
}

#[test]
fn a_new_snippet_goes_behind_the_selection() {
    let editor = NotebookEditor::new(notebook()).with_absolute_snippet_selected(2);

    let editor = editor.apply(EditorEvent::AddNewSnippetAtCursor);

    let source = editor.to_source();
    assert_eq!(source.snippets.len(), 7);
    assert_eq!(source.snippets[3], Snippet::starting_snippet());
    assert_eq!(source.snippets[2], snippet(2, false));
    assert_eq!(source.snippets[4], snippet(3, false));
    assert_eq!(editor.selected_snippet_index(), Some(3));
    assert_eq!(editor.snippet_editor().unwrap().selected_snippet(), Snippet::starting_snippet());
}

#[test]
fn a_new_snippet_without_a_selection_goes_to_the_end() {
    let editor = NotebookEditor::new(notebook()).with_new_snippet_at_cursor();
    assert_eq!(editor.to_source().snippets.len(), 7);
    assert_eq!(editor.to_source().snippets[6], Snippet::starting_snippet());
    assert_eq!(editor.selected_snippet_index(), Some(6));

    let editor = NotebookEditor::new(Notebook::default()).with_new_snippet_at_cursor();
    assert_eq!(editor.to_source().snippets, vec![Snippet::starting_snippet()]);
    assert_eq!(editor.selected_snippet_index(), Some(0));

    let editor = NotebookEditor::new(notebook())
        .with_absolute_snippet_selected(5)
        .with_new_snippet_at_cursor();
    assert_eq!(editor.to_source().snippets[6], Snippet::starting_snippet());
    assert_eq!(editor.selected_snippet_index(), Some(6));
}

#[test]
fn modes_switch_without_touching_the_selection() {
    let editor = NotebookEditor::new(notebook()).with_absolute_snippet_selected(2);

    let editor = editor.apply(EditorEvent::EnableSnippetNavigationMode);
    assert_eq!(editor.state(), NotebookEditorState::SelectingSnippet);
    assert_eq!(editor.selected_snippet_index(), Some(2));
    let editor = editor.apply(EditorEvent::EnableSnippetEditingMode);
    assert_eq!(editor.state(), NotebookEditorState::EditingSnippet);
    assert_eq!(editor.selected_snippet_index(), Some(2));
    assert_eq!(
        editor.with_state(NotebookEditorState::SelectingSnippet).state(),
        NotebookEditorState::SelectingSnippet
    );
}

#[test]
fn toggling_the_filter_selects_the_first_retained_snippet() {
    let editor = NotebookEditor::new(notebook()).with_absolute_snippet_selected(3);

    let editor = editor.apply(EditorEvent::ToggleHasBeenTranscribedFilter);
    assert_eq!(editor.filters().has_been_transcribed, Some(true));
    assert_eq!(editor.selected_snippet_index(), Some(1));

    let editor = editor.apply(EditorEvent::ToggleHasBeenTranscribedFilter);
    assert_eq!(editor.filters().has_been_transcribed, Some(false));
    assert_eq!(editor.selected_snippet_index(), Some(0));

    let editor = editor.with_has_been_transcribed_filter_toggled();
    assert_eq!(editor.filters().has_been_transcribed, Some(true));
    assert_eq!(editor.selected_snippet_index(), Some(0));
}

#[test]
fn other_events_go_to_the_snippet_editor_and_come_back_into_the_notebook() {
    let editor = NotebookEditor::new(notebook()).with_absolute_snippet_selected(2);

    let editor = editor.apply(EditorEvent::ToggleSegmentOnSelectedGlyph(15));

    let source = editor.to_source();
    assert_eq!(source.snippets[2].words, vec![Word::single_glyph(Glyph(3))]);
    assert_eq!(source.snippets[0], snippet(0, false));
    assert_eq!(source.snippets[3], snippet(3, false));
    assert_eq!(editor.snippet_editor().unwrap().selected_snippet(), source.snippets[2]);

    let editor = editor.apply(EditorEvent::ToggleSnippetTranscriptionState);
    assert!(editor.to_source().snippets[2].transcribed);
}

#[test]
fn events_without_a_snippet_editor_change_nothing() {
    let editor = NotebookEditor::new(notebook());

    let editor = editor.apply(EditorEvent::ToggleSegmentOnSelectedGlyph(15));

    assert_eq!(editor.to_source(), notebook());
    assert_eq!(editor.selected_snippet_index(), None);
}

#[test]
fn view_holds_the_retained_snippets_only() {
    let dictionary = Dictionary::new();
    let editor = NotebookEditor::new(notebook())
        .with_absolute_snippet_selected(3)
        .with_state(NotebookEditorState::SelectingSnippet);

    let view = editor.to_view(&dictionary);

    assert_eq!(view.state, NotebookEditorState::SelectingSnippet);
    let shown: Vec<Snippet> =
        view.snippet_views.iter().map(|snippet_view| snippet_view.snippet.clone()).collect();
    assert_eq!(
        shown,
        vec![snippet(0, false), snippet(2, false), snippet(3, false), snippet(5, false)]
    );
    let selected: Vec<bool> =
        view.snippet_views.iter().map(|snippet_view| snippet_view.selected).collect();
    assert_eq!(selected, vec![false, false, true, false]);
    assert!(view.snippet_views.iter().all(|snippet_view| snippet_view.retained));
    assert_eq!(
        view.snippet_views[1],
        SnippetEditor::new(snippet(2, false)).to_view(false, true, &dictionary)
    );
}

#[test]
fn a_selected_snippet_that_the_filter_hides_is_not_in_the_view() {
    let dictionary = Dictionary::new();
    let editor = NotebookEditor::new(notebook()).with_absolute_snippet_selected(1);

    let view = editor.to_view(&dictionary);

    assert_eq!(view.snippet_views.len(), 4);
    assert!(view.snippet_views.iter().all(|snippet_view| !snippet_view.selected));
}

#[test]
fn notebook_editor_input_callbacks() {
    let editor = NotebookEditor::new(notebook());
    let event = editor.on_input(|_: &NotebookEditor| EditorEvent::AddNewSnippetAtCursor);
    assert_eq!(event, EditorEvent::AddNewSnippetAtCursor);
    let event = editor.on_snippet_editor_input(|_: &SnippetEditor| EditorEvent::DeleteWordAtCursor);
    assert_eq!(event, EditorEvent::NoOp);

    let editor = editor.with_absolute_snippet_selected(0);
    let event = editor.on_snippet_editor_input(|_: &SnippetEditor| EditorEvent::DeleteWordAtCursor);
    assert_eq!(event, EditorEvent::DeleteWordAtCursor);

    let mut seen = 0;
    editor.render_with(&Dictionary::new(), |view, start| {
        seen = view.snippet_views.len() + start;
    });
    assert_eq!(seen, 4);
}
