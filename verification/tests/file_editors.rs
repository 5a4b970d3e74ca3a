use fennec::editors::events::EditorEvent;
use fennec::editors::file_editors::{
    FileEditor, FileEditorError, FileEditorErrorType, FileEditorState,
};
use fennec::editors::notebook_editors::NotebookEditor;
use fennec::gui::{
    map_keys_to_glyph_segments, on_attempt_to_load_file, on_attempt_to_save_file,
    on_file_editor_input, on_modify_selected_glyph, on_notebook_editor_input,
    on_snippet_editor_input, FileEditorAction, Key, KeyInput, LoadFailure,
};
use fennec::editors::glyph_editors::GlyphEditor;
use fennec::editors::snippet_editors::SnippetEditor;
use fennec::language::dictionary::Dictionary;
use fennec::language::glyphs::Glyph;
use fennec::language::notebooks::Notebook;
use fennec::language::snippets::Snippet;
use fennec::language::words::Word;

fn notebook() -> Notebook {
    Notebook::from(vec![Snippet::starting_snippet(), Snippet::default()])
}

fn editor() -> FileEditor {
    FileEditor::new(notebook(), "notebook.yaml")
}

fn key(key: Key) -> KeyInput {
    KeyInput { key: Some(key), shift: false, control: false }
}

fn shift(key: Key) -> KeyInput {
    KeyInput { key: Some(key), shift: true, control: false }
}

fn apply_all(editor: FileEditor, events: Vec<EditorEvent>) -> FileEditor {
    events.into_iter().fold(editor, |editor, event| editor.apply(event))
}

#[test]
fn a_new_file_editor_is_idle_and_selects_the_first_snippet() {
    let editor = editor();

    assert_eq!(editor.state(), FileEditorState::Idle);
    assert_eq!(editor.target_file(), "notebook.yaml");
    assert_eq!(editor.to_source(), notebook());
    assert_eq!(editor.notebook_editor().selected_snippet_index(), Some(0));
}

#[test]
fn a_failed_load_is_recorded_and_reset_leads_back_to_idle() {
    let editor = apply_all(
        editor(),
        vec![EditorEvent::RequestLoadFromFile, EditorEvent::ConfirmLoadFromFileRequest],
    );
    assert_eq!(editor.state(), FileEditorState::LoadRequestConfirmed);

    let report = on_attempt_to_load_file(
        &editor,
        Err(LoadFailure::Parsing("did not find expected key".to_string())),
    );
    let editor = editor.apply(report);

    match editor.state() {
        FileEditorState::LoadRequestFailed(error) => {
            assert_eq!(error.error_type(), FileEditorErrorType::ParsingError);
            assert_eq!(error.filename(), "notebook.yaml");
            assert_eq!(error.description(), "Unable to parse YAML for the notebook");
            assert_eq!(
                error.inner_error_description(),
                Some("did not find expected key".to_string())
            );
        }
        state => panic!("unexpected state {:?}", state),
    }
    assert_eq!(editor.to_source(), notebook());

    let editor = editor.apply(EditorEvent::ResetFileEditorToIdle);
    assert_eq!(editor.state(), FileEditorState::Idle);
    assert_eq!(editor.to_source(), notebook());
}

#[test]
fn a_file_that_cannot_be_read_is_a_read_error() {
    let report = on_attempt_to_load_file(&editor(), Err(LoadFailure::Reading("gone".to_string())));

    assert_eq!(
        report,
        EditorEvent::ReportFailedToLoadFromFile(FileEditorError::new(
            "Unable to load notebook from file".to_string(),
            FileEditorErrorType::FileReadError,
            "notebook.yaml".to_string(),
            Some("gone".to_string()),
        ))
    );
}

#[test]
fn a_successful_load_replaces_the_notebook() {
    let loaded = Notebook::from(vec![Snippet::default(), Snippet::default(), Snippet::default()]);
    let editor = apply_all(
        editor(),
        vec![
            EditorEvent::MoveSnippetCursorForward,
            EditorEvent::RequestLoadFromFile,
            EditorEvent::ConfirmLoadFromFileRequest,
        ],
    );

    let report = on_attempt_to_load_file(&editor, Ok(loaded.clone()));
    assert_eq!(report, EditorEvent::ReportLoadedFromFile(loaded.clone()));
    let editor = editor.apply(report);

    assert_eq!(editor.state(), FileEditorState::LoadRequestSucceeded);
    assert_eq!(editor.to_source(), loaded);
    assert_eq!(editor.notebook_editor().selected_snippet_index(), Some(0));
    assert_eq!(editor.apply(EditorEvent::ResetFileEditorToIdle).state(), FileEditorState::Idle);
}

#[test]
fn saving_goes_through_confirmation_and_report() {
    let editor = editor().apply(EditorEvent::RequestSaveToFile);
    assert_eq!(editor.state(), FileEditorState::ConfirmingSaveRequest);
    let editor = editor.apply(EditorEvent::ConfirmSaveToFileRequest);
    assert_eq!(editor.state(), FileEditorState::SaveRequestConfirmed);

    let saved = editor.clone().apply(on_attempt_to_save_file(&editor, Ok(())));
    assert_eq!(saved.state(), FileEditorState::SaveRequestSucceeded);
    assert_eq!(saved.apply(EditorEvent::ResetFileEditorToIdle).state(), FileEditorState::Idle);

    let failed = editor
        .clone()
        .apply(on_attempt_to_save_file(&editor, Err("disk full".to_string())));
    assert_eq!(
        failed.state(),
        FileEditorState::SaveRequestFailed(FileEditorError::new(
            "Unable to save notebook to file".to_string(),
            FileEditorErrorType::FileWriteError,
            "notebook.yaml".to_string(),
            Some("disk full".to_string()),
        ))
    );
    assert_eq!(failed.to_source(), notebook());
    assert_eq!(failed.apply(EditorEvent::ResetFileEditorToIdle).state(), FileEditorState::Idle);
}

#[test]
fn a_request_can_be_cancelled() {
    let editor = apply_all(
        editor(),
        vec![EditorEvent::RequestLoadFromFile, EditorEvent::ResetFileEditorToIdle],
    );
    assert_eq!(editor.state(), FileEditorState::Idle);

    let editor = apply_all(
        editor,
        vec![EditorEvent::RequestSaveToFile, EditorEvent::ResetFileEditorToIdle],
    );
    assert_eq!(editor.state(), FileEditorState::Idle);
}

fn every_state() -> Vec<FileEditorState> {
    let error = || {
        FileEditorError::new(
            "d".to_string(),
            FileEditorErrorType::Other,
            "f".to_string(),
            None,
        )
    };

    vec![
        FileEditorState::Idle,
        FileEditorState::ConfirmingSaveRequest,
        FileEditorState::ConfirmingLoadRequest,
        FileEditorState::SaveRequestConfirmed,
        FileEditorState::LoadRequestConfirmed,
        FileEditorState::SaveRequestSucceeded,
        FileEditorState::LoadRequestSucceeded,
        FileEditorState::SaveRequestFailed(error()),
        FileEditorState::LoadRequestFailed(error()),
    ]
}

#[test]
fn a_reset_leads_to_idle_from_every_state() {
    for state in every_state() {
        let editor = editor().with_state(state).apply(EditorEvent::ResetFileEditorToIdle);

        assert_eq!(editor.state(), FileEditorState::Idle);
        assert_eq!(editor.to_source(), notebook());
        assert_eq!(editor.target_file(), "notebook.yaml");
    }
}

#[test]
fn a_loaded_notebook_is_taken_in_every_state() {
    let loaded = Notebook::from(vec![Snippet::default(), Snippet::starting_snippet()]);

    for state in every_state() {
        let editor = editor()
            .apply(EditorEvent::MoveSnippetCursorForward)
            .with_state(state)
            .apply(EditorEvent::ReportLoadedFromFile(loaded.clone()));

        assert_eq!(editor.state(), FileEditorState::LoadRequestSucceeded);
        assert_eq!(editor.to_source(), loaded);
        assert_eq!(editor.target_file(), "notebook.yaml");
        assert_eq!(editor.notebook_editor().selected_snippet_index(), Some(0));
    }

    let emptied = editor().apply(EditorEvent::ReportLoadedFromFile(Notebook::default()));
    assert_eq!(emptied.notebook_editor().selected_snippet_index(), None);
}

#[test]
fn file_events_set_the_state_in_every_state() {
    let error = FileEditorError::new(
        "d".to_string(),
        FileEditorErrorType::FileReadError,
        "f".to_string(),
        Some("i".to_string()),
    );
    let events = vec![
        (EditorEvent::RequestLoadFromFile, FileEditorState::ConfirmingLoadRequest),
        (EditorEvent::RequestSaveToFile, FileEditorState::ConfirmingSaveRequest),
        (EditorEvent::ConfirmLoadFromFileRequest, FileEditorState::LoadRequestConfirmed),
        (EditorEvent::ConfirmSaveToFileRequest, FileEditorState::SaveRequestConfirmed),
        (EditorEvent::ReportSavedToFile, FileEditorState::SaveRequestSucceeded),
        (
            EditorEvent::ReportFailedToLoadFromFile(error.clone()),
            FileEditorState::LoadRequestFailed(error.clone()),
        ),
        (
            EditorEvent::ReportFailedToSaveToFile(error.clone()),
            FileEditorState::SaveRequestFailed(error.clone()),
        ),
        (EditorEvent::ResetFileEditorToIdle, FileEditorState::Idle),
    ];

    for state in every_state() {
        for (event, expected) in events.iter() {
            assert_eq!(FileEditor::transition(event), Some(expected.clone()));

            let editor = editor().with_state(state.clone()).apply(event.clone());

            assert_eq!(&editor.state(), expected);
            assert_eq!(editor.to_source(), notebook());
            assert_eq!(editor.target_file(), "notebook.yaml");
            assert_eq!(editor.notebook_editor().selected_snippet_index(), Some(0));
        }
    }
    assert_eq!(
        FileEditor::transition(&EditorEvent::ReportLoadedFromFile(Notebook::default())),
        Some(FileEditorState::LoadRequestSucceeded)
    );
    assert_eq!(FileEditor::transition(&EditorEvent::MoveWordCursorForward), None);
    assert_eq!(FileEditor::transition(&EditorEvent::NoOp), None);
}

#[test]
fn events_that_no_editor_acts_on_leave_the_notebook_alone() {
    for state in every_state() {
        for event in [
            EditorEvent::NoOp,
            EditorEvent::ToggleGlyphEditingMode,
            EditorEvent::ToggleWordHasABorderState,
            EditorEvent::ToggleWordIsColoredState,
            EditorEvent::PrintWord(Word::english("a".to_string())),
        ] {
            let editor = editor()
                .apply(EditorEvent::MoveGlyphCursorForward)
                .with_state(state.clone())
                .apply(event);

            assert_eq!(editor.state(), state);
            assert_eq!(editor.to_source(), notebook());
            assert_eq!(editor.target_file(), "notebook.yaml");
        }
    }
}

#[test]
fn other_events_go_to_the_notebook_editor() {
    let editor = editor().apply(EditorEvent::ToggleSegmentOnSelectedGlyph(15));

    assert_eq!(editor.state(), FileEditorState::Idle);
    assert_eq!(editor.to_source().snippets[0].words, vec![Word::single_glyph(Glyph(1))]);

    let editor = editor.with_state(FileEditorState::ConfirmingSaveRequest);
    assert_eq!(editor.state(), FileEditorState::ConfirmingSaveRequest);
    let editor = editor.with_notebook(Notebook::default());
    assert_eq!(editor.to_source(), Notebook::default());
    assert_eq!(editor.state(), FileEditorState::ConfirmingSaveRequest);
}

#[test]
fn file_editor_view_composes_state_and_notebook_view() {
    let dictionary = Dictionary::new();
    let editor = editor().apply(EditorEvent::RequestSaveToFile);

    let view = editor.to_view(&dictionary);

    assert_eq!(view.state, FileEditorState::ConfirmingSaveRequest);
    assert_eq!(view.target_file, "notebook.yaml");
    assert_eq!(view.notebook_view, editor.notebook_editor().to_view(&dictionary));
    assert_eq!(view.notebook_view.snippet_views.len(), 2);
    assert!(view.notebook_view.snippet_views[0].selected);

    let rendered: Result<(), String> = editor.render_with(&dictionary, |seen| {
        if seen == view {
            Ok(())
        } else {
            Err("another view".to_string())
        }
    });
    assert_eq!(rendered, Ok(()));
}

#[test]
fn file_editor_input_callbacks() {
    let editor = editor();

    let event = editor.on_input(|editor: &FileEditor| {
        EditorEvent::AddNewEnglishWordAtCursor(editor.target_file())
    });
    assert_eq!(event, EditorEvent::AddNewEnglishWordAtCursor("notebook.yaml".to_string()));

    let event = editor.on_notebook_editor_input(|editor: &NotebookEditor| {
        EditorEvent::MoveWordsViewSliceForward(editor.to_source().snippets.len())
    });
    assert_eq!(event, EditorEvent::MoveWordsViewSliceForward(2));
}

#[test]
fn keys_map_to_glyph_segments() {
    assert_eq!(map_keys_to_glyph_segments(Key::W, false), vec![1]);
    assert_eq!(map_keys_to_glyph_segments(Key::W, true), vec![1, 3]);
    assert_eq!(map_keys_to_glyph_segments(Key::R, false), vec![3]);
    assert_eq!(map_keys_to_glyph_segments(Key::R, true), vec![1, 3]);
    assert_eq!(map_keys_to_glyph_segments(Key::E, false), vec![2, 6]);
    assert_eq!(map_keys_to_glyph_segments(Key::D, true), vec![2, 6]);
    assert_eq!(map_keys_to_glyph_segments(Key::I, false), vec![10, 13]);
    assert_eq!(map_keys_to_glyph_segments(Key::K, false), vec![10, 13]);
    assert_eq!(map_keys_to_glyph_segments(Key::P, false), vec![4, 8]);
    assert_eq!(map_keys_to_glyph_segments(Key::A, false), vec![4, 8]);
    assert_eq!(map_keys_to_glyph_segments(Key::U, false), vec![9]);
    assert_eq!(map_keys_to_glyph_segments(Key::O, false), vec![11]);
    assert_eq!(map_keys_to_glyph_segments(Key::U, true), vec![9, 11]);
    assert_eq!(map_keys_to_glyph_segments(Key::J, false), vec![12]);
    assert_eq!(map_keys_to_glyph_segments(Key::L, false), vec![14]);
    assert_eq!(map_keys_to_glyph_segments(Key::L, true), vec![12, 14]);
    assert_eq!(map_keys_to_glyph_segments(Key::S, false), vec![5]);
    assert_eq!(map_keys_to_glyph_segments(Key::F, false), vec![7]);
    assert_eq!(map_keys_to_glyph_segments(Key::S, true), vec![5, 7]);
    assert_eq!(map_keys_to_glyph_segments(Key::Semicolon, false), vec![15]);
    assert_eq!(map_keys_to_glyph_segments(Key::Return, false), Vec::<usize>::new());
    assert_eq!(map_keys_to_glyph_segments(Key::Other, true), Vec::<usize>::new());
}

#[test]
fn keys_on_a_selected_glyph() {
    let glyph_editor = GlyphEditor::new(Glyph(0));

    assert_eq!(
        on_modify_selected_glyph(&glyph_editor, shift(Key::W)),
        EditorEvent::ToggleSegmentsOnSelectedGlyph(vec![1, 3])
    );
    assert_eq!(on_modify_selected_glyph(&glyph_editor, key(Key::Left)), EditorEvent::MoveGlyphCursorBackward);
    assert_eq!(on_modify_selected_glyph(&glyph_editor, key(Key::Right)), EditorEvent::MoveGlyphCursorForward);
    assert_eq!(on_modify_selected_glyph(&glyph_editor, key(Key::Space)), EditorEvent::AddNewGlyphToTunicWordAtCursor);
    assert_eq!(on_modify_selected_glyph(&glyph_editor, key(Key::Back)), EditorEvent::DeleteGlyphAtCursor);
    assert_eq!(on_modify_selected_glyph(&glyph_editor, key(Key::Key8)), EditorEvent::ToggleWordIsColoredState);
    assert_eq!(on_modify_selected_glyph(&glyph_editor, key(Key::Key9)), EditorEvent::ToggleWordHasABorderState);
    assert_eq!(on_modify_selected_glyph(&glyph_editor, key(Key::Other)), EditorEvent::NoOp);
    let nothing = KeyInput { key: None, shift: true, control: true };
    assert_eq!(on_modify_selected_glyph(&glyph_editor, nothing), EditorEvent::NoOp);
}

#[test]
fn keys_on_a_snippet() {
    let editor = SnippetEditor::new(Snippet::starting_snippet());

    assert_eq!(on_snippet_editor_input(&editor, key(Key::Up)), EditorEvent::MoveWordCursorBackward);
    assert_eq!(on_snippet_editor_input(&editor, shift(Key::Up)), EditorEvent::MoveWordsViewSliceBackward(1));
    assert_eq!(on_snippet_editor_input(&editor, key(Key::Down)), EditorEvent::MoveWordCursorForward);
    assert_eq!(on_snippet_editor_input(&editor, shift(Key::Down)), EditorEvent::MoveWordsViewSliceForward(1));
    assert_eq!(on_snippet_editor_input(&editor, key(Key::Key0)), EditorEvent::ToggleSnippetTranscriptionState);
    assert_eq!(on_snippet_editor_input(&editor, key(Key::Return)), EditorEvent::AddNewTunicWordAtCursor);
    assert_eq!(
        on_snippet_editor_input(&editor, shift(Key::Return)),
        EditorEvent::AddNewEnglishWordAtCursor(".".to_string())
    );
    assert_eq!(
        on_snippet_editor_input(&editor, KeyInput { key: Some(Key::Return), shift: true, control: true }),
        EditorEvent::AddNewEnglishWordAtCursor("...".to_string())
    );
    assert_eq!(
        on_snippet_editor_input(&editor, key(Key::Minus)),
        EditorEvent::AddNewEnglishWordAtCursor("---".to_string())
    );
    assert_eq!(
        on_snippet_editor_input(&editor, key(Key::Z)),
        EditorEvent::AddNewEnglishWordAtCursor("PLACEHOLDER".to_string())
    );
    assert_eq!(
        on_snippet_editor_input(&editor, key(Key::Semicolon)),
        EditorEvent::ToggleSegmentsOnSelectedGlyph(vec![15])
    );
    assert_eq!(on_snippet_editor_input(&editor, key(Key::Back)), EditorEvent::DeleteGlyphAtCursor);

    let english = SnippetEditor::new(Snippet {
        words: vec![Word::english("a".to_string())],
        ..Snippet::default()
    });
    assert_eq!(on_snippet_editor_input(&english, key(Key::Back)), EditorEvent::NoOp);
    assert_eq!(on_snippet_editor_input(&SnippetEditor::new(Snippet::default()), key(Key::W)), EditorEvent::NoOp);
}

#[test]
fn keys_on_a_notebook() {
    let editing = NotebookEditor::new(notebook()).with_absolute_snippet_selected(0);
    assert_eq!(on_notebook_editor_input(&editing, key(Key::Escape)), EditorEvent::EnableSnippetNavigationMode);
    assert_eq!(on_notebook_editor_input(&editing, key(Key::Down)), EditorEvent::MoveWordCursorForward);
    assert_eq!(on_notebook_editor_input(&NotebookEditor::new(notebook()), key(Key::Down)), EditorEvent::NoOp);

    let selecting = editing.apply(EditorEvent::EnableSnippetNavigationMode);
    assert_eq!(on_notebook_editor_input(&selecting, key(Key::Escape)), EditorEvent::EnableSnippetEditingMode);
    assert_eq!(on_notebook_editor_input(&selecting, key(Key::Return)), EditorEvent::EnableSnippetEditingMode);
    assert_eq!(on_notebook_editor_input(&selecting, key(Key::Down)), EditorEvent::MoveSnippetCursorForward);
    assert_eq!(on_notebook_editor_input(&selecting, key(Key::J)), EditorEvent::MoveSnippetCursorForward);
    assert_eq!(on_notebook_editor_input(&selecting, key(Key::K)), EditorEvent::MoveSnippetCursorBackward);
    assert_eq!(on_notebook_editor_input(&selecting, key(Key::Plus)), EditorEvent::AddNewSnippetAtCursor);
    assert_eq!(on_notebook_editor_input(&selecting, key(Key::T)), EditorEvent::ToggleHasBeenTranscribedFilter);
    assert_eq!(on_notebook_editor_input(&selecting, key(Key::W)), EditorEvent::NoOp);
}

fn applied(action: FileEditorAction) -> EditorEvent {
    match action {
        FileEditorAction::Apply(event) => event,
        _ => panic!("an event was expected"),
    }
}

#[test]
fn keys_at_the_root() {
    let idle = editor();
    assert_eq!(applied(on_file_editor_input(&idle, key(Key::F2))), EditorEvent::RequestSaveToFile);
    assert_eq!(applied(on_file_editor_input(&idle, key(Key::F3))), EditorEvent::RequestLoadFromFile);
    assert_eq!(applied(on_file_editor_input(&idle, key(Key::Return))), EditorEvent::AddNewTunicWordAtCursor);
    let nothing = KeyInput { key: None, shift: false, control: false };
    assert_eq!(applied(on_file_editor_input(&idle, nothing)), EditorEvent::NoOp);

    let confirming = idle.clone().apply(EditorEvent::RequestLoadFromFile);
    assert_eq!(applied(on_file_editor_input(&confirming, key(Key::Return))), EditorEvent::ConfirmLoadFromFileRequest);
    assert_eq!(applied(on_file_editor_input(&confirming, key(Key::Escape))), EditorEvent::ResetFileEditorToIdle);
    assert_eq!(applied(on_file_editor_input(&confirming, key(Key::W))), EditorEvent::NoOp);

    let attempting = confirming.apply(EditorEvent::ConfirmLoadFromFileRequest);
    assert!(matches!(on_file_editor_input(&attempting, nothing), FileEditorAction::AttemptToLoadFile));

    let loaded = attempting.apply(EditorEvent::ReportLoadedFromFile(Notebook::default()));
    assert_eq!(applied(on_file_editor_input(&loaded, key(Key::W))), EditorEvent::ResetFileEditorToIdle);
    assert_eq!(applied(on_file_editor_input(&loaded, nothing)), EditorEvent::NoOp);

    let saving = apply_all(
        idle,
        vec![EditorEvent::RequestSaveToFile, EditorEvent::ConfirmSaveToFileRequest],
    );
    assert!(matches!(on_file_editor_input(&saving, key(Key::W)), FileEditorAction::AttemptToSaveFile));
}
