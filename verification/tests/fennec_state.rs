use fennec::editors::events::EditorEvent;
use fennec::editors::file_editors::FileEditorState;
use fennec::fennec_state::FennecState;
use fennec::gui::{FileEditorAction, Key, KeyInput};
use fennec::language::dictionary::Dictionary;
use fennec::language::notebooks::Notebook;
use fennec::language::snippets::Snippet;
use fennec::renderers::glyph_map_renderers::GlyphMap;
use fennec::renderers::{Color, DrawCommand};

fn nothing() -> KeyInput {
    KeyInput { key: None, shift: false, control: false }
}

#[test]
fn the_program_starts_by_loading_its_notebook() {
    let state = FennecState::new(Snippet::starting_snippet(), Dictionary::new());

    assert_eq!(state.file_editor().state(), FileEditorState::LoadRequestConfirmed);
    assert_eq!(state.file_editor().target_file(), "notebook.yaml");
    assert_eq!(
        state.file_editor().to_source(),
        Notebook::from(vec![Snippet::starting_snippet()])
    );
    assert!(state.dictionary().entries().is_empty());
    assert!(matches!(state.next_action(nothing()), FileEditorAction::AttemptToLoadFile));
}

#[test]
fn events_other_than_no_op_reach_the_editors() {
    let state = FennecState::new(Snippet::starting_snippet(), Dictionary::new());

    let state = state.with_event(EditorEvent::NoOp);
    assert_eq!(state.file_editor().state(), FileEditorState::LoadRequestConfirmed);

    let state = state.with_event(EditorEvent::ReportLoadedFromFile(Notebook::default()));
    assert_eq!(state.file_editor().state(), FileEditorState::LoadRequestSucceeded);
    assert_eq!(state.file_editor().to_source(), Notebook::default());

    let key = KeyInput { key: Some(Key::Space), shift: false, control: false };
    let state = match state.next_action(key) {
        FileEditorAction::Apply(event) => state.with_event(event),
        _ => panic!("an event was expected"),
    };
    assert_eq!(state.file_editor().state(), FileEditorState::Idle);
}

#[test]
fn the_state_is_drawn_as_commands() {
    let state = FennecState::new(Snippet::starting_snippet(), Dictionary::new());
    let mut map = GlyphMap::new(3, 3).unwrap();

    let commands = state.render(&mut map).unwrap();

    assert_eq!(
        commands[..4],
        [
            DrawCommand::ActivateAndClear { console: 16 },
            DrawCommand::ActivateAndClear { console: 17 },
            DrawCommand::ActivateAndClear { console: 18 },
            DrawCommand::ActivateAndClear { console: 16 },
        ]
    );
    assert_eq!(commands.len(), 4 + 16);
    assert_eq!(map, GlyphMap::new(3, 3).unwrap());

    let state = state
        .with_event(EditorEvent::ReportLoadedFromFile(Notebook::from(vec![
            Snippet::starting_snippet(),
        ])))
        .with_event(EditorEvent::ResetFileEditorToIdle)
        .with_event(EditorEvent::ToggleSegmentOnSelectedGlyph(15));
    let commands = state.render(&mut map).unwrap();

    assert_eq!(commands[3], DrawCommand::ActivateAndClear { console: 17 });
    assert_eq!(commands[4], DrawCommand::ActivateAndClear { console: 18 });
    assert_eq!(map.get_glyph(1, 1).unwrap().glyph.0, 0x8001);
    assert_eq!(map.get_glyph(0, 0).unwrap().glyph.0, 0xffff);
    let cells: Vec<&DrawCommand> = commands
        .iter()
        .filter(|command| matches!(command, DrawCommand::SetCell { .. }))
        .collect();
    assert_eq!(cells.len(), 16 + 2);
    assert_eq!(
        cells[0],
        &DrawCommand::SetCell { x: 1, y: 1, foreground: Color::Yellow, symbol: 0 }
    );
    assert_eq!(
        cells[1],
        &DrawCommand::SetCell { x: 2, y: 2, foreground: Color::Yellow, symbol: 0 }
    );
}

#[test]
fn a_map_that_cannot_hold_the_snippet_fails_the_drawing() {
    let state = FennecState::new(Snippet::starting_snippet(), Dictionary::new())
        .with_event(EditorEvent::ReportLoadedFromFile(Notebook::from(vec![
            Snippet::starting_snippet(),
        ])))
        .with_event(EditorEvent::ResetFileEditorToIdle);
    let mut map = GlyphMap::new(1, 1).unwrap();

    let error = state.render(&mut map).unwrap_err();

    assert_eq!(error.description(), "Invalid index for the GlyphMap: 2. The limit is 1.");

    let mut map = GlyphMap { width: u32::MAX, height: 1, glyphs: vec![] };
    let error = state.render(&mut map).unwrap_err();
    assert_eq!(error.description(), "The notebook does not fit on the screen");
}
