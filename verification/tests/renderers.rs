use fennec::editors::events::EditorEvent;
use fennec::editors::file_editors::{FileEditor, FileEditorError, FileEditorErrorType};
use fennec::editors::notebook_editors::{NotebookEditor, NotebookEditorState};
use fennec::editors::snippet_editors::SnippetEditor;
use fennec::editors::word_editors::WordEditorState;
use fennec::language::dictionary::{Definition, Dictionary};
use fennec::language::glyphs::Glyph;
use fennec::language::notebooks::Notebook;
use fennec::language::snippets::Snippet;
use fennec::language::words::Word;
use fennec::language::{Note, Source};
use fennec::renderers::file_editor_renderers::render_file_editor_view_onto;
use fennec::renderers::glyph_map_renderers::{GlyphDrawing, GlyphMap, GlyphRenderError};
use fennec::renderers::notebook_editor_renderers::{
    description_color_for, format_glyphs_for_reading, render_notebook_on,
    render_selected_snippet_on, source_color_for,
};
use fennec::renderers::snippet_editor_renderers::render_snippet_on;
use fennec::renderers::snippet_source_renderers::{
    render_snippet_source_on, snippet_source_to_label,
};
use fennec::renderers::{Color, DrawCommand};
use fennec::views::{GlyphView, SnippetView, WordView};

fn tunic(codes: &[u16]) -> Word {
    Word::tunic(codes.iter().map(|code| Glyph(*code)).collect())
}

fn snippet_of(words: Vec<Word>) -> Snippet {
    Snippet { words, ..Snippet::default() }
}

fn view_of(snippet: Snippet, selected: bool) -> SnippetView {
    SnippetEditor::new(snippet).to_view(selected, true, &Dictionary::new())
}

fn print(x: u32, y: u32, foreground: Color, text: &str) -> DrawCommand {
    DrawCommand::Print { x, y, foreground, background: Color::Black, text: text.to_string() }
}

#[test]
fn a_new_map_is_empty() {
    let map = GlyphMap::new(4, 3).unwrap();

    assert_eq!(map.width, 4);
    assert_eq!(map.height, 3);
    assert_eq!(map.glyphs, vec![None; 12]);
    assert_eq!(map.get_glyph(3, 2), None);
    assert_eq!(map.get_glyph(4, 2), None);
}

#[test]
fn a_map_with_too_many_cells_is_refused() {
    let error = GlyphMap::new(65_536, 65_536).unwrap_err();

    assert_eq!(error.description(), "Invalid dimensions for the GlyphMap: 65536 by 65536");
    assert_eq!(
        error.to_string(),
        "GlyphRenderError: Invalid dimensions for the GlyphMap: 65536 by 65536"
    );
    assert_eq!(GlyphRenderError::new("x".to_string()).description(), "x");
}

#[test]
fn glyphs_are_set_row_by_row() {
    let mut map = GlyphMap::new(4, 3).unwrap();

    map.set_glyph(1, 2, Glyph(7), Color::Red).unwrap();

    assert_eq!(map.glyphs[9], Some(GlyphDrawing { glyph: Glyph(7), color: Color::Red }));
    assert_eq!(map.get_glyph(1, 2), Some(GlyphDrawing { glyph: Glyph(7), color: Color::Red }));
    assert_eq!(map.glyphs.iter().filter(|cell| cell.is_some()).count(), 1);
}

#[test]
fn a_glyph_outside_the_map_is_an_error() {
    let mut map = GlyphMap::new(4, 3).unwrap();

    let error = map.set_glyph(0, 3, Glyph(7), Color::Red).unwrap_err();

    assert_eq!(error.description(), "Invalid index for the GlyphMap: 12. The limit is 12.");
    assert_eq!(map, GlyphMap::new(4, 3).unwrap());

    let error = map.set_glyph(u32::MAX, u32::MAX, Glyph(7), Color::Red).unwrap_err();
    assert_eq!(
        error.description(),
        "Invalid index for the GlyphMap: 21474836475. The limit is 12."
    );
}

#[test]
fn glyph_views_are_drawn_in_the_colour_of_their_selection() {
    let mut map = GlyphMap::new(2, 1).unwrap();

    map.render_glyph_on(&GlyphView { glyph: Glyph(1), selected: false }, 0, 0).unwrap();
    map.render_glyph_on(&GlyphView { glyph: Glyph(2), selected: true }, 1, 0).unwrap();

    assert_eq!(map.get_glyph(0, 0), Some(GlyphDrawing { glyph: Glyph(1), color: Color::White }));
    assert_eq!(map.get_glyph(1, 0), Some(GlyphDrawing { glyph: Glyph(2), color: Color::Yellow }));
}

fn word_view(word: Word, selected: bool) -> WordView {
    let view = view_of(snippet_of(vec![word]), selected);
    view.word_views[0].clone()
}

#[test]
fn words_are_drawn_with_their_word_line() {
    let mut map = GlyphMap::new(5, 3).unwrap();

    map.render_word_on(&word_view(tunic(&[1, 0x8002]), false), 1, 2).unwrap();

    assert_eq!(map.get_glyph(1, 2), Some(GlyphDrawing { glyph: Glyph(0x8001), color: Color::White }));
    assert_eq!(map.get_glyph(2, 2), Some(GlyphDrawing { glyph: Glyph(2), color: Color::White }));
    assert_eq!(map.get_glyph(0, 0), None);
    assert_eq!(map.glyphs.iter().filter(|cell| cell.is_some()).count(), 2);
}

#[test]
fn a_selected_word_leaves_the_mark_of_its_state() {
    let mut map = GlyphMap::new(5, 3).unwrap();
    let view = word_view(tunic(&[1, 2]), true);
    assert_eq!(view.state, WordEditorState::ModifySelectedGlyph);

    map.render_word_on(&view, 1, 1).unwrap();

    assert_eq!(map.get_glyph(0, 0), Some(GlyphDrawing { glyph: Glyph(0xffff), color: Color::Yellow }));
    assert_eq!(map.get_glyph(1, 1), Some(GlyphDrawing { glyph: Glyph(0x8001), color: Color::Yellow }));
    assert_eq!(map.get_glyph(2, 1), Some(GlyphDrawing { glyph: Glyph(0x8002), color: Color::White }));

    let mut map = GlyphMap::new(5, 3).unwrap();
    let view = WordView { state: WordEditorState::ModifyGlyphSet, ..view };
    map.render_word_on(&view, 1, 1).unwrap();
    assert_eq!(map.get_glyph(0, 0), Some(GlyphDrawing { glyph: Glyph(0xffff), color: Color::Blue }));
}

#[test]
fn a_word_that_runs_off_the_map_stops_where_it_fails() {
    let mut map = GlyphMap::new(2, 2).unwrap();

    let error = map.render_word_on(&word_view(tunic(&[1, 2, 3]), true), 1, 1).unwrap_err();

    assert_eq!(error.description(), "Invalid index for the GlyphMap: 4. The limit is 4.");
    assert_eq!(map.get_glyph(1, 1), Some(GlyphDrawing { glyph: Glyph(0x8001), color: Color::Yellow }));
    assert_eq!(map.get_glyph(0, 0), None);
}

#[test]
fn snippets_are_drawn_word_below_word() {
    let mut map = GlyphMap::new(4, 4).unwrap();
    let view = view_of(snippet_of(vec![tunic(&[1]), Word::english("a".to_string()), tunic(&[2, 3])]), false);

    map.render_snippet_on(&view, 1, 0).unwrap();

    assert_eq!(map.get_glyph(1, 0).unwrap().glyph, Glyph(0x8001));
    assert_eq!(map.get_glyph(1, 1), None);
    assert_eq!(map.get_glyph(1, 2).unwrap().glyph, Glyph(0x8002));
    assert_eq!(map.get_glyph(2, 2).unwrap().glyph, Glyph(0x8003));
    assert_eq!(map.glyphs.iter().filter(|cell| cell.is_some()).count(), 3);
}

#[test]
fn a_map_is_drawn_segment_by_segment() {
    let mut map = GlyphMap::new(2, 2).unwrap();
    map.set_glyph(0, 0, Glyph(0x8001), Color::White).unwrap();
    map.set_glyph(1, 1, Glyph(0x8000), Color::Yellow).unwrap();
    map.set_glyph(1, 0, Glyph(0x0001), Color::Red).unwrap();

    let commands = map.draw_on(10, 20);

    let clears: Vec<&DrawCommand> = commands
        .iter()
        .filter(|command| matches!(command, DrawCommand::ActivateAndClear { .. }))
        .collect();
    assert_eq!(clears.len(), 16);
    assert_eq!(commands.len(), 16 + 4);
    assert_eq!(
        commands[..4],
        [
            DrawCommand::ActivateAndClear { console: 0 },
            DrawCommand::SetCell { x: 10, y: 20, foreground: Color::White, symbol: 0 },
            DrawCommand::SetCell { x: 11, y: 21, foreground: Color::Yellow, symbol: 0 },
            DrawCommand::ActivateAndClear { console: 1 },
        ]
    );
    assert_eq!(
        commands[commands.len() - 3..],
        [
            DrawCommand::ActivateAndClear { console: 15 },
            DrawCommand::SetCell { x: 10, y: 20, foreground: Color::White, symbol: 15 },
            DrawCommand::SetCell { x: 11, y: 20, foreground: Color::Red, symbol: 15 },
        ]
    );
}

#[test]
fn sources_have_labels() {
    let mut snippet = Snippet::default();
    assert_eq!(snippet_source_to_label(&view_of(snippet.clone(), false)), "(Unknown)");
    snippet.source = Some(Source::ManualPageNumber(12));
    assert_eq!(snippet_source_to_label(&view_of(snippet.clone(), false)), "Manual: Page 12");
    snippet.source = Some(Source::ScreenshotFilename("a.png".to_string()));
    assert_eq!(snippet_source_to_label(&view_of(snippet.clone(), false)), "Screenshot: a.png");
    snippet.source = Some(Source::Other("sign".to_string()));
    assert_eq!(snippet_source_to_label(&view_of(snippet.clone(), false)), "Other: sign");

    assert_eq!(
        render_snippet_source_on(&view_of(snippet, false), 2, 3),
        vec![
            DrawCommand::ActivateAndClear { console: 16 },
            print(2, 3, Color::White, "Source -> Other: sign"),
        ]
    );
}

#[test]
fn list_colours_follow_selection_and_transcription() {
    let plain = view_of(Snippet::default(), false);
    let selected = view_of(Snippet::default(), true);
    let done = view_of(Snippet::default().with_transcription_state_toggled(), false);
    let selected_done = view_of(Snippet::default().with_transcription_state_toggled(), true);

    assert_eq!(description_color_for(&plain), Color::White);
    assert_eq!(description_color_for(&selected), Color::Green);
    assert_eq!(description_color_for(&done), Color::Gray15);
    assert_eq!(description_color_for(&selected_done), Color::Yellow);
    assert_eq!(source_color_for(&plain), Color::White);
    assert_eq!(source_color_for(&selected), Color::White);
    assert_eq!(source_color_for(&done), Color::Gray10);
    assert_eq!(source_color_for(&selected_done), Color::Gray20);
}

#[test]
fn glyphs_are_read_as_numbers() {
    assert_eq!(format_glyphs_for_reading(vec![]), "(Empty)");
    assert_eq!(format_glyphs_for_reading(vec![Glyph(7)]), "[7]");
    assert_eq!(format_glyphs_for_reading(vec![Glyph(1), Glyph(27), Glyph(339)]), "[1 27 339]");
}

#[test]
fn the_words_in_view_are_shown_with_labels() {
    let mut map = GlyphMap::new(10, 30).unwrap();
    let mut words: Vec<Word> = (1..=25u16).map(|number| tunic(&[number])).collect();
    words[1] = Word::english("and".to_string());
    let editor = SnippetEditor::new(snippet_of(words)).apply(EditorEvent::MoveWordsViewSliceForward(2));
    let view = editor.to_view(true, true, &Dictionary::new());

    let commands = render_snippet_on(&view, &mut map, 1, 1).unwrap();

    assert_eq!(commands.len(), 1 + 20);
    assert_eq!(commands[0], DrawCommand::ActivateAndClear { console: 18 });
    assert_eq!(commands[1], print(1, 4, Color::Yellow, "^^"));
    assert_eq!(commands[2], print(1, 6, Color::Yellow, "3"));
    assert_eq!(commands[19], print(1, 40, Color::Yellow, "20"));
    assert_eq!(commands[20], print(1, 42, Color::Yellow, "++"));
    assert_eq!(map.get_glyph(1, 1).unwrap().glyph, Glyph(0x8003));
    assert_eq!(map.get_glyph(1, 20).unwrap().glyph, Glyph(0x8000 | 22));
    assert_eq!(map.get_glyph(1, 21), None);
    assert_eq!(map.get_glyph(0, 0).unwrap().glyph, Glyph(0xffff));
}

#[test]
fn english_words_are_written_as_text() {
    let mut map = GlyphMap::new(10, 30).unwrap();
    let view = view_of(snippet_of(vec![Word::english("and".to_string()), tunic(&[5])]), true);

    let commands = render_snippet_on(&view, &mut map, 2, 1).unwrap();

    assert_eq!(
        commands,
        vec![
            DrawCommand::ActivateAndClear { console: 18 },
            print(5, 4, Color::Yellow, "and"),
            print(1, 4, Color::Yellow, "0"),
            print(1, 6, Color::Yellow, "1"),
        ]
    );
    assert_eq!(map.get_glyph(2, 2).unwrap().glyph, Glyph(0x8005));
}

fn notebook() -> Notebook {
    let mut first = Snippet::starting_snippet();
    first.description = "first".to_string();
    first.source = Some(Source::ManualPageNumber(3));
    let mut second = Snippet::default();
    second.description = "second".to_string();
    second.notes = vec![Note("n".to_string())];
    Notebook::from(vec![first, second])
}

#[test]
fn the_list_of_snippets_has_two_lines_for_each() {
    let mut map = GlyphMap::new(10, 30).unwrap();
    let view = NotebookEditor::new(notebook())
        .with_absolute_snippet_selected(1)
        .with_state(NotebookEditorState::SelectingSnippet)
        .to_view(&Dictionary::new());

    let commands = render_notebook_on(&view, &Dictionary::new(), &mut map, 1, 1).unwrap();

    assert_eq!(
        commands,
        vec![
            DrawCommand::ActivateAndClear { console: 17 },
            print(1, 1, Color::White, "     0) first"),
            print(1, 2, Color::White, "        Source: Manual: Page 3"),
            print(1, 4, Color::Green, "->   1) second"),
            print(1, 5, Color::White, "        Source: (Unknown)"),
        ]
    );
    assert_eq!(map, GlyphMap::new(10, 30).unwrap());
}

#[test]
fn the_selected_snippet_is_shown_with_its_status() {
    let mut map = GlyphMap::new(10, 30).unwrap();
    let view = NotebookEditor::new(notebook())
        .with_absolute_snippet_selected(0)
        .apply(EditorEvent::ToggleSegmentOnSelectedGlyph(15))
        .to_view(&Dictionary::new());

    let commands = render_notebook_on(&view, &Dictionary::new(), &mut map, 1, 2).unwrap();

    assert_eq!(
        commands,
        vec![
            DrawCommand::ActivateAndClear { console: 17 },
            DrawCommand::ActivateAndClear { console: 18 },
            print(1, 5, Color::Yellow, "0"),
            print(2, 43, Color::Green, " As Base 10:"),
            print(15, 43, Color::White, "[1]"),
            print(1, 44, Color::Green, " Definition:"),
            print(14, 44, Color::White, "(pending)"),
            print(1, 45, Color::Green, "Description:"),
            print(14, 45, Color::White, "first"),
            print(1, 46, Color::Green, "     Source:"),
            print(14, 46, Color::Gray40, "Manual: Page 3"),
            print(1, 47, Color::Green, "Transcribed:"),
            print(14, 47, Color::White, "false"),
            print(1, 48, Color::Yellow, " Has Border:"),
            print(14, 48, Color::White, "false"),
            print(1, 49, Color::Yellow, "    Colored:"),
            print(14, 49, Color::White, "false"),
        ]
    );
    assert_eq!(map.get_glyph(1, 2).unwrap().glyph, Glyph(0x8001));

    let mut other = GlyphMap::new(10, 30).unwrap();
    let same = render_selected_snippet_on(&view, &Dictionary::new(), &mut other, 1, 2).unwrap();
    assert_eq!(same[..], commands[1..]);
    assert_eq!(other, map);
}

#[test]
fn nothing_is_shown_without_a_selected_snippet() {
    let mut map = GlyphMap::new(10, 30).unwrap();
    let view = NotebookEditor::new(notebook()).to_view(&Dictionary::new());

    let commands = render_notebook_on(&view, &Dictionary::new(), &mut map, 1, 2).unwrap();

    assert_eq!(commands, vec![DrawCommand::ActivateAndClear { console: 17 }]);
}

#[test]
fn a_snippet_that_does_not_fit_the_map_fails() {
    let mut map = GlyphMap::new(1, 1).unwrap();
    let view = NotebookEditor::new(notebook())
        .with_absolute_snippet_selected(0)
        .to_view(&Dictionary::new());

    let error = render_notebook_on(&view, &Dictionary::new(), &mut map, 1, 2).unwrap_err();

    assert_eq!(error.description(), "Invalid index for the GlyphMap: 3. The limit is 1.");
}

#[test]
fn file_messages_follow_the_state() {
    let dictionary = Dictionary::new();
    let idle = FileEditor::new(notebook(), "notebook.yaml");
    assert_eq!(
        render_file_editor_view_onto(&idle.to_view(&dictionary)),
        vec![DrawCommand::ActivateAndClear { console: 16 }]
    );

    let confirming = idle.clone().apply(EditorEvent::RequestLoadFromFile);
    assert_eq!(
        render_file_editor_view_onto(&confirming.to_view(&dictionary)),
        vec![
            DrawCommand::ActivateAndClear { console: 16 },
            print(
                1,
                47,
                Color::Yellow,
                "Load the notebook from notebook.yaml? Press Enter/Return to confirm or Escape to cancel"
            ),
        ]
    );

    let attempting = confirming.apply(EditorEvent::ConfirmLoadFromFileRequest);
    assert_eq!(render_file_editor_view_onto(&attempting.to_view(&dictionary)).len(), 1);

    let loaded = attempting.clone().apply(EditorEvent::ReportLoadedFromFile(Notebook::default()));
    assert_eq!(
        render_file_editor_view_onto(&loaded.to_view(&dictionary))[1],
        print(1, 47, Color::Green, "Loaded notebook from notebook.yaml")
    );

    let error = FileEditorError::new(
        "Unable to parse YAML for the notebook".to_string(),
        FileEditorErrorType::ParsingError,
        "notebook.yaml".to_string(),
        Some("line 1: \"oops\"".to_string()),
    );
    let failed = attempting.apply(EditorEvent::ReportFailedToLoadFromFile(error));
    assert_eq!(
        render_file_editor_view_onto(&failed.to_view(&dictionary)),
        vec![
            DrawCommand::ActivateAndClear { console: 16 },
            print(1, 46, Color::Red, "Failed to load notebook from notebook.yaml"),
            print(
                1,
                47,
                Color::White,
                "FileEditorError(ParsingError): Unable to parse YAML for the notebook\nFile: \"notebook.yaml\"\nInner error: Some(\"line 1: \\\"oops\\\"\")"
            ),
        ]
    );

    let saving = idle
        .apply(EditorEvent::RequestSaveToFile);
    assert_eq!(
        render_file_editor_view_onto(&saving.to_view(&dictionary))[1],
        print(
            1,
            47,
            Color::Yellow,
            "Save the notebook to notebook.yaml? Press Enter/Return to confirm or Escape to cancel"
        )
    );
    let saved = saving
        .apply(EditorEvent::ConfirmSaveToFileRequest)
        .apply(EditorEvent::ReportSavedToFile);
    assert_eq!(
        render_file_editor_view_onto(&saved.to_view(&dictionary))[1],
        print(1, 47, Color::Green, "Saved notebook to notebook.yaml")
    );
}

#[test]
fn errors_without_an_inner_error_say_none() {
    let error = FileEditorError::new(
        "d".to_string(),
        FileEditorErrorType::Other,
        "f".to_string(),
        None,
    );

    assert_eq!(error.to_string(), "FileEditorError(Other): d\nFile: \"f\"\nInner error: None");
    assert_eq!(FileEditorErrorType::FileReadError.to_string(), "FileReadError");
    assert_eq!(FileEditorErrorType::FileWriteError.to_string(), "FileWriteError");
}

#[test]
fn values_have_texts() {
    assert_eq!(Glyph(5).to_string(), "Glyph(5)");
    assert_eq!(
        Glyph(5).with_toggled_segment(99).unwrap_err().to_string(),
        "GlyphError(Glyph(5)): Unexpected segment index: 99"
    );
    assert_eq!(Source::ManualPageNumber(7).to_string(), "ManualPageNumber(7)");
    assert_eq!(Source::ScreenshotFilename("a.png".to_string()).to_string(), "ScreenshotFilename(a.png)");
    assert_eq!(Source::Other("x".to_string()).to_string(), "Other(x)");
    assert_eq!(Note("n".to_string()).to_string(), "Note(n)");
    assert_eq!(tunic(&[]).to_string(), "(Empty Tunic Word)");
    assert_eq!(tunic(&[1, 27, 339]).to_string(), "Word::Tunic 1, 27, 339");
    assert_eq!(Word::english("and".to_string()).to_string(), "and");
    assert_eq!(Definition::Undefined.to_string(), "Definition(Undefined)");
    assert_eq!(Definition::Tentative("fox".to_string()).to_string(), "Definition(Tenative(fox))");
    assert_eq!(Definition::Confirmed("fox".to_string()).to_string(), "Definition(Confirmed(fox))");
}

#[test]
fn error_text_is_built_around_quoted_parts() {
    let error = FileEditorError::new(
        "d".to_string(),
        FileEditorErrorType::FileWriteError,
        "f".to_string(),
        Some("i".to_string()),
    );

    assert_eq!(
        error.to_string_with("<f>", Some("<i>".to_string())),
        "FileEditorError(FileWriteError): d\nFile: <f>\nInner error: Some(<i>)"
    );
    assert_eq!(
        error.to_string_with("<f>", None),
        "FileEditorError(FileWriteError): d\nFile: <f>\nInner error: None"
    );
    assert_eq!(
        error.to_string(),
        error.to_string_with("\"f\"", Some("\"i\"".to_string()))
    );
    assert_eq!(Glyph::from(7u16), Glyph(7));
}
