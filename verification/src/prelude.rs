//! The names of the library in one place.

pub use crate::cursors::{Cursor, VisibleCursor};
pub use crate::editors::events::EditorEvent;
pub use crate::editors::file_editors::{
    FileEditor, FileEditorError, FileEditorErrorType, FileEditorState,
};
pub use crate::editors::glyph_editors::GlyphEditor;
pub use crate::editors::notebook_editors::{
    NotebookEditor, NotebookEditorFilters, NotebookEditorState, SnippetFiltrationOutcome,
};
pub use crate::editors::snippet_editors::{SnippetEditor, MAX_VISIBLE_WORDS};
pub use crate::editors::word_editors::english_word_editors::EnglishWordEditor;
pub use crate::editors::word_editors::tunic_word_editors::TunicWordEditor;
pub use crate::editors::word_editors::{WordEditor, WordEditorCallbacks, WordEditorState};
pub use crate::fennec_state::FennecState;
pub use crate::gui::{
    map_keys_to_glyph_segments, on_attempt_to_load_file, on_attempt_to_save_file,
    on_file_editor_input, on_modify_english_word, on_modify_selected_glyph, on_modify_tunic_word,
    on_notebook_editor_input, on_snippet_editor_input, on_word_editor_input, FileEditorAction, Key,
    KeyInput, LoadFailure,
};
pub use crate::language::dictionary::{Definition, Dictionary, DictionaryWord, Entry};
pub use crate::language::glyphs::{Glyph, GlyphError, GLYPH_SEGMENT_COUNT};
pub use crate::language::notebooks::{Notebook, VERSION};
pub use crate::language::snippets::Snippet;
pub use crate::language::words::{EnglishWord, TunicWord, Word, WordCallbacks, WordType};
pub use crate::language::{Note, Segment, Source};
pub use crate::renderers::file_editor_renderers::render_file_editor_view_onto;
pub use crate::renderers::glyph_map_renderers::{GlyphDrawing, GlyphMap, GlyphRenderError};
pub use crate::renderers::notebook_editor_renderers::{
    render_notebook_on, render_selected_snippet_on,
};
pub use crate::renderers::snippet_editor_renderers::render_snippet_on;
pub use crate::renderers::snippet_source_renderers::{
    render_snippet_source_on, snippet_source_to_label,
};
pub use crate::renderers::{
    Color, DrawCommand, DISPLAY_HEIGHT, DISPLAY_WIDTH, FILE_CONSOLE, NOTEBOOK_CONSOLE,
    SCREEN_HEIGHT, SCREEN_WIDTH, SNIPPET_CONSOLE,
};
pub use crate::views::{
    FileEditorView, GlyphView, NotebookView, SnippetView, WordView, WordViewParams,
};
pub use crate::visibility::VisibilityRange;
