use vstd::prelude::*;

use crate::editors::events::{segments_view, EditorEvent, EditorEventModel};
use crate::editors::file_editors::{
    FileEditor, FileEditorError, FileEditorErrorModel, FileEditorErrorType, FileEditorModel,
    FileEditorState, FileEditorStateModel,
};
use crate::editors::glyph_editors::GlyphEditor;
use crate::editors::notebook_editors::{NotebookEditor, NotebookEditorModel, NotebookEditorState};
use crate::editors::snippet_editors::{SnippetEditor, SnippetEditorModel};
use crate::editors::word_editors::english_word_editors::EnglishWordEditor;
use crate::editors::word_editors::tunic_word_editors::{TunicWordEditor, TunicWordEditorModel};
use crate::editors::word_editors::{WordEditor, WordEditorModel, WordEditorState};
use crate::language::notebooks::{Notebook, NotebookModel};
use crate::language::words::{Word, WordModel};
use crate::language::Segment;

verus! {

/// The keys that mean something to the editors. Every other key is `Other`.
#[derive(Clone, Copy, Debug, PartialEq, Eq, Structural)]
pub enum Key {
    A,
    D,
    E,
    F,
    I,
    J,
    K,
    L,
    O,
    P,
    R,
    S,
    T,
    U,
    W,
    Z,
    Key0,
    Key1,
    Key8,
    Key9,
    F2,
    F3,
    F4,
    Up,
    Down,
    Left,
    Right,
    Space,
    Back,
    Return,
    Escape,
    Semicolon,
    Period,
    Minus,
    Comma,
    Slash,
    Plus,
    Other,
}

/// What the keyboard says at one moment: the key that is pressed, if any,
/// and the modifiers held with it.
#[derive(Clone, Copy, Debug, PartialEq, Eq, Structural)]
pub struct KeyInput {
    pub key: Option<Key>,
    pub shift: bool,
    pub control: bool,
}

/// The segments that a key stands for. With shift a key stands for a pair of
/// segments; `E`, `D`, `I`, `K`, `P` and `A` stand for their pair with and
/// without it.
pub open spec fn glyph_segments_for(key: Key, shift_key: bool) -> Seq<nat> {
    match key {
        Key::W => if shift_key {
            seq![1nat, 3nat]
        } else {
            seq![1nat]
        },
        Key::R => if shift_key {
            seq![1nat, 3nat]
        } else {
            seq![3nat]
        },
        Key::E => seq![2nat, 6nat],
        Key::D => seq![2nat, 6nat],
        Key::I => seq![10nat, 13nat],
        Key::K => seq![10nat, 13nat],
        Key::P => seq![4nat, 8nat],
        Key::A => seq![4nat, 8nat],
        Key::U => if shift_key {
            seq![9nat, 11nat]
        } else {
            seq![9nat]
        },
        Key::O => if shift_key {
            seq![9nat, 11nat]
        } else {
            seq![11nat]
        },
        Key::J => if shift_key {
            seq![12nat, 14nat]
        } else {
            seq![12nat]
        },
        Key::L => if shift_key {
            seq![12nat, 14nat]
        } else {
            seq![14nat]
        },
        Key::S => if shift_key {
            seq![5nat, 7nat]
        } else {
            seq![5nat]
        },
        Key::F => if shift_key {
            seq![5nat, 7nat]
        } else {
            seq![7nat]
        },
        Key::Semicolon => seq![15nat],
        _ => Seq::empty(),
    }
}

fn one_segment(segment: Segment) -> (segments: Vec<Segment>)
    ensures
        segments_view(segments@) == seq![segment as nat],
{
    let mut segments: Vec<Segment> = Vec::new();
    segments.push(segment);
    assert(segments_view(segments@) =~= seq![segment as nat]);

    segments
}

fn two_segments(first: Segment, second: Segment) -> (segments: Vec<Segment>)
    ensures
        segments_view(segments@) == seq![first as nat, second as nat],
{
    let mut segments: Vec<Segment> = Vec::new();
    segments.push(first);
    segments.push(second);
    assert(segments_view(segments@) =~= seq![first as nat, second as nat]);

    segments
}

fn no_segments() -> (segments: Vec<Segment>)
    ensures
        segments_view(segments@) == Seq::<nat>::empty(),
{
    let segments: Vec<Segment> = Vec::new();
    assert(segments_view(segments@) =~= Seq::<nat>::empty());

    segments
}

pub fn map_keys_to_glyph_segments(key: Key, shift_key: bool) -> (segments: Vec<Segment>)
    ensures
        segments_view(segments@) == glyph_segments_for(key, shift_key),
{
    match key {
        Key::W => if shift_key {
            two_segments(1, 3)
        } else {
            one_segment(1)
        },
        Key::R => if shift_key {
            two_segments(1, 3)
        } else {
            one_segment(3)
        },
        Key::E => two_segments(2, 6),
        Key::D => two_segments(2, 6),
        Key::I => two_segments(10, 13),
        Key::K => two_segments(10, 13),
        Key::P => two_segments(4, 8),
        Key::A => two_segments(4, 8),
        Key::U => if shift_key {
            two_segments(9, 11)
        } else {
            one_segment(9)
        },
        Key::O => if shift_key {
            two_segments(9, 11)
        } else {
            one_segment(11)
        },
        Key::J => if shift_key {
            two_segments(12, 14)
        } else {
            one_segment(12)
        },
        Key::L => if shift_key {
            two_segments(12, 14)
        } else {
            one_segment(14)
        },
        Key::S => if shift_key {
            two_segments(5, 7)
        } else {
            one_segment(5)
        },
        Key::F => if shift_key {
            two_segments(5, 7)
        } else {
            one_segment(7)
        },
        Key::Semicolon => one_segment(15),
        _ => no_segments(),
    }
}

/// What the keys ask while a glyph is selected: a segment key toggles its
/// segments, the other keys move, add and delete.
pub open spec fn selected_glyph_event(input: KeyInput) -> EditorEventModel {
    match input.key {
        Some(key) => if glyph_segments_for(key, input.shift).len() > 0 {
            EditorEventModel::ToggleSegmentsOnSelectedGlyph(glyph_segments_for(key, input.shift))
        } else {
            match key {
                Key::Left => EditorEventModel::MoveGlyphCursorBackward,
                Key::Right => EditorEventModel::MoveGlyphCursorForward,
                Key::Space => EditorEventModel::AddNewGlyphToTunicWordAtCursor,
                Key::Back => EditorEventModel::DeleteGlyphAtCursor,
                Key::Key8 => EditorEventModel::ToggleWordIsColoredState,
                Key::Key9 => EditorEventModel::ToggleWordHasABorderState,
                _ => EditorEventModel::NoOp,
            }
        },
        None => EditorEventModel::NoOp,
    }
}

pub fn on_modify_selected_glyph(_editor: &GlyphEditor, input: KeyInput) -> (event: EditorEvent)
    ensures
        event@ == selected_glyph_event(input),
{
    match input.key {
        Some(key) => {
            let segments = map_keys_to_glyph_segments(key, input.shift);

            if segments.len() == 0 {
                match key {
                    Key::Left => EditorEvent::MoveGlyphCursorBackward,
                    Key::Right => EditorEvent::MoveGlyphCursorForward,
                    Key::Space => EditorEvent::AddNewGlyphToTunicWordAtCursor,
                    Key::Back => EditorEvent::DeleteGlyphAtCursor,
                    Key::Key8 => EditorEvent::ToggleWordIsColoredState,
                    Key::Key9 => EditorEvent::ToggleWordHasABorderState,
                    _ => EditorEvent::NoOp,
                }
            } else {
                EditorEvent::ToggleSegmentsOnSelectedGlyph(segments)
            }
        },
        None => EditorEvent::NoOp,
    }
}

/// What the keys ask while a Tunic word as a whole has them: `F4` shows
/// the word.
pub open spec fn tunic_word_event(editor: TunicWordEditorModel, input: KeyInput) -> EditorEventModel {
    match input.key {
        Some(Key::F4) => EditorEventModel::PrintWord(WordModel::Tunic(editor.word)),
        _ => EditorEventModel::NoOp,
    }
}

pub fn on_modify_tunic_word(editor: &TunicWordEditor, input: KeyInput) -> (event: EditorEvent)
    ensures
        event@ == tunic_word_event(editor@, input),
{
    match input.key {
        Some(Key::F4) => EditorEvent::PrintWord(Word::from(editor.word())),
        _ => EditorEvent::NoOp,
    }
}

/// What the keys ask of an English word: backspace deletes it.
pub open spec fn english_word_event(input: KeyInput) -> EditorEventModel {
    match input.key {
        Some(Key::Back) => EditorEventModel::DeleteWordAtCursor,
        _ => EditorEventModel::NoOp,
    }
}

pub fn on_modify_english_word(_editor: &EnglishWordEditor, input: KeyInput) -> (event: EditorEvent)
    ensures
        event@ == english_word_event(input),
{
    match input.key {
        Some(Key::Back) => EditorEvent::DeleteWordAtCursor,
        _ => EditorEvent::NoOp,
    }
}

/// What the keys ask of the word editor of a snippet: of a Tunic word with
/// a selected glyph what its state says, of anything else nothing.
pub open spec fn word_editor_event(editor: Option<WordEditorModel>, input: KeyInput) -> EditorEventModel {
    match editor {
        Some(WordEditorModel::Tunic(editor)) => if editor.glyph_editor is Some {
            match editor.state {
                WordEditorState::ModifySelectedGlyph => selected_glyph_event(input),
                WordEditorState::ModifyGlyphSet => tunic_word_event(editor, input),
            }
        } else {
            EditorEventModel::NoOp
        },
        _ => EditorEventModel::NoOp,
    }
}

/// What the keys ask of a snippet itself, if anything: moving among the
/// words and scrolling them, toggling the transcription state, and new
/// words.
pub open spec fn snippet_key_event(key: Key, shift: bool, control: bool) -> Option<EditorEventModel> {
    match key {
        Key::Up => Some(
            if shift {
                EditorEventModel::MoveWordsViewSliceBackward(1)
            } else {
                EditorEventModel::MoveWordCursorBackward
            },
        ),
        Key::Down => Some(
            if shift {
                EditorEventModel::MoveWordsViewSliceForward(1)
            } else {
                EditorEventModel::MoveWordCursorForward
            },
        ),
        Key::Key0 => Some(EditorEventModel::ToggleSnippetTranscriptionState),
        Key::Return => Some(
            if shift && control {
                EditorEventModel::AddNewEnglishWordAtCursor("..."@)
            } else if shift {
                EditorEventModel::AddNewEnglishWordAtCursor("."@)
            } else {
                EditorEventModel::AddNewTunicWordAtCursor
            },
        ),
        Key::Period => Some(EditorEventModel::AddNewEnglishWordAtCursor("."@)),
        Key::Minus => Some(EditorEventModel::AddNewEnglishWordAtCursor("---"@)),
        Key::Comma => Some(EditorEventModel::AddNewEnglishWordAtCursor(","@)),
        Key::Slash => Some(EditorEventModel::AddNewEnglishWordAtCursor("?"@)),
        Key::Key1 => Some(EditorEventModel::AddNewEnglishWordAtCursor("!"@)),
        Key::Z => Some(EditorEventModel::AddNewEnglishWordAtCursor("PLACEHOLDER"@)),
        _ => None,
    }
}

/// What the keys ask while a snippet is edited.
pub open spec fn snippet_editor_event(editor: SnippetEditorModel, input: KeyInput) -> EditorEventModel {
    match input.key {
        Some(key) => match snippet_key_event(key, input.shift, input.control) {
            Some(event) => event,
            None => word_editor_event(editor.word_editor, input),
        },
        None => EditorEventModel::NoOp,
    }
}

/// Hands the keys to the part of the word editor that has them.
pub fn on_word_editor_input(editor: Option<&WordEditor>, input: KeyInput) -> (event: EditorEvent)
    ensures
        event@ == word_editor_event(
            match editor {
                Some(editor) => Some(editor@),
                None => None,
            },
            input,
        ),
{
    match editor {
        Some(word_editor) => match word_editor.tunic_editor() {
            Some(tunic_editor) => match tunic_editor.glyph_editor() {
                Some(glyph_editor) => match tunic_editor.state() {
                    WordEditorState::ModifySelectedGlyph => on_modify_selected_glyph(
                        &glyph_editor,
                        input,
                    ),
                    WordEditorState::ModifyGlyphSet => on_modify_tunic_word(tunic_editor, input),
                },
                None => EditorEvent::NoOp,
            },
            None => EditorEvent::NoOp,
        },
        None => EditorEvent::NoOp,
    }
}

fn new_english_word(text: &str) -> (event: EditorEvent)
    ensures
        event@ == EditorEventModel::AddNewEnglishWordAtCursor(text@),
{
    EditorEvent::AddNewEnglishWordAtCursor(text.to_owned())
}

pub fn on_snippet_editor_input(editor: &SnippetEditor, input: KeyInput) -> (event: EditorEvent)
    ensures
        event@ == snippet_editor_event(editor@, input),
{
    match input.key {
        Some(key) => {
            match key {
                Key::Up => if input.shift {
                    EditorEvent::MoveWordsViewSliceBackward(1)
                } else {
                    EditorEvent::MoveWordCursorBackward
                },
                Key::Down => if input.shift {
                    EditorEvent::MoveWordsViewSliceForward(1)
                } else {
                    EditorEvent::MoveWordCursorForward
                },
                Key::Key0 => EditorEvent::ToggleSnippetTranscriptionState,
                Key::Return => if input.shift && input.control {
                    new_english_word("...")
                } else if input.shift {
                    new_english_word(".")
                } else {
                    EditorEvent::AddNewTunicWordAtCursor
                },
                Key::Period => new_english_word("."),
                Key::Minus => new_english_word("---"),
                Key::Comma => new_english_word(","),
                Key::Slash => new_english_word("?"),
                Key::Key1 => new_english_word("!"),
                Key::Z => new_english_word("PLACEHOLDER"),
                _ => on_word_editor_input(editor.word_editor(), input),
            }
        },
        None => EditorEvent::NoOp,
    }
}

/// What the keys ask of a notebook: while snippets are selected, moving
/// among them, a new snippet, the filter and the way back to editing; while
/// a snippet is edited, escape leads to the selection and every other key
/// goes to the snippet editor.
pub open spec fn notebook_editor_event(editor: NotebookEditorModel, input: KeyInput) -> EditorEventModel {
    match editor.state {
        NotebookEditorState::SelectingSnippet => match input.key {
            Some(Key::Escape) => EditorEventModel::EnableSnippetEditingMode,
            Some(Key::Return) => EditorEventModel::EnableSnippetEditingMode,
            Some(Key::Up) => EditorEventModel::MoveSnippetCursorBackward,
            Some(Key::K) => EditorEventModel::MoveSnippetCursorBackward,
            Some(Key::Down) => EditorEventModel::MoveSnippetCursorForward,
            Some(Key::J) => EditorEventModel::MoveSnippetCursorForward,
            Some(Key::Plus) => EditorEventModel::AddNewSnippetAtCursor,
            Some(Key::T) => EditorEventModel::ToggleHasBeenTranscribedFilter,
            _ => EditorEventModel::NoOp,
        },
        NotebookEditorState::EditingSnippet => match input.key {
            Some(Key::Escape) => EditorEventModel::EnableSnippetNavigationMode,
            _ => match editor.snippet_editor {
                Some(snippet_editor) => snippet_editor_event(snippet_editor, input),
                None => EditorEventModel::NoOp,
            },
        },
    }
}

pub fn on_notebook_editor_input(editor: &NotebookEditor, input: KeyInput) -> (event: EditorEvent)
    ensures
        event@ == notebook_editor_event(editor@, input),
{
    match editor.state() {
        NotebookEditorState::SelectingSnippet => {
            match input.key {
                Some(Key::Escape) => EditorEvent::EnableSnippetEditingMode,
                Some(Key::Return) => EditorEvent::EnableSnippetEditingMode,
                Some(Key::Up) => EditorEvent::MoveSnippetCursorBackward,
                Some(Key::K) => EditorEvent::MoveSnippetCursorBackward,
                Some(Key::Down) => EditorEvent::MoveSnippetCursorForward,
                Some(Key::J) => EditorEvent::MoveSnippetCursorForward,
                Some(Key::Plus) => EditorEvent::AddNewSnippetAtCursor,
                Some(Key::T) => EditorEvent::ToggleHasBeenTranscribedFilter,
                _ => EditorEvent::NoOp,
            }
        },
        NotebookEditorState::EditingSnippet => {
            match input.key {
                Some(Key::Escape) => EditorEvent::EnableSnippetNavigationMode,
                _ => match editor.snippet_editor() {
                    Some(snippet_editor) => on_snippet_editor_input(snippet_editor, input),
                    None => EditorEvent::NoOp,
                },
            }
        },
    }
}

/// What is to happen next at the root of the editors.
pub enum FileEditorAction {
    /// Apply this event.
    Apply(EditorEvent),
    /// Read the notebook from the target file and report how it went.
    AttemptToLoadFile,
    /// Write the notebook to the target file and report how it went.
    AttemptToSaveFile,
}

/// Mathematical model of a [`FileEditorAction`].
pub enum FileEditorActionModel {
    Apply(EditorEventModel),
    AttemptToLoadFile,
    AttemptToSaveFile,
}

impl View for FileEditorAction {
    type V = FileEditorActionModel;

    open spec fn view(&self) -> FileEditorActionModel {
        match self {
            FileEditorAction::Apply(event) => FileEditorActionModel::Apply(event@),
            FileEditorAction::AttemptToLoadFile => FileEditorActionModel::AttemptToLoadFile,
            FileEditorAction::AttemptToSaveFile => FileEditorActionModel::AttemptToSaveFile,
        }
    }
}

/// What the state of the file editor and the keys ask for. A confirmed
/// request asks for the attempt itself, whatever the keys say. After an
/// attempt any key leads back to idle; a request is confirmed with return and
/// dropped with escape; in idle `F2` asks to save, `F3` to load, and every
/// other key goes to the notebook editor.
pub open spec fn file_editor_action(editor: FileEditorModel, input: KeyInput) -> FileEditorActionModel {
    match editor.state {
        FileEditorStateModel::LoadRequestConfirmed => FileEditorActionModel::AttemptToLoadFile,
        FileEditorStateModel::SaveRequestConfirmed => FileEditorActionModel::AttemptToSaveFile,
        state => FileEditorActionModel::Apply(
            match input.key {
                Some(key) => match state {
                    FileEditorStateModel::ConfirmingLoadRequest => match key {
                        Key::Return => EditorEventModel::ConfirmLoadFromFileRequest,
                        Key::Escape => EditorEventModel::ResetFileEditorToIdle,
                        _ => EditorEventModel::NoOp,
                    },
                    FileEditorStateModel::ConfirmingSaveRequest => match key {
                        Key::Return => EditorEventModel::ConfirmSaveToFileRequest,
                        Key::Escape => EditorEventModel::ResetFileEditorToIdle,
                        _ => EditorEventModel::NoOp,
                    },
                    FileEditorStateModel::Idle => match key {
                        Key::F2 => EditorEventModel::RequestSaveToFile,
                        Key::F3 => EditorEventModel::RequestLoadFromFile,
                        _ => notebook_editor_event(editor.notebook_editor, input),
                    },
                    _ => EditorEventModel::ResetFileEditorToIdle,
                },
                None => EditorEventModel::NoOp,
            },
        ),
    }
}

pub fn on_file_editor_input(editor: &FileEditor, input: KeyInput) -> (action: FileEditorAction)
    ensures
        action@ == file_editor_action(editor@, input),
{
    match editor.state() {
        FileEditorState::LoadRequestConfirmed => FileEditorAction::AttemptToLoadFile,
        FileEditorState::SaveRequestConfirmed => FileEditorAction::AttemptToSaveFile,
        state => {
            let event = match input.key {
                Some(key) => match state {
                    FileEditorState::LoadRequestSucceeded => EditorEvent::ResetFileEditorToIdle,
                    FileEditorState::LoadRequestFailed(_) => EditorEvent::ResetFileEditorToIdle,
                    FileEditorState::SaveRequestSucceeded => EditorEvent::ResetFileEditorToIdle,
                    FileEditorState::SaveRequestFailed(_) => EditorEvent::ResetFileEditorToIdle,
                    FileEditorState::ConfirmingLoadRequest => match key {
                        Key::Return => EditorEvent::ConfirmLoadFromFileRequest,
                        Key::Escape => EditorEvent::ResetFileEditorToIdle,
                        _ => EditorEvent::NoOp,
                    },
                    FileEditorState::ConfirmingSaveRequest => match key {
                        Key::Return => EditorEvent::ConfirmSaveToFileRequest,
                        Key::Escape => EditorEvent::ResetFileEditorToIdle,
                        _ => EditorEvent::NoOp,
                    },
                    FileEditorState::Idle => match key {
                        Key::F2 => EditorEvent::RequestSaveToFile,
                        Key::F3 => EditorEvent::RequestLoadFromFile,
                        _ => on_notebook_editor_input(editor.notebook_editor(), input),
                    },
                    _ => EditorEvent::ResetFileEditorToIdle,
                },
                None => EditorEvent::NoOp,
            };

            FileEditorAction::Apply(event)
        },
    }
}

/// Why a notebook could not be loaded, with what the failed step said.
#[derive(Debug, PartialEq, Eq)]
pub enum LoadFailure {
    /// The file could not be read.
    Reading(String),
    /// The file was read, but what it holds is no notebook.
    Parsing(String),
}

/// Mathematical model of a [`LoadFailure`].
pub enum LoadFailureModel {
    Reading(Seq<char>),
    Parsing(Seq<char>),
}

impl View for LoadFailure {
    type V = LoadFailureModel;

    open spec fn view(&self) -> LoadFailureModel {
        match self {
            LoadFailure::Reading(inner) => LoadFailureModel::Reading(inner@),
            LoadFailure::Parsing(inner) => LoadFailureModel::Parsing(inner@),
        }
    }
}

/// The error that the editor records for a failed load.
pub open spec fn load_error(file: Seq<char>, failure: LoadFailureModel) -> FileEditorErrorModel {
    match failure {
        LoadFailureModel::Parsing(inner) => FileEditorErrorModel {
            description: "Unable to parse YAML for the notebook"@,
            error_type: FileEditorErrorType::ParsingError,
            filename: file,
            inner_error_description: Some(inner),
        },
        LoadFailureModel::Reading(inner) => FileEditorErrorModel {
            description: "Unable to load notebook from file"@,
            error_type: FileEditorErrorType::FileReadError,
            filename: file,
            inner_error_description: Some(inner),
        },
    }
}

/// The error that the editor records for a failed save.
pub open spec fn save_error(file: Seq<char>, inner: Seq<char>) -> FileEditorErrorModel {
    FileEditorErrorModel {
        description: "Unable to save notebook to file"@,
        error_type: FileEditorErrorType::FileWriteError,
        filename: file,
        inner_error_description: Some(inner),
    }
}

/// The event that reports how an attempt to load the target file of
/// `editor` ended: the notebook that was read, or the error to record.
pub fn on_attempt_to_load_file(editor: &FileEditor, outcome: Result<Notebook, LoadFailure>) -> (event:
    EditorEvent)
    ensures
        event@ == match outcome {
            Ok(notebook) => EditorEventModel::ReportLoadedFromFile(notebook@),
            Err(failure) => EditorEventModel::ReportFailedToLoadFromFile(
                load_error(editor@.target_file, failure@),
            ),
        },
{
    let file = editor.target_file();

    match outcome {
        Ok(notebook) => EditorEvent::ReportLoadedFromFile(notebook),
        Err(LoadFailure::Parsing(inner)) => EditorEvent::ReportFailedToLoadFromFile(
            FileEditorError::new(
                "Unable to parse YAML for the notebook".to_owned(),
                FileEditorErrorType::ParsingError,
                file,
                Some(inner),
            ),
        ),
        Err(LoadFailure::Reading(inner)) => EditorEvent::ReportFailedToLoadFromFile(
            FileEditorError::new(
                "Unable to load notebook from file".to_owned(),
                FileEditorErrorType::FileReadError,
                file,
                Some(inner),
            ),
        ),
    }
}

/// The event that reports how an attempt to save to the target file of
/// `editor` ended.
pub fn on_attempt_to_save_file(editor: &FileEditor, outcome: Result<(), String>) -> (event:
    EditorEvent)
    ensures
        event@ == match outcome {
            Ok(_) => EditorEventModel::ReportSavedToFile,
            Err(inner) => EditorEventModel::ReportFailedToSaveToFile(
                save_error(editor@.target_file, inner@),
            ),
        },
{
    let file = editor.target_file();

    match outcome {
        Ok(_) => EditorEvent::ReportSavedToFile,
        Err(inner) => EditorEvent::ReportFailedToSaveToFile(
            FileEditorError::new(
                "Unable to save notebook to file".to_owned(),
                FileEditorErrorType::FileWriteError,
                file,
                Some(inner),
            ),
        ),
    }
}

/// A load that fails on parsing leaves the editor in the failed state with
/// a parsing error for the target file; the notebook stays as it was, and a
/// reset leads to idle, where an editor that started idle is what it was
/// at the start.
pub proof fn lemma_parsing_failure_is_recorded(editor: FileEditorModel, inner: Seq<char>)
    ensures
        ({
            let error = load_error(editor.target_file, LoadFailureModel::Parsing(inner));
            let failed = editor.applied(EditorEventModel::RequestLoadFromFile).applied(
                EditorEventModel::ConfirmLoadFromFileRequest,
            ).applied(EditorEventModel::ReportFailedToLoadFromFile(error));
            let reset = failed.applied(EditorEventModel::ResetFileEditorToIdle);

            &&& failed.state matches FileEditorStateModel::LoadRequestFailed(recorded)
            &&& recorded.error_type == FileEditorErrorType::ParsingError
            &&& recorded.filename == editor.target_file
            &&& failed.to_source() == editor.to_source()
            &&& reset.state is Idle
            &&& reset.to_source() == editor.to_source()
            &&& editor.state is Idle ==> reset == editor
        }),
{
}

} // verus!
