use vstd::prelude::*;

use crate::editors::file_editors::{FileEditorError, FileEditorErrorModel};
use crate::language::notebooks::{Notebook, NotebookModel};
use crate::language::words::{Word, WordModel};
use crate::language::Segment;

verus! {

/// The segment numbers of a sequence, as mathematical integers.
pub open spec fn segments_view(segments: Seq<Segment>) -> Seq<nat> {
    Seq::new(segments.len(), |i: int| segments[i] as nat)
}

/// Mathematical model of an [`EditorEvent`].
pub enum EditorEventModel {
    NoOp,
    ToggleSegmentOnSelectedGlyph(nat),
    ToggleSegmentsOnSelectedGlyph(Seq<nat>),
    MoveGlyphCursorForward,
    MoveGlyphCursorBackward,
    MoveWordCursorForward,
    MoveWordCursorBackward,
    MoveSnippetCursorForward,
    MoveSnippetCursorBackward,
    MoveWordsViewSliceForward(nat),
    MoveWordsViewSliceBackward(nat),
    ToggleGlyphEditingMode,
    AddNewTunicWordAtCursor,
    AddNewEnglishWordAtCursor(Seq<char>),
    AddNewGlyphToTunicWordAtCursor,
    AddNewSnippetAtCursor,
    DeleteGlyphAtCursor,
    DeleteWordAtCursor,
    ToggleSnippetTranscriptionState,
    ToggleWordHasABorderState,
    ToggleWordIsColoredState,
    ToggleHasBeenTranscribedFilter,
    PrintWord(WordModel),
    RequestLoadFromFile,
    RequestSaveToFile,
    ConfirmLoadFromFileRequest,
    ConfirmSaveToFileRequest,
    ReportLoadedFromFile(NotebookModel),
    ReportSavedToFile,
    ReportFailedToLoadFromFile(FileEditorErrorModel),
    ReportFailedToSaveToFile(FileEditorErrorModel),
    ResetFileEditorToIdle,
    EnableSnippetNavigationMode,
    EnableSnippetEditingMode,
}

impl EditorEventModel {
    /// The event is one of those that the editors pass down to the last
    /// without any of them acting on it: it asks for nothing, or for what
    /// only whoever drives the editors can do.
    pub open spec fn is_for_no_editor(self) -> bool {
        self is NoOp || self is ToggleGlyphEditingMode || self is ToggleWordHasABorderState
            || self is ToggleWordIsColoredState || self is PrintWord
    }

    /// The event is one of the nine that report on and ask for loading and
    /// saving.
    pub open spec fn is_file_event(self) -> bool {
        self is RequestLoadFromFile || self is RequestSaveToFile
            || self is ConfirmLoadFromFileRequest || self is ConfirmSaveToFileRequest
            || self is ReportLoadedFromFile || self is ReportSavedToFile
            || self is ReportFailedToLoadFromFile || self is ReportFailedToSaveToFile
            || self is ResetFileEditorToIdle
    }
}

/// Everything that the input layer can ask of the editors.
#[derive(Debug, PartialEq, Eq)]
pub enum EditorEvent {
    /// Do nothing.
    NoOp,
    ToggleSegmentOnSelectedGlyph(Segment),
    /// Toggle each of the listed segments, in order.
    ToggleSegmentsOnSelectedGlyph(Vec<Segment>),
    MoveGlyphCursorForward,
    MoveGlyphCursorBackward,
    MoveWordCursorForward,
    MoveWordCursorBackward,
    MoveSnippetCursorForward,
    MoveSnippetCursorBackward,
    MoveWordsViewSliceForward(usize),
    MoveWordsViewSliceBackward(usize),
    ToggleGlyphEditingMode,
    AddNewTunicWordAtCursor,
    AddNewEnglishWordAtCursor(String),
    AddNewGlyphToTunicWordAtCursor,
    AddNewSnippetAtCursor,
    DeleteGlyphAtCursor,
    DeleteWordAtCursor,
    ToggleSnippetTranscriptionState,
    ToggleWordHasABorderState,
    ToggleWordIsColoredState,
    ToggleHasBeenTranscribedFilter,
    /// Show the word to the user; no editor changes on it.
    PrintWord(Word),
    RequestLoadFromFile,
    RequestSaveToFile,
    ConfirmLoadFromFileRequest,
    ConfirmSaveToFileRequest,
    ReportLoadedFromFile(Notebook),
    ReportSavedToFile,
    ReportFailedToLoadFromFile(FileEditorError),
    ReportFailedToSaveToFile(FileEditorError),
    ResetFileEditorToIdle,
    EnableSnippetNavigationMode,
    EnableSnippetEditingMode,
}

impl View for EditorEvent {
    type V = EditorEventModel;

    open spec fn view(&self) -> EditorEventModel {
        match self {
            EditorEvent::NoOp => EditorEventModel::NoOp,
            EditorEvent::ToggleSegmentOnSelectedGlyph(segment) => {
                EditorEventModel::ToggleSegmentOnSelectedGlyph(*segment as nat)
            },
            EditorEvent::ToggleSegmentsOnSelectedGlyph(segments) => {
                EditorEventModel::ToggleSegmentsOnSelectedGlyph(segments_view(segments@))
            },
            EditorEvent::MoveGlyphCursorForward => EditorEventModel::MoveGlyphCursorForward,
            EditorEvent::MoveGlyphCursorBackward => EditorEventModel::MoveGlyphCursorBackward,
            EditorEvent::MoveWordCursorForward => EditorEventModel::MoveWordCursorForward,
            EditorEvent::MoveWordCursorBackward => EditorEventModel::MoveWordCursorBackward,
            EditorEvent::MoveSnippetCursorForward => EditorEventModel::MoveSnippetCursorForward,
            EditorEvent::MoveSnippetCursorBackward => EditorEventModel::MoveSnippetCursorBackward,
            EditorEvent::MoveWordsViewSliceForward(amount) => {
                EditorEventModel::MoveWordsViewSliceForward(*amount as nat)
            },
            EditorEvent::MoveWordsViewSliceBackward(amount) => {
                EditorEventModel::MoveWordsViewSliceBackward(*amount as nat)
            },
            EditorEvent::ToggleGlyphEditingMode => EditorEventModel::ToggleGlyphEditingMode,
            EditorEvent::AddNewTunicWordAtCursor => EditorEventModel::AddNewTunicWordAtCursor,
            EditorEvent::AddNewEnglishWordAtCursor(text) => {
                EditorEventModel::AddNewEnglishWordAtCursor(text@)
            },
            EditorEvent::AddNewGlyphToTunicWordAtCursor => {
                EditorEventModel::AddNewGlyphToTunicWordAtCursor
            },
            EditorEvent::AddNewSnippetAtCursor => EditorEventModel::AddNewSnippetAtCursor,
            EditorEvent::DeleteGlyphAtCursor => EditorEventModel::DeleteGlyphAtCursor,
            EditorEvent::DeleteWordAtCursor => EditorEventModel::DeleteWordAtCursor,
            EditorEvent::ToggleSnippetTranscriptionState => {
                EditorEventModel::ToggleSnippetTranscriptionState
            },
            EditorEvent::ToggleWordHasABorderState => EditorEventModel::ToggleWordHasABorderState,
            EditorEvent::ToggleWordIsColoredState => EditorEventModel::ToggleWordIsColoredState,
            EditorEvent::ToggleHasBeenTranscribedFilter => {
                EditorEventModel::ToggleHasBeenTranscribedFilter
            },
            EditorEvent::PrintWord(word) => EditorEventModel::PrintWord(word@),
            EditorEvent::RequestLoadFromFile => EditorEventModel::RequestLoadFromFile,
            EditorEvent::RequestSaveToFile => EditorEventModel::RequestSaveToFile,
            EditorEvent::ConfirmLoadFromFileRequest => EditorEventModel::ConfirmLoadFromFileRequest,
            EditorEvent::ConfirmSaveToFileRequest => EditorEventModel::ConfirmSaveToFileRequest,
            EditorEvent::ReportLoadedFromFile(notebook) => {
                EditorEventModel::ReportLoadedFromFile(notebook@)
            },
            EditorEvent::ReportSavedToFile => EditorEventModel::ReportSavedToFile,
            EditorEvent::ReportFailedToLoadFromFile(error) => {
                EditorEventModel::ReportFailedToLoadFromFile(error@)
            },
            EditorEvent::ReportFailedToSaveToFile(error) => {
                EditorEventModel::ReportFailedToSaveToFile(error@)
            },
            EditorEvent::ResetFileEditorToIdle => EditorEventModel::ResetFileEditorToIdle,
            EditorEvent::EnableSnippetNavigationMode => {
                EditorEventModel::EnableSnippetNavigationMode
            },
            EditorEvent::EnableSnippetEditingMode => EditorEventModel::EnableSnippetEditingMode,
        }
    }
}

impl Clone for EditorEvent {
    fn clone(&self) -> (copy: Self)
        ensures
            copy@ == self@,
    {
        match self {
            EditorEvent::NoOp => EditorEvent::NoOp,
            EditorEvent::ToggleSegmentOnSelectedGlyph(segment) => {
                EditorEvent::ToggleSegmentOnSelectedGlyph(*segment)
            },
            EditorEvent::ToggleSegmentsOnSelectedGlyph(segments) => {
                let copied = segments.clone();
                assert(segments_view(copied@) =~= segments_view(segments@));
                EditorEvent::ToggleSegmentsOnSelectedGlyph(copied)
            },
            EditorEvent::MoveGlyphCursorForward => EditorEvent::MoveGlyphCursorForward,
            EditorEvent::MoveGlyphCursorBackward => EditorEvent::MoveGlyphCursorBackward,
            EditorEvent::MoveWordCursorForward => EditorEvent::MoveWordCursorForward,
            EditorEvent::MoveWordCursorBackward => EditorEvent::MoveWordCursorBackward,
            EditorEvent::MoveSnippetCursorForward => EditorEvent::MoveSnippetCursorForward,
            EditorEvent::MoveSnippetCursorBackward => EditorEvent::MoveSnippetCursorBackward,
            EditorEvent::MoveWordsViewSliceForward(amount) => {
                EditorEvent::MoveWordsViewSliceForward(*amount)
            },
            EditorEvent::MoveWordsViewSliceBackward(amount) => {
                EditorEvent::MoveWordsViewSliceBackward(*amount)
            },
            EditorEvent::ToggleGlyphEditingMode => EditorEvent::ToggleGlyphEditingMode,
            EditorEvent::AddNewTunicWordAtCursor => EditorEvent::AddNewTunicWordAtCursor,
            EditorEvent::AddNewEnglishWordAtCursor(text) => {
                EditorEvent::AddNewEnglishWordAtCursor(text.clone())
            },
            EditorEvent::AddNewGlyphToTunicWordAtCursor => {
                EditorEvent::AddNewGlyphToTunicWordAtCursor
            },
            EditorEvent::AddNewSnippetAtCursor => EditorEvent::AddNewSnippetAtCursor,
            EditorEvent::DeleteGlyphAtCursor => EditorEvent::DeleteGlyphAtCursor,
            EditorEvent::DeleteWordAtCursor => EditorEvent::DeleteWordAtCursor,
            EditorEvent::ToggleSnippetTranscriptionState => {
                EditorEvent::ToggleSnippetTranscriptionState
            },
            EditorEvent::ToggleWordHasABorderState => EditorEvent::ToggleWordHasABorderState,
            EditorEvent::ToggleWordIsColoredState => EditorEvent::ToggleWordIsColoredState,
            EditorEvent::ToggleHasBeenTranscribedFilter => {
                EditorEvent::ToggleHasBeenTranscribedFilter
            },
            EditorEvent::PrintWord(word) => EditorEvent::PrintWord(word.clone()),
            EditorEvent::RequestLoadFromFile => EditorEvent::RequestLoadFromFile,
            EditorEvent::RequestSaveToFile => EditorEvent::RequestSaveToFile,
            EditorEvent::ConfirmLoadFromFileRequest => EditorEvent::ConfirmLoadFromFileRequest,
            EditorEvent::ConfirmSaveToFileRequest => EditorEvent::ConfirmSaveToFileRequest,
            EditorEvent::ReportLoadedFromFile(notebook) => {
                EditorEvent::ReportLoadedFromFile(notebook.clone())
            },
            EditorEvent::ReportSavedToFile => EditorEvent::ReportSavedToFile,
            EditorEvent::ReportFailedToLoadFromFile(error) => {
                EditorEvent::ReportFailedToLoadFromFile(error.clone())
            },
            EditorEvent::ReportFailedToSaveToFile(error) => {
                EditorEvent::ReportFailedToSaveToFile(error.clone())
            },
            EditorEvent::ResetFileEditorToIdle => EditorEvent::ResetFileEditorToIdle,
            EditorEvent::EnableSnippetNavigationMode => EditorEvent::EnableSnippetNavigationMode,
            EditorEvent::EnableSnippetEditingMode => EditorEvent::EnableSnippetEditingMode,
        }
    }
}

impl EditorEvent {
    /// Whether this is the event that asks for nothing.
    pub fn is_no_op(&self) -> (no_op: bool)
        ensures
            no_op == (self@ == EditorEventModel::NoOp),
    {
        match self {
            EditorEvent::NoOp => true,
            _ => false,
        }
    }
}

} // verus!
