use vstd::prelude::*;

use crate::editors::file_editors::{FileEditorState, FileEditorStateModel};
use crate::editors::notebook_editors::NotebookEditorState;
use crate::editors::word_editors::WordEditorState;
use crate::language::dictionary::{Definition, DefinitionModel};
use crate::language::glyphs::Glyph;
use crate::language::snippets::{Snippet, SnippetModel};
use crate::language::words::{Word, WordModel};
use crate::sequences::views;

verus! {

/// How one glyph is to be shown. The view is its own mathematical model.
#[derive(Clone, Copy, Debug, PartialEq, Eq, Structural)]
pub struct GlyphView {
    pub glyph: Glyph,
    pub selected: bool,
}

/// Mathematical model of [`WordViewParams`].
pub struct WordViewParamsModel {
    pub index: nat,
    pub within_visible_range: bool,
    pub selected: bool,
    pub definition: DefinitionModel,
}

/// What a snippet knows of a word that the word's editor does not.
#[derive(Debug)]
pub struct WordViewParams {
    pub index: usize,
    pub within_visible_range: bool,
    pub selected: bool,
    pub definition: Definition,
}

impl View for WordViewParams {
    type V = WordViewParamsModel;

    open spec fn view(&self) -> WordViewParamsModel {
        WordViewParamsModel {
            index: self.index as nat,
            within_visible_range: self.within_visible_range,
            selected: self.selected,
            definition: self.definition@,
        }
    }
}

impl Clone for WordViewParams {
    fn clone(&self) -> (copy: Self)
        ensures
            copy@ == self@,
    {
        WordViewParams {
            index: self.index,
            within_visible_range: self.within_visible_range,
            selected: self.selected,
            definition: self.definition.clone(),
        }
    }
}

/// Mathematical model of a [`WordView`].
pub struct WordViewModel {
    pub word: WordModel,
    pub index: nat,
    pub within_visible_range: bool,
    pub selected: bool,
    pub glyph_views: Seq<GlyphView>,
    pub definition: DefinitionModel,
    pub state: WordEditorState,
}

/// How one word is to be shown.
#[derive(Debug, PartialEq, Eq)]
pub struct WordView {
    pub word: Word,
    pub index: usize,
    pub within_visible_range: bool,
    pub selected: bool,
    pub glyph_views: Vec<GlyphView>,
    pub definition: Definition,
    pub state: WordEditorState,
}

impl View for WordView {
    type V = WordViewModel;

    open spec fn view(&self) -> WordViewModel {
        WordViewModel {
            word: self.word@,
            index: self.index as nat,
            within_visible_range: self.within_visible_range,
            selected: self.selected,
            glyph_views: self.glyph_views@,
            definition: self.definition@,
            state: self.state,
        }
    }
}

impl Clone for WordView {
    fn clone(&self) -> (copy: Self)
        ensures
            copy@ == self@,
    {
        let glyph_views = self.glyph_views.clone();
        assert(glyph_views@ =~= self.glyph_views@);

        WordView {
            word: self.word.clone(),
            index: self.index,
            within_visible_range: self.within_visible_range,
            selected: self.selected,
            glyph_views,
            definition: self.definition.clone(),
            state: self.state,
        }
    }
}

/// Mathematical model of a [`SnippetView`].
pub struct SnippetViewModel {
    pub snippet: SnippetModel,
    pub selected: bool,
    pub word_views: Seq<WordViewModel>,
    pub transcribed: bool,
    pub retained: bool,
}

/// How one snippet is to be shown.
#[derive(Debug, PartialEq, Eq)]
pub struct SnippetView {
    pub snippet: Snippet,
    pub selected: bool,
    pub word_views: Vec<WordView>,
    pub transcribed: bool,
    pub retained: bool,
}

impl View for SnippetView {
    type V = SnippetViewModel;

    open spec fn view(&self) -> SnippetViewModel {
        SnippetViewModel {
            snippet: self.snippet@,
            selected: self.selected,
            word_views: views(self.word_views@),
            transcribed: self.transcribed,
            retained: self.retained,
        }
    }
}

impl Clone for SnippetView {
    fn clone(&self) -> (copy: Self)
        ensures
            copy@ == self@,
    {
        let word_views = self.word_views.clone();
        assert(views(word_views@) =~= views(self.word_views@));

        SnippetView {
            snippet: self.snippet.clone(),
            selected: self.selected,
            word_views,
            transcribed: self.transcribed,
            retained: self.retained,
        }
    }
}

/// Mathematical model of a [`NotebookView`].
pub struct NotebookViewModel {
    pub state: NotebookEditorState,
    pub snippet_views: Seq<SnippetViewModel>,
}

/// How a notebook is to be shown: the snippets that the filters retain.
#[derive(Debug, PartialEq, Eq)]
pub struct NotebookView {
    pub state: NotebookEditorState,
    pub snippet_views: Vec<SnippetView>,
}

impl View for NotebookView {
    type V = NotebookViewModel;

    open spec fn view(&self) -> NotebookViewModel {
        NotebookViewModel { state: self.state, snippet_views: views(self.snippet_views@) }
    }
}

impl Clone for NotebookView {
    fn clone(&self) -> (copy: Self)
        ensures
            copy@ == self@,
    {
        let snippet_views = self.snippet_views.clone();
        assert(views(snippet_views@) =~= views(self.snippet_views@));

        NotebookView { state: self.state, snippet_views }
    }
}

/// Mathematical model of a [`FileEditorView`].
pub struct FileEditorViewModel {
    pub notebook_view: NotebookViewModel,
    pub state: FileEditorStateModel,
    pub target_file: Seq<char>,
}

/// How the whole editor is to be shown: the notebook, and where loading or
/// saving stands.
#[derive(Debug, PartialEq, Eq)]
pub struct FileEditorView {
    pub notebook_view: NotebookView,
    pub state: FileEditorState,
    pub target_file: String,
}

impl View for FileEditorView {
    type V = FileEditorViewModel;

    open spec fn view(&self) -> FileEditorViewModel {
        FileEditorViewModel {
            notebook_view: self.notebook_view@,
            state: self.state@,
            target_file: self.target_file@,
        }
    }
}

impl Clone for FileEditorView {
    fn clone(&self) -> (copy: Self)
        ensures
            copy@ == self@,
    {
        FileEditorView {
            notebook_view: self.notebook_view.clone(),
            state: self.state.clone(),
            target_file: self.target_file.clone(),
        }
    }
}

} // verus!
