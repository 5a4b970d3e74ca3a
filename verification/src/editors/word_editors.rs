use vstd::prelude::*;

use crate::editors::events::{EditorEvent, EditorEventModel};
use crate::editors::glyph_editors::GlyphEditor;
use crate::editors::word_editors::english_word_editors::{
    EnglishWordEditor, EnglishWordEditorModel,
};
use crate::editors::word_editors::tunic_word_editors::{TunicWordEditor, TunicWordEditorModel};
use crate::language::words::{Word, WordModel, WordType};
use crate::views::{WordView, WordViewModel, WordViewParams, WordViewParamsModel};

pub mod english_word_editors;
pub mod tunic_word_editors;

verus! {

/// What the keys do while a Tunic word is selected: change the selected
/// glyph, or act on the word's glyphs as a whole.
#[derive(Clone, Copy, Debug, PartialEq, Eq, Structural)]
pub enum WordEditorState {
    ModifySelectedGlyph,
    ModifyGlyphSet,
}

impl WordEditorState {
    pub open spec fn toggled(self) -> WordEditorState {
        match self {
            WordEditorState::ModifyGlyphSet => WordEditorState::ModifySelectedGlyph,
            WordEditorState::ModifySelectedGlyph => WordEditorState::ModifyGlyphSet,
        }
    }
}

/// What the input layer does with the part of a word that has the keys: one
/// function for the selected glyph, one for a Tunic word as a whole, one for
/// an English word. Each reads its editor and answers with an event.
pub struct WordEditorCallbacks<G, T, E> {
    pub on_modify_selected_glyph: G,
    pub on_modify_tunic_word: T,
    pub on_modify_english_word: E,
}

/// An index that may be missing, as a mathematical integer.
pub open spec fn index_view(index: Option<usize>) -> Option<nat> {
    match index {
        Some(index) => Some(index as nat),
        None => None,
    }
}

/// Mathematical model of a [`WordEditor`]: the editor of the kind of word
/// that it holds.
pub enum WordEditorModel {
    Tunic(TunicWordEditorModel),
    English(EnglishWordEditorModel),
}

impl WordEditorModel {
    /// The editor of `word`, with the first glyph of a Tunic word selected.
    pub open spec fn new(word: WordModel) -> Self {
        match word {
            WordModel::Tunic(word) => WordEditorModel::Tunic(
                TunicWordEditorModel::new(word).with_glyph_selected(0),
            ),
            WordModel::English(text) => WordEditorModel::English(EnglishWordEditorModel { text }),
        }
    }

    pub open spec fn selected_word(self) -> WordModel {
        match self {
            WordEditorModel::Tunic(editor) => WordModel::Tunic(editor.word),
            WordEditorModel::English(editor) => WordModel::English(editor.text),
        }
    }

    /// Replaces the word. A Tunic editor that gets a Tunic word keeps its
    /// state and, where it can, its selected index; a word of the other kind
    /// gets a fresh editor.
    pub open spec fn with_word(self, new_word: WordModel) -> Self {
        match new_word {
            WordModel::Tunic(tunic_word) => match self {
                WordEditorModel::Tunic(editor) => WordEditorModel::Tunic(
                    editor.with_word(tunic_word),
                ),
                WordEditorModel::English(_) => Self::new(new_word),
            },
            WordModel::English(_) => Self::new(new_word),
        }
    }

    pub open spec fn to_view(self, params: WordViewParamsModel) -> WordViewModel {
        match self {
            WordEditorModel::Tunic(editor) => editor.to_view(params),
            WordEditorModel::English(editor) => editor.to_view(params),
        }
    }

    pub open spec fn applied(self, event: EditorEventModel) -> Self {
        match self {
            WordEditorModel::Tunic(editor) => WordEditorModel::Tunic(editor.applied(event)),
            WordEditorModel::English(editor) => WordEditorModel::English(editor.applied(event)),
        }
    }
}

#[derive(Debug, PartialEq, Eq)]
enum SubEditorType {
    Tunic(TunicWordEditor),
    English(EnglishWordEditor),
}

/// Edits one word of either kind.
#[derive(Debug, PartialEq, Eq)]
pub struct WordEditor {
    sub_editor: SubEditorType,
}

impl View for WordEditor {
    type V = WordEditorModel;

    closed spec fn view(&self) -> WordEditorModel {
        match self.sub_editor {
            SubEditorType::Tunic(editor) => WordEditorModel::Tunic(editor@),
            SubEditorType::English(editor) => WordEditorModel::English(editor@),
        }
    }
}

impl Clone for WordEditor {
    fn clone(&self) -> (copy: Self)
        ensures
            copy@ == self@,
    {
        let sub_editor = match &self.sub_editor {
            SubEditorType::Tunic(editor) => SubEditorType::Tunic(editor.clone()),
            SubEditorType::English(editor) => SubEditorType::English(editor.clone()),
        };

        Self { sub_editor }
    }
}

impl WordEditor {
    pub fn new(word: Word) -> (editor: Self)
        ensures
            editor@ == WordEditorModel::new(word@),
    {
        let sub_editor = match word.word_type {
            WordType::Tunic(word) => SubEditorType::Tunic(
                TunicWordEditor::new(word).with_glyph_selected(0),
            ),
            WordType::English(word) => SubEditorType::English(EnglishWordEditor::new(word)),
        };

        Self { sub_editor }
    }

    pub fn selected_word(&self) -> (word: Word)
        ensures
            word@ == self@.selected_word(),
    {
        match &self.sub_editor {
            SubEditorType::English(editor) => Word::from(editor.word()),
            SubEditorType::Tunic(editor) => Word::from(editor.word()),
        }
    }

    /// Asks the callback that goes with the kind and state of the word for
    /// an event.
    pub fn on_input<G, T, E>(&self, callbacks: WordEditorCallbacks<G, T, E>) -> (event: EditorEvent)
        where
            G: Fn(&GlyphEditor) -> EditorEvent,
            T: Fn(&TunicWordEditor) -> EditorEvent,
            E: Fn(&EnglishWordEditor) -> EditorEvent,
        requires
            forall|editor: &GlyphEditor| call_requires(callbacks.on_modify_selected_glyph, (editor,)),
            forall|editor: &TunicWordEditor| call_requires(callbacks.on_modify_tunic_word, (editor,)),
        ensures
            self@ is English ==> event@ is NoOp,
            self@ matches WordEditorModel::Tunic(model) ==> model.input_is_answered_by(
                callbacks,
                event,
            ),
    {
        match &self.sub_editor {
            SubEditorType::Tunic(editor) => editor.on_input(callbacks),
            SubEditorType::English(editor) => editor.on_input(callbacks),
        }
    }

    /// The editor of the Tunic word, where the word is one.
    pub fn tunic_editor(&self) -> (editor: Option<&TunicWordEditor>)
        ensures
            match editor {
                Some(editor) => self@ == WordEditorModel::Tunic(editor@),
                None => self@ is English,
            },
    {
        match &self.sub_editor {
            SubEditorType::Tunic(editor) => Some(editor),
            SubEditorType::English(_) => None,
        }
    }

    /// The editor of the English word, where the word is one.
    pub fn english_editor(&self) -> (editor: Option<&EnglishWordEditor>)
        ensures
            match editor {
                Some(editor) => self@ == WordEditorModel::English(editor@),
                None => self@ is Tunic,
            },
    {
        match &self.sub_editor {
            SubEditorType::English(editor) => Some(editor),
            SubEditorType::Tunic(_) => None,
        }
    }

    pub fn with_word(self, new_word: Word) -> (editor: Self)
        ensures
            editor@ == self@.with_word(new_word@),
    {
        match new_word.word_type {
            WordType::Tunic(tunic_word) => {
                let sub_editor = match self.sub_editor {
                    SubEditorType::Tunic(editor) => SubEditorType::Tunic(
                        editor.with_word(tunic_word),
                    ),
                    SubEditorType::English(_) => SubEditorType::Tunic(
                        TunicWordEditor::new(tunic_word).with_glyph_selected(0),
                    ),
                };

                Self { sub_editor }
            },
            WordType::English(english_word) => Self {
                sub_editor: SubEditorType::English(EnglishWordEditor::from(english_word)),
            },
        }
    }

    pub fn to_view(&self, params: WordViewParams) -> (view: WordView)
        ensures
            view@ == self@.to_view(params@),
    {
        match &self.sub_editor {
            SubEditorType::Tunic(editor) => editor.to_view(params),
            SubEditorType::English(editor) => editor.to_view(params),
        }
    }

    pub fn apply(self, event: EditorEvent) -> (editor: Self)
        ensures
            editor@ == self@.applied(event@),
    {
        let sub_editor = match self.sub_editor {
            SubEditorType::English(editor) => SubEditorType::English(editor.apply(event)),
            SubEditorType::Tunic(editor) => SubEditorType::Tunic(editor.apply(event)),
        };

        Self { sub_editor }
    }
}

} // verus!
