use vstd::prelude::*;
use vstd::std_specs::convert::FromSpecImpl;

use crate::editors::events::{EditorEvent, EditorEventModel};
use crate::editors::word_editors::{WordEditorCallbacks, WordEditorState};
use crate::language::words::{EnglishWord, Word, WordModel};
use crate::views::{WordView, WordViewModel, WordViewParams, WordViewParamsModel};

verus! {

/// Mathematical model of an [`EnglishWordEditor`]: the text of its word.
pub struct EnglishWordEditorModel {
    pub text: Seq<char>,
}

impl EnglishWordEditorModel {
    /// English words are replaced as a whole, so no event changes one.
    pub open spec fn applied(self, event: EditorEventModel) -> Self {
        self
    }

    /// The view of an English word: no glyphs, everything else as the
    /// snippet says.
    pub open spec fn to_view(self, params: WordViewParamsModel) -> WordViewModel {
        WordViewModel {
            word: WordModel::English(self.text),
            index: params.index,
            within_visible_range: params.within_visible_range,
            selected: params.selected,
            glyph_views: Seq::empty(),
            definition: params.definition,
            state: WordEditorState::ModifySelectedGlyph,
        }
    }
}

/// Holds an English word.
#[derive(Debug, PartialEq, Eq)]
pub struct EnglishWordEditor {
    word: EnglishWord,
}

impl View for EnglishWordEditor {
    type V = EnglishWordEditorModel;

    closed spec fn view(&self) -> EnglishWordEditorModel {
        EnglishWordEditorModel { text: self.word@ }
    }
}

impl Clone for EnglishWordEditor {
    fn clone(&self) -> (copy: Self)
        ensures
            copy@ == self@,
    {
        Self { word: self.word.clone() }
    }
}

impl EnglishWordEditor {
    pub fn to_view(&self, params: WordViewParams) -> (view: WordView)
        ensures
            view@ == self@.to_view(params@),
    {
        WordView {
            word: Word::from(self.word.clone()),
            glyph_views: Vec::new(),
            selected: params.selected,
            index: params.index,
            within_visible_range: params.within_visible_range,
            definition: params.definition,
            state: WordEditorState::ModifySelectedGlyph,
        }
    }

    pub fn new(word: EnglishWord) -> (editor: Self)
        ensures
            editor@ == (EnglishWordEditorModel { text: word@ }),
    {
        Self { word }
    }

    /// English words take no keys of their own: the answer is `NoOp`,
    /// whatever the callbacks are.
    pub fn on_input<G, T, E>(&self, _callbacks: WordEditorCallbacks<G, T, E>) -> (event:
        EditorEvent)
        ensures
            event@ is NoOp,
    {
        EditorEvent::NoOp
    }

    pub fn word(&self) -> (word: EnglishWord)
        ensures
            word@ == self@.text,
    {
        self.word.clone()
    }

    pub fn apply(self, event: EditorEvent) -> (editor: Self)
        ensures
            editor@ == self@.applied(event@),
    {
        self
    }
}

impl From<EnglishWord> for EnglishWordEditor {
    fn from(word: EnglishWord) -> (editor: Self)
        ensures
            editor@ == (EnglishWordEditorModel { text: word@ }),
    {
        EnglishWordEditor { word }
    }
}

impl FromSpecImpl<EnglishWord> for EnglishWordEditor {
    open spec fn obeys_from_spec() -> bool {
        true
    }

    closed spec fn from_spec(word: EnglishWord) -> Self {
        EnglishWordEditor { word }
    }
}

} // verus!
