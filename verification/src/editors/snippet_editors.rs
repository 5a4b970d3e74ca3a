use vstd::prelude::*;

use crate::cursors::{VisibleCursor, VisibleCursorModel};
use crate::editors::events::{EditorEvent, EditorEventModel};
use crate::editors::glyph_editors::GlyphEditor;
use crate::editors::word_editors::english_word_editors::EnglishWordEditor;
use crate::editors::word_editors::tunic_word_editors::TunicWordEditor;
use crate::editors::word_editors::{WordEditor, WordEditorCallbacks, WordEditorModel};
use crate::language::dictionary::{
    Definition, DefinitionModel, Dictionary, DictionaryModel, DictionaryWord,
};
use crate::language::glyphs::Glyph;
use crate::language::snippets::{Snippet, SnippetModel};
use crate::language::words::{TunicWordModel, Word, WordModel, WordType};
use crate::sequences::{lemma_views_insert, lemma_views_remove, lemma_views_update, views};
use crate::views::{
    SnippetView, SnippetViewModel, WordView, WordViewModel, WordViewParams, WordViewParamsModel,
};
use crate::visibility::{VisibilityRange, VisibilityRangeModel};

verus! {

/// How many words of a snippet are shown at once.
pub const MAX_VISIBLE_WORDS: usize = 20;

/// What is shown as the definition of a word: an English word defines
/// itself, a Tunic word has what the dictionary holds under its glyphs.
pub open spec fn definition_of(word: WordModel, dictionary: DictionaryModel) -> DefinitionModel {
    match word {
        WordModel::English(text) => DefinitionModel::Confirmed(text),
        WordModel::Tunic(tunic_word) => if dictionary.contains_key(tunic_word.glyphs) {
            dictionary[tunic_word.glyphs].definition
        } else {
            DefinitionModel::Undefined
        },
    }
}

/// Mathematical model of a [`SnippetEditor`].
pub struct SnippetEditorModel {
    pub selected_snippet: SnippetModel,
    pub word_editor: Option<WordEditorModel>,
    pub cursor: VisibleCursorModel,
}

impl SnippetEditorModel {
    /// The window over the words of a snippet before anything is selected.
    pub open spec fn initial_cursor(word_count: nat) -> VisibleCursorModel {
        VisibleCursorModel::new(
            VisibilityRangeModel::empty().with_total_items(word_count).with_max_visible(
                MAX_VISIBLE_WORDS as nat,
            ).with_index(0),
            0,
        )
    }

    pub open spec fn new(snippet: SnippetModel) -> Self {
        SnippetEditorModel {
            selected_snippet: snippet,
            word_editor: None,
            cursor: Self::initial_cursor(snippet.words.len()),
        }.with_visible_word_selected()
    }

    pub open spec fn words(self) -> Seq<WordModel> {
        self.selected_snippet.words
    }

    /// Takes over `cursor` and opens the word editor on the word under it.
    /// Where there is no word under it, nothing changes.
    pub open spec fn with_word_under(self, cursor: VisibleCursorModel) -> Self {
        if cursor.index() < self.words().len() {
            let word = self.words()[cursor.index() as int];

            SnippetEditorModel {
                word_editor: Some(
                    match self.word_editor {
                        Some(editor) => editor.with_word(word),
                        None => WordEditorModel::new(word),
                    },
                ),
                cursor,
                ..self
            }
        } else {
            self
        }
    }

    /// Selects the visible word nearest to `index`.
    pub open spec fn with_word_selected(self, index: nat) -> Self {
        self.with_word_under(self.cursor.with_index(index))
    }

    /// Brings the word editor back in line with the word under the cursor.
    pub open spec fn with_visible_word_selected(self) -> Self {
        self.with_word_selected(self.cursor.index())
    }

    pub open spec fn with_word_selection_moved_forward(self, amount: nat) -> Self {
        SnippetEditorModel { cursor: self.cursor.with_cursor_index_moved_forward(amount), ..self }
    }

    pub open spec fn with_word_selection_moved_backward(self, amount: nat) -> Self {
        SnippetEditorModel { cursor: self.cursor.with_cursor_index_moved_backward(amount), ..self }
    }

    /// Where a new word goes: just behind the cursor, or at the end where
    /// the cursor is not on a word.
    pub open spec fn insertion_point(self) -> nat {
        if self.cursor.index() < self.words().len() {
            self.cursor.index() + 1
        } else {
            self.words().len()
        }
    }

    /// Inserts `new_word` behind the cursor, tells the window that there is
    /// one word more, and selects the index behind the old cursor as far as
    /// the window lets it.
    pub open spec fn with_new_word_at_cursor(self, new_word: WordModel) -> Self {
        let words = self.words().insert(self.insertion_point() as int, new_word);
        let target = self.cursor.index() + 1;

        SnippetEditorModel {
            cursor: self.cursor.with_total_items(words.len()).with_index(target),
            selected_snippet: self.selected_snippet.with_words(words),
            ..self
        }.with_word_selected(target)
    }

    pub open spec fn with_new_tunic_word_at_cursor(self) -> Self {
        self.with_new_word_at_cursor(WordModel::Tunic(TunicWordModel::plain(seq![Glyph(0)])))
    }

    pub open spec fn with_new_english_word_at_cursor(self, text: Seq<char>) -> Self {
        self.with_new_word_at_cursor(WordModel::English(text))
    }

    /// Removes the word under the cursor and selects the one before it.
    /// Where the cursor is on no word, nothing changes.
    pub open spec fn with_word_at_cursor_deleted(self) -> Self {
        let index = self.cursor.index();

        if index < self.words().len() {
            let words = self.words().remove(index as int);

            SnippetEditorModel {
                cursor: self.cursor.with_total_items(words.len()).with_index(
                    if index > 0 {
                        (index - 1) as nat
                    } else {
                        0
                    },
                ),
                selected_snippet: self.selected_snippet.with_words(words),
                ..self
            }
        } else {
            self
        }
    }

    pub open spec fn with_transcription_state_toggled(self) -> Self {
        SnippetEditorModel {
            selected_snippet: self.selected_snippet.with_transcription_state_toggled(),
            ..self
        }
    }

    pub open spec fn with_word_view_slice_moved_forward(self, amount: nat) -> Self {
        SnippetEditorModel { cursor: self.cursor.with_range_index_moved_forward(amount), ..self }
    }

    pub open spec fn with_word_view_slice_moved_backward(self, amount: nat) -> Self {
        SnippetEditorModel { cursor: self.cursor.with_range_index_moved_backward(amount), ..self }
    }

    /// Hands `event` to the word editor and writes the word that comes back
    /// over the word under the cursor.
    pub open spec fn with_event_applied_to_word_editor(self, event: EditorEventModel) -> Self {
        match self.word_editor {
            Some(editor) => {
                let editor = editor.applied(event);
                let words = if self.cursor.index() < self.words().len() {
                    self.words().update(self.cursor.index() as int, editor.selected_word())
                } else {
                    self.words()
                };

                SnippetEditorModel {
                    selected_snippet: self.selected_snippet.with_words(words),
                    word_editor: Some(editor),
                    ..self
                }
            },
            None => self,
        }
    }

    /// The policy for deleting glyphs: where the word in the word editor
    /// would be blank once its selected glyph is deleted, the whole word is
    /// to go instead.
    pub open spec fn glyph_deletion_blanks_word(self) -> bool {
        match self.word_editor {
            Some(editor) => editor.applied(
                EditorEventModel::DeleteGlyphAtCursor,
            ).selected_word().is_blank(),
            None => false,
        }
    }

    /// What `event` does before the word editor is brought back in line.
    pub open spec fn handled(self, event: EditorEventModel) -> Self {
        match event {
            EditorEventModel::MoveWordCursorBackward => self.with_word_selection_moved_backward(1),
            EditorEventModel::MoveWordCursorForward => self.with_word_selection_moved_forward(1),
            EditorEventModel::AddNewTunicWordAtCursor => self.with_new_tunic_word_at_cursor(),
            EditorEventModel::AddNewEnglishWordAtCursor(text) => {
                self.with_new_english_word_at_cursor(text)
            },
            EditorEventModel::DeleteWordAtCursor => self.with_word_at_cursor_deleted(),
            EditorEventModel::ToggleSnippetTranscriptionState => {
                self.with_transcription_state_toggled()
            },
            EditorEventModel::MoveWordsViewSliceForward(amount) => {
                self.with_word_view_slice_moved_forward(amount)
            },
            EditorEventModel::MoveWordsViewSliceBackward(amount) => {
                self.with_word_view_slice_moved_backward(amount)
            },
            EditorEventModel::DeleteGlyphAtCursor => if self.glyph_deletion_blanks_word() {
                self.with_word_at_cursor_deleted()
            } else {
                self.with_event_applied_to_word_editor(event)
            },
            _ => self.with_event_applied_to_word_editor(event),
        }
    }

    /// The editor after `event`: what the event does, and then the word
    /// editor brought back in line. The definition is hidden from proofs
    /// until it is revealed, so that the editors above can speak of it
    /// without unfolding it.
    #[verifier::opaque]
    pub open spec fn applied(self, event: EditorEventModel) -> Self {
        self.handled(event).with_visible_word_selected()
    }

    /// What the snippet tells the editor of the word at `index`.
    pub open spec fn word_view_params(
        self,
        index: int,
        dictionary: DictionaryModel,
    ) -> WordViewParamsModel {
        WordViewParamsModel {
            index: index as nat,
            within_visible_range: self.cursor.visible_range_includes(index as nat),
            selected: false,
            definition: definition_of(self.words()[index], dictionary),
        }
    }

    /// How the word at `index` is shown: through the word editor, as
    /// selected, where it is the word under the cursor of the selected
    /// snippet; as an unselected word otherwise.
    pub open spec fn word_view(
        self,
        index: int,
        selected_snippet: bool,
        dictionary: DictionaryModel,
    ) -> WordViewModel {
        let params = self.word_view_params(index, dictionary);

        if selected_snippet && index == self.cursor.index() {
            match self.word_editor {
                Some(editor) => editor.to_view(WordViewParamsModel { selected: true, ..params }),
                None => WordEditorModel::new(self.words()[index]).to_view(params),
            }
        } else {
            WordEditorModel::new(self.words()[index]).to_view(params)
        }
    }

    pub open spec fn to_view(
        self,
        selected_snippet: bool,
        retained: bool,
        dictionary: DictionaryModel,
    ) -> SnippetViewModel {
        SnippetViewModel {
            selected: selected_snippet,
            snippet: self.selected_snippet,
            word_views: Seq::new(
                self.words().len(),
                |index: int| self.word_view(index, selected_snippet, dictionary),
            ),
            transcribed: self.selected_snippet.transcribed,
            retained,
        }
    }

    /// The window counts the words of the snippet, shows up to
    /// `MAX_VISIBLE_WORDS` of them, and holds the cursor.
    pub open spec fn wf(self) -> bool {
        &&& self.cursor.wf()
        &&& self.cursor.range.total_items == self.words().len()
        &&& self.cursor.range.max_visible == MAX_VISIBLE_WORDS
    }

    /// Where the snippet has words, the word editor holds the word under
    /// the cursor.
    pub open spec fn is_synchronized(self) -> bool {
        self.words().len() > 0 ==> (self.word_editor matches Some(editor)
            && self.cursor.index() < self.words().len() && editor.selected_word()
            == self.words()[self.cursor.index() as int])
    }

    /// The slot behind the cursor is in view, so that a word put there can
    /// be selected.
    pub open spec fn has_room_behind_cursor(self) -> bool {
        self.words().len() == 0 || self.cursor.index() + 1 < self.cursor.range.index
            + self.cursor.range.max_visible
    }
}

/// Edits one snippet: which word is selected, which words are in view, and
/// the words themselves.
#[derive(Debug)]
pub struct SnippetEditor {
    selected_snippet: Snippet,
    word_editor: Option<WordEditor>,
    cursor: VisibleCursor,
}

/// The model of a word editor that may be missing.
pub open spec fn word_editor_view(editor: Option<WordEditor>) -> Option<WordEditorModel> {
    match editor {
        Some(editor) => Some(editor@),
        None => None,
    }
}

impl View for SnippetEditor {
    type V = SnippetEditorModel;

    closed spec fn view(&self) -> SnippetEditorModel {
        SnippetEditorModel {
            selected_snippet: self.selected_snippet@,
            word_editor: word_editor_view(self.word_editor),
            cursor: self.cursor@,
        }
    }
}

impl Clone for SnippetEditor {
    fn clone(&self) -> (copy: Self)
        ensures
            copy@ == self@,
    {
        proof {
            use_type_invariant(self);
        }
        let word_editor = match &self.word_editor {
            Some(editor) => Some(editor.clone()),
            None => None,
        };

        Self { selected_snippet: self.selected_snippet.clone(), word_editor, cursor: self.cursor }
    }
}

impl SnippetEditor {
    #[verifier::type_invariant]
    spec fn well_formed(self) -> bool {
        self@.wf()
    }

    pub fn new(snippet: Snippet) -> (editor: Self)
        ensures
            editor@ == SnippetEditorModel::new(snippet@),
            editor@.wf(),
            editor@.is_synchronized(),
    {
        proof {
            lemma_new_editor_is_wf(snippet@);
        }
        let visibility = VisibilityRange::new().with_total_items(
            snippet.words.len(),
        ).with_max_visible(MAX_VISIBLE_WORDS).with_index(0);

        let cursor = VisibleCursor::new(visibility, 0);

        Self { selected_snippet: snippet, word_editor: None, cursor }.with_visible_word_selected()
    }

    pub fn selected_snippet(&self) -> (snippet: Snippet)
        ensures
            snippet@ == self@.selected_snippet,
    {
        self.selected_snippet.clone()
    }

    /// Asks `callback` what to do with this editor.
    pub fn on_input<F: Fn(&SnippetEditor) -> EditorEvent>(&self, callback: F) -> (event:
        EditorEvent)
        requires
            call_requires(callback, (self,)),
        ensures
            call_ensures(callback, (self,), event),
    {
        callback(self)
    }

    /// Asks the callbacks what to do with the word editor; `NoOp` where
    /// there is none.
    pub fn on_word_editor_input<G, T, E>(&self, callbacks: WordEditorCallbacks<G, T, E>) -> (event:
        EditorEvent)
        where
            G: Fn(&GlyphEditor) -> EditorEvent,
            T: Fn(&TunicWordEditor) -> EditorEvent,
            E: Fn(&EnglishWordEditor) -> EditorEvent,
        requires
            forall|editor: &GlyphEditor| call_requires(callbacks.on_modify_selected_glyph, (editor,)),
            forall|editor: &TunicWordEditor| call_requires(callbacks.on_modify_tunic_word, (editor,)),
        ensures
            match self@.word_editor {
                Some(WordEditorModel::Tunic(model)) => model.input_is_answered_by(callbacks, event),
                _ => event@ is NoOp,
            },
    {
        match &self.word_editor {
            Some(editor) => editor.on_input(callbacks),
            None => EditorEvent::NoOp,
        }
    }

    /// The word editor, to read from.
    pub fn word_editor(&self) -> (word_editor: Option<&WordEditor>)
        ensures
            match word_editor {
                Some(editor) => self@.word_editor == Some(editor@),
                None => self@.word_editor is None,
            },
    {
        self.word_editor.as_ref()
    }

    /// The index of the selected word; 0 where the snippet has no words.
    pub fn selected_word_index(&self) -> (index: usize)
        ensures
            index == self@.cursor.index(),
            self@.wf(),
            index < self@.words().len() || (index == 0 && self@.words().len() == 0),
    {
        proof {
            use_type_invariant(self);
            crate::visibility::lemma_window_bounds(self@.cursor.range);
        }
        self.cursor.index()
    }

    fn with_word_under(self, cursor: VisibleCursor) -> (editor: Self)
        requires
            (SnippetEditorModel { cursor: cursor@, ..self@ }).wf(),
        ensures
            editor@ == self@.with_word_under(cursor@),
            editor@.wf(),
    {
        proof {
            use_type_invariant(&self);
        }
        let position = cursor.index();

        if position < self.selected_snippet.words.len() {
            let word = self.selected_snippet.words[position].clone();
            let word_editor = match self.word_editor {
                Some(editor) => editor.with_word(word),
                None => WordEditor::new(word),
            };

            SnippetEditor {
                word_editor: Some(word_editor),
                cursor,
                selected_snippet: self.selected_snippet,
            }
        } else {
            self
        }
    }

    pub fn with_word_selected(self, index: usize) -> (editor: Self)
        ensures
            editor@ == self@.with_word_selected(index as nat),
            editor@.wf(),
            editor@.is_synchronized(),
    {
        proof {
            use_type_invariant(&self);
            crate::cursors::lemma_visible_cursor_stays_wf(self@.cursor, index as nat);
            lemma_selection_keeps_wf(self@, index as nat);
        }
        let cursor = self.cursor.with_index(index);

        self.with_word_under(cursor)
    }

    pub fn with_visible_word_selected(self) -> (editor: Self)
        ensures
            editor@ == self@.with_visible_word_selected(),
            editor@.wf(),
            editor@.is_synchronized(),
    {
        proof {
            use_type_invariant(&self);
        }
        let index = self.cursor.index();

        self.with_word_selected(index)
    }

    pub fn with_word_selection_moved_forward(self, amount: usize) -> (editor: Self)
        ensures
            editor@ == self@.with_word_selection_moved_forward(amount as nat),
            editor@.wf(),
    {
        proof {
            use_type_invariant(&self);
            lemma_operations_keep_wf(self@, amount as nat, WordModel::empty());
        }
        Self { cursor: self.cursor.with_cursor_index_moved_forward(amount), ..self }
    }

    pub fn with_word_selection_moved_backward(self, amount: usize) -> (editor: Self)
        ensures
            editor@ == self@.with_word_selection_moved_backward(amount as nat),
            editor@.wf(),
    {
        proof {
            use_type_invariant(&self);
            lemma_operations_keep_wf(self@, amount as nat, WordModel::empty());
        }
        Self { cursor: self.cursor.with_cursor_index_moved_backward(amount), ..self }
    }

    pub fn with_new_tunic_word_at_cursor(self) -> (editor: Self)
        ensures
            editor@ == self@.with_new_tunic_word_at_cursor(),
            editor@.wf(),
    {
        proof {
            use_type_invariant(&self);
        }
        self.with_new_word_at_cursor(Word::single_glyph(Glyph::blank()))
    }

    pub fn with_new_english_word_at_cursor(self, text: String) -> (editor: Self)
        ensures
            editor@ == self@.with_new_english_word_at_cursor(text@),
            editor@.wf(),
    {
        proof {
            use_type_invariant(&self);
        }
        self.with_new_word_at_cursor(Word::english(text))
    }

    pub fn with_new_word_at_cursor(self, new_word: Word) -> (editor: Self)
        ensures
            editor@ == self@.with_new_word_at_cursor(new_word@),
            editor@.wf(),
    {
        proof {
            use_type_invariant(&self);
            lemma_operations_keep_wf(self@, 1, new_word@);
            crate::cursors::lemma_visible_cursor_stays_wf(
                self@.cursor,
                (self@.words().len() + 1) as nat,
            );
            crate::cursors::lemma_visible_cursor_stays_wf(
                self@.cursor.with_total_items((self@.words().len() + 1) as nat),
                self@.cursor.index() + 1,
            );
        }
        let index = self.cursor.index();
        let mut snippet = self.selected_snippet;
        let position = if index < snippet.words.len() {
            index + 1
        } else {
            snippet.words.len()
        };
        proof {
            lemma_views_insert(snippet.words@, position as int, new_word);
        }
        snippet.words.insert(position, new_word);

        let cursor = self.cursor.with_total_items(snippet.words.len()).with_index_after(index);
        let selected = cursor.with_index_after(index);

        Self { cursor, selected_snippet: snippet, word_editor: self.word_editor }.with_word_under(
            selected,
        )
    }

    pub fn with_word_at_cursor_deleted(self) -> (editor: Self)
        ensures
            editor@ == self@.with_word_at_cursor_deleted(),
            editor@.wf(),
    {
        proof {
            use_type_invariant(&self);
            lemma_operations_keep_wf(self@, 1, WordModel::empty());
        }
        let index = self.cursor.index();

        if index < self.selected_snippet.words.len() {
            let mut snippet = self.selected_snippet;
            proof {
                lemma_views_remove(snippet.words@, index as int);
            }
            snippet.words.remove(index);

            let new_index = if index > 0 {
                index - 1
            } else {
                0
            };
            let cursor = self.cursor.with_total_items(snippet.words.len()).with_index(new_index);

            Self { cursor, selected_snippet: snippet, word_editor: self.word_editor }
        } else {
            self
        }
    }

    pub fn with_transcription_state_toggled(self) -> (editor: Self)
        ensures
            editor@ == self@.with_transcription_state_toggled(),
            editor@.wf(),
    {
        proof {
            use_type_invariant(&self);
        }
        Self {
            selected_snippet: self.selected_snippet.with_transcription_state_toggled(),
            ..self
        }
    }

    pub fn with_word_view_slice_moved_forward(self, amount: usize) -> (editor: Self)
        ensures
            editor@ == self@.with_word_view_slice_moved_forward(amount as nat),
            editor@.wf(),
    {
        proof {
            use_type_invariant(&self);
            lemma_operations_keep_wf(self@, amount as nat, WordModel::empty());
        }
        let cursor = self.cursor.with_range_index_moved_forward(amount);

        Self { cursor, ..self }
    }

    pub fn with_word_view_slice_moved_backward(self, amount: usize) -> (editor: Self)
        ensures
            editor@ == self@.with_word_view_slice_moved_backward(amount as nat),
            editor@.wf(),
    {
        proof {
            use_type_invariant(&self);
            lemma_operations_keep_wf(self@, amount as nat, WordModel::empty());
        }
        let cursor = self.cursor.with_range_index_moved_backward(amount);

        Self { cursor, ..self }
    }

    /// The definition to show for `word`.
    pub fn definition_for(word: &Word, dictionary: &Dictionary) -> (definition: Definition)
        ensures
            definition@ == definition_of(word@, dictionary@),
    {
        match &word.word_type {
            WordType::English(english_word) => Definition::Confirmed(english_word.text()),
            WordType::Tunic(tunic_word) => {
                match dictionary.get(&DictionaryWord::of(tunic_word)) {
                    Some(entry) => entry.definition().clone(),
                    None => Definition::Undefined,
                }
            },
        }
    }

    fn word_view(&self, word_index: usize, selected_snippet: bool, dictionary: &Dictionary) -> (view:
        WordView)
        requires
            word_index < self@.words().len(),
        ensures
            view@ == self@.word_view(word_index as int, selected_snippet, dictionary@),
    {
        let word = &self.selected_snippet.words[word_index];
        let params = WordViewParams {
            index: word_index,
            within_visible_range: self.cursor.visible_range_includes(word_index),
            selected: false,
            definition: Self::definition_for(word, dictionary),
        };
        let selected_word = word_index == self.cursor.index();

        if selected_snippet && selected_word {
            match &self.word_editor {
                Some(editor) => editor.to_view(WordViewParams { selected: true, ..params }),
                None => WordEditor::new(word.clone()).to_view(params),
            }
        } else {
            WordEditor::new(word.clone()).to_view(params)
        }
    }

    pub fn to_view(&self, selected_snippet: bool, retained: bool, dictionary: &Dictionary) -> (view:
        SnippetView)
        ensures
            view@ == self@.to_view(selected_snippet, retained, dictionary@),
    {
        let mut word_views: Vec<WordView> = Vec::new();
        let mut word_index: usize = 0;

        while word_index < self.selected_snippet.words.len()
            invariant
                word_index <= self.selected_snippet.words.len(),
                self@.words().len() == self.selected_snippet.words.len(),
                word_views@.len() == word_index,
                forall|earlier: int|
                    0 <= earlier < word_index ==> (#[trigger] word_views@[earlier])@
                        == self@.word_view(earlier, selected_snippet, dictionary@),
            decreases self.selected_snippet.words.len() - word_index,
        {
            let word_view = self.word_view(word_index, selected_snippet, dictionary);
            word_views.push(word_view);
            word_index = word_index + 1;
        }
        assert(views(word_views@) =~= self@.to_view(
            selected_snippet,
            retained,
            dictionary@,
        ).word_views);

        let transcribed = self.selected_snippet.transcribed;

        SnippetView {
            selected: selected_snippet,
            snippet: self.selected_snippet.clone(),
            word_views,
            transcribed,
            retained,
        }
    }

    pub fn with_event_applied_to_word_editor(self, event: EditorEvent) -> (editor: Self)
        ensures
            editor@ == self@.with_event_applied_to_word_editor(event@),
            editor@.wf(),
    {
        proof {
            use_type_invariant(&self);
            lemma_word_events_keep_wf(self@, event@);
        }
        match self.word_editor {
            Some(editor) => {
                let word_editor = editor.apply(event);
                let mut snippet = self.selected_snippet;
                let index = self.cursor.index();

                if index < snippet.words.len() {
                    let word = word_editor.selected_word();
                    proof {
                        lemma_views_update(snippet.words@, index as int, word);
                    }
                    snippet.words.set(index, word);
                }

                Self { selected_snippet: snippet, word_editor: Some(word_editor), cursor: self.cursor }
            },
            None => self,
        }
    }

    /// Whether deleting the selected glyph would leave a blank word behind,
    /// so that the whole word is to be deleted instead.
    pub fn glyph_deletion_blanks_word(&self) -> (blanks: bool)
        ensures
            blanks == self@.glyph_deletion_blanks_word(),
    {
        match &self.word_editor {
            Some(editor) => editor.clone().apply(
                EditorEvent::DeleteGlyphAtCursor,
            ).selected_word().is_blank(),
            None => false,
        }
    }

    pub fn apply(self, event: EditorEvent) -> (editor: Self)
        ensures
            editor@ == self@.applied(event@),
            editor@.wf(),
            editor@.is_synchronized(),
    {
        proof {
            reveal(SnippetEditorModel::applied);
            use_type_invariant(&self);
            lemma_events_keep_wf(self@, event@);
        }
        let editor = match event {
            EditorEvent::MoveWordCursorBackward => self.with_word_selection_moved_backward(1),
            EditorEvent::MoveWordCursorForward => self.with_word_selection_moved_forward(1),
            EditorEvent::AddNewTunicWordAtCursor => self.with_new_tunic_word_at_cursor(),
            EditorEvent::AddNewEnglishWordAtCursor(text) => self.with_new_english_word_at_cursor(
                text,
            ),
            EditorEvent::DeleteWordAtCursor => self.with_word_at_cursor_deleted(),
            EditorEvent::ToggleSnippetTranscriptionState => self.with_transcription_state_toggled(),
            EditorEvent::MoveWordsViewSliceForward(amount) => {
                self.with_word_view_slice_moved_forward(amount)
            },
            EditorEvent::MoveWordsViewSliceBackward(amount) => {
                self.with_word_view_slice_moved_backward(amount)
            },
            EditorEvent::DeleteGlyphAtCursor => {
                if self.glyph_deletion_blanks_word() {
                    self.with_word_at_cursor_deleted()
                } else {
                    self.with_event_applied_to_word_editor(EditorEvent::DeleteGlyphAtCursor)
                }
            },
            other => self.with_event_applied_to_word_editor(other),
        };

        editor.with_visible_word_selected()
    }
}

/// A fresh editor is well formed and has the word under its cursor in its
/// word editor.
pub proof fn lemma_new_editor_is_wf(snippet: SnippetModel)
    ensures
        SnippetEditorModel::new(snippet).wf(),
        SnippetEditorModel::new(snippet).is_synchronized(),
        SnippetEditorModel::new(snippet).selected_snippet == snippet,
        SnippetEditorModel::new(snippet).cursor.index() == 0,
{
}

/// Selecting a word keeps the editor well formed, and leaves the word under
/// the cursor in the word editor.
pub proof fn lemma_selection_keeps_wf(editor: SnippetEditorModel, index: nat)
    requires
        editor.wf(),
    ensures
        editor.with_word_selected(index).wf(),
        editor.with_word_selected(index).is_synchronized(),
        editor.with_word_selected(index).selected_snippet == editor.selected_snippet,
{
    let selected = editor.with_word_selected(index);
    if editor.words().len() > 0 {
        let word = editor.words()[selected.cursor.index() as int];
        match editor.word_editor {
            Some(word_editor) => {
                assert(word_editor.with_word(word).selected_word() == word);
            },
            None => {},
        }
    }
}

/// Every operation of the editor keeps it well formed.
pub proof fn lemma_operations_keep_wf(editor: SnippetEditorModel, amount: nat, word: WordModel)
    requires
        editor.wf(),
    ensures
        editor.with_word_selection_moved_forward(amount).wf(),
        editor.with_word_selection_moved_backward(amount).wf(),
        editor.with_new_word_at_cursor(word).wf(),
        editor.with_word_at_cursor_deleted().wf(),
        editor.with_transcription_state_toggled().wf(),
        editor.with_word_view_slice_moved_forward(amount).wf(),
        editor.with_word_view_slice_moved_backward(amount).wf(),
{
}

/// The word editor never changes how many words there are, so handing it
/// an event keeps the editor well formed.
pub proof fn lemma_word_events_keep_wf(editor: SnippetEditorModel, event: EditorEventModel)
    requires
        editor.wf(),
    ensures
        editor.with_event_applied_to_word_editor(event).wf(),
        editor.with_event_applied_to_word_editor(event).words().len() == editor.words().len(),
{
}

/// After every event a well-formed editor is well formed again, and its
/// word editor holds the word under the cursor.
pub proof fn lemma_events_keep_wf(editor: SnippetEditorModel, event: EditorEventModel)
    requires
        editor.wf(),
    ensures
        editor.applied(event).wf(),
        editor.applied(event).is_synchronized(),
{
    reveal(SnippetEditorModel::applied);
    let handled = editor.handled(event);
    assert(handled.wf()) by {
        lemma_operations_keep_wf(editor, 1, WordModel::empty());
        lemma_word_events_keep_wf(editor, event);
        match event {
            EditorEventModel::AddNewEnglishWordAtCursor(text) => {
                lemma_operations_keep_wf(editor, 1, WordModel::English(text));
            },
            EditorEventModel::AddNewTunicWordAtCursor => {
                lemma_operations_keep_wf(
                    editor,
                    1,
                    WordModel::Tunic(TunicWordModel::plain(seq![Glyph(0)])),
                );
            },
            EditorEventModel::MoveWordsViewSliceForward(amount) => {
                lemma_operations_keep_wf(editor, amount, WordModel::empty());
            },
            EditorEventModel::MoveWordsViewSliceBackward(amount) => {
                lemma_operations_keep_wf(editor, amount, WordModel::empty());
            },
            _ => {},
        }
    }
    lemma_selection_keeps_wf(handled, handled.cursor.index());
}

/// Putting a word behind the cursor and deleting the word under the cursor
/// right after gives back the words and the cursor that there were before.
/// The slot behind the cursor must be in view: a word put out of view is not
/// selected, and the deletion would take another word.
pub proof fn lemma_insert_then_delete_round_trip(editor: SnippetEditorModel, word: WordModel)
    requires
        editor.wf(),
        editor.has_room_behind_cursor(),
    ensures
        editor.with_new_word_at_cursor(word).cursor.index() == editor.insertion_point(),
        editor.with_new_word_at_cursor(word).words()[editor.insertion_point() as int] == word,
        editor.with_new_word_at_cursor(word).with_word_at_cursor_deleted().selected_snippet
            == editor.selected_snippet,
        editor.with_new_word_at_cursor(word).with_word_at_cursor_deleted().cursor == editor.cursor,
{
    let inserted = editor.with_new_word_at_cursor(word);
    let point = editor.insertion_point() as int;
    assert(inserted.words() == editor.words().insert(point, word));
    assert(inserted.words().remove(point) =~= editor.words());
}

/// The same round trip through events: a new word, Tunic or English, and
/// then the deletion of the word under the cursor.
pub proof fn lemma_add_then_delete_word_events(editor: SnippetEditorModel, event: EditorEventModel)
    requires
        editor.wf(),
        editor.has_room_behind_cursor(),
        event is AddNewTunicWordAtCursor || event is AddNewEnglishWordAtCursor,
    ensures
        editor.applied(event).applied(EditorEventModel::DeleteWordAtCursor).selected_snippet
            == editor.selected_snippet,
        editor.applied(event).applied(EditorEventModel::DeleteWordAtCursor).cursor == editor.cursor,
{
    reveal(SnippetEditorModel::applied);
    let word = match event {
        EditorEventModel::AddNewEnglishWordAtCursor(text) => WordModel::English(text),
        _ => WordModel::Tunic(TunicWordModel::plain(seq![Glyph(0)])),
    };
    lemma_insert_then_delete_round_trip(editor, word);
    lemma_operations_keep_wf(editor, 1, word);
    let inserted = editor.with_new_word_at_cursor(word);
    assert(editor.handled(event) == inserted);
    lemma_selection_keeps_wf(inserted, inserted.cursor.index());
    let added = editor.applied(event);
    assert(added.cursor == inserted.cursor);
    assert(added.selected_snippet == inserted.selected_snippet);
    let deleted = added.handled(EditorEventModel::DeleteWordAtCursor);
    assert(deleted.selected_snippet == editor.selected_snippet);
    assert(deleted.cursor == editor.cursor);
    lemma_operations_keep_wf(added, 1, word);
    lemma_selection_keeps_wf(deleted, deleted.cursor.index());
}

/// An event that neither the snippet editor nor the word editor acts on
/// leaves the snippet and the cursor as they are, where the word editor
/// holds the word under the cursor.
pub proof fn lemma_unheeded_events_keep_snippet(editor: SnippetEditorModel, event: EditorEventModel)
    requires
        editor.wf(),
        editor.is_synchronized(),
        event.is_for_no_editor() || event.is_file_event(),
    ensures
        editor.applied(event).selected_snippet == editor.selected_snippet,
        editor.applied(event).cursor == editor.cursor,
{
    reveal(SnippetEditorModel::applied);
    let handled = editor.handled(event);
    assert(handled == editor.with_event_applied_to_word_editor(event));
    match editor.word_editor {
        Some(word_editor) => {
            assert(word_editor.applied(event) == word_editor);
            if editor.cursor.index() < editor.words().len() {
                assert(editor.words().update(
                    editor.cursor.index() as int,
                    word_editor.selected_word(),
                ) =~= editor.words());
            }
        },
        None => {},
    }
    assert(handled.selected_snippet == editor.selected_snippet);
    assert(handled.cursor == editor.cursor);
    crate::visibility::lemma_window_is_ordered(editor.cursor.range);
}

} // verus!
