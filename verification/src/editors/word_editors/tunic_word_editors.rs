use vstd::prelude::*;

use crate::editors::events::{EditorEvent, EditorEventModel};
use crate::editors::glyph_editors::GlyphEditor;
use crate::editors::word_editors::{index_view, WordEditorCallbacks, WordEditorState};
use crate::language::glyphs::Glyph;
use crate::language::words::{TunicWord, TunicWordModel, Word, WordModel};
use crate::views::{GlyphView, WordView, WordViewModel, WordViewParams, WordViewParamsModel};

verus! {

/// Mathematical model of a [`TunicWordEditor`].
pub struct TunicWordEditorModel {
    pub word: TunicWordModel,
    pub glyph_editor: Option<GlyphEditor>,
    pub selected_glyph_index: Option<nat>,
    pub state: WordEditorState,
}

impl TunicWordEditorModel {
    /// The editor of `word` with nothing selected.
    pub open spec fn new(word: TunicWordModel) -> Self {
        TunicWordEditorModel {
            word,
            glyph_editor: None,
            selected_glyph_index: None,
            state: WordEditorState::ModifySelectedGlyph,
        }
    }

    /// Selects the glyph at `index` and opens an editor on it. Where the
    /// word has no such glyph, nothing changes.
    pub open spec fn with_glyph_selected(self, index: nat) -> Self {
        if index < self.word.glyphs.len() {
            TunicWordEditorModel {
                glyph_editor: Some(GlyphEditor { glyph: self.word.glyphs[index as int] }),
                selected_glyph_index: Some(index),
                ..self
            }
        } else {
            self
        }
    }

    /// The index to select in a word that replaces the current one: the
    /// selected index where the new word has a glyph there, else 0.
    pub open spec fn index_kept_in(self, word: TunicWordModel) -> nat {
        match self.selected_glyph_index {
            Some(index) => if index < word.glyphs.len() {
                index
            } else {
                0
            },
            None => 0,
        }
    }

    pub open spec fn with_word(self, word: TunicWordModel) -> Self {
        TunicWordEditorModel { word, ..self }.with_glyph_selected(self.index_kept_in(word))
    }

    /// The index just behind the selection, or 1 without a selection.
    pub open spec fn index_after_selection(self) -> nat {
        match self.selected_glyph_index {
            Some(index) => index + 1,
            None => 1,
        }
    }

    /// Puts an empty glyph just behind the selected one (at the end, where
    /// the selection lies beyond it) and selects the index behind the old
    /// selection.
    pub open spec fn with_new_glyph_at_cursor(self) -> Self {
        let new_index = self.index_after_selection();
        let position = if new_index <= self.word.glyphs.len() {
            new_index as int
        } else {
            self.word.glyphs.len() as int
        };

        TunicWordEditorModel {
            word: self.word.with_glyphs(self.word.glyphs.insert(position, Glyph(0))),
            ..self
        }.with_glyph_selected(new_index)
    }

    /// Selects the place behind the last glyph, where a glyph can be
    /// appended. No glyph stands there, so there is no glyph editor.
    pub open spec fn with_append_point_selected(self) -> Self {
        TunicWordEditorModel {
            glyph_editor: None,
            selected_glyph_index: Some(self.word.glyphs.len()),
            ..self
        }
    }

    /// Where a move forward by `amount` from `index` ends: held at the
    /// number of glyphs, the index of the append point.
    pub open spec fn forward_target(self, index: nat, amount: nat) -> nat {
        if index + amount <= self.word.glyphs.len() {
            index + amount
        } else {
            self.word.glyphs.len()
        }
    }

    /// Moves the selection towards the end: onto the glyph `amount` further
    /// on, or onto the append point where the word ends before that.
    /// Without a selection the first glyph is selected.
    pub open spec fn with_glyph_selection_moved_forward(self, amount: nat) -> Self {
        match self.selected_glyph_index {
            Some(index) => if self.forward_target(index, amount) < self.word.glyphs.len() {
                self.with_glyph_selected(self.forward_target(index, amount))
            } else {
                self.with_append_point_selected()
            },
            None => self.with_glyph_selected(0),
        }
    }

    pub open spec fn with_glyph_selection_moved_backward(self, amount: nat) -> Self {
        self.with_glyph_selected(
            match self.selected_glyph_index {
                Some(index) => if index >= amount {
                    (index - amount) as nat
                } else {
                    0
                },
                None => 0,
            },
        )
    }

    /// Removes the selected glyph and selects the one before it.
    pub open spec fn with_glyph_at_cursor_deleted(self) -> Self {
        match self.selected_glyph_index {
            Some(index) => if index < self.word.glyphs.len() {
                TunicWordEditorModel {
                    word: self.word.with_glyphs(self.word.glyphs.remove(index as int)),
                    ..self
                }.with_glyph_selected(
                    if index > 0 {
                        (index - 1) as nat
                    } else {
                        0
                    },
                )
            } else {
                self
            },
            None => self,
        }
    }

    pub open spec fn with_glyph_editing_mode_toggled(self) -> Self {
        TunicWordEditorModel { state: self.state.toggled(), ..self }
    }

    pub open spec fn with_border_toggled(self) -> Self {
        TunicWordEditorModel {
            word: TunicWordModel { has_border: !self.word.has_border, ..self.word },
            ..self
        }
    }

    pub open spec fn with_colored_state_toggled(self) -> Self {
        TunicWordEditorModel {
            word: TunicWordModel { colored: !self.word.colored, ..self.word },
            ..self
        }
    }

    /// Hands a toggling event to the glyph editor and writes the glyph that
    /// comes back over the selected glyph of the word.
    pub open spec fn with_event_applied_to_glyph_editor(self, event: EditorEventModel) -> Self {
        match self.glyph_editor {
            Some(glyph_editor) => {
                let glyph_editor = glyph_editor.applied(event);
                let glyphs = match self.selected_glyph_index {
                    Some(index) => if index < self.word.glyphs.len() {
                        self.word.glyphs.update(index as int, glyph_editor.glyph)
                    } else {
                        self.word.glyphs
                    },
                    None => self.word.glyphs,
                };

                TunicWordEditorModel {
                    word: self.word.with_glyphs(glyphs),
                    glyph_editor: Some(glyph_editor),
                    ..self
                }
            },
            None => self,
        }
    }

    /// The editor after `event`. Moving the glyph cursor, adding and
    /// deleting a glyph and toggling segments are acted on; every other
    /// event leaves the editor as it is.
    pub open spec fn applied(self, event: EditorEventModel) -> Self {
        match event {
            EditorEventModel::MoveGlyphCursorBackward => self.with_glyph_selection_moved_backward(
                1,
            ),
            EditorEventModel::MoveGlyphCursorForward => self.with_glyph_selection_moved_forward(1),
            EditorEventModel::AddNewGlyphToTunicWordAtCursor => self.with_new_glyph_at_cursor(),
            EditorEventModel::DeleteGlyphAtCursor => self.with_glyph_at_cursor_deleted(),
            EditorEventModel::ToggleSegmentOnSelectedGlyph(_) => {
                self.with_event_applied_to_glyph_editor(event)
            },
            EditorEventModel::ToggleSegmentsOnSelectedGlyph(_) => {
                self.with_event_applied_to_glyph_editor(event)
            },
            _ => self,
        }
    }

    /// How the glyph at `index` is shown in a word that is `selected` or not:
    /// through the glyph editor where it is the selected glyph of a selected
    /// word, plainly otherwise.
    pub open spec fn glyph_view(self, index: int, selected: bool) -> GlyphView {
        if selected && self.selected_glyph_index == Some(index as nat) {
            match self.glyph_editor {
                Some(editor) => GlyphView { glyph: editor.glyph, selected: true },
                None => GlyphView { glyph: self.word.glyphs[index], selected: false },
            }
        } else {
            GlyphView { glyph: self.word.glyphs[index], selected: false }
        }
    }

    /// `event` is what the callbacks answer for an editor with this model:
    /// without a glyph editor `NoOp`; with one, the answer of the callback
    /// for the selected glyph or of the one for the whole word, as the state
    /// says.
    pub open spec fn input_is_answered_by<G, T, E>(
        self,
        callbacks: WordEditorCallbacks<G, T, E>,
        event: EditorEvent,
    ) -> bool where
        G: Fn(&GlyphEditor) -> EditorEvent,
        T: Fn(&TunicWordEditor) -> EditorEvent,
     {
        match self.glyph_editor {
            Some(glyph_editor) => match self.state {
                WordEditorState::ModifySelectedGlyph => call_ensures(
                    callbacks.on_modify_selected_glyph,
                    (&glyph_editor,),
                    event,
                ),
                WordEditorState::ModifyGlyphSet => exists|editor: &TunicWordEditor|
                    editor@ == self && call_ensures(
                        callbacks.on_modify_tunic_word,
                        (editor,),
                        event,
                    ),
            },
            None => event@ is NoOp,
        }
    }

    pub open spec fn to_view(self, params: WordViewParamsModel) -> WordViewModel {
        WordViewModel {
            word: WordModel::Tunic(self.word),
            index: params.index,
            within_visible_range: params.within_visible_range,
            selected: params.selected,
            glyph_views: Seq::new(
                self.word.glyphs.len(),
                |index: int| self.glyph_view(index, params.selected),
            ),
            definition: params.definition,
            state: self.state,
        }
    }
}

/// Edits a word written in glyphs: which glyph is selected, and the glyphs
/// themselves.
#[derive(Debug, PartialEq, Eq)]
pub struct TunicWordEditor {
    word: TunicWord,
    glyph_editor: Option<GlyphEditor>,
    selected_glyph_index: Option<usize>,
    state: WordEditorState,
}

impl View for TunicWordEditor {
    type V = TunicWordEditorModel;

    closed spec fn view(&self) -> TunicWordEditorModel {
        TunicWordEditorModel {
            word: self.word@,
            glyph_editor: self.glyph_editor,
            selected_glyph_index: index_view(self.selected_glyph_index),
            state: self.state,
        }
    }
}

impl Clone for TunicWordEditor {
    fn clone(&self) -> (copy: Self)
        ensures
            copy@ == self@,
    {
        Self {
            word: self.word.clone(),
            glyph_editor: self.glyph_editor,
            selected_glyph_index: self.selected_glyph_index,
            state: self.state,
        }
    }
}

impl TunicWordEditor {
    pub fn new(word: TunicWord) -> (editor: Self)
        ensures
            editor@ == TunicWordEditorModel::new(word@),
    {
        Self {
            word,
            glyph_editor: None,
            selected_glyph_index: None,
            state: WordEditorState::ModifySelectedGlyph,
        }
    }

    /// Asks the callback that goes with the state of the editor for an
    /// event. Without a selected glyph nothing is asked.
    pub fn on_input<G, T, E>(&self, callbacks: WordEditorCallbacks<G, T, E>) -> (event: EditorEvent)
        where
            G: Fn(&GlyphEditor) -> EditorEvent,
            T: Fn(&TunicWordEditor) -> EditorEvent,
        requires
            forall|editor: &GlyphEditor| call_requires(callbacks.on_modify_selected_glyph, (editor,)),
            forall|editor: &TunicWordEditor| call_requires(callbacks.on_modify_tunic_word, (editor,)),
        ensures
            self@.input_is_answered_by(callbacks, event),
    {
        match self.state {
            WordEditorState::ModifySelectedGlyph => {
                match &self.glyph_editor {
                    Some(editor) => (callbacks.on_modify_selected_glyph)(editor),
                    None => EditorEvent::NoOp,
                }
            },
            WordEditorState::ModifyGlyphSet => {
                match &self.glyph_editor {
                    Some(_editor) => (callbacks.on_modify_tunic_word)(self),
                    None => EditorEvent::NoOp,
                }
            },
        }
    }

    /// Replaces the word. The selection stays where the new word has a
    /// glyph at its index and goes to the first glyph otherwise.
    pub fn with_word(self, word: TunicWord) -> (editor: Self)
        ensures
            editor@ == self@.with_word(word@),
    {
        let new_index = match self.selected_glyph_index {
            Some(current_index) => {
                if current_index < word.glyph_count() {
                    current_index
                } else {
                    0
                }
            },
            None => 0,
        };

        Self { word, ..self }.with_glyph_selected(new_index)
    }

    pub fn with_new_glyph_at_cursor(self) -> (editor: Self)
        ensures
            editor@ == self@.with_new_glyph_at_cursor(),
    {
        let selected = match self.selected_glyph_index {
            Some(index) => index,
            None => 0,
        };
        let mut glyphs = self.word.glyphs();
        let position = if selected < glyphs.len() {
            selected + 1
        } else {
            glyphs.len()
        };
        glyphs.insert(position, Glyph::blank());
        let editor = Self { word: self.word.with_glyphs(glyphs), ..self };

        if selected < usize::MAX {
            editor.with_glyph_selected(selected + 1)
        } else {
            editor
        }
    }

    pub fn with_glyph_selected(self, index: usize) -> (editor: Self)
        ensures
            editor@ == self@.with_glyph_selected(index as nat),
    {
        match self.word.glyph_at(index) {
            Some(glyph) => Self {
                glyph_editor: Some(GlyphEditor { glyph }),
                selected_glyph_index: Some(index),
                ..self
            },
            None => self,
        }
    }

    /// Selects the place behind the last glyph.
    pub fn with_append_point_selected(self) -> (editor: Self)
        ensures
            editor@ == self@.with_append_point_selected(),
    {
        let count = self.word.glyph_count();

        Self { glyph_editor: None, selected_glyph_index: Some(count), ..self }
    }

    pub fn with_glyph_selection_moved_forward(self, amount: usize) -> (editor: Self)
        ensures
            editor@ == self@.with_glyph_selection_moved_forward(amount as nat),
    {
        match self.selected_glyph_index {
            Some(index) => {
                let count = self.word.glyph_count();
                if index >= count || amount >= count - index {
                    self.with_append_point_selected()
                } else {
                    self.with_glyph_selected(index + amount)
                }
            },
            None => self.with_glyph_selected(0),
        }
    }

    pub fn with_glyph_selection_moved_backward(self, amount: usize) -> (editor: Self)
        ensures
            editor@ == self@.with_glyph_selection_moved_backward(amount as nat),
    {
        let new_index = match self.selected_glyph_index {
            Some(index) => {
                if index >= amount {
                    index - amount
                } else {
                    0
                }
            },
            None => 0,
        };

        self.with_glyph_selected(new_index)
    }

    /// Deletes the selected glyph. Without a selection, or with one that
    /// names no glyph of the word, nothing changes.
    pub fn with_glyph_at_cursor_deleted(self) -> (editor: Self)
        ensures
            editor@ == self@.with_glyph_at_cursor_deleted(),
    {
        match self.selected_glyph_index {
            Some(selected_glyph_index) => {
                if selected_glyph_index < self.word.glyph_count() {
                    let mut glyphs = self.word.glyphs();
                    glyphs.remove(selected_glyph_index);

                    let new_index = if selected_glyph_index > 0 {
                        selected_glyph_index - 1
                    } else {
                        0
                    };

                    Self { word: self.word.with_glyphs(glyphs), ..self }.with_glyph_selected(
                        new_index,
                    )
                } else {
                    self
                }
            },
            None => self,
        }
    }

    pub fn with_glyph_editing_mode_toggled(self) -> (editor: Self)
        ensures
            editor@ == self@.with_glyph_editing_mode_toggled(),
    {
        let state = match self.state {
            WordEditorState::ModifyGlyphSet => WordEditorState::ModifySelectedGlyph,
            WordEditorState::ModifySelectedGlyph => WordEditorState::ModifyGlyphSet,
        };

        Self { state, ..self }
    }

    pub fn with_border_toggled(self) -> (editor: Self)
        ensures
            editor@ == self@.with_border_toggled(),
    {
        Self { word: self.word.with_border_toggled(), ..self }
    }

    pub fn with_colored_state_toggled(self) -> (editor: Self)
        ensures
            editor@ == self@.with_colored_state_toggled(),
    {
        Self { word: self.word.with_colored_state_toggled(), ..self }
    }

    pub fn word(&self) -> (word: TunicWord)
        ensures
            word@ == self@.word,
    {
        self.word.clone()
    }

    /// The editor of the selected glyph, where one is selected.
    pub fn glyph_editor(&self) -> (glyph_editor: Option<GlyphEditor>)
        ensures
            glyph_editor == self@.glyph_editor,
    {
        self.glyph_editor
    }

    /// The index of the selected glyph, where one is selected.
    pub fn selected_glyph_index(&self) -> (index: Option<usize>)
        ensures
            index_view(index) == self@.selected_glyph_index,
    {
        self.selected_glyph_index
    }

    pub fn state(&self) -> (state: WordEditorState)
        ensures
            state == self@.state,
    {
        self.state
    }

    pub fn to_view(&self, params: WordViewParams) -> (view: WordView)
        ensures
            view@ == self@.to_view(params@),
    {
        let glyphs = self.word.glyphs();
        let mut glyph_views: Vec<GlyphView> = Vec::new();
        let mut glyph_index: usize = 0;

        while glyph_index < glyphs.len()
            invariant
                glyphs@ == self@.word.glyphs,
                glyph_index <= glyphs.len(),
                glyph_views@.len() == glyph_index,
                forall|earlier: int|
                    0 <= earlier < glyph_index ==> glyph_views@[earlier] == self@.glyph_view(
                        earlier,
                        params.selected,
                    ),
            decreases glyphs.len() - glyph_index,
        {
            let glyph = glyphs[glyph_index];
            let selected_glyph = match self.selected_glyph_index {
                Some(selected_glyph_index) => glyph_index == selected_glyph_index,
                None => false,
            };
            let glyph_view = if params.selected && selected_glyph {
                match self.glyph_editor {
                    Some(editor) => editor.to_view(true),
                    None => GlyphEditor::new(glyph).to_view(false),
                }
            } else {
                GlyphEditor::new(glyph).to_view(false)
            };
            glyph_views.push(glyph_view);
            glyph_index = glyph_index + 1;
        }
        assert(glyph_views@ =~= self@.to_view(params@).glyph_views);

        WordView {
            word: Word::from(self.word.clone()),
            glyph_views,
            selected: params.selected,
            index: params.index,
            within_visible_range: params.within_visible_range,
            definition: params.definition,
            state: self.state,
        }
    }

    fn with_event_applied_to_glyph_editor(self, event: EditorEvent) -> (editor: Self)
        ensures
            editor@ == self@.with_event_applied_to_glyph_editor(event@),
    {
        match self.glyph_editor {
            Some(glyph_editor) => {
                let glyph_editor = glyph_editor.apply(event);
                let mut glyphs = self.word.glyphs();

                match self.selected_glyph_index {
                    Some(index) => {
                        if index < glyphs.len() {
                            glyphs.set(index, glyph_editor.glyph);
                        }
                    },
                    None => {},
                }

                Self {
                    word: self.word.with_glyphs(glyphs),
                    glyph_editor: Some(glyph_editor),
                    ..self
                }
            },
            None => self,
        }
    }

    pub fn apply(self, event: EditorEvent) -> (editor: Self)
        ensures
            editor@ == self@.applied(event@),
    {
        match event {
            EditorEvent::MoveGlyphCursorBackward => self.with_glyph_selection_moved_backward(1),
            EditorEvent::MoveGlyphCursorForward => self.with_glyph_selection_moved_forward(1),
            EditorEvent::AddNewGlyphToTunicWordAtCursor => self.with_new_glyph_at_cursor(),
            EditorEvent::DeleteGlyphAtCursor => self.with_glyph_at_cursor_deleted(),
            EditorEvent::ToggleSegmentOnSelectedGlyph(segment) => {
                self.with_event_applied_to_glyph_editor(
                    EditorEvent::ToggleSegmentOnSelectedGlyph(segment),
                )
            },
            EditorEvent::ToggleSegmentsOnSelectedGlyph(segments) => {
                self.with_event_applied_to_glyph_editor(
                    EditorEvent::ToggleSegmentsOnSelectedGlyph(segments),
                )
            },
            _ => self,
        }
    }
}

/// A move forward from a selected index ends `amount` further on, held at
/// the number of glyphs: the append point can be reached. The word is the
/// same, and the glyph editor holds the glyph at the new index where there
/// is one.
pub proof fn lemma_forward_move_reaches_append_point(
    editor: TunicWordEditorModel,
    index: nat,
    amount: nat,
)
    requires
        editor.selected_glyph_index == Some(index),
    ensures
        ({
            let moved = editor.with_glyph_selection_moved_forward(amount);
            let count = editor.word.glyphs.len();
            let target = if index + amount <= count {
                index + amount
            } else {
                count
            };

            &&& moved.selected_glyph_index == Some(target)
            &&& moved.word == editor.word
            &&& moved.state == editor.state
            &&& moved.glyph_editor == if target < count {
                Some(GlyphEditor { glyph: editor.word.glyphs[target as int] })
            } else {
                None
            }
            &&& amount == 1 ==> editor.applied(EditorEventModel::MoveGlyphCursorForward) == moved
        }),
{
}

} // verus!
