use vstd::prelude::*;

use crate::editors::events::{EditorEvent, EditorEventModel};
use crate::editors::snippet_editors::{
    lemma_events_keep_wf, lemma_new_editor_is_wf, lemma_unheeded_events_keep_snippet,
    SnippetEditor, SnippetEditorModel,
};
use crate::editors::word_editors::index_view;
use crate::language::dictionary::{Dictionary, DictionaryModel};
use crate::language::notebooks::{Notebook, NotebookModel};
use crate::language::snippets::{Snippet, SnippetModel};
use crate::sequences::{lemma_views_insert, lemma_views_push, lemma_views_update, views};
use crate::views::{NotebookView, NotebookViewModel, SnippetView, SnippetViewModel};

verus! {

/// Which snippets are shown and navigated. The filters are their own
/// mathematical model.
#[derive(Clone, Copy, Debug, PartialEq, Eq, Structural)]
pub struct NotebookEditorFilters {
    /// `Some(state)` keeps the snippets whose transcription state is
    /// `state`; `None` keeps all.
    pub has_been_transcribed: Option<bool>,
}

impl NotebookEditorFilters {
    pub open spec fn retains_model(self, snippet: SnippetModel) -> bool {
        match self.has_been_transcribed {
            Some(expected) => snippet.transcribed == expected,
            None => true,
        }
    }

    /// The filters with the transcription filter turned over; a filter that
    /// was off comes on for untranscribed snippets.
    pub open spec fn toggled(self) -> Self {
        NotebookEditorFilters {
            has_been_transcribed: match self.has_been_transcribed {
                Some(has_been) => Some(!has_been),
                None => Some(false),
            },
        }
    }

    pub fn retains(&self, snippet: &Snippet) -> (retained: bool)
        ensures
            retained == self.retains_model(snippet@),
    {
        match self.has_been_transcribed {
            Some(expected) => snippet.transcribed == expected,
            None => true,
        }
    }
}

/// Whether the keys move between snippets or edit the selected one.
#[derive(Clone, Copy, Debug, PartialEq, Eq, Structural)]
pub enum NotebookEditorState {
    EditingSnippet,
    SelectingSnippet,
}

/// The indices of the snippets that the filters retain, in order. The
/// position of an index in this sequence is the relative index of its
/// snippet.
pub open spec fn retained_indices(
    snippets: Seq<SnippetModel>,
    filters: NotebookEditorFilters,
) -> Seq<nat>
    decreases snippets.len(),
{
    if snippets.len() == 0 {
        Seq::empty()
    } else {
        let before = retained_indices(snippets.drop_last(), filters);

        if filters.retains_model(snippets.last()) {
            before.push((snippets.len() - 1) as nat)
        } else {
            before
        }
    }
}

/// How many of the snippets before `index` the filters retain.
pub open spec fn retained_before(
    snippets: Seq<SnippetModel>,
    filters: NotebookEditorFilters,
    index: int,
) -> nat {
    retained_indices(snippets.take(index), filters).len()
}

/// Mathematical model of a [`SnippetFiltrationOutcome`].
pub struct SnippetFiltrationOutcomeModel {
    pub snippet: SnippetModel,
    pub absolute_index: nat,
    pub relative_index: Option<nat>,
    pub retained: bool,
}

/// What the filters make of one snippet: whether it is retained and, if so,
/// the how-many-eth retained snippet it is.
#[derive(Debug)]
pub struct SnippetFiltrationOutcome {
    pub snippet: Snippet,
    pub absolute_index: usize,
    pub relative_index: Option<usize>,
    pub retained: bool,
}

impl View for SnippetFiltrationOutcome {
    type V = SnippetFiltrationOutcomeModel;

    open spec fn view(&self) -> SnippetFiltrationOutcomeModel {
        SnippetFiltrationOutcomeModel {
            snippet: self.snippet@,
            absolute_index: self.absolute_index as nat,
            relative_index: index_view(self.relative_index),
            retained: self.retained,
        }
    }
}

/// Mathematical model of a [`NotebookEditor`].
pub struct NotebookEditorModel {
    pub selected_notebook: NotebookModel,
    pub snippet_editor: Option<SnippetEditorModel>,
    pub selected_snippet_index: Option<nat>,
    pub state: NotebookEditorState,
    pub filters: NotebookEditorFilters,
}

impl NotebookEditorModel {
    /// The editor of `notebook`: nothing selected, ready to edit, showing
    /// the snippets that are not transcribed yet.
    pub open spec fn new(notebook: NotebookModel) -> Self {
        NotebookEditorModel {
            selected_notebook: notebook,
            snippet_editor: None,
            selected_snippet_index: None,
            state: NotebookEditorState::EditingSnippet,
            filters: NotebookEditorFilters { has_been_transcribed: Some(false) },
        }
    }

    pub open spec fn snippets(self) -> Seq<SnippetModel> {
        self.selected_notebook.snippets
    }

    pub open spec fn with_state(self, state: NotebookEditorState) -> Self {
        NotebookEditorModel { state, ..self }
    }

    pub open spec fn retained_indices(self) -> Seq<nat> {
        retained_indices(self.snippets(), self.filters)
    }

    pub open spec fn outcome(self, index: int) -> SnippetFiltrationOutcomeModel {
        let retained = self.filters.retains_model(self.snippets()[index]);

        SnippetFiltrationOutcomeModel {
            snippet: self.snippets()[index],
            absolute_index: index as nat,
            relative_index: if retained {
                Some(retained_before(self.snippets(), self.filters, index))
            } else {
                None
            },
            retained,
        }
    }

    /// One outcome for each snippet of the notebook, retained or not.
    pub open spec fn retained_snippet_outcomes(self) -> Seq<SnippetFiltrationOutcomeModel> {
        Seq::new(self.snippets().len(), |index: int| self.outcome(index))
    }

    /// Selects the snippet at `index` and opens a fresh editor on it. Where
    /// the notebook has no such snippet, nothing changes.
    pub open spec fn with_absolute_snippet_selected(self, index: nat) -> Self {
        if index < self.snippets().len() {
            NotebookEditorModel {
                snippet_editor: Some(SnippetEditorModel::new(self.snippets()[index as int])),
                selected_snippet_index: Some(index),
                ..self
            }
        } else {
            self
        }
    }

    /// Selects the `index`-th of the retained snippets. Where fewer are
    /// retained, nothing changes.
    pub open spec fn with_relative_snippet_selected(self, index: nat) -> Self {
        if index < self.retained_indices().len() {
            self.with_absolute_snippet_selected(self.retained_indices()[index as int])
        } else {
            self
        }
    }

    /// The relative index from which a move starts: that of the selected
    /// snippet (of the first snippet without a selection), or 0 where the
    /// filters do not retain it.
    pub open spec fn relative_index_of_selection(self) -> nat {
        let selected = match self.selected_snippet_index {
            Some(index) => index,
            None => 0,
        };

        if selected < self.snippets().len() && self.filters.retains_model(
            self.snippets()[selected as int],
        ) {
            retained_before(self.snippets(), self.filters, selected as int)
        } else {
            0
        }
    }

    /// Where a move among the retained snippets ends, as an index into the
    /// notebook: `amount` retained snippets further, held at the last and at
    /// the first one. 0 where the selection names no snippet or nothing is
    /// retained.
    pub open spec fn absolute_index_from_relative_move(self, forward: bool, amount: nat) -> nat {
        let selected = match self.selected_snippet_index {
            Some(index) => index,
            None => 0,
        };
        let relative = self.relative_index_of_selection();
        let count = self.retained_indices().len();
        let target: int = if forward {
            if relative + amount <= count - 1 {
                (relative + amount) as int
            } else {
                count - 1
            }
        } else {
            if relative >= amount {
                relative - amount
            } else {
                0
            }
        };

        if selected < self.snippets().len() && 0 <= target < count {
            self.retained_indices()[target]
        } else {
            0
        }
    }

    pub open spec fn with_snippet_selection_moved_forward(self, amount: nat) -> Self {
        self.with_absolute_snippet_selected(
            if self.selected_snippet_index is Some {
                self.absolute_index_from_relative_move(true, amount)
            } else {
                0
            },
        )
    }

    pub open spec fn with_snippet_selection_moved_backward(self, amount: nat) -> Self {
        self.with_absolute_snippet_selected(self.absolute_index_from_relative_move(false, amount))
    }

    /// Where a new snippet goes: just behind the selected one, or at the
    /// end without a selection or with one beyond the end.
    pub open spec fn insertion_point(self) -> nat {
        match self.selected_snippet_index {
            Some(index) => if index < self.snippets().len() {
                index + 1
            } else {
                self.snippets().len()
            },
            None => self.snippets().len(),
        }
    }

    /// Puts a starting snippet behind the selected one and selects the
    /// index behind the old selection (the last index without one). The
    /// filters are not asked.
    pub open spec fn with_new_snippet_at_cursor(self) -> Self {
        let snippets = self.snippets().insert(
            self.insertion_point() as int,
            SnippetModel::starting(),
        );

        NotebookEditorModel {
            selected_notebook: self.selected_notebook.with_snippets(snippets),
            ..self
        }.with_absolute_snippet_selected(
            match self.selected_snippet_index {
                Some(index) => index + 1,
                None => (snippets.len() - 1) as nat,
            },
        )
    }

    pub open spec fn with_has_been_transcribed_filter_toggled(self) -> Self {
        NotebookEditorModel { filters: self.filters.toggled(), ..self }
    }

    /// Hands `event` to the snippet editor and writes the snippet that
    /// comes back over the selected snippet of the notebook.
    pub open spec fn with_event_applied_to_snippet_editor(self, event: EditorEventModel) -> Self {
        match self.snippet_editor {
            Some(editor) => {
                let editor = editor.applied(event);
                let snippets = match self.selected_snippet_index {
                    Some(index) => if index < self.snippets().len() {
                        self.snippets().update(index as int, editor.selected_snippet)
                    } else {
                        self.snippets()
                    },
                    None => self.snippets(),
                };

                NotebookEditorModel {
                    selected_notebook: self.selected_notebook.with_snippets(snippets),
                    snippet_editor: Some(editor),
                    ..self
                }
            },
            None => self,
        }
    }

    /// The editor after `event`. The definition is hidden from proofs
    /// until it is revealed, so that the editors above can speak of it
    /// without unfolding it.
    #[verifier::opaque]
    pub open spec fn applied(self, event: EditorEventModel) -> Self {
        match event {
            EditorEventModel::EnableSnippetEditingMode => self.with_state(
                NotebookEditorState::EditingSnippet,
            ),
            EditorEventModel::EnableSnippetNavigationMode => self.with_state(
                NotebookEditorState::SelectingSnippet,
            ),
            EditorEventModel::MoveSnippetCursorBackward => {
                self.with_snippet_selection_moved_backward(1)
            },
            EditorEventModel::MoveSnippetCursorForward => {
                self.with_snippet_selection_moved_forward(1)
            },
            EditorEventModel::AddNewSnippetAtCursor => self.with_new_snippet_at_cursor(),
            EditorEventModel::ToggleHasBeenTranscribedFilter => {
                self.with_has_been_transcribed_filter_toggled().with_relative_snippet_selected(0)
            },
            _ => self.with_event_applied_to_snippet_editor(event),
        }
    }

    /// How the retained snippet at `index` is shown: through the snippet
    /// editor, as selected, where it is the selected snippet; as an
    /// unselected snippet otherwise.
    pub open spec fn snippet_view(self, index: nat, dictionary: DictionaryModel) -> SnippetViewModel {
        let snippet = self.snippets()[index as int];

        if self.selected_snippet_index == Some(index) {
            match self.snippet_editor {
                Some(editor) => editor.to_view(true, true, dictionary),
                None => SnippetEditorModel::new(snippet).to_view(false, true, dictionary),
            }
        } else {
            SnippetEditorModel::new(snippet).to_view(false, true, dictionary)
        }
    }

    /// The views of the retained snippets, in order.
    pub open spec fn to_view(self, dictionary: DictionaryModel) -> NotebookViewModel {
        NotebookViewModel {
            state: self.state,
            snippet_views: self.retained_indices().map_values(
                |index: nat| self.snippet_view(index, dictionary),
            ),
        }
    }

    /// Something is selected exactly when there is a snippet editor; the
    /// selection then names a snippet of the notebook, and the snippet editor
    /// is a well-formed editor of that snippet whose word editor holds the
    /// word under its cursor.
    pub open spec fn wf(self) -> bool {
        match self.selected_snippet_index {
            Some(index) => index < self.snippets().len() && (self.snippet_editor matches Some(
                editor,
            ) && editor.wf() && editor.is_synchronized() && editor.selected_snippet
                == self.snippets()[index as int]),
            None => self.snippet_editor is None,
        }
    }
}

/// The retained indices of a longer notebook start with those of a shorter
/// one that it extends.
pub proof fn lemma_retained_indices_of_prefix(
    snippets: Seq<SnippetModel>,
    filters: NotebookEditorFilters,
    length: int,
)
    requires
        0 <= length <= snippets.len(),
    ensures
        retained_indices(snippets.take(length), filters).len() <= retained_indices(
            snippets,
            filters,
        ).len(),
        retained_indices(snippets.take(length), filters) == retained_indices(
            snippets,
            filters,
        ).take(retained_indices(snippets.take(length), filters).len() as int),
    decreases snippets.len(),
{
    if length == snippets.len() {
        assert(snippets.take(length) =~= snippets);
        assert(retained_indices(snippets, filters).take(
            retained_indices(snippets, filters).len() as int,
        ) =~= retained_indices(snippets, filters));
    } else {
        lemma_retained_indices_of_prefix(snippets.drop_last(), filters, length);
        assert(snippets.drop_last().take(length) =~= snippets.take(length));
        let shorter = retained_indices(snippets.take(length), filters);
        let before = retained_indices(snippets.drop_last(), filters);
        assert(before.push((snippets.len() - 1) as nat).take(shorter.len() as int) =~= before.take(
            shorter.len() as int,
        ));
    }
}

/// What one more snippet adds to the retained indices.
pub proof fn lemma_retained_indices_step(
    snippets: Seq<SnippetModel>,
    filters: NotebookEditorFilters,
    index: int,
)
    requires
        0 <= index < snippets.len(),
    ensures
        retained_indices(snippets.take(index + 1), filters) == if filters.retains_model(
            snippets[index],
        ) {
            retained_indices(snippets.take(index), filters).push(index as nat)
        } else {
            retained_indices(snippets.take(index), filters)
        },
{
    assert(snippets.take(index + 1).drop_last() =~= snippets.take(index));
    assert(snippets.take(index + 1).last() == snippets[index]);
}

/// The relative index of a retained snippet is its rank among the retained
/// snippets: it is the position at which the snippet's index stands in the
/// sequence of retained indices.
pub proof fn lemma_relative_index_is_rank(
    snippets: Seq<SnippetModel>,
    filters: NotebookEditorFilters,
    index: int,
)
    requires
        0 <= index < snippets.len(),
        filters.retains_model(snippets[index]),
    ensures
        retained_before(snippets, filters, index) < retained_indices(snippets, filters).len(),
        retained_indices(snippets, filters)[retained_before(snippets, filters, index) as int]
            == index,
{
    lemma_retained_indices_step(snippets, filters, index);
    lemma_retained_indices_of_prefix(snippets, filters, index + 1);
    let longer = retained_indices(snippets.take(index + 1), filters);
    let rank = retained_before(snippets, filters, index);
    assert(longer[rank as int] == index);
    assert(retained_indices(snippets, filters).take(longer.len() as int)[rank as int] == index);
}

/// Every retained index names a retained snippet whose relative index is
/// the position of the index.
pub proof fn lemma_retained_index_names_retained_snippet(
    snippets: Seq<SnippetModel>,
    filters: NotebookEditorFilters,
    position: int,
)
    requires
        0 <= position < retained_indices(snippets, filters).len(),
    ensures
        retained_indices(snippets, filters)[position] < snippets.len(),
        filters.retains_model(snippets[retained_indices(snippets, filters)[position] as int]),
        retained_before(snippets, filters, retained_indices(snippets, filters)[position] as int)
            == position,
    decreases snippets.len(),
{
    let before = retained_indices(snippets.drop_last(), filters);
    if position < before.len() {
        lemma_retained_index_names_retained_snippet(snippets.drop_last(), filters, position);
        let index = before[position] as int;
        assert(snippets.drop_last().take(index) =~= snippets.take(index));
    } else {
        assert(snippets.take(snippets.len() - 1) =~= snippets.drop_last());
    }
}

/// Among retained snippets, a later one has the larger relative index.
pub proof fn lemma_relative_indices_increase(
    snippets: Seq<SnippetModel>,
    filters: NotebookEditorFilters,
    earlier: int,
    later: int,
)
    requires
        0 <= earlier < later < snippets.len(),
        filters.retains_model(snippets[earlier]),
        filters.retains_model(snippets[later]),
    ensures
        retained_before(snippets, filters, earlier) < retained_before(snippets, filters, later),
{
    lemma_retained_indices_step(snippets, filters, earlier);
    lemma_retained_indices_of_prefix(snippets.take(later), filters, earlier + 1);
    assert(snippets.take(later).take(earlier + 1) =~= snippets.take(earlier + 1));
}

/// What a list of outcomes that was made for `editor` holds at `position`.
proof fn lemma_outcome_at(
    editor: NotebookEditorModel,
    outcomes: Seq<SnippetFiltrationOutcome>,
    position: int,
)
    requires
        views(outcomes) == editor.retained_snippet_outcomes(),
        0 <= position < outcomes.len(),
    ensures
        outcomes.len() == editor.snippets().len(),
        outcomes[position]@ == editor.outcome(position),
{
    assert(views(outcomes).len() == outcomes.len());
    assert(editor.retained_snippet_outcomes().len() == editor.snippets().len());
    assert(views(outcomes)[position] == outcomes[position]@);
    assert(editor.retained_snippet_outcomes()[position] == editor.outcome(position));
}

/// A list of outcomes that was made for `editor` has one outcome for each
/// snippet.
proof fn lemma_outcomes_len(editor: NotebookEditorModel, outcomes: Seq<SnippetFiltrationOutcome>)
    requires
        views(outcomes) == editor.retained_snippet_outcomes(),
    ensures
        outcomes.len() == editor.snippets().len(),
{
    assert(views(outcomes).len() == outcomes.len());
    assert(editor.retained_snippet_outcomes().len() == editor.snippets().len());
}

/// Edits a notebook: which snippet is selected, which snippets the filters
/// show, and the snippets themselves.
#[derive(Debug)]
pub struct NotebookEditor {
    selected_notebook: Notebook,
    snippet_editor: Option<SnippetEditor>,
    selected_snippet_index: Option<usize>,
    state: NotebookEditorState,
    filters: NotebookEditorFilters,
}

/// The model of a snippet editor that may be missing.
pub open spec fn snippet_editor_view(editor: Option<SnippetEditor>) -> Option<SnippetEditorModel> {
    match editor {
        Some(editor) => Some(editor@),
        None => None,
    }
}

/// Indices as mathematical integers.
pub open spec fn indices_view(indices: Seq<usize>) -> Seq<nat> {
    Seq::new(indices.len(), |i: int| indices[i] as nat)
}

impl View for NotebookEditor {
    type V = NotebookEditorModel;

    closed spec fn view(&self) -> NotebookEditorModel {
        NotebookEditorModel {
            selected_notebook: self.selected_notebook@,
            snippet_editor: snippet_editor_view(self.snippet_editor),
            selected_snippet_index: index_view(self.selected_snippet_index),
            state: self.state,
            filters: self.filters,
        }
    }
}

impl Clone for NotebookEditor {
    fn clone(&self) -> (copy: Self)
        ensures
            copy@ == self@,
    {
        proof {
            use_type_invariant(self);
        }
        let snippet_editor = match &self.snippet_editor {
            Some(editor) => Some(editor.clone()),
            None => None,
        };

        Self {
            selected_notebook: self.selected_notebook.clone(),
            snippet_editor,
            selected_snippet_index: self.selected_snippet_index,
            state: self.state,
            filters: self.filters,
        }
    }
}

impl NotebookEditor {
    #[verifier::type_invariant]
    spec fn well_formed(self) -> bool {
        self@.wf()
    }

    pub fn new(notebook: Notebook) -> (editor: Self)
        ensures
            editor@ == NotebookEditorModel::new(notebook@),
            editor@.wf(),
    {
        let filters = NotebookEditorFilters { has_been_transcribed: Some(false) };

        Self {
            selected_notebook: notebook,
            snippet_editor: None,
            selected_snippet_index: None,
            state: NotebookEditorState::EditingSnippet,
            filters,
        }
    }

    pub fn state(&self) -> (state: NotebookEditorState)
        ensures
            state == self@.state,
    {
        self.state
    }

    pub fn filters(&self) -> (filters: NotebookEditorFilters)
        ensures
            filters == self@.filters,
    {
        self.filters
    }

    /// The index of the selected snippet in the notebook.
    pub fn selected_snippet_index(&self) -> (index: Option<usize>)
        ensures
            index_view(index) == self@.selected_snippet_index,
            self@.wf(),
    {
        proof {
            use_type_invariant(self);
        }
        self.selected_snippet_index
    }

    /// Asks `callback` what to do with this editor.
    pub fn on_input<F: Fn(&NotebookEditor) -> EditorEvent>(&self, callback: F) -> (event:
        EditorEvent)
        requires
            call_requires(callback, (self,)),
        ensures
            call_ensures(callback, (self,), event),
    {
        callback(self)
    }

    /// Asks `callback` what to do with the snippet editor; `NoOp` where
    /// there is none.
    pub fn on_snippet_editor_input<F: Fn(&SnippetEditor) -> EditorEvent>(&self, callback: F) -> (event:
        EditorEvent)
        requires
            forall|editor: &SnippetEditor| call_requires(callback, (editor,)),
        ensures
            match self@.snippet_editor {
                Some(model) => exists|editor: &SnippetEditor|
                    editor@ == model && call_ensures(callback, (editor,), event),
                None => event@ is NoOp,
            },
    {
        match &self.snippet_editor {
            Some(editor) => editor.on_input(callback),
            None => EditorEvent::NoOp,
        }
    }

    /// The snippet editor, to read from.
    pub fn snippet_editor(&self) -> (snippet_editor: Option<&SnippetEditor>)
        ensures
            match snippet_editor {
                Some(editor) => self@.snippet_editor == Some(editor@),
                None => self@.snippet_editor is None,
            },
    {
        self.snippet_editor.as_ref()
    }

    /// Hands the view of the notebook to `renderer`, with 0 as the place to
    /// start from.
    pub fn render_with<R: FnOnce(NotebookView, usize)>(&self, dictionary: &Dictionary, renderer: R)
        requires
            forall|view: NotebookView|
                view@ == self@.to_view(dictionary@) ==> call_requires(renderer, (view, 0usize)),
        ensures
            exists|view: NotebookView|
                view@ == self@.to_view(dictionary@) && call_ensures(renderer, (view, 0usize), ()),
    {
        let view = self.to_view(dictionary);
        renderer(view, 0);
        assert(view@ == self@.to_view(dictionary@) && call_ensures(renderer, (view, 0usize), ()));
    }

    pub fn with_state(self, state: NotebookEditorState) -> (editor: Self)
        ensures
            editor@ == self@.with_state(state),
            editor@.wf(),
    {
        proof {
            use_type_invariant(&self);
        }
        Self { state, ..self }
    }

    pub fn with_relative_snippet_selected(self, index: usize) -> (editor: Self)
        ensures
            editor@ == self@.with_relative_snippet_selected(index as nat),
            editor@.wf(),
    {
        proof {
            use_type_invariant(&self);
        }
        let outcomes = self.retained_snippet_outcomes();
        let mut position: usize = 0;

        while position < outcomes.len()
            invariant
                position <= outcomes.len(),
                views(outcomes@) == self@.retained_snippet_outcomes(),
                forall|earlier: int|
                    0 <= earlier < position ==> !((#[trigger] self@.outcome(earlier)).retained
                        && self@.outcome(earlier).relative_index == Some(index as nat)),
            decreases outcomes.len() - position,
        {
            let outcome = &outcomes[position];
            proof {
                lemma_outcome_at(self@, outcomes@, position as int);
            }
            let found = outcome.retained && match outcome.relative_index {
                Some(relative) => relative == index,
                None => false,
            };
            if found {
                let new_index = outcome.absolute_index;
                proof {
                    lemma_relative_index_is_rank(
                        self@.snippets(),
                        self@.filters,
                        new_index as int,
                    );
                }
                return self.with_absolute_snippet_selected(new_index);
            }
            position = position + 1;
        }
        proof {
            lemma_outcomes_len(self@, outcomes@);
            if (index as nat) < self@.retained_indices().len() {
                lemma_retained_index_names_retained_snippet(
                    self@.snippets(),
                    self@.filters,
                    index as int,
                );
                let absolute = self@.retained_indices()[index as int] as int;
                assert(self@.outcome(absolute).retained);
            }
        }

        self
    }

    pub fn with_absolute_snippet_selected(self, index: usize) -> (editor: Self)
        ensures
            editor@ == self@.with_absolute_snippet_selected(index as nat),
            editor@.wf(),
    {
        proof {
            use_type_invariant(&self);
            lemma_selection_keeps_wf(self@, index as nat);
        }
        if index < self.selected_notebook.snippets.len() {
            let editor = SnippetEditor::new(self.selected_notebook.snippets[index].clone());

            Self { snippet_editor: Some(editor), selected_snippet_index: Some(index), ..self }
        } else {
            self
        }
    }

    /// For every snippet of the notebook, in order: whether the filters
    /// retain it and, if so, its relative index.
    pub fn retained_snippet_outcomes(&self) -> (outcomes: Vec<SnippetFiltrationOutcome>)
        ensures
            views(outcomes@) == self@.retained_snippet_outcomes(),
    {
        let snippets = &self.selected_notebook.snippets;
        let mut outcomes: Vec<SnippetFiltrationOutcome> = Vec::new();
        let mut relative_index: usize = 0;
        let mut absolute_index: usize = 0;

        while absolute_index < snippets.len()
            invariant
                snippets == &self.selected_notebook.snippets,
                absolute_index <= snippets.len(),
                relative_index <= absolute_index,
                relative_index == retained_before(
                    self@.snippets(),
                    self@.filters,
                    absolute_index as int,
                ),
                outcomes@.len() == absolute_index,
                forall|earlier: int|
                    0 <= earlier < absolute_index ==> (#[trigger] outcomes@[earlier])@
                        == self@.outcome(earlier),
            decreases snippets.len() - absolute_index,
        {
            let snippet = &snippets[absolute_index];
            let retained = self.filters.retains(snippet);
            let current_relative_index = if retained {
                Some(relative_index)
            } else {
                None
            };
            proof {
                lemma_retained_indices_step(
                    self@.snippets(),
                    self@.filters,
                    absolute_index as int,
                );
            }
            if retained {
                relative_index = relative_index + 1;
            }
            outcomes.push(
                SnippetFiltrationOutcome {
                    snippet: snippet.clone(),
                    absolute_index,
                    relative_index: current_relative_index,
                    retained,
                },
            );
            absolute_index = absolute_index + 1;
        }
        assert(views(outcomes@) =~= self@.retained_snippet_outcomes());

        outcomes
    }

    /// The indices of the retained snippets, in order.
    fn retained_indices(&self, outcomes: &Vec<SnippetFiltrationOutcome>) -> (indices: Vec<usize>)
        requires
            views(outcomes@) == self@.retained_snippet_outcomes(),
        ensures
            indices_view(indices@) == self@.retained_indices(),
    {
        let mut indices: Vec<usize> = Vec::new();
        let mut position: usize = 0;

        while position < outcomes.len()
            invariant
                position <= outcomes.len(),
                views(outcomes@) == self@.retained_snippet_outcomes(),
                indices_view(indices@) == retained_indices(
                    self@.snippets().take(position as int),
                    self@.filters,
                ),
            decreases outcomes.len() - position,
        {
            let outcome = &outcomes[position];
            proof {
                lemma_outcome_at(self@, outcomes@, position as int);
                lemma_retained_indices_step(self@.snippets(), self@.filters, position as int);
            }
            if outcome.retained {
                indices.push(outcome.absolute_index);
                assert(indices_view(indices@) =~= retained_indices(
                    self@.snippets().take(position as int),
                    self@.filters,
                ).push(position as nat));
            }
            position = position + 1;
        }
        proof {
            lemma_outcomes_len(self@, outcomes@);
        }
        assert(self@.snippets().take(position as int) =~= self@.snippets());

        indices
    }

    /// Where a move by `amount` retained snippets ends, forward or
    /// backward, as an index into the notebook.
    fn absolute_index_from_relative_move(
        &self,
        outcomes: &Vec<SnippetFiltrationOutcome>,
        forward: bool,
        amount: usize,
    ) -> (index: usize)
        requires
            views(outcomes@) == self@.retained_snippet_outcomes(),
        ensures
            index == self@.absolute_index_from_relative_move(forward, amount as nat),
    {
        let selected_snippet_index = match self.selected_snippet_index {
            Some(index) => index,
            None => 0,
        };

        proof {
            lemma_outcomes_len(self@, outcomes@);
        }
        if selected_snippet_index < outcomes.len() {
            let outcome = &outcomes[selected_snippet_index];
            proof {
                lemma_outcome_at(self@, outcomes@, selected_snippet_index as int);
            }
            let relative_index = match outcome.relative_index {
                Some(index) => index,
                None => 0,
            };
            let indices = self.retained_indices(outcomes);
            let count = indices.len();
            assert(count == self@.retained_indices().len());

            if count == 0 {
                return 0;
            }
            let new_relative_index = if forward {
                if relative_index <= count - 1 && amount <= count - 1 - relative_index {
                    relative_index + amount
                } else {
                    count - 1
                }
            } else {
                if relative_index >= amount {
                    relative_index - amount
                } else {
                    0
                }
            };

            if new_relative_index < count {
                assert(indices_view(indices@)[new_relative_index as int]
                    == indices@[new_relative_index as int]);
                indices[new_relative_index]
            } else {
                0
            }
        } else {
            0
        }
    }

    pub fn with_snippet_selection_moved_forward(self, amount: usize) -> (editor: Self)
        ensures
            editor@ == self@.with_snippet_selection_moved_forward(amount as nat),
            editor@.wf(),
    {
        proof {
            use_type_invariant(&self);
        }
        let new_index = match self.selected_snippet_index {
            Some(_) => {
                let outcomes = self.retained_snippet_outcomes();
                self.absolute_index_from_relative_move(&outcomes, true, amount)
            },
            None => 0,
        };

        self.with_absolute_snippet_selected(new_index)
    }

    pub fn with_snippet_selection_moved_backward(self, amount: usize) -> (editor: Self)
        ensures
            editor@ == self@.with_snippet_selection_moved_backward(amount as nat),
            editor@.wf(),
    {
        proof {
            use_type_invariant(&self);
        }
        let outcomes = self.retained_snippet_outcomes();
        let new_index = self.absolute_index_from_relative_move(&outcomes, false, amount);

        self.with_absolute_snippet_selected(new_index)
    }

    pub fn with_new_snippet_at_cursor(self) -> (editor: Self)
        ensures
            editor@ == self@.with_new_snippet_at_cursor(),
            editor@.wf(),
    {
        proof {
            use_type_invariant(&self);
            lemma_new_snippet_keeps_wf(self@);
        }
        let mut notebook = self.selected_notebook;
        let new_snippet = Snippet::starting_snippet();
        let count = notebook.snippets.len();

        let position = match self.selected_snippet_index {
            Some(selected_snippet_index) => {
                if selected_snippet_index < count {
                    selected_snippet_index + 1
                } else {
                    count
                }
            },
            None => count,
        };
        proof {
            lemma_views_insert(notebook.snippets@, position as int, new_snippet);
        }
        notebook.snippets.insert(position, new_snippet);

        let editor = Self {
            selected_notebook: notebook,
            snippet_editor: self.snippet_editor,
            selected_snippet_index: self.selected_snippet_index,
            state: self.state,
            filters: self.filters,
        };

        match self.selected_snippet_index {
            Some(selected_snippet_index) => {
                if selected_snippet_index < usize::MAX {
                    editor.with_absolute_snippet_selected(selected_snippet_index + 1)
                } else {
                    editor
                }
            },
            None => {
                let last = editor.selected_notebook.snippets.len() - 1;
                editor.with_absolute_snippet_selected(last)
            },
        }
    }

    pub fn with_has_been_transcribed_filter_toggled(self) -> (editor: Self)
        ensures
            editor@ == self@.with_has_been_transcribed_filter_toggled(),
            editor@.wf(),
    {
        proof {
            use_type_invariant(&self);
        }
        let has_been_transcribed = match self.filters.has_been_transcribed {
            Some(has_been) => Some(!has_been),
            None => Some(false),
        };

        Self { filters: NotebookEditorFilters { has_been_transcribed }, ..self }
    }

    fn snippet_view(&self, index: usize, dictionary: &Dictionary) -> (view: SnippetView)
        requires
            index < self@.snippets().len(),
        ensures
            view@ == self@.snippet_view(index as nat, dictionary@),
    {
        let snippet = &self.selected_notebook.snippets[index];
        let selected = match self.selected_snippet_index {
            Some(selected_snippet_index) => index == selected_snippet_index,
            None => false,
        };

        if selected {
            match &self.snippet_editor {
                Some(editor) => editor.to_view(true, true, dictionary),
                None => SnippetEditor::new(snippet.clone()).to_view(false, true, dictionary),
            }
        } else {
            SnippetEditor::new(snippet.clone()).to_view(false, true, dictionary)
        }
    }

    pub fn to_view(&self, dictionary: &Dictionary) -> (view: NotebookView)
        ensures
            view@ == self@.to_view(dictionary@),
    {
        let snippets = &self.selected_notebook.snippets;
        let mut snippet_views: Vec<SnippetView> = Vec::new();
        let mut index: usize = 0;

        while index < snippets.len()
            invariant
                snippets == &self.selected_notebook.snippets,
                index <= snippets.len(),
                views(snippet_views@) == retained_indices(
                    self@.snippets().take(index as int),
                    self@.filters,
                ).map_values(|retained: nat| self@.snippet_view(retained, dictionary@)),
            decreases snippets.len() - index,
        {
            proof {
                lemma_retained_indices_step(self@.snippets(), self@.filters, index as int);
            }
            if self.filters.retains(&snippets[index]) {
                let view = self.snippet_view(index, dictionary);
                proof {
                    lemma_views_push(snippet_views@, view);
                }
                snippet_views.push(view);
                assert(views(snippet_views@) =~= retained_indices(
                    self@.snippets().take(index + 1),
                    self@.filters,
                ).map_values(|retained: nat| self@.snippet_view(retained, dictionary@)));
            }
            index = index + 1;
        }
        assert(self@.snippets().take(index as int) =~= self@.snippets());

        NotebookView { state: self.state, snippet_views }
    }

    pub fn to_source(&self) -> (notebook: Notebook)
        ensures
            notebook@ == self@.selected_notebook,
    {
        self.selected_notebook.clone()
    }

    pub fn with_event_applied_to_snippet_editor(self, event: EditorEvent) -> (editor: Self)
        ensures
            editor@ == self@.with_event_applied_to_snippet_editor(event@),
            editor@.wf(),
    {
        proof {
            use_type_invariant(&self);
            lemma_events_keep_notebook_wf(self@, event@);
        }
        match self.snippet_editor {
            Some(editor) => {
                let snippet_editor = editor.apply(event);
                let mut notebook = self.selected_notebook;

                match self.selected_snippet_index {
                    Some(index) => {
                        if index < notebook.snippets.len() {
                            let snippet = snippet_editor.selected_snippet();
                            proof {
                                lemma_views_update(notebook.snippets@, index as int, snippet);
                            }
                            notebook.snippets.set(index, snippet);
                        }
                    },
                    None => {},
                }

                Self {
                    selected_notebook: notebook,
                    snippet_editor: Some(snippet_editor),
                    selected_snippet_index: self.selected_snippet_index,
                    state: self.state,
                    filters: self.filters,
                }
            },
            None => self,
        }
    }

    pub fn apply(self, event: EditorEvent) -> (editor: Self)
        ensures
            editor@ == self@.applied(event@),
            editor@.wf(),
    {
        proof {
            reveal(NotebookEditorModel::applied);
            use_type_invariant(&self);
        }
        match event {
            EditorEvent::EnableSnippetEditingMode => self.with_state(
                NotebookEditorState::EditingSnippet,
            ),
            EditorEvent::EnableSnippetNavigationMode => self.with_state(
                NotebookEditorState::SelectingSnippet,
            ),
            EditorEvent::MoveSnippetCursorBackward => self.with_snippet_selection_moved_backward(1),
            EditorEvent::MoveSnippetCursorForward => self.with_snippet_selection_moved_forward(1),
            EditorEvent::AddNewSnippetAtCursor => self.with_new_snippet_at_cursor(),
            EditorEvent::ToggleHasBeenTranscribedFilter => {
                self.with_has_been_transcribed_filter_toggled().with_relative_snippet_selected(0)
            },
            other => self.with_event_applied_to_snippet_editor(other),
        }
    }
}

/// A fresh editor is well formed, and every selection, every new snippet
/// and every change of mode or filter keeps a well-formed editor well
/// formed.
pub proof fn lemma_operations_keep_wf(editor: NotebookEditorModel, index: nat, amount: nat)
    requires
        editor.wf(),
    ensures
        NotebookEditorModel::new(editor.selected_notebook).wf(),
        editor.with_absolute_snippet_selected(index).wf(),
        editor.with_relative_snippet_selected(index).wf(),
        editor.with_snippet_selection_moved_forward(amount).wf(),
        editor.with_snippet_selection_moved_backward(amount).wf(),
        editor.with_new_snippet_at_cursor().wf(),
        editor.with_has_been_transcribed_filter_toggled().wf(),
        editor.with_state(NotebookEditorState::SelectingSnippet).wf(),
        editor.with_state(NotebookEditorState::EditingSnippet).wf(),
{
    lemma_selection_keeps_wf(editor, index);
    if index < editor.retained_indices().len() {
        lemma_selection_keeps_wf(editor, editor.retained_indices()[index as int]);
    }
    lemma_selection_keeps_wf(editor, editor.absolute_index_from_relative_move(true, amount));
    lemma_selection_keeps_wf(editor, 0);
    lemma_selection_keeps_wf(editor, editor.absolute_index_from_relative_move(false, amount));
    lemma_new_snippet_keeps_wf(editor);
}

/// Selecting a snippet keeps the editor well formed.
pub proof fn lemma_selection_keeps_wf(editor: NotebookEditorModel, index: nat)
    requires
        editor.wf(),
    ensures
        editor.with_absolute_snippet_selected(index).wf(),
{
    if index < editor.snippets().len() {
        lemma_new_editor_is_wf(editor.snippets()[index as int]);
    }
}

/// A new snippet keeps the editor well formed.
pub proof fn lemma_new_snippet_keeps_wf(editor: NotebookEditorModel)
    requires
        editor.wf(),
    ensures
        editor.with_new_snippet_at_cursor().wf(),
        (NotebookEditorModel {
            selected_notebook: editor.selected_notebook.with_snippets(
                editor.snippets().insert(editor.insertion_point() as int, SnippetModel::starting()),
            ),
            ..editor
        }).wf(),
{
    let inserted = NotebookEditorModel {
        selected_notebook: editor.selected_notebook.with_snippets(
            editor.snippets().insert(editor.insertion_point() as int, SnippetModel::starting()),
        ),
        ..editor
    };
    assert(inserted.wf());
    match editor.selected_snippet_index {
        Some(index) => {
            lemma_selection_keeps_wf(inserted, index + 1);
        },
        None => {
            lemma_selection_keeps_wf(inserted, (inserted.snippets().len() - 1) as nat);
        },
    }
}

/// After every event a well-formed editor is well formed again: the
/// snippet editor still holds the selected snippet of the notebook.
pub proof fn lemma_events_keep_notebook_wf(editor: NotebookEditorModel, event: EditorEventModel)
    requires
        editor.wf(),
    ensures
        editor.applied(event).wf(),
        editor.with_event_applied_to_snippet_editor(event).wf(),
{
    reveal(NotebookEditorModel::applied);
    lemma_operations_keep_wf(editor, 0, 1);
    lemma_operations_keep_wf(editor.with_has_been_transcribed_filter_toggled(), 0, 1);
    match editor.snippet_editor {
        Some(snippet_editor) => {
            lemma_events_keep_wf(snippet_editor, event);
        },
        None => {},
    }
}

/// The outcomes of the filters give the retained snippets their ranks: the
/// relative index of a retained snippet is the number of retained snippets
/// before it, it names that snippet among the retained indices, and of two
/// retained snippets the later has the larger relative index. A snippet
/// that is not retained has no relative index.
pub proof fn lemma_outcomes_rank_retained_snippets(
    editor: NotebookEditorModel,
    earlier: int,
    later: int,
)
    requires
        0 <= earlier <= later < editor.snippets().len(),
    ensures
        editor.retained_snippet_outcomes().len() == editor.snippets().len(),
        editor.retained_snippet_outcomes()[later].absolute_index == later,
        editor.retained_snippet_outcomes()[later].snippet == editor.snippets()[later],
        editor.retained_snippet_outcomes()[later].retained == editor.filters.retains_model(
            editor.snippets()[later],
        ),
        !editor.retained_snippet_outcomes()[later].retained
            ==> editor.retained_snippet_outcomes()[later].relative_index is None,
        editor.retained_snippet_outcomes()[later].retained ==> (
        editor.retained_snippet_outcomes()[later].relative_index matches Some(rank) && rank
            < editor.retained_indices().len() && editor.retained_indices()[rank as int] == later),
        editor.retained_snippet_outcomes()[earlier].retained
            && editor.retained_snippet_outcomes()[later].retained && earlier < later ==> (
        editor.retained_snippet_outcomes()[earlier].relative_index matches Some(first)
            && editor.retained_snippet_outcomes()[later].relative_index matches Some(second)
            && first < second),
{
    let outcomes = editor.retained_snippet_outcomes();
    assert(outcomes[later] == editor.outcome(later));
    assert(outcomes[earlier] == editor.outcome(earlier));
    if outcomes[later].retained {
        lemma_relative_index_is_rank(editor.snippets(), editor.filters, later);
        if outcomes[earlier].retained && earlier < later {
            lemma_relative_indices_increase(editor.snippets(), editor.filters, earlier, later);
        }
    }
}

/// An event that neither the notebook editor nor any editor below it acts
/// on leaves the notebook of a well-formed editor as it is, and with it the
/// selection, the mode and the filters.
pub proof fn lemma_unheeded_events_keep_notebook(editor: NotebookEditorModel, event: EditorEventModel)
    requires
        editor.wf(),
        event.is_for_no_editor() || event.is_file_event(),
    ensures
        editor.applied(event).selected_notebook == editor.selected_notebook,
        editor.applied(event).selected_snippet_index == editor.selected_snippet_index,
        editor.applied(event).state == editor.state,
        editor.applied(event).filters == editor.filters,
{
    reveal(NotebookEditorModel::applied);
    match editor.snippet_editor {
        Some(snippet_editor) => {
            lemma_unheeded_events_keep_snippet(snippet_editor, event);
            let index = editor.selected_snippet_index->Some_0 as int;
            assert(editor.snippets().update(index, snippet_editor.selected_snippet)
                =~= editor.snippets());
        },
        None => {},
    }
}

} // verus!
