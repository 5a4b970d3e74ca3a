use vstd::prelude::*;

use crate::editors::events::{EditorEvent, EditorEventModel};
use crate::editors::file_editors::{FileEditor, FileEditorModel, FileEditorState, FileEditorStateModel};
use crate::editors::notebook_editors::NotebookEditorState;
use crate::gui::{
    file_editor_action, on_file_editor_input, FileEditorAction, FileEditorActionModel, KeyInput,
};
use crate::language::dictionary::{Dictionary, DictionaryModel};
use crate::language::notebooks::{Notebook, NotebookModel};
use crate::language::snippets::{Snippet, SnippetModel};
use crate::renderers::file_editor_renderers::{file_editor_messages, render_file_editor_view_onto};
use crate::renderers::glyph_map_renderers::{
    invalid_index_description, renders_as, GlyphMap, GlyphMapModel, GlyphRenderError, Rendering,
};
use crate::renderers::notebook_editor_renderers::{
    first_selected_snippet, lemma_selected_snippet_keeps_size, notebook_commands, notebook_fits,
    render_notebook_on, selected_snippet_rendering,
};
use crate::renderers::{
    DrawCommand, DrawCommandModel, FILE_CONSOLE, NOTEBOOK_CONSOLE, SNIPPET_CONSOLE,
};
use crate::sequences::{lemma_views_push, views};
use crate::views::{FileEditorView, FileEditorViewModel, NotebookView, NotebookViewModel};

verus! {

/// Mathematical model of a [`FennecState`].
pub struct FennecStateModel {
    pub file_editor: FileEditorModel,
    pub dictionary: DictionaryModel,
}

/// The file that the notebook is kept in unless another is named.
pub open spec fn default_notebook_file() -> Seq<char> {
    "notebook.yaml"@
}

/// What a screen that cannot hold the notebook is answered with.
pub open spec fn does_not_fit_description() -> Seq<char> {
    "The notebook does not fit on the screen"@
}

impl FennecStateModel {
    /// The state that the program starts in: a notebook of one snippet,
    /// bound to the default file, after the event that confirms a load from
    /// that file, so that the first thing to happen is the attempt to load.
    pub open spec fn new(snippet: SnippetModel, dictionary: DictionaryModel) -> Self {
        FennecStateModel {
            file_editor: FileEditorModel::new(
                NotebookModel::of(seq![snippet]),
                default_notebook_file(),
            ).applied(EditorEventModel::ConfirmLoadFromFileRequest),
            dictionary,
        }
    }

    pub open spec fn next_action(self, input: KeyInput) -> FileEditorActionModel {
        file_editor_action(self.file_editor, input)
    }

    /// The state after `event`; `NoOp` is not even handed to the editors.
    pub open spec fn with_event(self, event: EditorEventModel) -> Self {
        if event is NoOp {
            self
        } else {
            FennecStateModel { file_editor: self.file_editor.applied(event), ..self }
        }
    }

    pub open spec fn view(self) -> FileEditorViewModel {
        self.file_editor.to_view(self.dictionary)
    }

    /// Whether what is to be drawn at `(1, 1)` fits the coordinates of the
    /// screen, for a map of the given size.
    pub open spec fn fits(self, map: GlyphMapModel) -> bool {
        &&& 1 + map.width <= u32::MAX
        &&& 1 + map.height <= u32::MAX
        &&& self.file_editor.state is Idle ==> notebook_fits(self.view().notebook_view, 1, 1)
    }

    /// What drawing does to the map: only the selected snippet of an idle
    /// editor that is edited is drawn on it.
    pub open spec fn rendering(self, map: GlyphMapModel) -> Rendering {
        if self.file_editor.state is Idle && self.view().notebook_view.state
            == NotebookEditorState::EditingSnippet {
            selected_snippet_rendering(map, self.view().notebook_view, 1, 1)
        } else {
            Rendering { map, failed_at: None }
        }
    }

    /// The commands that draw the state: the three consoles for text are
    /// cleared; an idle editor shows its notebook, any other state the
    /// message about the file; last comes the map, glyph by glyph.
    pub open spec fn commands(self, map: GlyphMapModel) -> Seq<DrawCommandModel> {
        seq![
            DrawCommandModel::ActivateAndClear { console: FILE_CONSOLE as nat },
            DrawCommandModel::ActivateAndClear { console: NOTEBOOK_CONSOLE as nat },
            DrawCommandModel::ActivateAndClear { console: SNIPPET_CONSOLE as nat },
        ] + (if self.file_editor.state is Idle {
            notebook_commands(self.view().notebook_view, 1, 1)
        } else {
            seq![DrawCommandModel::ActivateAndClear { console: FILE_CONSOLE as nat }]
                + file_editor_messages(self.view())
        }) + self.rendering(map).map.draw_commands(1, 1, 16)
    }
}

/// Everything that the program holds between two frames.
#[derive(Debug)]
pub struct FennecState {
    file_editor: FileEditor,
    dictionary: Dictionary,
}

impl View for FennecState {
    type V = FennecStateModel;

    closed spec fn view(&self) -> FennecStateModel {
        FennecStateModel { file_editor: self.file_editor@, dictionary: self.dictionary@ }
    }
}

impl FennecState {
    pub fn new(snippet: Snippet, dictionary: Dictionary) -> (state: Self)
        ensures
            state@ == FennecStateModel::new(snippet@, dictionary@),
    {
        let mut snippets: Vec<Snippet> = Vec::new();
        snippets.push(snippet);
        assert(views(snippets@) =~= seq![snippet@]);
        let notebook = Notebook::from(snippets);
        let file_editor = FileEditor::new(notebook, "notebook.yaml").apply(
            EditorEvent::ConfirmLoadFromFileRequest,
        );

        Self { file_editor, dictionary }
    }

    pub fn file_editor(&self) -> (file_editor: &FileEditor)
        ensures
            file_editor@ == self@.file_editor,
    {
        &self.file_editor
    }

    pub fn dictionary(&self) -> (dictionary: &Dictionary)
        ensures
            dictionary@ == self@.dictionary,
    {
        &self.dictionary
    }

    /// What is to happen next, given what the keyboard says.
    pub fn next_action(&self, input: KeyInput) -> (action: FileEditorAction)
        ensures
            action@ == self@.next_action(input),
    {
        on_file_editor_input(&self.file_editor, input)
    }

    pub fn with_event(self, event: EditorEvent) -> (state: Self)
        ensures
            state@ == self@.with_event(event@),
    {
        if event.is_no_op() {
            self
        } else {
            Self { file_editor: self.file_editor.apply(event), dictionary: self.dictionary }
        }
    }

    fn fits(view: &FileEditorView, map: &GlyphMap) -> (fits: bool)
        ensures
            fits == ({
                &&& 1 + map@.width <= u32::MAX
                &&& 1 + map@.height <= u32::MAX
                &&& view@.state is Idle ==> notebook_fits(view@.notebook_view, 1, 1)
            }),
    {
        if map.width == u32::MAX || map.height == u32::MAX {
            return false;
        }
        match view.state {
            FileEditorState::Idle => Self::notebook_fits(&view.notebook_view),
            _ => true,
        }
    }

    fn notebook_fits(view: &NotebookView) -> (fits: bool)
        ensures
            fits == notebook_fits(view@, 1, 1),
    {
        match view.state {
            NotebookEditorState::SelectingSnippet => view.snippet_views.len() <= 0x5555_5554,
            NotebookEditorState::EditingSnippet => {
                let mut index: usize = 0;

                while index < view.snippet_views.len()
                    invariant
                        index <= view.snippet_views.len(),
                        view.state == NotebookEditorState::EditingSnippet,
                        first_selected_snippet(view@.snippet_views, index as nat) is None,
                    decreases view.snippet_views.len() - index,
                {
                    let snippet_view = &view.snippet_views[index];
                    assert(snippet_view@ == view@.snippet_views[index as int]);
                    if snippet_view.selected {
                        proof {
                            crate::renderers::notebook_editor_renderers::lemma_first_selected_snippet_stays(
                                view@.snippet_views,
                                (index + 1) as nat,
                                view@.snippet_views.len(),
                            );
                        }
                        assert(snippet_view@.word_views.len() == snippet_view.word_views.len());
                        return snippet_view.word_views.len() <= 0x7fff_fffd;
                    }
                    index = index + 1;
                }

                true
            },
        }
    }

    /// Draws the state: onto `map` what is made of glyphs, and as commands
    /// everything, the glyphs of the map last. Fails where the notebook
    /// needs coordinates that the screen does not have or a glyph falls
    /// outside the map; the map then holds what was drawn before.
    pub fn render(&self, map: &mut GlyphMap) -> (outcome: Result<Vec<DrawCommand>, GlyphRenderError>)
        ensures
            old(map)@.width == final(map)@.width,
            old(map)@.height == final(map)@.height,
            match outcome {
                Ok(commands) => {
                    &&& self@.fits(old(map)@)
                    &&& renders_as(*final(map), Ok(()), self@.rendering(old(map)@))
                    &&& views(commands@) == self@.commands(old(map)@)
                },
                Err(error) => if self@.fits(old(map)@) {
                    renders_as(*final(map), Err(error), self@.rendering(old(map)@))
                } else {
                    final(map)@ == old(map)@ && error@ == does_not_fit_description()
                },
            },
    {
        let view = self.file_editor.to_view(&self.dictionary);
        proof {
            lemma_selected_snippet_keeps_size(map@, view@.notebook_view, 1, 1);
        }

        if !Self::fits(&view, map) {
            return Err(
                GlyphRenderError::new("The notebook does not fit on the screen".to_owned()),
            );
        }
        let mut commands: Vec<DrawCommand> = Vec::new();
        commands.push(DrawCommand::ActivateAndClear { console: FILE_CONSOLE });
        commands.push(DrawCommand::ActivateAndClear { console: NOTEBOOK_CONSOLE });
        commands.push(DrawCommand::ActivateAndClear { console: SNIPPET_CONSOLE });
        let ghost start = views(commands@);
        assert(start =~= seq![
            DrawCommandModel::ActivateAndClear { console: FILE_CONSOLE as nat },
            DrawCommandModel::ActivateAndClear { console: NOTEBOOK_CONSOLE as nat },
            DrawCommandModel::ActivateAndClear { console: SNIPPET_CONSOLE as nat },
        ]);

        let mut shown = match &view.state {
            FileEditorState::Idle => {
                match render_notebook_on(&view.notebook_view, &self.dictionary, map, 1, 1) {
                    Ok(shown) => shown,
                    Err(error) => {
                        return Err(error);
                    },
                }
            },
            _ => render_file_editor_view_onto(&view),
        };
        let ghost middle = views(shown@);
        commands.append(&mut shown);
        let mut glyphs = map.draw_on(1, 1);
        let ghost last = views(glyphs@);
        commands.append(&mut glyphs);
        assert(views(commands@) =~= start + middle + last);

        Ok(commands)
    }
}

} // verus!
