use vstd::prelude::*;

use crate::editors::events::{EditorEvent, EditorEventModel};
use crate::editors::notebook_editors::{NotebookEditor, NotebookEditorModel};
use crate::language::dictionary::{Dictionary, DictionaryModel};
use crate::language::notebooks::{Notebook, NotebookModel};
use crate::text::{debug_string, debug_text, joined};
use crate::views::{FileEditorView, FileEditorViewModel};

verus! {

/// What went wrong with a file.
#[derive(Clone, Copy, Debug, PartialEq, Eq, Structural)]
pub enum FileEditorErrorType {
    FileReadError,
    FileWriteError,
    ParsingError,
    Other,
}

impl FileEditorErrorType {
    /// The name of the kind of error.
    pub open spec fn name(self) -> Seq<char> {
        match self {
            FileEditorErrorType::FileReadError => "FileReadError"@,
            FileEditorErrorType::FileWriteError => "FileWriteError"@,
            FileEditorErrorType::ParsingError => "ParsingError"@,
            FileEditorErrorType::Other => "Other"@,
        }
    }

    pub fn to_string(&self) -> (name: String)
        ensures
            name@ == self.name(),
    {
        match self {
            FileEditorErrorType::FileReadError => "FileReadError".to_owned(),
            FileEditorErrorType::FileWriteError => "FileWriteError".to_owned(),
            FileEditorErrorType::ParsingError => "ParsingError".to_owned(),
            FileEditorErrorType::Other => "Other".to_owned(),
        }
    }
}

/// The text of an inner error, where there is one.
pub open spec fn text_view(text: Option<String>) -> Option<Seq<char>> {
    match text {
        Some(text) => Some(text@),
        None => None,
    }
}

/// Mathematical model of a [`FileEditorError`].
pub struct FileEditorErrorModel {
    pub description: Seq<char>,
    pub error_type: FileEditorErrorType,
    pub filename: Seq<char>,
    pub inner_error_description: Option<Seq<char>>,
}

impl FileEditorErrorModel {
    /// The error in three lines: kind and description, the file, and what
    /// the failed step said, with the two texts in quotes as they are
    /// given.
    pub open spec fn text_with(
        self,
        quoted_filename: Seq<char>,
        quoted_inner: Option<Seq<char>>,
    ) -> Seq<char> {
        "FileEditorError("@ + self.error_type.name() + "): "@ + self.description + "\nFile: "@
            + quoted_filename + "\nInner error: "@ + match quoted_inner {
            Some(inner) => "Some("@ + inner + ")"@,
            None => "None"@,
        }
    }

    /// The inner error as `Debug` writes it, where there is one.
    pub open spec fn quoted_inner(self) -> Option<Seq<char>> {
        match self.inner_error_description {
            Some(inner) => Some(debug_text(inner)),
            None => None,
        }
    }

    /// The error in three lines, with file name and inner error as `Debug`
    /// writes them.
    pub open spec fn text(self) -> Seq<char> {
        self.text_with(debug_text(self.filename), self.quoted_inner())
    }
}

/// A failed attempt to load or save, as the editor records it.
#[derive(Debug, PartialEq, Eq)]
pub struct FileEditorError {
    description: String,
    error_type: FileEditorErrorType,
    filename: String,
    inner_error_description: Option<String>,
}

impl View for FileEditorError {
    type V = FileEditorErrorModel;

    closed spec fn view(&self) -> FileEditorErrorModel {
        FileEditorErrorModel {
            description: self.description@,
            error_type: self.error_type,
            filename: self.filename@,
            inner_error_description: text_view(self.inner_error_description),
        }
    }
}

impl Clone for FileEditorError {
    fn clone(&self) -> (copy: Self)
        ensures
            copy@ == self@,
    {
        let inner_error_description = match &self.inner_error_description {
            Some(text) => Some(text.clone()),
            None => None,
        };

        Self {
            description: self.description.clone(),
            error_type: self.error_type,
            filename: self.filename.clone(),
            inner_error_description,
        }
    }
}

impl FileEditorError {
    pub fn new(
        description: String,
        error_type: FileEditorErrorType,
        filename: String,
        inner_error_description: Option<String>,
    ) -> (error: Self)
        ensures
            error@ == (FileEditorErrorModel {
                description: description@,
                error_type,
                filename: filename@,
                inner_error_description: text_view(inner_error_description),
            }),
    {
        Self { description, error_type, filename, inner_error_description }
    }

    /// The error as text, for the user to read.
    pub fn to_string(&self) -> (text: String)
        ensures
            text@ == self@.text(),
    {
        let quoted_filename = debug_string(self.filename.as_str());
        let quoted_inner = match &self.inner_error_description {
            Some(inner) => Some(debug_string(inner.as_str())),
            None => None,
        };

        self.to_string_with(quoted_filename.as_str(), quoted_inner)
    }

    /// The error as text, around a file name and an inner error that are
    /// in quotes already.
    pub fn to_string_with(&self, quoted_filename: &str, quoted_inner: Option<String>) -> (text:
        String)
        ensures
            text@ == self@.text_with(quoted_filename@, text_view(quoted_inner)),
    {
        let inner = match quoted_inner {
            Some(inner) => joined("Some(", inner.as_str()).concat(")"),
            None => "None".to_owned(),
        };

        joined("FileEditorError(", self.error_type.to_string().as_str()).concat("): ").concat(
            self.description.as_str(),
        ).concat("\nFile: ").concat(quoted_filename).concat("\nInner error: ").concat(
            inner.as_str(),
        )
    }

    pub fn description(&self) -> (description: String)
        ensures
            description@ == self@.description,
    {
        self.description.clone()
    }

    pub fn error_type(&self) -> (error_type: FileEditorErrorType)
        ensures
            error_type == self@.error_type,
    {
        self.error_type
    }

    pub fn filename(&self) -> (filename: String)
        ensures
            filename@ == self@.filename,
    {
        self.filename.clone()
    }

    pub fn inner_error_description(&self) -> (inner: Option<String>)
        ensures
            text_view(inner) == self@.inner_error_description,
    {
        match &self.inner_error_description {
            Some(text) => Some(text.clone()),
            None => None,
        }
    }
}

/// Mathematical model of a [`FileEditorState`].
pub enum FileEditorStateModel {
    Idle,
    ConfirmingSaveRequest,
    ConfirmingLoadRequest,
    SaveRequestConfirmed,
    LoadRequestConfirmed,
    SaveRequestSucceeded,
    LoadRequestSucceeded,
    SaveRequestFailed(FileEditorErrorModel),
    LoadRequestFailed(FileEditorErrorModel),
}

/// Where loading and saving stand. In `LoadRequestConfirmed` and
/// `SaveRequestConfirmed` the attempt itself is due: whoever drives the
/// editor makes it and reports how it ended. The usual way leads from idle
/// over a request and its confirmation to the attempt and its outcome, and
/// back to idle; the editor holds nobody to it.
#[derive(Debug, PartialEq, Eq)]
pub enum FileEditorState {
    Idle,
    ConfirmingSaveRequest,
    ConfirmingLoadRequest,
    SaveRequestConfirmed,
    LoadRequestConfirmed,
    SaveRequestSucceeded,
    LoadRequestSucceeded,
    SaveRequestFailed(FileEditorError),
    LoadRequestFailed(FileEditorError),
}

impl View for FileEditorState {
    type V = FileEditorStateModel;

    open spec fn view(&self) -> FileEditorStateModel {
        match self {
            FileEditorState::Idle => FileEditorStateModel::Idle,
            FileEditorState::ConfirmingSaveRequest => FileEditorStateModel::ConfirmingSaveRequest,
            FileEditorState::ConfirmingLoadRequest => FileEditorStateModel::ConfirmingLoadRequest,
            FileEditorState::SaveRequestConfirmed => FileEditorStateModel::SaveRequestConfirmed,
            FileEditorState::LoadRequestConfirmed => FileEditorStateModel::LoadRequestConfirmed,
            FileEditorState::SaveRequestSucceeded => FileEditorStateModel::SaveRequestSucceeded,
            FileEditorState::LoadRequestSucceeded => FileEditorStateModel::LoadRequestSucceeded,
            FileEditorState::SaveRequestFailed(error) => FileEditorStateModel::SaveRequestFailed(
                error@,
            ),
            FileEditorState::LoadRequestFailed(error) => FileEditorStateModel::LoadRequestFailed(
                error@,
            ),
        }
    }
}

impl Clone for FileEditorState {
    fn clone(&self) -> (copy: Self)
        ensures
            copy@ == self@,
    {
        match self {
            FileEditorState::Idle => FileEditorState::Idle,
            FileEditorState::ConfirmingSaveRequest => FileEditorState::ConfirmingSaveRequest,
            FileEditorState::ConfirmingLoadRequest => FileEditorState::ConfirmingLoadRequest,
            FileEditorState::SaveRequestConfirmed => FileEditorState::SaveRequestConfirmed,
            FileEditorState::LoadRequestConfirmed => FileEditorState::LoadRequestConfirmed,
            FileEditorState::SaveRequestSucceeded => FileEditorState::SaveRequestSucceeded,
            FileEditorState::LoadRequestSucceeded => FileEditorState::LoadRequestSucceeded,
            FileEditorState::SaveRequestFailed(error) => FileEditorState::SaveRequestFailed(
                error.clone(),
            ),
            FileEditorState::LoadRequestFailed(error) => FileEditorState::LoadRequestFailed(
                error.clone(),
            ),
        }
    }
}

/// Mathematical model of a [`FileEditor`].
pub struct FileEditorModel {
    pub notebook_editor: NotebookEditorModel,
    pub state: FileEditorStateModel,
    pub target_file: Seq<char>,
}

impl FileEditorModel {
    /// The editor of a notebook with its first snippet selected.
    pub open spec fn editor_of(notebook: NotebookModel) -> NotebookEditorModel {
        NotebookEditorModel::new(notebook).with_absolute_snippet_selected(0)
    }

    pub open spec fn new(notebook: NotebookModel, filename: Seq<char>) -> Self {
        FileEditorModel {
            notebook_editor: Self::editor_of(notebook),
            target_file: filename,
            state: FileEditorStateModel::Idle,
        }
    }

    /// Replaces the notebook as a whole: a fresh notebook editor, the first
    /// snippet selected.
    pub open spec fn with_notebook(self, notebook: NotebookModel) -> Self {
        FileEditorModel { notebook_editor: Self::editor_of(notebook), ..self }
    }

    pub open spec fn with_state(self, state: FileEditorStateModel) -> Self {
        FileEditorModel { state, ..self }
    }

    /// The state that a file event leads to, whatever the state before it;
    /// `None` for an event that is not the file editor's.
    pub open spec fn transition(event: EditorEventModel) -> Option<FileEditorStateModel> {
        match event {
            EditorEventModel::RequestLoadFromFile => Some(
                FileEditorStateModel::ConfirmingLoadRequest,
            ),
            EditorEventModel::RequestSaveToFile => Some(
                FileEditorStateModel::ConfirmingSaveRequest,
            ),
            EditorEventModel::ConfirmLoadFromFileRequest => Some(
                FileEditorStateModel::LoadRequestConfirmed,
            ),
            EditorEventModel::ConfirmSaveToFileRequest => Some(
                FileEditorStateModel::SaveRequestConfirmed,
            ),
            EditorEventModel::ReportLoadedFromFile(_) => Some(
                FileEditorStateModel::LoadRequestSucceeded,
            ),
            EditorEventModel::ReportSavedToFile => Some(FileEditorStateModel::SaveRequestSucceeded),
            EditorEventModel::ReportFailedToLoadFromFile(error) => Some(
                FileEditorStateModel::LoadRequestFailed(error),
            ),
            EditorEventModel::ReportFailedToSaveToFile(error) => Some(
                FileEditorStateModel::SaveRequestFailed(error),
            ),
            EditorEventModel::ResetFileEditorToIdle => Some(FileEditorStateModel::Idle),
            _ => None,
        }
    }

    /// The editor after `event`. A file event sets the state, in every
    /// state, and a loaded notebook takes the place of the old one; every
    /// other event goes to the notebook editor.
    pub open spec fn applied(self, event: EditorEventModel) -> Self {
        match Self::transition(event) {
            Some(state) => match event {
                EditorEventModel::ReportLoadedFromFile(notebook) => self.with_notebook(
                    notebook,
                ).with_state(state),
                _ => self.with_state(state),
            },
            None => FileEditorModel {
                notebook_editor: self.notebook_editor.applied(event),
                ..self
            },
        }
    }

    pub open spec fn to_view(self, dictionary: DictionaryModel) -> FileEditorViewModel {
        FileEditorViewModel {
            notebook_view: self.notebook_editor.to_view(dictionary),
            state: self.state,
            target_file: self.target_file,
        }
    }

    pub open spec fn to_source(self) -> NotebookModel {
        self.notebook_editor.selected_notebook
    }

    /// The notebook editor is well formed.
    pub open spec fn wf(self) -> bool {
        self.notebook_editor.wf()
    }
}

/// The model of a state that may be missing.
pub open spec fn state_view(state: Option<FileEditorState>) -> Option<FileEditorStateModel> {
    match state {
        Some(state) => Some(state@),
        None => None,
    }
}

/// The root of the editors: a notebook editor bound to the file that the
/// notebook is loaded from and saved to.
#[derive(Debug)]
pub struct FileEditor {
    notebook_editor: NotebookEditor,
    state: FileEditorState,
    target_file: String,
}

impl View for FileEditor {
    type V = FileEditorModel;

    closed spec fn view(&self) -> FileEditorModel {
        FileEditorModel {
            notebook_editor: self.notebook_editor@,
            state: self.state@,
            target_file: self.target_file@,
        }
    }
}

impl Clone for FileEditor {
    fn clone(&self) -> (copy: Self)
        ensures
            copy@ == self@,
    {
        Self {
            notebook_editor: self.notebook_editor.clone(),
            state: self.state.clone(),
            target_file: self.target_file.clone(),
        }
    }
}

impl FileEditor {
    pub fn new(notebook: Notebook, filename: &str) -> (editor: Self)
        ensures
            editor@ == FileEditorModel::new(notebook@, filename@),
    {
        Self {
            notebook_editor: NotebookEditor::new(notebook).with_absolute_snippet_selected(0),
            target_file: filename.to_owned(),
            state: FileEditorState::Idle,
        }
    }

    pub fn with_notebook(self, notebook: Notebook) -> (editor: Self)
        ensures
            editor@ == self@.with_notebook(notebook@),
    {
        let notebook_editor = NotebookEditor::new(notebook).with_absolute_snippet_selected(0);

        Self { notebook_editor, ..self }
    }

    pub fn state(&self) -> (state: FileEditorState)
        ensures
            state@ == self@.state,
    {
        self.state.clone()
    }

    pub fn target_file(&self) -> (target_file: String)
        ensures
            target_file@ == self@.target_file,
    {
        self.target_file.clone()
    }

    pub fn with_state(self, state: FileEditorState) -> (editor: Self)
        ensures
            editor@ == self@.with_state(state@),
    {
        Self { state, ..self }
    }

    /// Asks `callback` what to do with this editor.
    pub fn on_input<F: Fn(&FileEditor) -> EditorEvent>(&self, callback: F) -> (event: EditorEvent)
        requires
            call_requires(callback, (self,)),
        ensures
            call_ensures(callback, (self,), event),
    {
        callback(self)
    }

    /// Asks `callback` what to do with the notebook editor.
    pub fn on_notebook_editor_input<F: Fn(&NotebookEditor) -> EditorEvent>(
        &self,
        callback: F,
    ) -> (event: EditorEvent)
        requires
            forall|editor: &NotebookEditor| call_requires(callback, (editor,)),
        ensures
            exists|editor: &NotebookEditor|
                editor@ == self@.notebook_editor && call_ensures(callback, (editor,), event),
    {
        let event = self.notebook_editor.on_input(callback);
        proof {
            let editor = &self.notebook_editor;
            assert(editor@ == self@.notebook_editor && call_ensures(callback, (editor,), event));
        }

        event
    }

    /// Hands the view of the editor to `renderer` and passes on what it
    /// answers.
    pub fn render_with<R, E>(&self, dictionary: &Dictionary, renderer: R) -> (outcome: Result<(), E>)
        where
            R: FnOnce(FileEditorView) -> Result<(), E>,
        requires
            forall|view: FileEditorView|
                view@ == self@.to_view(dictionary@) ==> call_requires(renderer, (view,)),
        ensures
            exists|view: FileEditorView|
                view@ == self@.to_view(dictionary@) && call_ensures(renderer, (view,), outcome),
    {
        renderer(self.to_view(dictionary))
    }

    /// The notebook editor, to read from.
    pub fn notebook_editor(&self) -> (notebook_editor: &NotebookEditor)
        ensures
            notebook_editor@ == self@.notebook_editor,
    {
        &self.notebook_editor
    }

    pub fn to_view(&self, dictionary: &Dictionary) -> (view: FileEditorView)
        ensures
            view@ == self@.to_view(dictionary@),
    {
        FileEditorView {
            notebook_view: self.notebook_editor.to_view(dictionary),
            state: self.state.clone(),
            target_file: self.target_file.clone(),
        }
    }

    pub fn to_source(&self) -> (notebook: Notebook)
        ensures
            notebook@ == self@.to_source(),
    {
        self.notebook_editor.to_source()
    }

    fn forwarded(self, event: EditorEvent) -> (editor: Self)
        ensures
            editor@ == (FileEditorModel {
                notebook_editor: self@.notebook_editor.applied(event@),
                ..self@
            }),
    {
        let notebook_editor = self.notebook_editor.apply(event);

        Self { notebook_editor, ..self }
    }

    /// The state that a file event leads to, whatever the state before it;
    /// `None` for an event that is not the file editor's.
    pub fn transition(event: &EditorEvent) -> (next: Option<FileEditorState>)
        ensures
            state_view(next) == FileEditorModel::transition(event@),
    {
        match event {
            EditorEvent::RequestLoadFromFile => Some(FileEditorState::ConfirmingLoadRequest),
            EditorEvent::RequestSaveToFile => Some(FileEditorState::ConfirmingSaveRequest),
            EditorEvent::ConfirmLoadFromFileRequest => Some(FileEditorState::LoadRequestConfirmed),
            EditorEvent::ConfirmSaveToFileRequest => Some(FileEditorState::SaveRequestConfirmed),
            EditorEvent::ReportLoadedFromFile(_) => Some(FileEditorState::LoadRequestSucceeded),
            EditorEvent::ReportSavedToFile => Some(FileEditorState::SaveRequestSucceeded),
            EditorEvent::ReportFailedToLoadFromFile(error) => Some(
                FileEditorState::LoadRequestFailed(error.clone()),
            ),
            EditorEvent::ReportFailedToSaveToFile(error) => Some(
                FileEditorState::SaveRequestFailed(error.clone()),
            ),
            EditorEvent::ResetFileEditorToIdle => Some(FileEditorState::Idle),
            _ => None,
        }
    }

    pub fn apply(self, event: EditorEvent) -> (editor: Self)
        ensures
            editor@ == self@.applied(event@),
    {
        match Self::transition(&event) {
            Some(state) => match event {
                EditorEvent::ReportLoadedFromFile(notebook) => self.with_notebook(
                    notebook,
                ).with_state(state),
                _ => self.with_state(state),
            },
            None => self.forwarded(event),
        }
    }
}

/// Only the report of a loaded notebook replaces the notebook: every other
/// file event leaves notebook, notebook editor and target file as they are,
/// in every state.
pub proof fn lemma_transitions_keep_notebook(editor: FileEditorModel, event: EditorEventModel)
    requires
        FileEditorModel::transition(event) is Some,
        !(event is ReportLoadedFromFile),
    ensures
        editor.applied(event).notebook_editor == editor.notebook_editor,
        editor.applied(event).to_source() == editor.to_source(),
        editor.applied(event).target_file == editor.target_file,
{
}

/// A reset leads to idle from every state, and leaves everything else as
/// it is.
pub proof fn lemma_reset_leads_to_idle(editor: FileEditorModel)
    ensures
        editor.applied(EditorEventModel::ResetFileEditorToIdle) == editor.with_state(
            FileEditorStateModel::Idle,
        ),
        editor.applied(EditorEventModel::ResetFileEditorToIdle).state is Idle,
{
}

/// A notebook that is reported as loaded is taken in every state: it is
/// the notebook of the editor from then on, its first snippet is selected
/// where it has one, the load has succeeded, and the target file is the
/// same.
pub proof fn lemma_loaded_notebook_is_taken(editor: FileEditorModel, notebook: NotebookModel)
    ensures
        ({
            let loaded = editor.applied(EditorEventModel::ReportLoadedFromFile(notebook));

            &&& loaded.state is LoadRequestSucceeded
            &&& loaded.to_source() == notebook
            &&& loaded.target_file == editor.target_file
            &&& loaded.notebook_editor == FileEditorModel::editor_of(notebook)
            &&& loaded.notebook_editor.selected_snippet_index == if notebook.snippets.len() > 0 {
                Some(0nat)
            } else {
                None
            }
        }),
{
}

/// A load that is asked for, confirmed and then fails leaves the editor in
/// the failed state with the error that was reported, and a reset after
/// that leads to idle; notebook, notebook editor and target file are the
/// same after every step, whatever the state was at the start.
pub proof fn lemma_failed_load_keeps_notebook(editor: FileEditorModel, error: FileEditorErrorModel)
    ensures
        ({
            let asked = editor.applied(EditorEventModel::RequestLoadFromFile);
            let confirmed = asked.applied(EditorEventModel::ConfirmLoadFromFileRequest);
            let failed = confirmed.applied(EditorEventModel::ReportFailedToLoadFromFile(error));
            let reset = failed.applied(EditorEventModel::ResetFileEditorToIdle);

            &&& asked.state is ConfirmingLoadRequest
            &&& confirmed.state is LoadRequestConfirmed
            &&& failed.state == FileEditorStateModel::LoadRequestFailed(error)
            &&& reset.state is Idle
            &&& asked.with_state(editor.state) == editor
            &&& confirmed.with_state(editor.state) == editor
            &&& failed.with_state(editor.state) == editor
            &&& reset.with_state(editor.state) == editor
            &&& reset.to_source() == editor.to_source()
            &&& reset.target_file == editor.target_file
        }),
{
}

/// An event that no editor acts on leaves the notebook and the target file
/// of a well-formed file editor as they are.
pub proof fn lemma_unheeded_events_keep_notebook(editor: FileEditorModel, event: EditorEventModel)
    requires
        editor.wf(),
        event.is_for_no_editor(),
    ensures
        editor.applied(event).to_source() == editor.to_source(),
        editor.applied(event).target_file == editor.target_file,
        editor.applied(event).state == editor.state,
{
    crate::editors::notebook_editors::lemma_unheeded_events_keep_notebook(
        editor.notebook_editor,
        event,
    );
}

/// A fresh file editor is well formed, and after every event a well-formed
/// file editor is well formed again.
pub proof fn lemma_events_keep_file_editor_wf(editor: FileEditorModel, event: EditorEventModel)
    requires
        editor.wf(),
    ensures
        editor.applied(event).wf(),
        FileEditorModel::new(editor.to_source(), editor.target_file).wf(),
{
    crate::editors::notebook_editors::lemma_events_keep_notebook_wf(editor.notebook_editor, event);
    crate::editors::notebook_editors::lemma_operations_keep_wf(editor.notebook_editor, 0, 0);
    match event {
        EditorEventModel::ReportLoadedFromFile(notebook) => {
            crate::editors::notebook_editors::lemma_operations_keep_wf(
                NotebookEditorModel::new(notebook),
                0,
                0,
            );
        },
        _ => {},
    }
    crate::editors::notebook_editors::lemma_operations_keep_wf(
        NotebookEditorModel::new(editor.to_source()),
        0,
        0,
    );
}

} // verus!
