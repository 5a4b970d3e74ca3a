use vstd::prelude::*;
use vstd::std_specs::convert::FromSpecImpl;

use crate::language::snippets::{Snippet, SnippetModel};
use crate::sequences::views;

verus! {

/// The version of the notebook format that this library writes.
pub const VERSION: usize = 2;

/// Mathematical model of a [`Notebook`].
pub struct NotebookModel {
    pub version: nat,
    pub snippets: Seq<SnippetModel>,
}

impl NotebookModel {
    /// A notebook of the current version that holds `snippets`.
    pub open spec fn of(snippets: Seq<SnippetModel>) -> Self {
        NotebookModel { version: VERSION as nat, snippets }
    }

    pub open spec fn with_snippets(self, snippets: Seq<SnippetModel>) -> Self {
        NotebookModel { snippets, ..self }
    }
}

/// The whole collection of snippets, in order.
#[derive(Debug, PartialEq, Eq)]
pub struct Notebook {
    pub version: usize,
    pub snippets: Vec<Snippet>,
}

impl View for Notebook {
    type V = NotebookModel;

    open spec fn view(&self) -> NotebookModel {
        NotebookModel { version: self.version as nat, snippets: views(self.snippets@) }
    }
}

impl Clone for Notebook {
    fn clone(&self) -> (copy: Self)
        ensures
            copy@ == self@,
    {
        let snippets = self.snippets.clone();
        assert(views(snippets@) =~= views(self.snippets@));

        Notebook { version: self.version, snippets }
    }
}

impl Default for Notebook {
    fn default() -> (notebook: Self)
        ensures
            notebook@ == (NotebookModel { version: 0, snippets: Seq::empty() }),
    {
        let notebook = Notebook { version: 0, snippets: Vec::new() };
        assert(views(notebook.snippets@) =~= Seq::<SnippetModel>::empty());

        notebook
    }
}

impl From<Vec<Snippet>> for Notebook {
    fn from(items: Vec<Snippet>) -> (notebook: Self)
        ensures
            notebook@ == NotebookModel::of(views(items@)),
    {
        Self { snippets: items, version: VERSION }
    }
}

impl FromSpecImpl<Vec<Snippet>> for Notebook {
    open spec fn obeys_from_spec() -> bool {
        true
    }

    open spec fn from_spec(items: Vec<Snippet>) -> Self {
        Notebook { snippets: items, version: VERSION }
    }
}

} // verus!
