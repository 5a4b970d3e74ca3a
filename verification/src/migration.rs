use vstd::prelude::*;

use crate::language::glyphs::Glyph;
use crate::language::notebooks::{NotebookModel, VERSION};
use crate::language::snippets::SnippetModel;
use crate::language::words::{TunicWord, TunicWordModel, WordModel};
use crate::language::{source_view, Note, Source};
use crate::sequences::{lemma_views_push, views};

verus! {

/// A word as notebooks held it before they had a version: the same two
/// kinds, written down differently. Its model is that of a word of today.
#[derive(Debug, PartialEq, Eq)]
pub enum Word {
    Tunic { glyphs: Vec<Glyph>, has_border: bool, colored: bool },
    English(String),
}

impl View for Word {
    type V = WordModel;

    open spec fn view(&self) -> WordModel {
        match self {
            Word::Tunic { glyphs, has_border, colored } => WordModel::Tunic(
                TunicWordModel { glyphs: glyphs@, has_border: *has_border, colored: *colored },
            ),
            Word::English(text) => WordModel::English(text@),
        }
    }
}

impl Word {
    /// The same word as notebooks hold it today.
    pub fn migrated(&self) -> (word: crate::language::words::Word)
        ensures
            word@ == self@,
    {
        match self {
            Word::Tunic { glyphs, has_border, colored } => {
                let copied = glyphs.clone();
                assert(copied@ =~= glyphs@);

                crate::language::words::Word::from(
                    TunicWord::new(copied).with_border_as(*has_border).with_colored_as(*colored),
                )
            },
            Word::English(text) => crate::language::words::Word::english(text.clone()),
        }
    }
}

/// A snippet as notebooks held it before they had a version.
#[derive(Debug, PartialEq, Eq)]
pub struct Snippet {
    pub words: Vec<Word>,
    pub source: Option<Source>,
    pub description: String,
    pub notes: Vec<Note>,
    pub transcribed: bool,
}

impl View for Snippet {
    type V = SnippetModel;

    open spec fn view(&self) -> SnippetModel {
        SnippetModel {
            words: views(self.words@),
            source: source_view(self.source),
            description: self.description@,
            notes: views(self.notes@),
            transcribed: self.transcribed,
        }
    }
}

impl Snippet {
    /// The same snippet as notebooks hold it today.
    pub fn migrated(&self) -> (snippet: crate::language::snippets::Snippet)
        ensures
            snippet@ == self@,
    {
        let mut words: Vec<crate::language::words::Word> = Vec::new();
        let mut index: usize = 0;
        assert(views(words@) =~= views(self.words@.take(0)));

        while index < self.words.len()
            invariant
                index <= self.words.len(),
                views(words@) == views(self.words@.take(index as int)),
            decreases self.words.len() - index,
        {
            let word = self.words[index].migrated();
            proof {
                lemma_views_push(words@, word);
                assert(views(self.words@.take(index as int)).push(word@) =~= views(
                    self.words@.take(index + 1),
                ));
            }
            words.push(word);
            index = index + 1;
        }
        assert(self.words@.take(index as int) =~= self.words@);

        let source = match &self.source {
            Some(source) => Some(source.clone()),
            None => None,
        };
        let notes = self.notes.clone();
        assert(views(notes@) =~= views(self.notes@));

        crate::language::snippets::Snippet {
            words,
            source,
            description: self.description.clone(),
            notes,
            transcribed: self.transcribed,
        }
    }
}

/// A notebook as it was before notebooks had a version.
#[derive(Debug, PartialEq, Eq)]
pub struct Notebook {
    pub snippets: Vec<Snippet>,
}

impl Notebook {
    /// The snippets of the notebook, as models.
    pub open spec fn snippets_view(self) -> Seq<SnippetModel> {
        views(self.snippets@)
    }

    /// The same snippets in a notebook of the current version.
    pub fn migrated(&self) -> (notebook: crate::language::notebooks::Notebook)
        ensures
            notebook@ == NotebookModel::of(self.snippets_view()),
    {
        let mut snippets: Vec<crate::language::snippets::Snippet> = Vec::new();
        let mut index: usize = 0;
        assert(views(snippets@) =~= views(self.snippets@.take(0)));

        while index < self.snippets.len()
            invariant
                index <= self.snippets.len(),
                views(snippets@) == views(self.snippets@.take(index as int)),
            decreases self.snippets.len() - index,
        {
            let snippet = self.snippets[index].migrated();
            proof {
                lemma_views_push(snippets@, snippet);
                assert(views(self.snippets@.take(index as int)).push(snippet@) =~= views(
                    self.snippets@.take(index + 1),
                ));
            }
            snippets.push(snippet);
            index = index + 1;
        }
        assert(self.snippets@.take(index as int) =~= self.snippets@);

        crate::language::notebooks::Notebook { snippets, version: VERSION }
    }
}

} // verus!
