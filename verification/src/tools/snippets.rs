use vstd::prelude::*;

use crate::language::glyphs::Glyph;
use crate::language::notebooks::{Notebook, NotebookModel};
use crate::language::snippets::{Snippet, SnippetModel};
use crate::language::words::{TunicWordModel, Word, WordModel};
use crate::language::{source_view, Source, SourceModel};
use crate::sequences::{lemma_views_insert, lemma_views_push, views};

verus! {

/// The glyph that a snippet made for a Tunic word starts with.
pub open spec fn first_glyph() -> Glyph {
    Glyph(0x99)
}

/// A snippet of one word, with where it was found and what it is; without
/// notes, and not transcribed.
pub open spec fn one_word_snippet(word: WordModel, source: SourceModel, description: Seq<char>) -> SnippetModel {
    SnippetModel {
        words: seq![word],
        source: Some(source),
        description,
        notes: Seq::empty(),
        transcribed: false,
    }
}

fn snippet_of(word: Word, source: Source, description: String) -> (snippet: Snippet)
    ensures
        snippet@ == one_word_snippet(word@, source@, description@),
{
    let mut words: Vec<Word> = Vec::new();
    words.push(word);
    let snippet = Snippet {
        words,
        source: Some(source),
        description,
        notes: Vec::new(),
        transcribed: false,
    };
    assert(views(snippet.words@) =~= seq![word@]);
    assert(views(snippet.notes@) =~= Seq::<Seq<char>>::empty());

    snippet
}

/// A snippet for an English word. The text of the word is needed: without
/// it there is no snippet.
pub fn english_word_snippet(source: Source, description: String, word_text: Option<String>) -> (snippet:
    Option<Snippet>)
    ensures
        match snippet {
            Some(snippet) => word_text matches Some(text) && snippet@ == one_word_snippet(
                WordModel::English(text@),
                source@,
                description@,
            ),
            None => word_text is None,
        },
{
    match word_text {
        Some(word_text) => Some(snippet_of(Word::english(word_text), source, description)),
        None => None,
    }
}

/// A snippet for a Tunic word that is still to be drawn.
pub fn tunic_word_snippet(source: Source, description: String) -> (snippet: Snippet)
    ensures
        snippet@ == one_word_snippet(
            WordModel::Tunic(TunicWordModel::plain(seq![first_glyph()])),
            source@,
            description@,
        ),
{
    snippet_of(Word::single_glyph(Glyph(0x99)), source, description)
}

/// The notebook with `snippet` as its last snippet, or as its first.
pub fn with_snippet_added(notebook: Notebook, snippet: Snippet, append: bool) -> (added: Notebook)
    ensures
        added@ == notebook@.with_snippets(
            if append {
                notebook@.snippets.push(snippet@)
            } else {
                notebook@.snippets.insert(0, snippet@)
            },
        ),
{
    let mut notebook = notebook;
    if append {
        proof {
            lemma_views_push(notebook.snippets@, snippet);
        }
        notebook.snippets.push(snippet);
    } else {
        proof {
            lemma_views_insert(notebook.snippets@, 0, snippet);
        }
        notebook.snippets.insert(0, snippet);
    }

    notebook
}

} // verus!
