use vstd::prelude::*;

use crate::language::glyphs::Glyph;
use crate::language::words::{Word, WordModel};
use crate::language::{source_view, Note, Source, SourceModel};
use crate::sequences::views;

verus! {

/// Mathematical model of a [`Snippet`].
pub struct SnippetModel {
    pub words: Seq<WordModel>,
    pub source: Option<SourceModel>,
    pub description: Seq<char>,
    pub notes: Seq<Seq<char>>,
    pub transcribed: bool,
}

impl SnippetModel {
    /// The snippet that a new entry of a notebook starts as: one word of one
    /// empty glyph, with placeholders for source, description and note.
    pub open spec fn starting() -> Self {
        SnippetModel {
            words: seq![WordModel::Tunic(crate::language::words::TunicWordModel::plain(seq![Glyph(0)]))],
            source: Some(SourceModel::Other("ADD_SOURCE_HERE"@)),
            description: "ADD_DESCRIPTION_HERE"@,
            notes: seq!["ADD_NOTE_HERE"@],
            transcribed: false,
        }
    }

    /// The snippet without words, source, description or notes.
    pub open spec fn empty() -> Self {
        SnippetModel {
            words: Seq::empty(),
            source: None,
            description: Seq::empty(),
            notes: Seq::empty(),
            transcribed: false,
        }
    }

    pub open spec fn with_words(self, words: Seq<WordModel>) -> Self {
        SnippetModel { words, ..self }
    }

    pub open spec fn with_transcription_state_toggled(self) -> Self {
        SnippetModel { transcribed: !self.transcribed, ..self }
    }

    pub open spec fn contains_word(self, word: WordModel) -> bool {
        self.words.contains(word)
    }
}

/// One citation: a sequence of words with where it was found and what is
/// known about it.
#[derive(Debug, PartialEq, Eq)]
pub struct Snippet {
    pub source: Option<Source>,
    pub description: String,
    pub transcribed: bool,
    pub notes: Vec<Note>,
    pub words: Vec<Word>,
}

impl View for Snippet {
    type V = SnippetModel;

    open spec fn view(&self) -> SnippetModel {
        SnippetModel {
            words: views(self.words@),
            source: source_view(self.source),
            description: self.description@,
            notes: views(self.notes@),
            transcribed: self.transcribed,
        }
    }
}

impl Clone for Snippet {
    fn clone(&self) -> (copy: Self)
        ensures
            copy@ == self@,
    {
        let source = match &self.source {
            Some(source) => Some(source.clone()),
            None => None,
        };
        let notes = self.notes.clone();
        let words = self.words.clone();
        assert(views(notes@) =~= views(self.notes@));
        assert(views(words@) =~= views(self.words@));

        Snippet {
            source,
            description: self.description.clone(),
            transcribed: self.transcribed,
            notes,
            words,
        }
    }
}

impl Default for Snippet {
    fn default() -> (snippet: Self)
        ensures
            snippet@ == SnippetModel::empty(),
    {
        let snippet = Snippet {
            source: None,
            description: String::new(),
            transcribed: false,
            notes: Vec::new(),
            words: Vec::new(),
        };
        assert(views(snippet.words@) =~= Seq::<WordModel>::empty());
        assert(views(snippet.notes@) =~= Seq::<Seq<char>>::empty());

        snippet
    }
}

impl Snippet {
    pub fn starting_snippet() -> (snippet: Self)
        ensures
            snippet@ == SnippetModel::starting(),
    {
        let word = Word::single_glyph(Glyph::blank());
        let mut words: Vec<Word> = Vec::new();
        words.push(word);
        let source = Some(Source::Other(String::from_str("ADD_SOURCE_HERE")));
        let description = String::from_str("ADD_DESCRIPTION_HERE");
        let note = Note(String::from_str("ADD_NOTE_HERE"));
        let mut notes: Vec<Note> = Vec::new();
        notes.push(note);
        assert(views(words@) =~= SnippetModel::starting().words);
        assert(views(notes@) =~= SnippetModel::starting().notes);

        Self { words, source, description, notes, transcribed: false }
    }

    pub fn with_transcription_state_toggled(self) -> (snippet: Self)
        ensures
            snippet@ == self@.with_transcription_state_toggled(),
    {
        Self { transcribed: !self.transcribed, ..self }
    }

    pub fn contains_word(&self, word_to_find: &Word) -> (found: bool)
        ensures
            found == self@.contains_word(word_to_find@),
    {
        let mut position: usize = 0;

        while position < self.words.len()
            invariant
                position <= self.words.len(),
                forall|earlier: int|
                    0 <= earlier < position ==> (#[trigger] views(self.words@)[earlier])
                        != word_to_find@,
            decreases self.words.len() - position,
        {
            if self.words[position] == *word_to_find {
                assert(views(self.words@)[position as int] == word_to_find@);
                return true;
            }
            position = position + 1;
        }

        false
    }
}

} // verus!
