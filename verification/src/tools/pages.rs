use vstd::prelude::*;

use crate::language::dictionary::{Dictionary, DictionaryModel, DictionaryWord, Entry, EntryModel};
use crate::language::glyphs::Glyph;
use crate::language::notebooks::{Notebook, NotebookModel};
use crate::language::snippets::{Snippet, SnippetModel};
use crate::language::words::{Word, WordModel, WordType};
use crate::language::{Note, Source, SourceModel};
use crate::sequences::{lemma_views_push, views};
use crate::text::{decimal_digits, joined, zero_padded, zero_padded_decimal};
use crate::tools::definitions::texts;

verus! {

/// Mathematical model of a [`DictionaryEntry`].
pub struct DictionaryEntryModel {
    pub glyphs: Seq<Glyph>,
    pub definition: Seq<char>,
    pub notes: Seq<Seq<char>>,
}

/// One entry of the dictionary, as a page shows it.
#[derive(Debug, PartialEq, Eq)]
pub struct DictionaryEntry {
    pub glyphs: Vec<Glyph>,
    pub definition: String,
    pub notes: Vec<String>,
}

impl View for DictionaryEntry {
    type V = DictionaryEntryModel;

    open spec fn view(&self) -> DictionaryEntryModel {
        DictionaryEntryModel {
            glyphs: self.glyphs@,
            definition: self.definition@,
            notes: texts(self.notes@),
        }
    }
}

/// How an entry of the dictionary is shown.
pub open spec fn shown_entry(glyphs: Seq<Glyph>, entry: EntryModel) -> DictionaryEntryModel {
    DictionaryEntryModel {
        glyphs,
        definition: entry.definition.reading("[Undefined]"@),
        notes: entry.notes,
    }
}

/// The entries of a list, each as it is shown.
pub open spec fn shown_entries(entries: Seq<(DictionaryWord, Entry)>) -> Seq<DictionaryEntryModel> {
    Seq::new(entries.len(), |i: int| shown_entry(entries[i].0@, entries[i].1@))
}

fn note_texts(notes: &Vec<Note>) -> (note_texts: Vec<String>)
    ensures
        texts(note_texts@) == views(notes@),
{
    let mut note_texts: Vec<String> = Vec::new();
    let mut index: usize = 0;

    while index < notes.len()
        invariant
            index <= notes.len(),
            note_texts@.len() == index,
            forall|earlier: int| 0 <= earlier < index ==> (#[trigger] note_texts@[earlier])@
                == notes@[earlier]@,
        decreases notes.len() - index,
    {
        note_texts.push(notes[index].as_text());
        index = index + 1;
    }
    assert(texts(note_texts@) =~= views(notes@));

    note_texts
}

/// The entries of the dictionary as a page shows them, in the order of the
/// dictionary.
pub fn to_dictionary_entries(dictionary: &Dictionary) -> (shown: Vec<DictionaryEntry>)
    ensures
        exists|entries: Seq<(DictionaryWord, Entry)>|
            crate::language::dictionary::entries_map(entries) == dictionary@
                && crate::language::dictionary::keys_are_distinct(entries) && views(shown@)
                == #[trigger] shown_entries(entries),
{
    let entries = dictionary.entries();
    let mut shown: Vec<DictionaryEntry> = Vec::new();
    let mut index: usize = 0;

    while index < entries.len()
        invariant
            index <= entries.len(),
            shown@.len() == index,
            forall|earlier: int| 0 <= earlier < index ==> (#[trigger] shown@[earlier])@
                == shown_entry(entries@[earlier].0@, entries@[earlier].1@),
        decreases entries.len() - index,
    {
        let word = &entries[index].0;
        let entry = &entries[index].1;
        shown.push(
            DictionaryEntry {
                glyphs: word.glyphs(),
                definition: entry.definition().reading("[Undefined]"),
                notes: note_texts(entry.notes()),
            },
        );
        index = index + 1;
    }
    assert(views(shown@) =~= shown_entries(entries@));

    shown
}

/// Mathematical model of a [`WordRow`].
pub struct WordRowModel {
    pub word_type: Seq<char>,
    pub is_tunic: bool,
    pub is_english: bool,
    pub has_definition: bool,
    pub text: Seq<char>,
    pub glyphs: Seq<Glyph>,
    pub has_border: bool,
    pub colored: bool,
}

/// One word of a snippet, as a page shows it.
#[derive(Debug, PartialEq, Eq)]
pub struct WordRow {
    pub word_type: String,
    pub is_tunic: bool,
    pub is_english: bool,
    pub has_definition: bool,
    pub text: String,
    pub glyphs: Vec<Glyph>,
    pub has_border: bool,
    pub colored: bool,
}

impl View for WordRow {
    type V = WordRowModel;

    open spec fn view(&self) -> WordRowModel {
        WordRowModel {
            word_type: self.word_type@,
            is_tunic: self.is_tunic,
            is_english: self.is_english,
            has_definition: self.has_definition,
            text: self.text@,
            glyphs: self.glyphs@,
            has_border: self.has_border,
            colored: self.colored,
        }
    }
}

/// How a word is shown: an English word with its text, a Tunic word with
/// its glyphs and, where the dictionary knows it, with its definition.
pub open spec fn shown_word(word: WordModel, dictionary: DictionaryModel) -> WordRowModel {
    match word {
        WordModel::English(text) => WordRowModel {
            word_type: "English"@,
            is_tunic: false,
            is_english: true,
            has_definition: true,
            text,
            glyphs: Seq::empty(),
            has_border: false,
            colored: false,
        },
        WordModel::Tunic(tunic_word) => WordRowModel {
            word_type: "Tunic"@,
            is_tunic: true,
            is_english: false,
            has_definition: dictionary.contains_key(tunic_word.glyphs),
            text: if dictionary.contains_key(tunic_word.glyphs) {
                dictionary[tunic_word.glyphs].definition.reading("[Undefined]"@)
            } else {
                Seq::empty()
            },
            glyphs: tunic_word.glyphs,
            has_border: tunic_word.has_border,
            colored: tunic_word.colored,
        },
    }
}

pub fn word_row(word: &Word, dictionary: &Dictionary) -> (row: WordRow)
    ensures
        row@ == shown_word(word@, dictionary@),
{
    match &word.word_type {
        WordType::English(english_word) => {
            let row = WordRow {
                word_type: "English".to_owned(),
                is_tunic: false,
                is_english: true,
                has_definition: true,
                text: english_word.text(),
                glyphs: Vec::new(),
                has_border: false,
                colored: false,
            };
            assert(row.glyphs@ =~= Seq::<Glyph>::empty());

            row
        },
        WordType::Tunic(tunic_word) => {
            let (has_definition, definition) = match dictionary.get(
                &DictionaryWord::of(tunic_word),
            ) {
                Some(entry) => (true, entry.definition().reading("[Undefined]")),
                None => (false, String::new()),
            };

            WordRow {
                word_type: "Tunic".to_owned(),
                is_tunic: true,
                is_english: false,
                has_definition,
                text: definition,
                glyphs: tunic_word.glyphs(),
                has_border: tunic_word.has_border(),
                colored: tunic_word.colored(),
            }
        },
    }
}

/// Mathematical model of a [`SnippetRow`].
pub struct SnippetRowModel {
    pub source: Seq<char>,
    pub description: Seq<char>,
    pub transcribed: bool,
    pub notes: Seq<Seq<char>>,
    pub words: Seq<WordRowModel>,
}

/// One snippet, as a page shows it.
#[derive(Debug, PartialEq, Eq)]
pub struct SnippetRow {
    pub source: String,
    pub description: String,
    pub transcribed: bool,
    pub notes: Vec<Note>,
    pub words: Vec<WordRow>,
}

impl View for SnippetRow {
    type V = SnippetRowModel;

    open spec fn view(&self) -> SnippetRowModel {
        SnippetRowModel {
            source: self.source@,
            description: self.description@,
            transcribed: self.transcribed,
            notes: views(self.notes@),
            words: views(self.words@),
        }
    }
}

/// Where the picture of a source is found: a page of the manual by its
/// number in two digits, a screenshot by the name of its file, and nothing
/// else at all.
pub open spec fn source_path(source: Option<SourceModel>) -> Seq<char> {
    match source {
        Some(SourceModel::ManualPageNumber(page_number)) => "/media/manual_pages/page"@
            + zero_padded(decimal_digits(page_number), 2) + ".jpg"@,
        Some(SourceModel::ScreenshotFilename(file)) => "/media/screenshots/"@ + file,
        _ => "/media/404"@,
    }
}

pub fn source_path_for(source: &Option<Source>) -> (path: String)
    ensures
        path@ == source_path(crate::language::source_view(*source)),
{
    match source {
        Some(Source::ManualPageNumber(page_number)) => joined(
            "/media/manual_pages/page",
            zero_padded_decimal(*page_number, 2).as_str(),
        ).concat(".jpg"),
        Some(Source::ScreenshotFilename(file)) => joined("/media/screenshots/", file.as_str()),
        Some(Source::Other(_)) => "/media/404".to_owned(),
        None => "/media/404".to_owned(),
    }
}

/// How a snippet is shown.
pub open spec fn shown_snippet(snippet: SnippetModel, dictionary: DictionaryModel) -> SnippetRowModel {
    SnippetRowModel {
        source: source_path(snippet.source),
        description: snippet.description,
        transcribed: snippet.transcribed,
        notes: snippet.notes,
        words: Seq::new(snippet.words.len(), |i: int| shown_word(snippet.words[i], dictionary)),
    }
}

pub fn snippet_row(snippet: &Snippet, dictionary: &Dictionary) -> (row: SnippetRow)
    ensures
        row@ == shown_snippet(snippet@, dictionary@),
{
    let mut words: Vec<WordRow> = Vec::new();
    let mut index: usize = 0;

    while index < snippet.words.len()
        invariant
            index <= snippet.words.len(),
            words@.len() == index,
            forall|earlier: int| 0 <= earlier < index ==> (#[trigger] words@[earlier])@
                == shown_word(snippet.words@[earlier]@, dictionary@),
        decreases snippet.words.len() - index,
    {
        words.push(word_row(&snippet.words[index], dictionary));
        index = index + 1;
    }
    assert(views(words@) =~= shown_snippet(snippet@, dictionary@).words);
    let notes = snippet.notes.clone();
    assert(views(notes@) =~= views(snippet.notes@));

    SnippetRow {
        source: source_path_for(&snippet.source),
        description: snippet.description.clone(),
        transcribed: snippet.transcribed,
        notes,
        words,
    }
}

/// All snippets of a notebook as a page shows them, in order.
pub fn snippets(notebook: &Notebook, dictionary: &Dictionary) -> (rows: Vec<SnippetRow>)
    ensures
        views(rows@) == Seq::new(
            notebook@.snippets.len(),
            |i: int| shown_snippet(notebook@.snippets[i], dictionary@),
        ),
{
    let mut rows: Vec<SnippetRow> = Vec::new();
    let mut index: usize = 0;

    while index < notebook.snippets.len()
        invariant
            index <= notebook.snippets.len(),
            rows@.len() == index,
            forall|earlier: int| 0 <= earlier < index ==> (#[trigger] rows@[earlier])@
                == shown_snippet(notebook.snippets@[earlier]@, dictionary@),
        decreases notebook.snippets.len() - index,
    {
        rows.push(snippet_row(&notebook.snippets[index], dictionary));
        index = index + 1;
    }
    assert(views(rows@) =~= Seq::new(
        notebook@.snippets.len(),
        |i: int| shown_snippet(notebook@.snippets[i], dictionary@),
    ));

    rows
}

} // verus!
