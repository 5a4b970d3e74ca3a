use vstd::prelude::*;

use crate::language::dictionary::{
    Definition, DefinitionModel, Dictionary, DictionaryModel, DictionaryWord, Entry, EntryModel,
};
use crate::language::glyphs::Glyph;
use crate::language::words::TunicWord;
use crate::language::Note;
use crate::renderers::notebook_editor_renderers::{format_glyphs_for_reading, glyphs_for_reading};
use crate::sequences::{lemma_views_push, views};

verus! {

/// The texts of a sequence of strings.
pub open spec fn texts(strings: Seq<String>) -> Seq<Seq<char>> {
    Seq::new(strings.len(), |i: int| strings[i]@)
}

/// The definition that a type given by name makes of a text: `tentative`,
/// `confirmed`, or `undefined`, which drops the text. No other name is a
/// type.
pub open spec fn typed_definition(definition_type: Seq<char>, text: Seq<char>) -> Option<
    DefinitionModel,
> {
    if definition_type == "tentative"@ {
        Some(DefinitionModel::Tentative(text))
    } else if definition_type == "confirmed"@ {
        Some(DefinitionModel::Confirmed(text))
    } else if definition_type == "undefined"@ {
        Some(DefinitionModel::Undefined)
    } else {
        None
    }
}

/// The model of a definition that may be missing.
pub open spec fn definition_view(definition: Option<Definition>) -> Option<DefinitionModel> {
    match definition {
        Some(definition) => Some(definition@),
        None => None,
    }
}

fn same_text(left: &str, right: &str) -> (same: bool)
    ensures
        same == (left@ == right@),
{
    left.to_owned() == right.to_owned()
}

pub fn definition_of_type(definition_type: &str, text: String) -> (definition: Option<Definition>)
    ensures
        definition_view(definition) == typed_definition(definition_type@, text@),
{
    if same_text(definition_type, "tentative") {
        Some(Definition::Tentative(text))
    } else if same_text(definition_type, "confirmed") {
        Some(Definition::Confirmed(text))
    } else if same_text(definition_type, "undefined") {
        Some(Definition::Undefined)
    } else {
        None
    }
}

/// One note for each text.
pub fn notes_from(note_texts: Vec<String>) -> (notes: Vec<Note>)
    ensures
        views(notes@) == texts(note_texts@),
{
    let mut notes: Vec<Note> = Vec::new();
    let mut index: usize = 0;

    while index < note_texts.len()
        invariant
            index <= note_texts.len(),
            notes@.len() == index,
            forall|earlier: int| 0 <= earlier < index ==> (#[trigger] notes@[earlier])@
                == note_texts@[earlier]@,
        decreases note_texts.len() - index,
    {
        notes.push(Note(note_texts[index].clone()));
        index = index + 1;
    }
    assert(views(notes@) =~= texts(note_texts@));

    notes
}

/// The dictionary with `entry` for a word that has none yet. A word that
/// has an entry keeps it: the dictionary comes back unchanged, as an error.
pub fn with_definition_added(dictionary: Dictionary, word: &DictionaryWord, entry: &Entry) -> (outcome:
    Result<Dictionary, Dictionary>)
    ensures
        match outcome {
            Ok(added) => !dictionary@.contains_key(word@) && added@ == dictionary@.insert(
                word@,
                entry@,
            ),
            Err(unchanged) => dictionary@.contains_key(word@) && unchanged@ == dictionary@,
        },
{
    let known = dictionary.get(word).is_some();

    if known {
        Err(dictionary)
    } else {
        Ok(dictionary.with_new_complete_definition(word, entry))
    }
}

/// The word of three empty glyphs that a new dictionary explains itself
/// with.
pub open spec fn example_glyphs() -> Seq<Glyph> {
    seq![Glyph(0), Glyph(0), Glyph(0)]
}

/// The dictionary that a new file starts with: one example entry with one
/// note.
pub fn initial_dictionary() -> (dictionary: Dictionary)
    ensures
        dictionary@ == Map::<Seq<Glyph>, EntryModel>::empty().insert(
            example_glyphs(),
            EntryModel {
                definition: DefinitionModel::Tentative("An example Tunic word entry"@),
                notes: seq!["Example Note"@],
            },
        ),
{
    let mut glyphs: Vec<Glyph> = Vec::new();
    glyphs.push(Glyph::blank());
    glyphs.push(Glyph::blank());
    glyphs.push(Glyph::blank());
    assert(glyphs@ =~= example_glyphs());
    let tunic_word = TunicWord::new(glyphs);

    let defined = Dictionary::new().with_new_definition(
        &tunic_word,
        "An example Tunic word entry".to_owned(),
    );
    let dictionary = defined.with_annotation(&tunic_word, Note("Example Note".to_owned()));
    proof {
        let first = EntryModel {
            definition: DefinitionModel::Tentative("An example Tunic word entry"@),
            notes: Seq::<Seq<char>>::empty(),
        };
        assert(first.with_note("Example Note"@).notes =~= seq!["Example Note"@]);
        assert(dictionary@ =~= Map::<Seq<Glyph>, EntryModel>::empty().insert(
            example_glyphs(),
            first.with_note("Example Note"@),
        ));
    }

    dictionary
}

/// The glyphs of a word as the user reads them: numbers between square
/// brackets.
pub fn format_word_for_reading(word: &TunicWord) -> (text: String)
    ensures
        text@ == glyphs_for_reading(word@.glyphs),
{
    format_glyphs_for_reading(word.glyphs())
}

/// What is shown as the definition in an entry.
pub fn definition_text(entry: &Entry) -> (text: String)
    ensures
        text@ == entry@.definition.reading("Undefined"@),
{
    entry.definition().reading("Undefined")
}

} // verus!
