use vstd::prelude::*;

use crate::language::glyphs::{glyph_codes, glyph_numbers_string, Glyph};
use crate::text::{joined, numbers_text};
use crate::language::words::{glyphs_equal, TunicWord};
use crate::language::Note;
use crate::sequences::{lemma_views_push, views};

verus! {

/// The key under which a Tunic word is looked up: its glyphs alone, without
/// border or colour.
#[derive(Debug, PartialEq, Eq)]
pub struct DictionaryWord {
    glyphs: Vec<Glyph>,
}

impl View for DictionaryWord {
    type V = Seq<Glyph>;

    closed spec fn view(&self) -> Seq<Glyph> {
        self.glyphs@
    }
}

impl Clone for DictionaryWord {
    fn clone(&self) -> (copy: Self)
        ensures
            copy@ == self@,
    {
        let glyphs = self.glyphs.clone();
        assert(glyphs@ =~= self.glyphs@);

        Self { glyphs }
    }
}

impl DictionaryWord {
    pub fn new(glyphs: Vec<Glyph>) -> (word: Self)
        ensures
            word@ == glyphs@,
    {
        Self { glyphs }
    }

    /// The key of a Tunic word: its glyphs.
    pub fn of(tunic_word: &TunicWord) -> (word: Self)
        ensures
            word@ == tunic_word@.glyphs,
    {
        Self { glyphs: tunic_word.glyphs() }
    }

    /// The key as text: the numbers of its glyphs.
    pub open spec fn text(glyphs: Seq<Glyph>) -> Seq<char> {
        if glyphs.len() == 0 {
            "(Empty Tunic Word)"@
        } else {
            "TunicWord: "@ + numbers_text(glyph_codes(glyphs), " "@)
        }
    }

    pub fn to_string(&self) -> (text: String)
        ensures
            text@ == Self::text(self@),
    {
        if self.glyphs.len() == 0 {
            "(Empty Tunic Word)".to_owned()
        } else {
            joined("TunicWord: ", glyph_numbers_string(&self.glyphs, " ").as_str())
        }
    }

    pub fn glyphs(&self) -> (glyphs: Vec<Glyph>)
        ensures
            glyphs@ == self@,
    {
        let glyphs = self.glyphs.clone();
        assert(glyphs@ =~= self.glyphs@);

        glyphs
    }
}

/// Mathematical model of a [`Definition`].
pub enum DefinitionModel {
    Undefined,
    Tentative(Seq<char>),
    Confirmed(Seq<char>),
}

/// What is known of a word's meaning.
#[derive(Debug, PartialEq, Eq)]
pub enum Definition {
    Undefined,
    Tentative(String),
    Confirmed(String),
}

impl View for Definition {
    type V = DefinitionModel;

    open spec fn view(&self) -> DefinitionModel {
        match self {
            Definition::Undefined => DefinitionModel::Undefined,
            Definition::Tentative(text) => DefinitionModel::Tentative(text@),
            Definition::Confirmed(text) => DefinitionModel::Confirmed(text@),
        }
    }
}

impl DefinitionModel {
    /// The definition as text. A tentative definition is marked
    /// `Tenative`, as the files of the dictionary have it.
    pub open spec fn text(self) -> Seq<char> {
        "Definition("@ + (match self {
            DefinitionModel::Undefined => "Undefined"@,
            DefinitionModel::Tentative(text) => "Tenative("@ + text + ")"@,
            DefinitionModel::Confirmed(text) => "Confirmed("@ + text + ")"@,
        }) + ")"@
    }

    /// The text to read in place of the word: that of the definition, or
    /// `undefined` where there is none.
    pub open spec fn reading(self, undefined: Seq<char>) -> Seq<char> {
        match self {
            DefinitionModel::Undefined => undefined,
            DefinitionModel::Tentative(text) => text,
            DefinitionModel::Confirmed(text) => text,
        }
    }
}

impl Definition {
    pub fn to_string(&self) -> (text: String)
        ensures
            text@ == self@.text(),
    {
        let formatted = match self {
            Definition::Undefined => "Undefined".to_owned(),
            Definition::Tentative(text) => joined("Tenative(", text.as_str()).concat(")"),
            Definition::Confirmed(text) => joined("Confirmed(", text.as_str()).concat(")"),
        };

        joined("Definition(", formatted.as_str()).concat(")")
    }

    /// The text of the definition, or `undefined` where there is none.
    pub fn reading(&self, undefined: &str) -> (text: String)
        ensures
            text@ == self@.reading(undefined@),
    {
        match self {
            Definition::Undefined => undefined.to_owned(),
            Definition::Tentative(text) => text.clone(),
            Definition::Confirmed(text) => text.clone(),
        }
    }
}

impl Clone for Definition {
    fn clone(&self) -> (copy: Self)
        ensures
            copy@ == self@,
    {
        match self {
            Definition::Undefined => Definition::Undefined,
            Definition::Tentative(text) => Definition::Tentative(text.clone()),
            Definition::Confirmed(text) => Definition::Confirmed(text.clone()),
        }
    }
}

/// Mathematical model of an [`Entry`].
pub struct EntryModel {
    pub definition: DefinitionModel,
    pub notes: Seq<Seq<char>>,
}

impl EntryModel {
    /// The entry that says nothing: undefined and without notes.
    pub open spec fn empty() -> Self {
        EntryModel { definition: DefinitionModel::Undefined, notes: Seq::empty() }
    }

    pub open spec fn with_note(self, note: Seq<char>) -> Self {
        EntryModel { notes: self.notes.push(note), ..self }
    }

    /// The entry as text: its definition and its notes.
    pub open spec fn text(self) -> Seq<char> {
        "Entry { Definition: "@ + self.definition.text() + ", Notes: "@ + notes_text(self.notes)
            + " }"@
    }
}

/// Notes as text, with commas between them; `[]` for none.
pub open spec fn notes_text(notes: Seq<Seq<char>>) -> Seq<char> {
    if notes.len() == 0 {
        "[]"@
    } else {
        listed_notes(notes)
    }
}

/// One or more notes, each as `Note(` text `)`, with commas between them.
pub open spec fn listed_notes(notes: Seq<Seq<char>>) -> Seq<char>
    decreases notes.len(),
{
    if notes.len() == 0 {
        Seq::empty()
    } else if notes.len() == 1 {
        "Note("@ + notes[0] + ")"@
    } else {
        listed_notes(notes.drop_last()) + ", "@ + ("Note("@ + notes.last() + ")"@)
    }
}

/// What the dictionary holds for one word.
#[derive(Debug, PartialEq, Eq)]
pub struct Entry {
    definition: Definition,
    notes: Vec<Note>,
}

impl View for Entry {
    type V = EntryModel;

    closed spec fn view(&self) -> EntryModel {
        EntryModel { definition: self.definition@, notes: views(self.notes@) }
    }
}

impl Clone for Entry {
    fn clone(&self) -> (copy: Self)
        ensures
            copy@ == self@,
    {
        let notes = self.notes.clone();
        assert(views(notes@) =~= views(self.notes@));

        Self { definition: self.definition.clone(), notes }
    }
}

impl Default for Entry {
    fn default() -> (entry: Self)
        ensures
            entry@ == EntryModel::empty(),
    {
        let entry = Self { definition: Definition::Undefined, notes: Vec::new() };
        assert(views(entry.notes@) =~= Seq::<Seq<char>>::empty());

        entry
    }
}

impl Entry {
    pub fn new(definition: Definition, notes: Vec<Note>) -> (entry: Self)
        ensures
            entry@ == (EntryModel { definition: definition@, notes: views(notes@) }),
    {
        Self { definition, notes }
    }

    pub fn definition(&self) -> (definition: &Definition)
        ensures
            definition@ == self@.definition,
    {
        &self.definition
    }

    pub fn notes(&self) -> (notes: &Vec<Note>)
        ensures
            views(notes@) == self@.notes,
    {
        &self.notes
    }

    pub fn to_string(&self) -> (text: String)
        ensures
            text@ == self@.text(),
    {
        let ghost notes = views(self.notes@);
        let listed = if self.notes.len() == 0 {
            "[]".to_owned()
        } else {
            let mut listed = self.notes[0].to_string();
            let mut index: usize = 1;
            assert(notes.take(1).len() == 1 && notes.take(1)[0] == notes[0]);

            while index < self.notes.len()
                invariant
                    1 <= index <= self.notes.len(),
                    notes == views(self.notes@),
                    listed@ == listed_notes(notes.take(index as int)),
                decreases self.notes.len() - index,
            {
                proof {
                    assert(notes.take(index + 1).drop_last() =~= notes.take(index as int));
                    assert(notes.take(index + 1).last() == notes[index as int]);
                }
                listed = listed.concat(", ").concat(self.notes[index].to_string().as_str());
                index = index + 1;
            }
            assert(notes.take(index as int) =~= notes);

            listed
        };

        joined("Entry { Definition: ", self.definition.to_string().as_str()).concat(
            ", Notes: ",
        ).concat(listed.as_str()).concat(" }")
    }

    /// This entry with one more note at the end.
    pub fn with_note(self, note: Note) -> (entry: Self)
        ensures
            entry@ == self@.with_note(note@),
    {
        let mut notes = self.notes;
        proof {
            lemma_views_push(notes@, note);
        }
        notes.push(note);

        Self { definition: self.definition, notes }
    }
}

/// The entries of a dictionary as a map from glyph sequences. Where a key
/// is listed more than once, its last entry counts; a dictionary lists
/// every key once.
pub open spec fn entries_map(entries: Seq<(DictionaryWord, Entry)>) -> Map<Seq<Glyph>, EntryModel>
    decreases entries.len(),
{
    if entries.len() == 0 {
        Map::empty()
    } else {
        entries_map(entries.drop_last()).insert(entries.last().0@, entries.last().1@)
    }
}

/// No two entries of the sequence stand under the same glyphs.
pub open spec fn keys_are_distinct(entries: Seq<(DictionaryWord, Entry)>) -> bool {
    forall|i: int, j: int|
        0 <= i < j < entries.len() ==> (#[trigger] entries[i]).0@ != (#[trigger] entries[j]).0@
}

proof fn lemma_entries_map_domain(entries: Seq<(DictionaryWord, Entry)>, key: Seq<Glyph>)
    ensures
        entries_map(entries).contains_key(key) <==> exists|i: int|
            0 <= i < entries.len() && (#[trigger] entries[i]).0@ == key,
    decreases entries.len(),
{
    if entries.len() > 0 {
        lemma_entries_map_domain(entries.drop_last(), key);
        if entries_map(entries).contains_key(key) {
            if entries.last().0@ == key {
                assert(entries[entries.len() - 1].0@ == key);
            } else {
                let i = choose|i: int|
                    0 <= i < entries.drop_last().len() && (#[trigger] entries.drop_last()[i]).0@
                        == key;
                assert(entries[i].0@ == key);
            }
        }
        if exists|i: int| 0 <= i < entries.len() && (#[trigger] entries[i]).0@ == key {
            let i = choose|i: int| 0 <= i < entries.len() && (#[trigger] entries[i]).0@ == key;
            if i < entries.len() - 1 {
                assert(entries.drop_last()[i].0@ == key);
            }
        }
    }
}

proof fn lemma_entries_map_value(entries: Seq<(DictionaryWord, Entry)>, position: int)
    requires
        keys_are_distinct(entries),
        0 <= position < entries.len(),
    ensures
        entries_map(entries).contains_key(entries[position].0@),
        entries_map(entries)[entries[position].0@] == entries[position].1@,
    decreases entries.len(),
{
    if position < entries.len() - 1 {
        assert(entries[position].0@ != entries[entries.len() - 1].0@);
        assert(entries.drop_last()[position] == entries[position]);
        assert(keys_are_distinct(entries.drop_last())) by {
            assert forall|i: int, j: int| 0 <= i < j < entries.drop_last().len() implies (
            #[trigger] entries.drop_last()[i]).0@ != (#[trigger] entries.drop_last()[j]).0@ by {
                assert(entries[i].0@ != entries[j].0@);
            }
        }
        lemma_entries_map_value(entries.drop_last(), position);
    }
}

proof fn lemma_entries_map_update(
    entries: Seq<(DictionaryWord, Entry)>,
    position: int,
    word: DictionaryWord,
    entry: Entry,
)
    requires
        0 <= position < entries.len(),
        entries[position].0@ == word@,
    ensures
        keys_are_distinct(entries) ==> entries_map(entries.update(position, (word, entry)))
            == entries_map(entries).insert(word@, entry@),
        keys_are_distinct(entries) ==> keys_are_distinct(entries.update(position, (word, entry))),
    decreases entries.len(),
{
    let updated = entries.update(position, (word, entry));
    if keys_are_distinct(entries) {
        assert forall|i: int, j: int| 0 <= i < j < updated.len() implies (#[trigger] updated[i]).0@
            != (#[trigger] updated[j]).0@ by {
            assert(entries[i].0@ != entries[j].0@);
        }
        if position == entries.len() - 1 {
            assert(updated.drop_last() =~= entries.drop_last());
            assert(entries_map(updated) =~= entries_map(entries).insert(word@, entry@));
        } else {
            assert(keys_are_distinct(entries.drop_last())) by {
                assert forall|i: int, j: int| 0 <= i < j < entries.drop_last().len() implies (
                #[trigger] entries.drop_last()[i]).0@ != (#[trigger] entries.drop_last()[j]).0@ by {
                    assert(entries[i].0@ != entries[j].0@);
                }
            }
            lemma_entries_map_update(entries.drop_last(), position, word, entry);
            assert(updated.drop_last() =~= entries.drop_last().update(position, (word, entry)));
            assert(updated.last() == entries.last());
            assert(entries[position].0@ != entries[entries.len() - 1].0@);
            assert(entries_map(updated) =~= entries_map(entries).insert(word@, entry@));
        }
    }
}

/// Mathematical model of a [`Dictionary`]: entries by the glyphs of their
/// word.
pub type DictionaryModel = Map<Seq<Glyph>, EntryModel>;

/// What is known of the words of the script.
#[derive(Debug)]
pub struct Dictionary {
    entries: Vec<(DictionaryWord, Entry)>,
}

impl View for Dictionary {
    type V = Map<Seq<Glyph>, EntryModel>;

    closed spec fn view(&self) -> Map<Seq<Glyph>, EntryModel> {
        entries_map(self.entries@)
    }
}

impl Dictionary {
    #[verifier::type_invariant]
    spec fn keys_distinct(self) -> bool {
        keys_are_distinct(self.entries@)
    }

    pub fn new() -> (dictionary: Self)
        ensures
            dictionary@ == Map::<Seq<Glyph>, EntryModel>::empty(),
    {
        Self { entries: Vec::new() }
    }

    fn position_of(&self, glyphs: &Vec<Glyph>) -> (position: Option<usize>)
        ensures
            match position {
                Some(found) => found < self.entries@.len() && self.entries@[found as int].0@
                    == glyphs@,
                None => forall|i: int|
                    0 <= i < self.entries@.len() ==> (#[trigger] self.entries@[i]).0@ != glyphs@,
            },
    {
        let mut position: usize = 0;

        while position < self.entries.len()
            invariant
                position <= self.entries.len(),
                forall|i: int|
                    0 <= i < position ==> (#[trigger] self.entries@[i]).0@ != glyphs@,
            decreases self.entries.len() - position,
        {
            if glyphs_equal(&self.entries[position].0.glyphs, glyphs) {
                return Some(position);
            }
            position = position + 1;
        }

        None
    }

    /// The dictionary with `entry` under `word`, in place of what stood
    /// there before.
    pub fn with_new_complete_definition(self, word: &DictionaryWord, entry: &Entry) -> (dictionary:
        Self)
        ensures
            dictionary@ == self@.insert(word@, entry@),
    {
        self.with_entry(word.clone(), entry.clone())
    }

    fn with_entry(self, word: DictionaryWord, entry: Entry) -> (dictionary: Self)
        ensures
            dictionary@ == self@.insert(word@, entry@),
    {
        proof {
            use_type_invariant(&self);
        }
        let found = self.position_of(&word.glyphs);
        let mut entries = self.entries;
        match found {
            Some(position) => {
                proof {
                    lemma_entries_map_update(entries@, position as int, word, entry);
                }
                entries.set(position, (word, entry));
            },
            None => {
                proof {
                    assert(entries@.push((word, entry)).drop_last() =~= entries@);
                    assert forall|i: int, j: int|
                        0 <= i < j < entries@.push((word, entry)).len() implies (
                    #[trigger] entries@.push((word, entry))[i]).0@ != (#[trigger] entries@.push(
                        (word, entry),
                    )[j]).0@ by {
                        if j < entries@.len() {
                            assert(entries@[i].0@ != entries@[j].0@);
                        } else {
                            assert(entries@[i].0@ != word@);
                        }
                    }
                }
                entries.push((word, entry));
            },
        }

        Self { entries }
    }

    /// The dictionary with a tentative definition, without notes, under the
    /// glyphs of `tunic_word`.
    pub fn with_new_definition(self, tunic_word: &TunicWord, definition: String) -> (dictionary:
        Self)
        ensures
            dictionary@ == self@.insert(
                tunic_word@.glyphs,
                EntryModel {
                    definition: DefinitionModel::Tentative(definition@),
                    notes: Seq::empty(),
                },
            ),
    {
        let entry = Entry::new(Definition::Tentative(definition), Vec::new());
        assert(entry@.notes =~= Seq::<Seq<char>>::empty());

        self.with_entry(DictionaryWord::of(tunic_word), entry)
    }

    /// Adds `note` to the entry of a word that has one. A word without an
    /// entry gets the empty entry, and the note is not kept.
    pub fn with_annotation(self, tunic_word: &TunicWord, note: Note) -> (dictionary: Self)
        ensures
            dictionary@ == self@.insert(
                tunic_word@.glyphs,
                if self@.contains_key(tunic_word@.glyphs) {
                    self@[tunic_word@.glyphs].with_note(note@)
                } else {
                    EntryModel::empty()
                },
            ),
    {
        let word = DictionaryWord::of(tunic_word);
        let entry = match self.get(&word) {
            Some(entry) => entry.clone().with_note(note),
            None => Entry::default(),
        };

        self.with_entry(word, entry)
    }

    /// The entry of `word`, if the dictionary has one.
    pub fn get(&self, word: &DictionaryWord) -> (entry: Option<&Entry>)
        ensures
            match entry {
                Some(entry) => self@.contains_key(word@) && self@[word@] == entry@,
                None => !self@.contains_key(word@),
            },
    {
        proof {
            use_type_invariant(self);
            lemma_entries_map_domain(self.entries@, word@);
        }
        match self.position_of(&word.glyphs) {
            Some(position) => {
                proof {
                    lemma_entries_map_value(self.entries@, position as int);
                }
                Some(&self.entries[position].1)
            },
            None => None,
        }
    }

    /// All words with their entries, each word once, in the order in which
    /// the words were first defined.
    pub fn entries(&self) -> (entries: &Vec<(DictionaryWord, Entry)>)
        ensures
            entries_map(entries@) == self@,
            keys_are_distinct(entries@),
    {
        proof {
            use_type_invariant(self);
        }
        &self.entries
    }
}

} // verus!
