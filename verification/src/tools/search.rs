use vstd::prelude::*;

use crate::language::dictionary::{Definition, DefinitionModel, Dictionary, DictionaryModel, DictionaryWord};
use crate::language::notebooks::Notebook;
use crate::language::snippets::{Snippet, SnippetModel};
use crate::language::words::{Word, WordModel, WordType};
use crate::language::{Source, SourceModel};
use crate::renderers::notebook_editor_renderers::{format_glyphs_for_reading, glyphs_for_reading};
use crate::sequences::views;

verus! {

/// What a search looks for in a snippet.
pub enum Query {
    /// Snippets from the given page of the manual.
    Page(usize),
    /// Snippets that contain the given word.
    Contains(Word),
    /// All snippets.
    All,
}

/// Mathematical model of a [`Query`].
pub enum QueryModel {
    Page(nat),
    Contains(WordModel),
    All,
}

impl View for Query {
    type V = QueryModel;

    open spec fn view(&self) -> QueryModel {
        match self {
            Query::Page(number) => QueryModel::Page(*number as nat),
            Query::Contains(word) => QueryModel::Contains(word@),
            Query::All => QueryModel::All,
        }
    }
}

impl QueryModel {
    pub open spec fn matches_snippet(self, snippet: SnippetModel) -> bool {
        match self {
            QueryModel::Page(number) => snippet.source == Some(
                SourceModel::ManualPageNumber(number),
            ),
            QueryModel::Contains(word) => snippet.contains_word(word),
            QueryModel::All => true,
        }
    }
}

impl Query {
    pub fn matches_snippet(&self, snippet: &Snippet) -> (found: bool)
        ensures
            found == self@.matches_snippet(snippet@),
    {
        match self {
            Query::Page(page_number) => match &snippet.source {
                Some(Source::ManualPageNumber(number)) => *number == *page_number,
                _ => false,
            },
            Query::Contains(word) => snippet.contains_word(word),
            Query::All => true,
        }
    }
}

/// The indices of the snippets that a query matches, in order.
pub open spec fn matching_indices(snippets: Seq<SnippetModel>, query: QueryModel) -> Seq<nat>
    decreases snippets.len(),
{
    if snippets.len() == 0 {
        Seq::empty()
    } else {
        let before = matching_indices(snippets.drop_last(), query);

        if query.matches_snippet(snippets.last()) {
            before.push((snippets.len() - 1) as nat)
        } else {
            before
        }
    }
}

/// Indices as mathematical integers.
pub open spec fn indices(positions: Seq<usize>) -> Seq<nat> {
    Seq::new(positions.len(), |i: int| positions[i] as nat)
}

/// Where in the notebook the snippets stand that `query` matches.
pub fn search(notebook: &Notebook, query: &Query) -> (found: Vec<usize>)
    ensures
        indices(found@) == matching_indices(notebook@.snippets, query@),
{
    let mut found: Vec<usize> = Vec::new();
    let mut index: usize = 0;
    assert(indices(found@) =~= matching_indices(notebook@.snippets.take(0), query@));

    while index < notebook.snippets.len()
        invariant
            index <= notebook.snippets.len(),
            indices(found@) == matching_indices(notebook@.snippets.take(index as int), query@),
        decreases notebook.snippets.len() - index,
    {
        proof {
            assert(notebook@.snippets.take(index + 1).drop_last() =~= notebook@.snippets.take(
                index as int,
            ));
            assert(notebook@.snippets.take(index + 1).last() == notebook.snippets@[index as int]@);
        }
        if query.matches_snippet(&notebook.snippets[index]) {
            found.push(index);
            assert(indices(found@) =~= matching_indices(
                notebook@.snippets.take(index as int),
                query@,
            ).push(index as nat));
        }
        index = index + 1;
    }
    assert(notebook@.snippets.take(index as int) =~= notebook@.snippets);

    found
}

/// Where the snippets from a page of the manual stand.
pub fn search_by_page(notebook: &Notebook, page_number: usize) -> (found: Vec<usize>)
    ensures
        indices(found@) == matching_indices(
            notebook@.snippets,
            QueryModel::Page(page_number as nat),
        ),
{
    search(notebook, &Query::Page(page_number))
}

/// Where the snippets that contain `word` stand.
pub fn search_snippets(notebook: &Notebook, word: &Word) -> (found: Vec<usize>)
    ensures
        indices(found@) == matching_indices(notebook@.snippets, QueryModel::Contains(word@)),
{
    search(notebook, &Query::Contains(word.clone()))
}

/// Where all the snippets stand: every index of the notebook.
pub fn list_all_snippets(notebook: &Notebook) -> (found: Vec<usize>)
    ensures
        indices(found@) == matching_indices(notebook@.snippets, QueryModel::All),
{
    search(notebook, &Query::All)
}

/// How a word that is read out is to be set off from the others.
#[derive(Clone, Copy, Debug, PartialEq, Eq, Structural)]
pub enum ReadingStyle {
    /// The word as it is.
    Plain,
    /// A definition that is not certain.
    Tentative,
    /// A definition that is certain.
    Confirmed,
}

/// A word as its glyphs: numbers for a Tunic word, the text for an English
/// one.
pub open spec fn reading_as_glyphs(word: WordModel) -> Seq<char> {
    match word {
        WordModel::Tunic(word) => glyphs_for_reading(word.glyphs),
        WordModel::English(text) => text,
    }
}

pub fn format_word_for_reading_as_glyphs(word: &Word) -> (text: String)
    ensures
        text@ == reading_as_glyphs(word@),
{
    match &word.word_type {
        WordType::Tunic(word) => format_glyphs_for_reading(word.glyphs()),
        WordType::English(word) => word.text(),
    }
}

/// A word as what it means, where the dictionary says so, and as its
/// glyphs otherwise.
pub open spec fn reading_as_defined(dictionary: DictionaryModel, word: WordModel) -> (
    Seq<char>,
    ReadingStyle,
) {
    match word {
        WordModel::Tunic(tunic_word) => if dictionary.contains_key(tunic_word.glyphs) {
            match dictionary[tunic_word.glyphs].definition {
                DefinitionModel::Undefined => (reading_as_glyphs(word), ReadingStyle::Plain),
                DefinitionModel::Tentative(text) => (text, ReadingStyle::Tentative),
                DefinitionModel::Confirmed(text) => (text, ReadingStyle::Confirmed),
            }
        } else {
            (reading_as_glyphs(word), ReadingStyle::Plain)
        },
        WordModel::English(text) => (text, ReadingStyle::Plain),
    }
}

pub fn format_word_for_reading_as_defined(dictionary: &Dictionary, word: &Word) -> (reading: (
    String,
    ReadingStyle,
))
    ensures
        (reading.0@, reading.1) == reading_as_defined(dictionary@, word@),
{
    match &word.word_type {
        WordType::Tunic(tunic_word) => {
            match dictionary.get(&DictionaryWord::of(tunic_word)) {
                Some(entry) => match entry.definition() {
                    Definition::Undefined => (
                        format_glyphs_for_reading(tunic_word.glyphs()),
                        ReadingStyle::Plain,
                    ),
                    Definition::Tentative(text) => (text.clone(), ReadingStyle::Tentative),
                    Definition::Confirmed(text) => (text.clone(), ReadingStyle::Confirmed),
                },
                None => (format_glyphs_for_reading(tunic_word.glyphs()), ReadingStyle::Plain),
            }
        },
        WordType::English(word) => (word.text(), ReadingStyle::Plain),
    }
}

/// The dictionary to search with: with `as_if` as the meaning of a Tunic
/// `word`, for the time of the search, where one is given.
pub fn with_temporary_definition(dictionary: Dictionary, word: &Word, as_if: &Option<String>) -> (
changed: Dictionary)
    ensures
        changed@ == match (as_if, word@) {
            (Some(text), WordModel::Tunic(tunic_word)) => dictionary@.insert(
                tunic_word.glyphs,
                crate::language::dictionary::EntryModel {
                    definition: DefinitionModel::Tentative(text@),
                    notes: Seq::empty(),
                },
            ),
            _ => dictionary@,
        },
{
    match as_if {
        Some(temporary_definition) => match &word.word_type {
            WordType::Tunic(tunic_word) => dictionary.with_new_definition(
                tunic_word,
                temporary_definition.clone(),
            ),
            WordType::English(_) => dictionary,
        },
        None => dictionary,
    }
}

/// How often `word` stands among `words`.
pub open spec fn occurrences_in(words: Seq<WordModel>, word: WordModel) -> nat
    decreases words.len(),
{
    if words.len() == 0 {
        0
    } else {
        occurrences_in(words.drop_last(), word) + if words.last() == word {
            1nat
        } else {
            0nat
        }
    }
}

/// How often `word` stands in the snippets.
pub open spec fn occurrences(snippets: Seq<SnippetModel>, word: WordModel) -> nat
    decreases snippets.len(),
{
    if snippets.len() == 0 {
        0
    } else {
        occurrences(snippets.drop_last(), word) + occurrences_in(snippets.last().words, word)
    }
}

/// A count as a `usize` can hold it: counts beyond the largest `usize` are
/// held at it.
pub open spec fn held_count(count: nat) -> nat {
    if count <= usize::MAX {
        count
    } else {
        usize::MAX as nat
    }
}

/// Each entry is a Tunic word with the number of times that it stands in
/// the snippets, no word is listed twice, and every Tunic word of the
/// snippets is listed.
pub open spec fn counts_tunic_words(usage: Seq<(Word, usize)>, snippets: Seq<SnippetModel>) -> bool {
    &&& forall|i: int|
        0 <= i < usage.len() ==> (#[trigger] usage[i]).0@ is Tunic && occurrences(
            snippets,
            usage[i].0@,
        ) > 0 && usage[i].1 == held_count(occurrences(snippets, usage[i].0@))
    &&& forall|i: int, j: int|
        0 <= i < j < usage.len() ==> (#[trigger] usage[i]).0@ != (#[trigger] usage[j]).0@
    &&& forall|word: WordModel|
        word is Tunic && #[trigger] occurrences(snippets, word) > 0 ==> exists|i: int|
            0 <= i < usage.len() && (#[trigger] usage[i]).0@ == word
}

/// The counts do not rise along the list.
pub open spec fn most_used_first(usage: Seq<(Word, usize)>) -> bool {
    forall|i: int, j: int|
        0 <= i < j < usage.len() ==> (#[trigger] usage[i]).1 >= (#[trigger] usage[j]).1
}

/// What is counted once the first `done` words of the snippet behind the
/// first `finished` snippets are counted.
pub open spec fn counted(
    snippets: Seq<SnippetModel>,
    finished: int,
    done: int,
    word: WordModel,
) -> nat {
    occurrences(snippets.take(finished), word) + if finished < snippets.len() {
        occurrences_in(snippets[finished].words.take(done), word)
    } else {
        0
    }
}

/// The entries count what `counted` says.
pub open spec fn counts_so_far(
    usage: Seq<(Word, usize)>,
    snippets: Seq<SnippetModel>,
    finished: int,
    done: int,
) -> bool {
    &&& forall|i: int|
        0 <= i < usage.len() ==> (#[trigger] usage[i]).0@ is Tunic && counted(
            snippets,
            finished,
            done,
            usage[i].0@,
        ) > 0 && usage[i].1 == held_count(counted(snippets, finished, done, usage[i].0@))
    &&& forall|i: int, j: int|
        0 <= i < j < usage.len() ==> (#[trigger] usage[i]).0@ != (#[trigger] usage[j]).0@
    &&& forall|word: WordModel|
        word is Tunic && #[trigger] counted(snippets, finished, done, word) > 0 ==> exists|i: int|
            0 <= i < usage.len() && (#[trigger] usage[i]).0@ == word
}

proof fn lemma_counted_step(snippets: Seq<SnippetModel>, finished: int, done: int, word: WordModel)
    requires
        0 <= finished < snippets.len(),
        0 <= done < snippets[finished].words.len(),
    ensures
        counted(snippets, finished, done + 1, word) == counted(snippets, finished, done, word)
            + if snippets[finished].words[done] == word {
            1nat
        } else {
            0nat
        },
{
    let words = snippets[finished].words;
    assert(words.take(done + 1).drop_last() =~= words.take(done));
    assert(words.take(done + 1).last() == words[done]);
}

proof fn lemma_counted_next_snippet(snippets: Seq<SnippetModel>, finished: int, word: WordModel)
    requires
        0 <= finished < snippets.len(),
    ensures
        counted(snippets, finished + 1, 0, word) == counted(
            snippets,
            finished,
            snippets[finished].words.len() as int,
            word,
        ),
        counted(snippets, finished, 0, word) == occurrences(snippets.take(finished), word),
{
    let words = snippets[finished].words;
    assert(words.take(words.len() as int) =~= words);
    assert(snippets.take(finished + 1).drop_last() =~= snippets.take(finished));
    assert(snippets.take(finished + 1).last() == snippets[finished]);
    assert(words.take(0) =~= Seq::<WordModel>::empty());
    if finished + 1 < snippets.len() {
        assert(snippets[finished + 1].words.take(0) =~= Seq::<WordModel>::empty());
    }
}

/// The count after one more occurrence.
pub open spec fn raised(count: usize) -> usize {
    if count < usize::MAX {
        (count + 1) as usize
    } else {
        count
    }
}

proof fn lemma_count_raised(
    before: Seq<(Word, usize)>,
    after: Seq<(Word, usize)>,
    snippets: Seq<SnippetModel>,
    finished: int,
    done: int,
    position: int,
)
    requires
        0 <= finished < snippets.len(),
        0 <= done < snippets[finished].words.len(),
        counts_so_far(before, snippets, finished, done),
        0 <= position < before.len(),
        before[position].0@ == snippets[finished].words[done],
        after.len() == before.len(),
        forall|i: int| 0 <= i < before.len() && i != position ==> after[i] == before[i],
        after[position].0@ == before[position].0@,
        after[position].1 == raised(before[position].1),
    ensures
        counts_so_far(after, snippets, finished, done + 1),
{
    let word = snippets[finished].words[done];
    assert forall|i: int| 0 <= i < after.len() implies (#[trigger] after[i]).0@ is Tunic
        && counted(snippets, finished, done + 1, after[i].0@) > 0 && after[i].1 == held_count(
        counted(snippets, finished, done + 1, after[i].0@),
    ) by {
        lemma_counted_step(snippets, finished, done, after[i].0@);
        assert(before[i].0@ is Tunic);
        if i != position {
            assert(before[i].0@ != before[position].0@);
        }
    }
    assert forall|i: int, j: int| 0 <= i < j < after.len() implies (#[trigger] after[i]).0@ != (
    #[trigger] after[j]).0@ by {
        assert(before[i].0@ != before[j].0@);
    }
    assert forall|other: WordModel|
        other is Tunic && #[trigger] counted(snippets, finished, done + 1, other)
            > 0 implies exists|i: int| 0 <= i < after.len() && (#[trigger] after[i]).0@ == other by {
        lemma_counted_step(snippets, finished, done, other);
        if other == word {
            assert(after[position].0@ == other);
        } else {
            assert(counted(snippets, finished, done, other) > 0);
            let i = choose|i: int| 0 <= i < before.len() && (#[trigger] before[i]).0@ == other;
            assert(after[i].0@ == other);
        }
    }
}

proof fn lemma_count_started(
    before: Seq<(Word, usize)>,
    entry: (Word, usize),
    snippets: Seq<SnippetModel>,
    finished: int,
    done: int,
)
    requires
        0 <= finished < snippets.len(),
        0 <= done < snippets[finished].words.len(),
        counts_so_far(before, snippets, finished, done),
        forall|i: int| 0 <= i < before.len() ==> (#[trigger] before[i]).0@ != entry.0@,
        entry.0@ == snippets[finished].words[done],
        entry.0@ is Tunic,
        entry.1 == 1,
    ensures
        counts_so_far(before.push(entry), snippets, finished, done + 1),
{
    let after = before.push(entry);
    let word = entry.0@;
    assert(counted(snippets, finished, done, word) == 0) by {
        if counted(snippets, finished, done, word) > 0 {
            let i = choose|i: int| 0 <= i < before.len() && (#[trigger] before[i]).0@ == word;
            assert(before[i].0@ != entry.0@);
        }
    }
    assert forall|i: int| 0 <= i < after.len() implies (#[trigger] after[i]).0@ is Tunic
        && counted(snippets, finished, done + 1, after[i].0@) > 0 && after[i].1 == held_count(
        counted(snippets, finished, done + 1, after[i].0@),
    ) by {
        lemma_counted_step(snippets, finished, done, after[i].0@);
        if i < before.len() {
            assert(after[i] == before[i]);
            assert(before[i].0@ is Tunic);
        }
    }
    assert forall|i: int, j: int| 0 <= i < j < after.len() implies (#[trigger] after[i]).0@ != (
    #[trigger] after[j]).0@ by {
        assert(after[i] == before[i]);
        if j < before.len() {
            assert(after[j] == before[j]);
            assert(before[i].0@ != before[j].0@);
        }
    }
    assert forall|other: WordModel|
        other is Tunic && #[trigger] counted(snippets, finished, done + 1, other)
            > 0 implies exists|i: int| 0 <= i < after.len() && (#[trigger] after[i]).0@ == other by {
        lemma_counted_step(snippets, finished, done, other);
        if other == word {
            assert(after[before.len() as int].0@ == other);
        } else {
            assert(counted(snippets, finished, done, other) > 0);
            let i = choose|i: int| 0 <= i < before.len() && (#[trigger] before[i]).0@ == other;
            assert(after[i].0@ == other);
        }
    }
}

proof fn lemma_count_passed(
    usage: Seq<(Word, usize)>,
    snippets: Seq<SnippetModel>,
    finished: int,
    done: int,
)
    requires
        0 <= finished < snippets.len(),
        0 <= done < snippets[finished].words.len(),
        counts_so_far(usage, snippets, finished, done),
        snippets[finished].words[done] is English,
    ensures
        counts_so_far(usage, snippets, finished, done + 1),
{
    assert forall|i: int| 0 <= i < usage.len() implies (#[trigger] usage[i]).0@ is Tunic
        && counted(snippets, finished, done + 1, usage[i].0@) > 0 && usage[i].1 == held_count(
        counted(snippets, finished, done + 1, usage[i].0@),
    ) by {
        lemma_counted_step(snippets, finished, done, usage[i].0@);
    }
    assert forall|other: WordModel|
        other is Tunic && #[trigger] counted(snippets, finished, done + 1, other)
            > 0 implies exists|i: int| 0 <= i < usage.len() && (#[trigger] usage[i]).0@ == other by {
        lemma_counted_step(snippets, finished, done, other);
        assert(counted(snippets, finished, done, other) > 0);
    }
}

proof fn lemma_count_moved_on(usage: Seq<(Word, usize)>, snippets: Seq<SnippetModel>, finished: int)
    requires
        0 <= finished < snippets.len(),
        counts_so_far(usage, snippets, finished, snippets[finished].words.len() as int),
    ensures
        counts_so_far(usage, snippets, finished + 1, 0),
{
    let done = snippets[finished].words.len() as int;
    assert forall|i: int| 0 <= i < usage.len() implies (#[trigger] usage[i]).0@ is Tunic
        && counted(snippets, finished + 1, 0, usage[i].0@) > 0 && usage[i].1 == held_count(
        counted(snippets, finished + 1, 0, usage[i].0@),
    ) by {
        lemma_counted_next_snippet(snippets, finished, usage[i].0@);
    }
    assert forall|other: WordModel|
        other is Tunic && #[trigger] counted(snippets, finished + 1, 0, other)
            > 0 implies exists|i: int| 0 <= i < usage.len() && (#[trigger] usage[i]).0@ == other by {
        lemma_counted_next_snippet(snippets, finished, other);
        assert(counted(snippets, finished, done, other) > 0);
    }
}

proof fn lemma_count_begun(snippets: Seq<SnippetModel>)
    ensures
        counts_so_far(Seq::<(Word, usize)>::empty(), snippets, 0, 0),
{
    assert forall|other: WordModel| #[trigger] counted(snippets, 0, 0, other) == 0 by {
        assert(snippets.take(0) =~= Seq::<SnippetModel>::empty());
        if 0 < snippets.len() {
            assert(snippets[0].words.take(0) =~= Seq::<WordModel>::empty());
        }
    }
}

proof fn lemma_count_ended(usage: Seq<(Word, usize)>, snippets: Seq<SnippetModel>)
    requires
        counts_so_far(usage, snippets, snippets.len() as int, 0),
    ensures
        counts_tunic_words(usage, snippets),
{
    assert(snippets.take(snippets.len() as int) =~= snippets);
    assert forall|other: WordModel|
        counted(snippets, snippets.len() as int, 0, other) == occurrences(snippets, other) by {}
    assert forall|i: int| 0 <= i < usage.len() implies (#[trigger] usage[i]).0@ is Tunic
        && occurrences(snippets, usage[i].0@) > 0 && usage[i].1 == held_count(
        occurrences(snippets, usage[i].0@),
    ) by {
        assert(counted(snippets, snippets.len() as int, 0, usage[i].0@) > 0);
    }
    assert forall|word: WordModel|
        word is Tunic && #[trigger] occurrences(snippets, word) > 0 implies exists|i: int|
        0 <= i < usage.len() && (#[trigger] usage[i]).0@ == word by {
        assert(counted(snippets, snippets.len() as int, 0, word) > 0);
    }
}

fn position_of_word(usage: &Vec<(Word, usize)>, word: &Word) -> (position: Option<usize>)
    ensures
        match position {
            Some(found) => found < usage@.len() && usage@[found as int].0@ == word@,
            None => forall|i: int| 0 <= i < usage@.len() ==> (#[trigger] usage@[i]).0@ != word@,
        },
{
    let mut position: usize = 0;

    while position < usage.len()
        invariant
            position <= usage.len(),
            forall|i: int| 0 <= i < position ==> (#[trigger] usage@[i]).0@ != word@,
        decreases usage.len() - position,
    {
        if usage[position].0 == *word {
            return Some(position);
        }
        position = position + 1;
    }

    None
}

/// The Tunic words of the notebook with the number of times that each
/// stands in it, in the order in which they first appear.
pub fn count_word_usage(notebook: &Notebook) -> (usage: Vec<(Word, usize)>)
    ensures
        counts_tunic_words(usage@, notebook@.snippets),
{
    let ghost snippets = notebook@.snippets;
    let mut usage: Vec<(Word, usize)> = Vec::new();
    let mut finished: usize = 0;
    proof {
        lemma_count_begun(snippets);
        assert(usage@ =~= Seq::<(Word, usize)>::empty());
    }

    while finished < notebook.snippets.len()
        invariant
            finished <= notebook.snippets.len(),
            snippets == notebook@.snippets,
            snippets.len() == notebook.snippets.len(),
            counts_so_far(usage@, snippets, finished as int, 0),
        decreases notebook.snippets.len() - finished,
    {
        let snippet = &notebook.snippets[finished];
        assert(snippet@ == snippets[finished as int]);
        let mut done: usize = 0;

        while done < snippet.words.len()
            invariant
                finished < notebook.snippets.len(),
                snippets == notebook@.snippets,
                snippets.len() == notebook.snippets.len(),
                snippet@ == snippets[finished as int],
                snippet.words.len() == snippets[finished as int].words.len(),
                done <= snippet.words.len(),
                counts_so_far(usage@, snippets, finished as int, done as int),
            decreases snippet.words.len() - done,
        {
            let word = &snippet.words[done];
            assert(word@ == snippets[finished as int].words[done as int]);
            match &word.word_type {
                WordType::Tunic(_) => {
                    let ghost before = usage@;
                    match position_of_word(&usage, word) {
                        Some(position) => {
                            let count = usage[position].1;
                            let more = if count < usize::MAX {
                                count + 1
                            } else {
                                count
                            };
                            usage.set(position, (word.clone(), more));
                            proof {
                                lemma_count_raised(
                                    before,
                                    usage@,
                                    snippets,
                                    finished as int,
                                    done as int,
                                    position as int,
                                );
                            }
                        },
                        None => {
                            let entry = (word.clone(), 1usize);
                            proof {
                                lemma_count_started(
                                    before,
                                    entry,
                                    snippets,
                                    finished as int,
                                    done as int,
                                );
                            }
                            usage.push(entry);
                        },
                    }
                },
                WordType::English(_) => {
                    proof {
                        lemma_count_passed(usage@, snippets, finished as int, done as int);
                    }
                },
            }
            done = done + 1;
        }
        proof {
            lemma_count_moved_on(usage@, snippets, finished as int);
        }
        finished = finished + 1;
    }
    proof {
        lemma_count_ended(usage@, snippets);
    }

    usage
}

/// Every entry of `sorted` is one of the first `taken` entries of
/// `counts`, by word and count.
#[verifier::opaque]
pub open spec fn comes_from(sorted: Seq<(Word, usize)>, counts: Seq<(Word, usize)>, taken: int) -> bool {
    forall|i: int|
        0 <= i < sorted.len() ==> exists|j: int|
            0 <= j < taken && (#[trigger] counts[j]).0@ == (#[trigger] sorted[i]).0@ && counts[j].1
                == sorted[i].1
}

/// Every word of the first `taken` entries of `counts` has an entry in
/// `sorted`.
#[verifier::opaque]
pub open spec fn all_placed(sorted: Seq<(Word, usize)>, counts: Seq<(Word, usize)>, taken: int) -> bool {
    forall|j: int|
        0 <= j < taken ==> exists|i: int|
            0 <= i < sorted.len() && (#[trigger] sorted[i]).0@ == (#[trigger] counts[j]).0@
}

/// No word has two entries.
#[verifier::opaque]
pub open spec fn no_word_twice(usage: Seq<(Word, usize)>) -> bool {
    forall|i: int, j: int|
        0 <= i < j < usage.len() ==> (#[trigger] usage[i]).0@ != (#[trigger] usage[j]).0@
}

/// `sorted` holds the first `taken` entries of `counts`, each word once.
pub open spec fn holds_the_same(
    sorted: Seq<(Word, usize)>,
    counts: Seq<(Word, usize)>,
    taken: int,
) -> bool {
    &&& comes_from(sorted, counts, taken)
    &&& all_placed(sorted, counts, taken)
    &&& no_word_twice(sorted)
}

proof fn lemma_placed_comes_from(
    before: Seq<(Word, usize)>,
    counts: Seq<(Word, usize)>,
    taken: int,
    place: int,
    entry: (Word, usize),
)
    requires
        0 <= taken < counts.len(),
        comes_from(before, counts, taken),
        0 <= place <= before.len(),
        entry.0@ == counts[taken].0@,
        entry.1 == counts[taken].1,
    ensures
        comes_from(before.insert(place, entry), counts, taken + 1),
{
    reveal(comes_from);
    let after = before.insert(place, entry);
    assert forall|i: int| 0 <= i < after.len() implies exists|j: int|
        0 <= j < taken + 1 && (#[trigger] counts[j]).0@ == (#[trigger] after[i]).0@ && counts[j].1
            == after[i].1 by {
        if i == place {
            assert(counts[taken].0@ == after[i].0@ && counts[taken].1 == after[i].1);
        } else {
            let old = if i < place {
                i
            } else {
                i - 1
            };
            assert(after[i] == before[old]);
            let j = choose|j: int|
                0 <= j < taken && (#[trigger] counts[j]).0@ == (#[trigger] before[old]).0@
                    && counts[j].1 == before[old].1;
            assert(counts[j].0@ == after[i].0@ && counts[j].1 == after[i].1);
        }
    }
}

proof fn lemma_placed_all_placed(
    before: Seq<(Word, usize)>,
    counts: Seq<(Word, usize)>,
    taken: int,
    place: int,
    entry: (Word, usize),
)
    requires
        0 <= taken < counts.len(),
        all_placed(before, counts, taken),
        0 <= place <= before.len(),
        entry.0@ == counts[taken].0@,
    ensures
        all_placed(before.insert(place, entry), counts, taken + 1),
{
    reveal(all_placed);
    let after = before.insert(place, entry);
    assert forall|j: int| 0 <= j < taken + 1 implies exists|i: int|
        0 <= i < after.len() && (#[trigger] after[i]).0@ == (#[trigger] counts[j]).0@ by {
        if j == taken {
            assert(after[place].0@ == counts[j].0@);
        } else {
            let i = choose|i: int|
                0 <= i < before.len() && (#[trigger] before[i]).0@ == (#[trigger] counts[j]).0@;
            let new = if i < place {
                i
            } else {
                i + 1
            };
            assert(after[new] == before[i]);
            assert(after[new].0@ == counts[j].0@);
        }
    }
}

proof fn lemma_placed_no_word_twice(
    before: Seq<(Word, usize)>,
    counts: Seq<(Word, usize)>,
    taken: int,
    place: int,
    entry: (Word, usize),
)
    requires
        0 <= taken < counts.len(),
        no_word_twice(counts),
        no_word_twice(before),
        comes_from(before, counts, taken),
        0 <= place <= before.len(),
        entry.0@ == counts[taken].0@,
    ensures
        no_word_twice(before.insert(place, entry)),
{
    reveal(no_word_twice);
    reveal(comes_from);
    let after = before.insert(place, entry);
    assert forall|k: int| 0 <= k < before.len() implies (#[trigger] before[k]).0@ != entry.0@ by {
        let source = choose|source: int|
            0 <= source < taken && (#[trigger] counts[source]).0@ == (#[trigger] before[k]).0@
                && counts[source].1 == before[k].1;
        assert(counts[source].0@ != counts[taken].0@);
    }
    assert forall|i: int, j: int| 0 <= i < j < after.len() implies (#[trigger] after[i]).0@ != (
    #[trigger] after[j]).0@ by {
        let old_i = if i < place {
            i
        } else {
            i - 1
        };
        let old_j = if j < place {
            j
        } else {
            j - 1
        };
        if i == place {
            assert(after[j] == before[old_j]);
        } else if j == place {
            assert(after[i] == before[old_i]);
        } else {
            assert(after[i] == before[old_i]);
            assert(after[j] == before[old_j]);
            assert(before[old_i].0@ != before[old_j].0@);
        }
    }
}

proof fn lemma_placed_most_used_first(before: Seq<(Word, usize)>, place: int, entry: (Word, usize))
    requires
        most_used_first(before),
        0 <= place <= before.len(),
        forall|i: int| 0 <= i < place ==> (#[trigger] before[i]).1 >= entry.1,
        place < before.len() ==> before[place].1 < entry.1,
    ensures
        most_used_first(before.insert(place, entry)),
{
    let after = before.insert(place, entry);
    assert forall|i: int, j: int| 0 <= i < j < after.len() implies (#[trigger] after[i]).1 >= (
    #[trigger] after[j]).1 by {
        if j < place {
            assert(after[i] == before[i]);
            assert(after[j] == before[j]);
        } else if j == place {
            assert(after[i] == before[i]);
        } else if i < place {
            assert(after[i] == before[i]);
            assert(after[j] == before[j - 1]);
        } else if i == place {
            assert(after[j] == before[j - 1]);
            if j - 1 > place {
                assert(before[place].1 >= before[j - 1].1);
            }
        } else {
            assert(after[i] == before[i - 1]);
            assert(after[j] == before[j - 1]);
        }
    }
}

proof fn lemma_sorted_counts(
    sorted: Seq<(Word, usize)>,
    counts: Seq<(Word, usize)>,
    snippets: Seq<SnippetModel>,
)
    requires
        counts_tunic_words(counts, snippets),
        holds_the_same(sorted, counts, counts.len() as int),
    ensures
        counts_tunic_words(sorted, snippets),
{
    reveal(comes_from);
    reveal(all_placed);
    reveal(no_word_twice);
    assert forall|i: int| 0 <= i < sorted.len() implies (#[trigger] sorted[i]).0@ is Tunic
        && occurrences(snippets, sorted[i].0@) > 0 && sorted[i].1 == held_count(
        occurrences(snippets, sorted[i].0@),
    ) by {
        let j = choose|j: int|
            0 <= j < counts.len() && (#[trigger] counts[j]).0@ == (#[trigger] sorted[i]).0@
                && counts[j].1 == sorted[i].1;
        assert(counts[j].0@ is Tunic);
    }
    assert forall|word: WordModel|
        word is Tunic && #[trigger] occurrences(snippets, word) > 0 implies exists|i: int|
        0 <= i < sorted.len() && (#[trigger] sorted[i]).0@ == word by {
        let j = choose|j: int| 0 <= j < counts.len() && (#[trigger] counts[j]).0@ == word;
        let i = choose|i: int|
            0 <= i < sorted.len() && (#[trigger] sorted[i]).0@ == (#[trigger] counts[j]).0@;
        assert(sorted[i].0@ == word);
    }
}

/// Where an entry with the given count goes in a list that has the most
/// used first: behind the entries that are used as often or more.
fn place_for(sorted: &Vec<(Word, usize)>, count: usize) -> (place: usize)
    ensures
        place <= sorted@.len(),
        forall|i: int| 0 <= i < place ==> (#[trigger] sorted@[i]).1 >= count,
        place < sorted@.len() ==> sorted@[place as int].1 < count,
{
    let mut place: usize = 0;

    while place < sorted.len() && sorted[place].1 >= count
        invariant
            place <= sorted.len(),
            forall|i: int| 0 <= i < place ==> (#[trigger] sorted@[i]).1 >= count,
        decreases sorted.len() - place,
    {
        place = place + 1;
    }

    place
}

proof fn lemma_nothing_placed(counts: Seq<(Word, usize)>, snippets: Seq<SnippetModel>)
    requires
        counts_tunic_words(counts, snippets),
    ensures
        holds_the_same(Seq::<(Word, usize)>::empty(), counts, 0),
        most_used_first(Seq::<(Word, usize)>::empty()),
        no_word_twice(counts),
{
    reveal(comes_from);
    reveal(all_placed);
    reveal(no_word_twice);
}

/// The Tunic words of the notebook with the number of times that each
/// stands in it, the most used first; words that are used equally often
/// stand in the order in which they first appear.
pub fn search_word_usage(notebook: &Notebook) -> (usage: Vec<(Word, usize)>)
    ensures
        counts_tunic_words(usage@, notebook@.snippets),
        most_used_first(usage@),
{
    let counts = count_word_usage(notebook);
    let ghost snippets = notebook@.snippets;
    let mut sorted: Vec<(Word, usize)> = Vec::new();
    let mut taken: usize = 0;
    proof {
        lemma_nothing_placed(counts@, snippets);
        assert(sorted@ =~= Seq::<(Word, usize)>::empty());
    }

    while taken < counts.len()
        invariant
            taken <= counts.len(),
            no_word_twice(counts@),
            most_used_first(sorted@),
            holds_the_same(sorted@, counts@, taken as int),
        decreases counts.len() - taken,
    {
        let count = counts[taken].1;
        let place = place_for(&sorted, count);
        let entry = (counts[taken].0.clone(), count);
        proof {
            lemma_placed_comes_from(sorted@, counts@, taken as int, place as int, entry);
            lemma_placed_all_placed(sorted@, counts@, taken as int, place as int, entry);
            lemma_placed_no_word_twice(sorted@, counts@, taken as int, place as int, entry);
            lemma_placed_most_used_first(sorted@, place as int, entry);
        }
        sorted.insert(place, entry);
        taken = taken + 1;
    }
    proof {
        lemma_sorted_counts(sorted@, counts@, snippets);
    }

    sorted
}

} // verus!
