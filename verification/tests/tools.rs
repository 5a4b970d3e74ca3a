use fennec::language::dictionary::{Definition, Dictionary, DictionaryWord, Entry};
use fennec::language::glyphs::Glyph;
use fennec::language::notebooks::{Notebook, VERSION};
use fennec::language::snippets::Snippet;
use fennec::language::words::{TunicWord, Word};
use fennec::language::{Note, Source};
use fennec::tools::definitions::{
    definition_of_type, definition_text, format_word_for_reading, initial_dictionary, notes_from,
    with_definition_added,
};
use fennec::tools::pages::{
    snippets, source_path_for, to_dictionary_entries, word_row, DictionaryEntry, WordRow,
};
use fennec::tools::search::{
    format_word_for_reading_as_defined, format_word_for_reading_as_glyphs, list_all_snippets,
    search, search_by_page, search_snippets, with_temporary_definition, Query, ReadingStyle,
};
use fennec::tools::snippets::{english_word_snippet, tunic_word_snippet, with_snippet_added};

fn tunic(codes: &[u16]) -> Word {
    Word::tunic(codes.iter().map(|code| Glyph(*code)).collect())
}

fn tunic_word(codes: &[u16]) -> TunicWord {
    TunicWord::new(codes.iter().map(|code| Glyph(*code)).collect())
}

fn snippet(words: Vec<Word>, source: Option<Source>) -> Snippet {
    Snippet { words, source, ..Snippet::default() }
}

fn notebook() -> Notebook {
    Notebook::from(vec![
        snippet(vec![tunic(&[1]), tunic(&[2])], Some(Source::ManualPageNumber(3))),
        snippet(vec![tunic(&[2])], Some(Source::ManualPageNumber(4))),
        snippet(vec![Word::english("a".to_string())], None),
        snippet(vec![tunic(&[1, 2])], Some(Source::ManualPageNumber(3))),
    ])
}

#[test]
fn old_words_migrate_to_the_same_words() {
    let old = fennec::migration::Word::Tunic {
        glyphs: vec![Glyph(1), Glyph(2)],
        has_border: true,
        colored: false,
    };
    assert_eq!(old.migrated(), Word::from(tunic_word(&[1, 2]).with_border_as(true)));

    let old = fennec::migration::Word::English("and".to_string());
    assert_eq!(old.migrated(), Word::english("and".to_string()));
}

#[test]
fn old_notebooks_migrate_to_the_current_version() {
    let old = fennec::migration::Notebook {
        snippets: vec![fennec::migration::Snippet {
            words: vec![
                fennec::migration::Word::English("and".to_string()),
                fennec::migration::Word::Tunic {
                    glyphs: vec![Glyph(9)],
                    has_border: false,
                    colored: true,
                },
            ],
            source: Some(Source::ManualPageNumber(5)),
            description: "d".to_string(),
            notes: vec![Note("n".to_string())],
            transcribed: true,
        }],
    };

    let new = old.migrated();

    assert_eq!(new.version, VERSION);
    assert_eq!(
        new.snippets,
        vec![Snippet {
            words: vec![
                Word::english("and".to_string()),
                Word::from(tunic_word(&[9]).with_colored_as(true)),
            ],
            source: Some(Source::ManualPageNumber(5)),
            description: "d".to_string(),
            notes: vec![Note("n".to_string())],
            transcribed: true,
        }]
    );
    assert_eq!(old.snippets[0].migrated(), new.snippets[0]);
}

#[test]
fn snippets_for_new_words() {
    let made = tunic_word_snippet(Source::ManualPageNumber(2), "d".to_string());
    assert_eq!(made.words, vec![tunic(&[0x99])]);
    assert_eq!(made.source, Some(Source::ManualPageNumber(2)));
    assert_eq!(made.description, "d");
    assert!(made.notes.is_empty());
    assert!(!made.transcribed);

    let made = english_word_snippet(
        Source::Other("sign".to_string()),
        "d".to_string(),
        Some("and".to_string()),
    )
    .unwrap();
    assert_eq!(made.words, vec![Word::english("and".to_string())]);
    assert_eq!(made.source, Some(Source::Other("sign".to_string())));

    assert_eq!(english_word_snippet(Source::ManualPageNumber(2), "d".to_string(), None), None);
}

#[test]
fn a_snippet_is_added_in_front_or_behind() {
    let new = Snippet::starting_snippet();

    let appended = with_snippet_added(notebook(), new.clone(), true);
    assert_eq!(appended.snippets.len(), 5);
    assert_eq!(appended.snippets[4], new);
    assert_eq!(appended.snippets[..4], notebook().snippets[..]);

    let prepended = with_snippet_added(notebook(), new.clone(), false);
    assert_eq!(prepended.snippets[0], new);
    assert_eq!(prepended.snippets[1..], notebook().snippets[..]);
    assert_eq!(prepended.version, VERSION);
}

#[test]
fn definitions_are_made_by_the_name_of_their_type() {
    assert_eq!(
        definition_of_type("tentative", "fox".to_string()),
        Some(Definition::Tentative("fox".to_string()))
    );
    assert_eq!(
        definition_of_type("confirmed", "fox".to_string()),
        Some(Definition::Confirmed("fox".to_string()))
    );
    assert_eq!(definition_of_type("undefined", "fox".to_string()), Some(Definition::Undefined));
    assert_eq!(definition_of_type("tenative", "fox".to_string()), None);
    assert_eq!(definition_of_type("", "fox".to_string()), None);
    assert_eq!(
        notes_from(vec!["a".to_string(), "b".to_string()]),
        vec![Note("a".to_string()), Note("b".to_string())]
    );
}

#[test]
fn a_definition_is_added_once() {
    let word = DictionaryWord::new(vec![Glyph(1)]);
    let entry = Entry::new(Definition::Confirmed("fox".to_string()), vec![]);

    let dictionary = with_definition_added(Dictionary::new(), &word, &entry).unwrap();
    assert_eq!(dictionary.get(&word), Some(&entry));
    assert_eq!(definition_text(&entry), "fox");
    assert_eq!(definition_text(&Entry::default()), "Undefined");

    let other = Entry::default();
    let unchanged = with_definition_added(dictionary, &word, &other).unwrap_err();
    assert_eq!(unchanged.get(&word), Some(&entry));
    assert_eq!(unchanged.entries().len(), 1);
}

#[test]
fn a_new_dictionary_has_an_example() {
    let dictionary = initial_dictionary();
    let word = tunic_word(&[0, 0, 0]);

    assert_eq!(dictionary.entries().len(), 1);
    assert_eq!(
        dictionary.get(&DictionaryWord::of(&word)),
        Some(&Entry::new(
            Definition::Tentative("An example Tunic word entry".to_string()),
            vec![Note("Example Note".to_string())],
        ))
    );
    assert_eq!(format_word_for_reading(&word), "[0 0 0]");
    assert_eq!(format_word_for_reading(&tunic_word(&[])), "(Empty)");
    assert_eq!(
        dictionary.entries()[0].1.to_string(),
        "Entry { Definition: Definition(Tenative(An example Tunic word entry)), Notes: Note(Example Note) }"
    );
    assert_eq!(
        Entry::default().to_string(),
        "Entry { Definition: Definition(Undefined), Notes: [] }"
    );
    assert_eq!(dictionary.entries()[0].0.to_string(), "TunicWord: 0 0 0");
    assert_eq!(DictionaryWord::new(vec![]).to_string(), "(Empty Tunic Word)");
}

#[test]
fn searches_find_the_places_of_matching_snippets() {
    let notebook = notebook();

    assert_eq!(search_by_page(&notebook, 3), vec![0, 3]);
    assert_eq!(search_by_page(&notebook, 4), vec![1]);
    assert_eq!(search_by_page(&notebook, 5), Vec::<usize>::new());
    assert_eq!(search_snippets(&notebook, &tunic(&[2])), vec![0, 1]);
    assert_eq!(search_snippets(&notebook, &Word::english("a".to_string())), vec![2]);
    assert_eq!(search_snippets(&notebook, &tunic(&[3])), Vec::<usize>::new());
    assert_eq!(list_all_snippets(&notebook), vec![0, 1, 2, 3]);
    assert_eq!(search(&notebook, &Query::Page(3)), vec![0, 3]);
    assert!(Query::All.matches_snippet(&Snippet::default()));
    assert!(!Query::Page(3).matches_snippet(&Snippet::default()));
}

#[test]
fn words_are_read_as_glyphs_or_as_defined() {
    let dictionary = Dictionary::new()
        .with_new_definition(&tunic_word(&[1]), "fox".to_string())
        .with_new_complete_definition(
            &DictionaryWord::new(vec![Glyph(2)]),
            &Entry::new(Definition::Confirmed("sword".to_string()), vec![]),
        )
        .with_new_complete_definition(&DictionaryWord::new(vec![Glyph(3)]), &Entry::default());

    assert_eq!(format_word_for_reading_as_glyphs(&tunic(&[1, 2])), "[1 2]");
    assert_eq!(format_word_for_reading_as_glyphs(&Word::english("a".to_string())), "a");

    let read = |word: &Word| format_word_for_reading_as_defined(&dictionary, word);
    assert_eq!(read(&tunic(&[1])), ("fox".to_string(), ReadingStyle::Tentative));
    assert_eq!(read(&tunic(&[2])), ("sword".to_string(), ReadingStyle::Confirmed));
    assert_eq!(read(&tunic(&[3])), ("[3]".to_string(), ReadingStyle::Plain));
    assert_eq!(read(&tunic(&[4])), ("[4]".to_string(), ReadingStyle::Plain));
    assert_eq!(read(&Word::english("a".to_string())), ("a".to_string(), ReadingStyle::Plain));
}

#[test]
fn a_search_may_assume_a_definition() {
    let word = tunic(&[7]);

    let dictionary = with_temporary_definition(Dictionary::new(), &word, &Some("key".to_string()));
    assert_eq!(
        format_word_for_reading_as_defined(&dictionary, &word),
        ("key".to_string(), ReadingStyle::Tentative)
    );

    let dictionary = with_temporary_definition(Dictionary::new(), &word, &None);
    assert!(dictionary.entries().is_empty());
    let english = Word::english("a".to_string());
    let dictionary = with_temporary_definition(Dictionary::new(), &english, &Some("b".to_string()));
    assert!(dictionary.entries().is_empty());
}

#[test]
fn pages_show_entries_and_snippets() {
    let dictionary = initial_dictionary()
        .with_new_complete_definition(&DictionaryWord::new(vec![Glyph(3)]), &Entry::default());

    assert_eq!(
        to_dictionary_entries(&dictionary),
        vec![
            DictionaryEntry {
                glyphs: vec![Glyph(0), Glyph(0), Glyph(0)],
                definition: "An example Tunic word entry".to_string(),
                notes: vec!["Example Note".to_string()],
            },
            DictionaryEntry {
                glyphs: vec![Glyph(3)],
                definition: "[Undefined]".to_string(),
                notes: vec![],
            },
        ]
    );

    assert_eq!(source_path_for(&Some(Source::ManualPageNumber(3))), "/media/manual_pages/page03.jpg");
    assert_eq!(source_path_for(&Some(Source::ManualPageNumber(12))), "/media/manual_pages/page12.jpg");
    assert_eq!(source_path_for(&Some(Source::ManualPageNumber(123))), "/media/manual_pages/page123.jpg");
    assert_eq!(
        source_path_for(&Some(Source::ScreenshotFilename("a.png".to_string()))),
        "/media/screenshots/a.png"
    );
    assert_eq!(source_path_for(&Some(Source::Other("x".to_string()))), "/media/404");
    assert_eq!(source_path_for(&None), "/media/404");

    let rows = snippets(&notebook(), &dictionary);
    assert_eq!(rows.len(), 4);
    assert_eq!(rows[0].source, "/media/manual_pages/page03.jpg");
    assert_eq!(rows[2].source, "/media/404");
    assert_eq!(rows[0].words.len(), 2);
    assert_eq!(
        rows[2].words,
        vec![WordRow {
            word_type: "English".to_string(),
            is_tunic: false,
            is_english: true,
            has_definition: true,
            text: "a".to_string(),
            glyphs: vec![],
            has_border: false,
            colored: false,
        }]
    );
    assert_eq!(
        word_row(&Word::from(tunic_word(&[3]).with_border_as(true)), &dictionary),
        WordRow {
            word_type: "Tunic".to_string(),
            is_tunic: true,
            is_english: false,
            has_definition: true,
            text: "[Undefined]".to_string(),
            glyphs: vec![Glyph(3)],
            has_border: true,
            colored: false,
        }
    );
    assert_eq!(word_row(&tunic(&[4]), &dictionary).text, "");
    assert!(!word_row(&tunic(&[4]), &dictionary).has_definition);
}

#[test]
fn word_usage_counts_tunic_words_most_used_first() {
    let notebook = Notebook::from(vec![
        snippet(vec![tunic(&[1]), tunic(&[2]), Word::english("a".to_string())], None),
        snippet(vec![tunic(&[2]), tunic(&[3]), tunic(&[2])], None),
        snippet(vec![], None),
        snippet(vec![tunic(&[3]), tunic(&[4]), Word::english("a".to_string())], None),
    ]);

    assert_eq!(
        fennec::tools::search::count_word_usage(&notebook),
        vec![(tunic(&[1]), 1), (tunic(&[2]), 3), (tunic(&[3]), 2), (tunic(&[4]), 1)]
    );
    assert_eq!(
        fennec::tools::search::search_word_usage(&notebook),
        vec![(tunic(&[2]), 3), (tunic(&[3]), 2), (tunic(&[1]), 1), (tunic(&[4]), 1)]
    );
    assert!(fennec::tools::search::search_word_usage(&Notebook::default()).is_empty());
}
