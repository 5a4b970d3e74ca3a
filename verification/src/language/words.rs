use vstd::prelude::*;
use vstd::std_specs::cmp::PartialEqSpecImpl;
use vstd::std_specs::convert::{FromSpec, FromSpecImpl};

use crate::language::glyphs::{glyph_codes, glyph_numbers_string, Glyph};
use crate::text::{joined, numbers_text};

verus! {

/// Mathematical model of a [`TunicWord`].
pub struct TunicWordModel {
    pub glyphs: Seq<Glyph>,
    pub has_border: bool,
    pub colored: bool,
}

impl TunicWordModel {
    /// A word of the given glyphs, without border and uncoloured.
    pub open spec fn plain(glyphs: Seq<Glyph>) -> Self {
        TunicWordModel { glyphs, has_border: false, colored: false }
    }

    pub open spec fn with_glyphs(self, glyphs: Seq<Glyph>) -> Self {
        TunicWordModel { glyphs, ..self }
    }

    /// No glyph at all, or a single glyph without segments.
    pub open spec fn is_blank(self) -> bool {
        self.glyphs.len() == 0 || (self.glyphs.len() == 1 && self.glyphs[0].0 == 0)
    }
}

/// Mathematical model of a [`Word`] and of a [`WordType`].
pub enum WordModel {
    Tunic(TunicWordModel),
    English(Seq<char>),
}

impl WordModel {
    /// A Tunic word is blank without glyphs or with a single empty glyph, an
    /// English word without text.
    pub open spec fn is_blank(self) -> bool {
        match self {
            WordModel::Tunic(word) => word.is_blank(),
            WordModel::English(text) => text.len() == 0,
        }
    }

    pub open spec fn has_border(self) -> bool {
        match self {
            WordModel::Tunic(word) => word.has_border,
            WordModel::English(_) => false,
        }
    }

    pub open spec fn colored(self) -> bool {
        match self {
            WordModel::Tunic(word) => word.colored,
            WordModel::English(_) => false,
        }
    }

    /// The word as text: an English word is its text, a Tunic word the
    /// numbers of its glyphs.
    pub open spec fn text(self) -> Seq<char> {
        match self {
            WordModel::Tunic(word) => if word.glyphs.len() == 0 {
                "(Empty Tunic Word)"@
            } else {
                "Word::Tunic "@ + numbers_text(glyph_codes(word.glyphs), ", "@)
            },
            WordModel::English(text) => text,
        }
    }

    /// The word that `Word::default()` gives: a Tunic word without glyphs.
    pub open spec fn empty() -> Self {
        WordModel::Tunic(TunicWordModel::plain(Seq::empty()))
    }
}

/// Whether two glyph sequences hold the same glyphs in the same order.
pub fn glyphs_equal(left: &Vec<Glyph>, right: &Vec<Glyph>) -> (equal: bool)
    ensures
        equal == (left@ == right@),
{
    if left.len() != right.len() {
        return false;
    }
    let mut position: usize = 0;

    while position < left.len()
        invariant
            left.len() == right.len(),
            position <= left.len(),
            forall|earlier: int| 0 <= earlier < position ==> left@[earlier] == right@[earlier],
        decreases left.len() - position,
    {
        if left[position] != right[position] {
            return false;
        }
        position = position + 1;
    }
    assert(left@ =~= right@);

    true
}

/// A word written in glyphs.
#[derive(Debug, Eq)]
pub struct TunicWord {
    glyphs: Vec<Glyph>,
    has_border: bool,
    colored: bool,
}

impl View for TunicWord {
    type V = TunicWordModel;

    closed spec fn view(&self) -> TunicWordModel {
        TunicWordModel {
            glyphs: self.glyphs@,
            has_border: self.has_border,
            colored: self.colored,
        }
    }
}

impl Clone for TunicWord {
    fn clone(&self) -> (copy: Self)
        ensures
            copy@ == self@,
    {
        let glyphs = self.glyphs.clone();
        assert(glyphs@ =~= self.glyphs@);

        Self { glyphs, has_border: self.has_border, colored: self.colored }
    }
}

impl PartialEq for TunicWord {
    fn eq(&self, other: &Self) -> (equal: bool) {
        glyphs_equal(&self.glyphs, &other.glyphs) && self.has_border == other.has_border
            && self.colored == other.colored
    }
}

impl PartialEqSpecImpl for TunicWord {
    open spec fn obeys_eq_spec() -> bool {
        true
    }

    open spec fn eq_spec(&self, other: &Self) -> bool {
        self@ == other@
    }
}

impl TunicWord {
    pub fn new(glyphs: Vec<Glyph>) -> (word: Self)
        ensures
            word@ == TunicWordModel::plain(glyphs@),
    {
        Self { glyphs, has_border: false, colored: false }
    }

    pub fn with_colored_as(self, colored: bool) -> (word: Self)
        ensures
            word@ == (TunicWordModel { colored, ..self@ }),
    {
        Self { colored, ..self }
    }

    pub fn with_colored_state_toggled(self) -> (word: Self)
        ensures
            word@ == (TunicWordModel { colored: !self@.colored, ..self@ }),
    {
        Self { colored: !self.colored, ..self }
    }

    pub fn with_border_as(self, has_border: bool) -> (word: Self)
        ensures
            word@ == (TunicWordModel { has_border, ..self@ }),
    {
        Self { has_border, ..self }
    }

    pub fn with_border_toggled(self) -> (word: Self)
        ensures
            word@ == (TunicWordModel { has_border: !self@.has_border, ..self@ }),
    {
        Self { has_border: !self.has_border, ..self }
    }

    pub fn with_glyphs(self, glyphs: Vec<Glyph>) -> (word: Self)
        ensures
            word@ == self@.with_glyphs(glyphs@),
    {
        Self { glyphs, ..self }
    }

    pub fn glyphs(&self) -> (glyphs: Vec<Glyph>)
        ensures
            glyphs@ == self@.glyphs,
    {
        let glyphs = self.glyphs.clone();
        assert(glyphs@ =~= self.glyphs@);

        glyphs
    }

    /// How many glyphs the word has.
    pub fn glyph_count(&self) -> (count: usize)
        ensures
            count == self@.glyphs.len(),
    {
        self.glyphs.len()
    }

    /// The glyph at `index`, if there is one.
    pub fn glyph_at(&self, index: usize) -> (glyph: Option<Glyph>)
        ensures
            glyph == if index < self@.glyphs.len() {
                Some(self@.glyphs[index as int])
            } else {
                None
            },
    {
        if index < self.glyphs.len() {
            Some(self.glyphs[index])
        } else {
            None
        }
    }

    pub fn has_border(&self) -> (has_border: bool)
        ensures
            has_border == self@.has_border,
    {
        self.has_border
    }

    pub fn colored(&self) -> (colored: bool)
        ensures
            colored == self@.colored,
    {
        self.colored
    }

    pub fn is_blank(&self) -> (blank: bool)
        ensures
            blank == self@.is_blank(),
    {
        if self.glyphs.len() == 1 {
            self.glyphs[0].is_blank()
        } else {
            self.glyphs.len() == 0
        }
    }
}

impl From<Vec<Glyph>> for TunicWord {
    fn from(glyphs: Vec<Glyph>) -> (word: Self)
        ensures
            word@ == TunicWordModel::plain(glyphs@),
    {
        Self { glyphs, has_border: false, colored: false }
    }
}

impl FromSpecImpl<Vec<Glyph>> for TunicWord {
    open spec fn obeys_from_spec() -> bool {
        true
    }

    closed spec fn from_spec(glyphs: Vec<Glyph>) -> Self {
        TunicWord { glyphs, has_border: false, colored: false }
    }
}

/// A word written in Latin letters.
#[derive(Debug, Eq)]
pub struct EnglishWord {
    text: String,
}

impl View for EnglishWord {
    type V = Seq<char>;

    closed spec fn view(&self) -> Seq<char> {
        self.text@
    }
}

impl Clone for EnglishWord {
    fn clone(&self) -> (copy: Self)
        ensures
            copy@ == self@,
    {
        Self { text: self.text.clone() }
    }
}

impl PartialEq for EnglishWord {
    fn eq(&self, other: &Self) -> (equal: bool) {
        self.text == other.text
    }
}

impl PartialEqSpecImpl for EnglishWord {
    open spec fn obeys_eq_spec() -> bool {
        true
    }

    open spec fn eq_spec(&self, other: &Self) -> bool {
        self@ == other@
    }
}

impl EnglishWord {
    pub fn new(text: String) -> (word: Self)
        ensures
            word@ == text@,
    {
        Self { text }
    }

    pub fn text(&self) -> (text: String)
        ensures
            text@ == self@,
    {
        self.text.clone()
    }

    pub fn is_blank(&self) -> (blank: bool)
        ensures
            blank == (self@.len() == 0),
    {
        self.text.as_str().is_empty()
    }
}

impl From<String> for EnglishWord {
    fn from(text: String) -> (word: Self)
        ensures
            word@ == text@,
    {
        Self { text }
    }
}

impl FromSpecImpl<String> for EnglishWord {
    open spec fn obeys_from_spec() -> bool {
        true
    }

    closed spec fn from_spec(text: String) -> Self {
        EnglishWord { text }
    }
}

/// The two kinds of word.
#[derive(Debug, Eq)]
pub enum WordType {
    Tunic(TunicWord),
    English(EnglishWord),
}

impl View for WordType {
    type V = WordModel;

    open spec fn view(&self) -> WordModel {
        match self {
            WordType::Tunic(word) => WordModel::Tunic(word@),
            WordType::English(word) => WordModel::English(word@),
        }
    }
}

impl Clone for WordType {
    fn clone(&self) -> (copy: Self)
        ensures
            copy@ == self@,
    {
        match self {
            WordType::Tunic(word) => WordType::Tunic(word.clone()),
            WordType::English(word) => WordType::English(word.clone()),
        }
    }
}

impl PartialEq for WordType {
    fn eq(&self, other: &Self) -> (equal: bool) {
        match (self, other) {
            (WordType::Tunic(left), WordType::Tunic(right)) => left == right,
            (WordType::English(left), WordType::English(right)) => left == right,
            _ => false,
        }
    }
}

impl PartialEqSpecImpl for WordType {
    open spec fn obeys_eq_spec() -> bool {
        true
    }

    open spec fn eq_spec(&self, other: &Self) -> bool {
        self@ == other@
    }
}

/// What to do with a word of either kind: one function for Tunic words, one
/// for English words. A kind without a function is left as it is.
pub struct WordCallbacks<T, E> {
    for_tunic_word: Option<T>,
    for_english_word: Option<E>,
}

impl<T, E> WordCallbacks<T, E> {
    /// The callbacks that leave every word as it is.
    pub fn new() -> (callbacks: Self)
        ensures
            callbacks.tunic_callback() is None,
            callbacks.english_callback() is None,
    {
        Self { for_tunic_word: None, for_english_word: None }
    }

    pub closed spec fn tunic_callback(self) -> Option<T> {
        self.for_tunic_word
    }

    pub closed spec fn english_callback(self) -> Option<E> {
        self.for_english_word
    }

    pub fn for_tunic_word(self, callback: T) -> (callbacks: Self)
        ensures
            callbacks.tunic_callback() == Some(callback),
            callbacks.english_callback() == self.english_callback(),
    {
        Self { for_tunic_word: Some(callback), ..self }
    }

    pub fn for_english_word(self, callback: E) -> (callbacks: Self)
        ensures
            callbacks.english_callback() == Some(callback),
            callbacks.tunic_callback() == self.tunic_callback(),
    {
        Self { for_english_word: Some(callback), ..self }
    }
}

/// One word of a snippet.
#[derive(Debug, Eq)]
pub struct Word {
    pub word_type: WordType,
}

impl View for Word {
    type V = WordModel;

    open spec fn view(&self) -> WordModel {
        self.word_type@
    }
}

impl Clone for Word {
    fn clone(&self) -> (copy: Self)
        ensures
            copy@ == self@,
    {
        Word { word_type: self.word_type.clone() }
    }
}

impl PartialEq for Word {
    fn eq(&self, other: &Self) -> (equal: bool) {
        self.word_type == other.word_type
    }
}

impl PartialEqSpecImpl for Word {
    open spec fn obeys_eq_spec() -> bool {
        true
    }

    open spec fn eq_spec(&self, other: &Self) -> bool {
        self@ == other@
    }
}

impl Word {
    /// Whether `changed` is what `callbacks` make of a word with the model
    /// `word`.
    pub open spec fn is_changed_by<T, E>(
        word: WordModel,
        callbacks: WordCallbacks<T, E>,
        changed: WordModel,
    ) -> bool where T: FnOnce(&TunicWord) -> TunicWord, E: FnOnce(&EnglishWord) -> EnglishWord {
        match word {
            WordModel::Tunic(model) => match callbacks.tunic_callback() {
                Some(callback) => exists|before: &TunicWord, after: TunicWord|
                    before@ == model && call_ensures(callback, (before,), after) && changed
                        == WordModel::Tunic(after@),
                None => changed == word,
            },
            WordModel::English(text) => match callbacks.english_callback() {
                Some(callback) => exists|before: &EnglishWord, after: EnglishWord|
                    before@ == text && call_ensures(callback, (before,), after) && changed
                        == WordModel::English(after@),
                None => changed == word,
            },
        }
    }

    /// The word that the callback for its kind makes of this word.
    pub fn apply<T, E>(&self, callbacks: WordCallbacks<T, E>) -> (changed: Self)
        where
            T: FnOnce(&TunicWord) -> TunicWord,
            E: FnOnce(&EnglishWord) -> EnglishWord,
        requires
            callbacks.tunic_callback() matches Some(callback) ==> forall|word: &TunicWord|
                call_requires(callback, (word,)),
            callbacks.english_callback() matches Some(callback) ==> forall|word: &EnglishWord|
                call_requires(callback, (word,)),
        ensures
            Self::is_changed_by(self@, callbacks, changed@),
    {
        match &self.word_type {
            WordType::Tunic(word) => match callbacks.for_tunic_word {
                Some(callback) => {
                    let after = callback(word);
                    assert(word@ == self@->Tunic_0 && call_ensures(callback, (word,), after));
                    Word { word_type: WordType::Tunic(after) }
                },
                None => self.clone(),
            },
            WordType::English(word) => match callbacks.for_english_word {
                Some(callback) => {
                    let after = callback(word);
                    assert(word@ == self@->English_0 && call_ensures(callback, (word,), after));
                    Word { word_type: WordType::English(after) }
                },
                None => self.clone(),
            },
        }
    }

    pub fn to_string(&self) -> (text: String)
        ensures
            text@ == self@.text(),
    {
        match &self.word_type {
            WordType::Tunic(word) => {
                if word.glyphs.len() == 0 {
                    "(Empty Tunic Word)".to_owned()
                } else {
                    joined("Word::Tunic ", glyph_numbers_string(&word.glyphs, ", ").as_str())
                }
            },
            WordType::English(word) => word.text(),
        }
    }

    pub fn is_blank(&self) -> (blank: bool)
        ensures
            blank == self@.is_blank(),
    {
        match &self.word_type {
            WordType::Tunic(word) => word.is_blank(),
            WordType::English(word) => word.is_blank(),
        }
    }

    pub fn has_border(&self) -> (has_border: bool)
        ensures
            has_border == self@.has_border(),
    {
        match &self.word_type {
            WordType::Tunic(word) => word.has_border(),
            WordType::English(_) => false,
        }
    }

    pub fn colored(&self) -> (colored: bool)
        ensures
            colored == self@.colored(),
    {
        match &self.word_type {
            WordType::Tunic(word) => word.colored(),
            WordType::English(_) => false,
        }
    }
}

impl Word {
    /// A Tunic word of the given glyphs, without border and uncoloured.
    pub fn tunic(glyphs: Vec<Glyph>) -> (word: Self)
        ensures
            word@ == WordModel::Tunic(TunicWordModel::plain(glyphs@)),
    {
        Word { word_type: WordType::Tunic(TunicWord::new(glyphs)) }
    }

    /// A Tunic word of one glyph.
    pub fn single_glyph(glyph: Glyph) -> (word: Self)
        ensures
            word@ == WordModel::Tunic(TunicWordModel::plain(seq![glyph])),
    {
        let mut glyphs: Vec<Glyph> = Vec::new();
        glyphs.push(glyph);
        assert(glyphs@ =~= seq![glyph]);

        Self::tunic(glyphs)
    }

    /// An English word of the given text.
    pub fn english(text: String) -> (word: Self)
        ensures
            word@ == WordModel::English(text@),
    {
        Word { word_type: WordType::English(EnglishWord::new(text)) }
    }
}

impl Default for Word {
    fn default() -> (word: Self)
        ensures
            word@ == WordModel::empty(),
    {
        Word { word_type: WordType::Tunic(TunicWord::new(Vec::new())) }
    }
}

impl From<TunicWord> for Word {
    fn from(tunic_word: TunicWord) -> (word: Self) {
        Word { word_type: WordType::Tunic(tunic_word) }
    }
}

impl FromSpecImpl<TunicWord> for Word {
    open spec fn obeys_from_spec() -> bool {
        true
    }

    open spec fn from_spec(tunic_word: TunicWord) -> Self {
        Word { word_type: WordType::Tunic(tunic_word) }
    }
}

impl From<EnglishWord> for Word {
    fn from(english_word: EnglishWord) -> (word: Self) {
        Word { word_type: WordType::English(english_word) }
    }
}

impl FromSpecImpl<EnglishWord> for Word {
    open spec fn obeys_from_spec() -> bool {
        true
    }

    open spec fn from_spec(english_word: EnglishWord) -> Self {
        Word { word_type: WordType::English(english_word) }
    }
}

impl From<Vec<Glyph>> for Word {
    fn from(glyphs: Vec<Glyph>) -> (word: Self)
        ensures
            word@ == WordModel::Tunic(TunicWordModel::plain(glyphs@)),
    {
        Word { word_type: WordType::Tunic(TunicWord::from(glyphs)) }
    }
}

impl FromSpecImpl<Vec<Glyph>> for Word {
    open spec fn obeys_from_spec() -> bool {
        true
    }

    open spec fn from_spec(glyphs: Vec<Glyph>) -> Self {
        Word { word_type: WordType::Tunic(<TunicWord as FromSpec<Vec<Glyph>>>::from_spec(glyphs)) }
    }
}

impl From<String> for Word {
    fn from(text: String) -> (word: Self)
        ensures
            word@ == WordModel::English(text@),
    {
        Word { word_type: WordType::English(EnglishWord::from(text)) }
    }
}

impl FromSpecImpl<String> for Word {
    open spec fn obeys_from_spec() -> bool {
        true
    }

    open spec fn from_spec(text: String) -> Self {
        Word { word_type: WordType::English(<EnglishWord as FromSpec<String>>::from_spec(text)) }
    }
}

} // verus!
