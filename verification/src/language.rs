use vstd::prelude::*;

use crate::text::{decimal_digits, decimal_string, joined};

pub mod dictionary;
pub mod glyphs;
pub mod notebooks;
pub mod snippets;
pub mod words;

verus! {

/// The number of one of a glyph's sixteen segments.
pub type Segment = usize;

/// Mathematical model of a [`Source`].
pub enum SourceModel {
    ManualPageNumber(nat),
    ScreenshotFilename(Seq<char>),
    Other(Seq<char>),
}

/// Where a snippet was found.
#[derive(Debug, PartialEq, Eq)]
pub enum Source {
    ManualPageNumber(usize),
    ScreenshotFilename(String),
    Other(String),
}

impl View for Source {
    type V = SourceModel;

    open spec fn view(&self) -> SourceModel {
        match self {
            Source::ManualPageNumber(number) => SourceModel::ManualPageNumber(*number as nat),
            Source::ScreenshotFilename(filename) => SourceModel::ScreenshotFilename(filename@),
            Source::Other(text) => SourceModel::Other(text@),
        }
    }
}

impl SourceModel {
    /// The source as text: the name of its kind and, between brackets, what
    /// it holds.
    pub open spec fn text(self) -> Seq<char> {
        match self {
            SourceModel::ManualPageNumber(page_number) => "ManualPageNumber("@ + decimal_digits(
                page_number,
            ) + ")"@,
            SourceModel::ScreenshotFilename(filename) => "ScreenshotFilename("@ + filename + ")"@,
            SourceModel::Other(text) => "Other("@ + text + ")"@,
        }
    }
}

impl Source {
    pub fn to_string(&self) -> (text: String)
        ensures
            text@ == self@.text(),
    {
        match self {
            Source::ManualPageNumber(page_number) => joined(
                "ManualPageNumber(",
                decimal_string(*page_number as u128).as_str(),
            ).concat(")"),
            Source::ScreenshotFilename(filename) => joined(
                "ScreenshotFilename(",
                filename.as_str(),
            ).concat(")"),
            Source::Other(text) => joined("Other(", text.as_str()).concat(")"),
        }
    }
}

impl Clone for Source {
    fn clone(&self) -> (copy: Self)
        ensures
            copy@ == self@,
    {
        match self {
            Source::ManualPageNumber(number) => Source::ManualPageNumber(*number),
            Source::ScreenshotFilename(filename) => Source::ScreenshotFilename(filename.clone()),
            Source::Other(text) => Source::Other(text.clone()),
        }
    }
}

/// The model of a citation that may be missing.
pub open spec fn source_view(source: Option<Source>) -> Option<SourceModel> {
    match source {
        Some(source) => Some(source@),
        None => None,
    }
}

/// A remark attached to a snippet or to a dictionary entry.
#[derive(Debug, PartialEq, Eq)]
pub struct Note(pub String);

impl View for Note {
    type V = Seq<char>;

    open spec fn view(&self) -> Seq<char> {
        self.0@
    }
}

impl Clone for Note {
    fn clone(&self) -> (copy: Self)
        ensures
            copy@ == self@,
    {
        Note(self.0.clone())
    }
}

impl Note {
    /// The note as text: `Note(` and its text `)`.
    pub fn to_string(&self) -> (text: String)
        ensures
            text@ == "Note("@ + self@ + ")"@,
    {
        joined("Note(", self.0.as_str()).concat(")")
    }

    pub fn as_text(&self) -> (text: String)
        ensures
            text@ == self@,
    {
        self.0.clone()
    }
}

} // verus!
