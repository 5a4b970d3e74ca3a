pub mod events;
pub mod file_editors;
pub mod glyph_editors;
pub mod notebook_editors;
pub mod snippet_editors;
pub mod word_editors;
