//! Editors for a hand-transcribed corpus of glyph-based writing.
//!
//! A notebook holds snippets, a snippet holds words, and a word is either
//! English text or a sequence of glyphs of sixteen segments each. One editor
//! for each level takes events and answers with the editor that the event
//! leaves behind: [`editors::file_editors::FileEditor`] at the root, then
//! the editors of notebook, snippet, word and glyph. Selection and scrolling
//! rest on [`cursors`] and [`visibility`].
//!
//! Every data type has a mathematical model, its view, and every function
//! says in its contract what it returns in terms of those models. The laws
//! that hold between functions are proof functions beside them.
//!
//! Nothing here reads keys, draws or touches files: [`gui`] turns what the
//! keyboard says into events, [`renderers`] turn views into drawing
//! commands, and whoever drives the editors performs them.

pub mod cursors;
pub mod editors;
pub mod fennec_state;
pub mod gui;
pub mod language;
pub mod migration;
pub mod prelude;
pub mod renderers;
pub mod sequences;
pub mod text;
pub mod tools;
pub mod views;
pub mod visibility;
