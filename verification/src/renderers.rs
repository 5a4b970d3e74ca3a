use vstd::prelude::*;

pub mod file_editor_renderers;
pub mod glyph_map_renderers;
pub mod notebook_editor_renderers;
pub mod snippet_editor_renderers;
pub mod snippet_source_renderers;

verus! {

/// The width of the screen, in columns of text.
pub const SCREEN_WIDTH: u32 = 80;

/// The height of the screen, in rows of text.
pub const SCREEN_HEIGHT: u32 = 50;

/// The width of the screen, in glyphs.
pub const DISPLAY_WIDTH: u32 = 40;

/// The height of the screen, in glyphs.
pub const DISPLAY_HEIGHT: u32 = 25;

/// The console for messages about the file.
pub const FILE_CONSOLE: usize = 16;

/// The console for the list of snippets and the status of the selected one.
pub const NOTEBOOK_CONSOLE: usize = 17;

/// The console for the words of the selected snippet.
pub const SNIPPET_CONSOLE: usize = 18;

/// The colours that the editors are drawn in.
#[derive(Clone, Copy, Debug, PartialEq, Eq, Structural)]
pub enum Color {
    Black,
    White,
    Yellow,
    Green,
    Red,
    Blue,
    Gray10,
    Gray15,
    Gray20,
    Gray40,
}

/// Mathematical model of a [`DrawCommand`].
pub enum DrawCommandModel {
    ActivateAndClear { console: nat },
    Print { x: nat, y: nat, foreground: Color, background: Color, text: Seq<char> },
    SetCell { x: nat, y: nat, foreground: Color, symbol: u16 },
}

/// One step of drawing, for a terminal with several consoles laid over
/// each other.
#[derive(Debug, PartialEq, Eq)]
pub enum DrawCommand {
    /// Make `console` the one that is drawn on, and clear it.
    ActivateAndClear { console: usize },
    /// Write `text` from the given cell on.
    Print { x: u32, y: u32, foreground: Color, background: Color, text: String },
    /// Put the symbol with the given number into one cell, on a
    /// transparent background.
    SetCell { x: u32, y: u32, foreground: Color, symbol: u16 },
}

impl View for DrawCommand {
    type V = DrawCommandModel;

    open spec fn view(&self) -> DrawCommandModel {
        match self {
            DrawCommand::ActivateAndClear { console } => DrawCommandModel::ActivateAndClear {
                console: *console as nat,
            },
            DrawCommand::Print { x, y, foreground, background, text } => DrawCommandModel::Print {
                x: *x as nat,
                y: *y as nat,
                foreground: *foreground,
                background: *background,
                text: text@,
            },
            DrawCommand::SetCell { x, y, foreground, symbol } => DrawCommandModel::SetCell {
                x: *x as nat,
                y: *y as nat,
                foreground: *foreground,
                symbol: *symbol,
            },
        }
    }
}

impl DrawCommand {
    /// Text in the given colour on black.
    pub fn text(x: u32, y: u32, foreground: Color, text: String) -> (command: Self)
        ensures
            command@ == text_command(x as nat, y as nat, foreground, text@),
    {
        DrawCommand::Print { x, y, foreground, background: Color::Black, text }
    }
}

/// The command that writes `text` in the given colour on black.
pub open spec fn text_command(x: nat, y: nat, foreground: Color, text: Seq<char>) -> DrawCommandModel {
    DrawCommandModel::Print { x, y, foreground, background: Color::Black, text }
}

} // verus!
