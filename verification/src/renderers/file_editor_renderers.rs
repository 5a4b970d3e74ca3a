use vstd::prelude::*;

use crate::editors::file_editors::{FileEditorState, FileEditorStateModel};
use crate::renderers::{
    text_command, Color, DrawCommand, DrawCommandModel, FILE_CONSOLE, SCREEN_HEIGHT,
};
use crate::sequences::views;
use crate::text::joined;
use crate::views::{FileEditorView, FileEditorViewModel};

verus! {

/// What is written about the file for each state: nothing while idle or
/// while an attempt is due, a question while a request waits for its
/// confirmation, and afterwards how the attempt ended, with the error below
/// a failure.
pub open spec fn file_editor_messages(view: FileEditorViewModel) -> Seq<DrawCommandModel> {
    let x = 1nat;
    let y = (SCREEN_HEIGHT - 3) as nat;

    match view.state {
        FileEditorStateModel::LoadRequestSucceeded => seq![
            text_command(x, y, Color::Green, "Loaded notebook from "@ + view.target_file),
        ],
        FileEditorStateModel::LoadRequestFailed(error) => seq![
            text_command(
                x,
                (y - 1) as nat,
                Color::Red,
                "Failed to load notebook from "@ + view.target_file,
            ),
            text_command(x, y, Color::White, error.text()),
        ],
        FileEditorStateModel::SaveRequestSucceeded => seq![
            text_command(x, y, Color::Green, "Saved notebook to "@ + view.target_file),
        ],
        FileEditorStateModel::SaveRequestFailed(error) => seq![
            text_command(
                x,
                (y - 1) as nat,
                Color::Red,
                "Failed to save notebook to "@ + view.target_file,
            ),
            text_command(x, y, Color::White, error.text()),
        ],
        FileEditorStateModel::ConfirmingLoadRequest => seq![
            text_command(
                x,
                y,
                Color::Yellow,
                "Load the notebook from "@ + view.target_file
                    + "? Press Enter/Return to confirm or Escape to cancel"@,
            ),
        ],
        FileEditorStateModel::ConfirmingSaveRequest => seq![
            text_command(
                x,
                y,
                Color::Yellow,
                "Save the notebook to "@ + view.target_file
                    + "? Press Enter/Return to confirm or Escape to cancel"@,
            ),
        ],
        _ => Seq::empty(),
    }
}

/// The commands that show where loading or saving stands.
pub open spec fn file_editor_commands(view: FileEditorViewModel) -> Seq<DrawCommandModel> {
    seq![DrawCommandModel::ActivateAndClear { console: FILE_CONSOLE as nat }]
        + file_editor_messages(view)
}

pub fn render_file_editor_view_onto(view: &FileEditorView) -> (commands: Vec<DrawCommand>)
    ensures
        views(commands@) == file_editor_commands(view@),
{
    let mut commands: Vec<DrawCommand> = Vec::new();
    commands.push(DrawCommand::ActivateAndClear { console: FILE_CONSOLE });

    let x: u32 = 1;
    let y: u32 = SCREEN_HEIGHT - 3;
    let file = view.target_file.as_str();

    match &view.state {
        FileEditorState::LoadRequestSucceeded => {
            let text = joined("Loaded notebook from ", file);
            commands.push(DrawCommand::text(x, y, Color::Green, text));
        },
        FileEditorState::LoadRequestFailed(error) => {
            let text = joined("Failed to load notebook from ", file);
            commands.push(DrawCommand::text(x, y - 1, Color::Red, text));
            commands.push(DrawCommand::text(x, y, Color::White, error.to_string()));
        },
        FileEditorState::SaveRequestSucceeded => {
            let text = joined("Saved notebook to ", file);
            commands.push(DrawCommand::text(x, y, Color::Green, text));
        },
        FileEditorState::SaveRequestFailed(error) => {
            let text = joined("Failed to save notebook to ", file);
            commands.push(DrawCommand::text(x, y - 1, Color::Red, text));
            commands.push(DrawCommand::text(x, y, Color::White, error.to_string()));
        },
        FileEditorState::ConfirmingLoadRequest => {
            let text = joined("Load the notebook from ", file).concat(
                "? Press Enter/Return to confirm or Escape to cancel",
            );
            commands.push(DrawCommand::text(x, y, Color::Yellow, text));
        },
        FileEditorState::ConfirmingSaveRequest => {
            let text = joined("Save the notebook to ", file).concat(
                "? Press Enter/Return to confirm or Escape to cancel",
            );
            commands.push(DrawCommand::text(x, y, Color::Yellow, text));
        },
        FileEditorState::LoadRequestConfirmed => {},
        FileEditorState::SaveRequestConfirmed => {},
        FileEditorState::Idle => {},
    }
    assert(views(commands@) =~= file_editor_commands(view@));

    commands
}

} // verus!
