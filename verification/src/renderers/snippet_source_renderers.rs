use vstd::prelude::*;

use crate::language::{Source, SourceModel};
use crate::renderers::{Color, DrawCommand, DrawCommandModel};
use crate::sequences::views;
use crate::text::{decimal_digits, decimal_string, joined};
use crate::views::{SnippetView, SnippetViewModel};

verus! {

/// How the source of a snippet is named to the user.
pub open spec fn source_label(source: Option<SourceModel>) -> Seq<char> {
    match source {
        Some(SourceModel::ManualPageNumber(number)) => "Manual: Page "@ + decimal_digits(number),
        Some(SourceModel::ScreenshotFilename(filename)) => "Screenshot: "@ + filename,
        Some(SourceModel::Other(text)) => "Other: "@ + text,
        None => "(Unknown)"@,
    }
}

pub fn snippet_source_to_label(snippet_view: &SnippetView) -> (label: String)
    ensures
        label@ == source_label(snippet_view@.snippet.source),
{
    match &snippet_view.snippet.source {
        Some(Source::ManualPageNumber(number)) => joined(
            "Manual: Page ",
            decimal_string(*number as u128).as_str(),
        ),
        Some(Source::ScreenshotFilename(filename)) => joined("Screenshot: ", filename.as_str()),
        Some(Source::Other(text)) => joined("Other: ", text.as_str()),
        None => "(Unknown)".to_owned(),
    }
}

/// The commands that show the source of a snippet on the console for
/// messages.
pub open spec fn snippet_source_commands(view: SnippetViewModel, x: nat, y: nat) -> Seq<
    DrawCommandModel,
> {
    seq![
        DrawCommandModel::ActivateAndClear { console: 16 },
        DrawCommandModel::Print {
            x,
            y,
            foreground: Color::White,
            background: Color::Black,
            text: "Source -> "@ + source_label(view.snippet.source),
        },
    ]
}

pub fn render_snippet_source_on(snippet_view: &SnippetView, x: u32, y: u32) -> (commands: Vec<
    DrawCommand,
>)
    ensures
        views(commands@) == snippet_source_commands(snippet_view@, x as nat, y as nat),
{
    let source_text = snippet_source_to_label(snippet_view);
    let source_text = joined("Source -> ", source_text.as_str());

    let mut commands: Vec<DrawCommand> = Vec::new();
    commands.push(DrawCommand::ActivateAndClear { console: 16 });
    commands.push(DrawCommand::text(x, y, Color::White, source_text));
    assert(views(commands@) =~= snippet_source_commands(snippet_view@, x as nat, y as nat));

    commands
}

} // verus!
