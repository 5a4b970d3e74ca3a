use vstd::prelude::*;

use crate::editors::notebook_editors::NotebookEditorState;
use crate::language::dictionary::Dictionary;
use crate::language::glyphs::{glyph_codes, glyph_numbers_string, Glyph};
use crate::language::words::{Word, WordModel, WordType};
use crate::renderers::glyph_map_renderers::{
    renders_as, GlyphMap, GlyphMapModel, GlyphRenderError, Rendering,
};
use crate::renderers::snippet_editor_renderers::{
    lemma_words_in_view_keep_size, render_snippet_on, words_commands, words_in_view_rendering,
};
use crate::renderers::snippet_source_renderers::{snippet_source_to_label, source_label};
use crate::renderers::{
    text_command, Color, DrawCommand, DrawCommandModel, NOTEBOOK_CONSOLE, SCREEN_HEIGHT,
};
use crate::sequences::{lemma_views_push, views};
use crate::text::{
    bool_string, bool_text, decimal_digits, joined, numbers_text, padded, padded_decimal,
};
use crate::views::{NotebookView, NotebookViewModel, SnippetView, SnippetViewModel, WordViewModel};

verus! {

/// The colour of the description of a snippet in the list.
pub open spec fn description_color(selected: bool, transcribed: bool) -> Color {
    if selected && transcribed {
        Color::Yellow
    } else if selected {
        Color::Green
    } else if transcribed {
        Color::Gray15
    } else {
        Color::White
    }
}

/// The colour of the source of a snippet in the list.
pub open spec fn source_color(selected: bool, transcribed: bool) -> Color {
    if selected && transcribed {
        Color::Gray20
    } else if selected {
        Color::White
    } else if transcribed {
        Color::Gray10
    } else {
        Color::White
    }
}

pub fn description_color_for(view: &SnippetView) -> (color: Color)
    ensures
        color == description_color(view.selected, view.transcribed),
{
    if view.selected && view.transcribed {
        Color::Yellow
    } else if view.selected {
        Color::Green
    } else if view.transcribed {
        Color::Gray15
    } else {
        Color::White
    }
}

pub fn source_color_for(view: &SnippetView) -> (color: Color)
    ensures
        color == source_color(view.selected, view.transcribed),
{
    if view.selected && view.transcribed {
        Color::Gray20
    } else if view.selected {
        Color::White
    } else if view.transcribed {
        Color::Gray10
    } else {
        Color::White
    }
}

/// The glyphs of a word as numbers between square brackets, or `(Empty)`.
pub open spec fn glyphs_for_reading(glyphs: Seq<Glyph>) -> Seq<char> {
    if glyphs.len() == 0 {
        "(Empty)"@
    } else {
        "["@ + numbers_text(glyph_codes(glyphs), " "@) + "]"@
    }
}

pub fn format_glyphs_for_reading(glyphs: Vec<Glyph>) -> (text: String)
    ensures
        text@ == glyphs_for_reading(glyphs@),
{
    if glyphs.len() == 0 {
        "(Empty)".to_owned()
    } else {
        joined("[", glyph_numbers_string(&glyphs, " ").as_str()).concat("]")
    }
}

/// The two lines of a snippet in the list: its number among the snippets
/// shown and its description, with an arrow in front of the selected one,
/// and below that its source.
pub open spec fn list_entry_commands(view: SnippetViewModel, relative: nat, x: nat, y: nat) -> Seq<
    DrawCommandModel,
> {
    let description_label = if view.selected {
        "-> "@ + padded(decimal_digits(relative), 3) + ") "@ + view.snippet.description
    } else {
        padded(decimal_digits(relative), 6) + ") "@ + view.snippet.description
    };
    let source_text = "        Source: "@ + source_label(view.snippet.source);

    seq![
        text_command(
            x,
            y + relative * 3,
            description_color(view.selected, view.transcribed),
            description_label,
        ),
        text_command(
            x,
            y + relative * 3 + 1,
            source_color(view.selected, view.transcribed),
            source_text,
        ),
    ]
}

/// How many of the first `count` snippet views are retained.
pub open spec fn retained_views_before(snippet_views: Seq<SnippetViewModel>, count: nat) -> nat
    decreases count,
{
    if count == 0 {
        0
    } else {
        retained_views_before(snippet_views, (count - 1) as nat) + if snippet_views[count
            - 1].retained {
            1nat
        } else {
            0nat
        }
    }
}

/// The list of the retained among the first `count` snippets.
pub open spec fn list_commands(snippet_views: Seq<SnippetViewModel>, count: nat, x: nat, y: nat) -> Seq<
    DrawCommandModel,
>
    decreases count,
{
    if count == 0 {
        Seq::empty()
    } else {
        let before = list_commands(snippet_views, (count - 1) as nat, x, y);

        if snippet_views[count - 1].retained {
            before + list_entry_commands(
                snippet_views[count - 1],
                retained_views_before(snippet_views, (count - 1) as nat),
                x,
                y,
            )
        } else {
            before
        }
    }
}

/// The first of the first `count` snippet views that is selected.
pub open spec fn first_selected_snippet(snippet_views: Seq<SnippetViewModel>, count: nat) -> Option<
    SnippetViewModel,
>
    decreases count,
{
    if count == 0 {
        None
    } else {
        match first_selected_snippet(snippet_views, (count - 1) as nat) {
            Some(view) => Some(view),
            None => if snippet_views[count - 1].selected {
                Some(snippet_views[count - 1])
            } else {
                None
            },
        }
    }
}

/// The first of the first `count` word views that is selected.
pub open spec fn first_selected_word(word_views: Seq<WordViewModel>, count: nat) -> Option<
    WordViewModel,
>
    decreases count,
{
    if count == 0 {
        None
    } else {
        match first_selected_word(word_views, (count - 1) as nat) {
            Some(view) => Some(view),
            None => if word_views[count - 1].selected {
                Some(word_views[count - 1])
            } else {
                None
            },
        }
    }
}

/// A label and, thirteen columns to the right of it, a value.
pub open spec fn status_line(
    x: nat,
    y: nat,
    label_color: Color,
    label: Seq<char>,
    value_color: Color,
    value: Seq<char>,
) -> Seq<DrawCommandModel> {
    seq![text_command(x, y, label_color, label), text_command(x + 13, y, value_color, value)]
}

/// The lines about the selected word: its glyphs as numbers, and its
/// definition, which is not looked up here.
pub open spec fn word_status_commands(word: WordModel, x: nat, y: nat) -> Seq<DrawCommandModel> {
    let bottom = SCREEN_HEIGHT as nat;

    (match word {
        WordModel::Tunic(tunic_word) => status_line(
            y,
            (bottom - 7) as nat,
            Color::Green,
            " As Base 10:"@,
            Color::White,
            glyphs_for_reading(tunic_word.glyphs),
        ),
        WordModel::English(_) => status_line(
            y,
            (bottom - 7) as nat,
            Color::Green,
            " As Base 10:"@,
            Color::Gray40,
            "n/a"@,
        ),
    }) + status_line(
        x,
        (bottom - 6) as nat,
        Color::Green,
        " Definition:"@,
        Color::White,
        "(pending)"@,
    )
}

/// The lines about the selected snippet at the bottom of the screen:
/// description, source, transcription state, and border and colour of the
/// selected word.
pub open spec fn snippet_status_commands(
    view: SnippetViewModel,
    has_border: bool,
    colored: bool,
    x: nat,
) -> Seq<DrawCommandModel> {
    let bottom = SCREEN_HEIGHT as nat;

    status_line(
        x,
        (bottom - 5) as nat,
        Color::Green,
        "Description:"@,
        Color::White,
        view.snippet.description,
    ) + status_line(
        x,
        (bottom - 4) as nat,
        Color::Green,
        "     Source:"@,
        Color::Gray40,
        source_label(view.snippet.source),
    ) + status_line(
        x,
        (bottom - 3) as nat,
        Color::Green,
        "Transcribed:"@,
        if view.transcribed {
            Color::Gray40
        } else {
            Color::White
        },
        bool_text(view.transcribed),
    ) + status_line(
        x,
        (bottom - 2) as nat,
        Color::Yellow,
        " Has Border:"@,
        Color::White,
        bool_text(has_border),
    ) + status_line(
        x,
        (bottom - 1) as nat,
        Color::Yellow,
        "    Colored:"@,
        Color::White,
        bool_text(colored),
    )
}

/// Everything that is written for the selected snippet: its words, then
/// the lines about its selected word, then the lines about the snippet.
pub open spec fn selected_snippet_commands(view: SnippetViewModel, x: nat, y: nat) -> Seq<
    DrawCommandModel,
> {
    let word = first_selected_word(view.word_views, view.word_views.len());

    words_commands(view, view.word_views.len(), x, y) + (match word {
        Some(word_view) => word_status_commands(word_view.word, x, y),
        None => Seq::empty(),
    }) + snippet_status_commands(
        view,
        match word {
            Some(word_view) => word_view.word.has_border(),
            None => false,
        },
        match word {
            Some(word_view) => word_view.word.colored(),
            None => false,
        },
        x,
    )
}

fn push_status_line(
    commands: &mut Vec<DrawCommand>,
    x: u32,
    y: u32,
    label_color: Color,
    label: &str,
    value_color: Color,
    value: String,
)
    requires
        x + 13 <= u32::MAX,
    ensures
        views(final(commands)@) == views(old(commands)@) + status_line(
            x as nat,
            y as nat,
            label_color,
            label@,
            value_color,
            value@,
        ),
{
    let label = DrawCommand::text(x, y, label_color, label.to_owned());
    let value = DrawCommand::text(x + 13, y, value_color, value);
    proof {
        lemma_views_push(commands@, label);
        lemma_views_push(commands@.push(label), value);
        assert(views(commands@).push(label@).push(value@) =~= views(commands@) + seq![
            label@,
            value@,
        ]);
    }
    commands.push(label);
    commands.push(value);
}

fn render_word_definition(commands: &mut Vec<DrawCommand>, x: u32, y: u32)
    requires
        x + 13 <= u32::MAX,
    ensures
        views(final(commands)@) == views(old(commands)@) + status_line(
            x as nat,
            y as nat,
            Color::Green,
            " Definition:"@,
            Color::White,
            "(pending)"@,
        ),
{
    push_status_line(commands, x, y, Color::Green, " Definition:", Color::White, "(pending)".to_owned());
}

fn render_selected_word_glyphs_as_base10(commands: &mut Vec<DrawCommand>, word: &Word, x: u32, y: u32)
    requires
        x + 13 <= u32::MAX,
    ensures
        views(final(commands)@) == views(old(commands)@) + match word@ {
            WordModel::Tunic(tunic_word) => status_line(
                x as nat,
                y as nat,
                Color::Green,
                " As Base 10:"@,
                Color::White,
                glyphs_for_reading(tunic_word.glyphs),
            ),
            WordModel::English(_) => status_line(
                x as nat,
                y as nat,
                Color::Green,
                " As Base 10:"@,
                Color::Gray40,
                "n/a"@,
            ),
        },
{
    match &word.word_type {
        WordType::Tunic(tunic_word) => {
            let glyph_values = format_glyphs_for_reading(tunic_word.glyphs());
            push_status_line(commands, x, y, Color::Green, " As Base 10:", Color::White, glyph_values);
        },
        WordType::English(_) => {
            push_status_line(commands, x, y, Color::Green, " As Base 10:", Color::Gray40, "n/a".to_owned());
        },
    }
}

fn render_description_status(commands: &mut Vec<DrawCommand>, snippet_view: &SnippetView, x: u32, y: u32)
    requires
        x + 13 <= u32::MAX,
    ensures
        views(final(commands)@) == views(old(commands)@) + status_line(
            x as nat,
            y as nat,
            Color::Green,
            "Description:"@,
            Color::White,
            snippet_view@.snippet.description,
        ),
{
    let description_text = snippet_view.snippet.description.clone();
    push_status_line(commands, x, y, Color::Green, "Description:", Color::White, description_text);
}

fn render_source_status(commands: &mut Vec<DrawCommand>, snippet_view: &SnippetView, x: u32, y: u32)
    requires
        x + 13 <= u32::MAX,
    ensures
        views(final(commands)@) == views(old(commands)@) + status_line(
            x as nat,
            y as nat,
            Color::Green,
            "     Source:"@,
            Color::Gray40,
            source_label(snippet_view@.snippet.source),
        ),
{
    let source_text = snippet_source_to_label(snippet_view);
    push_status_line(commands, x, y, Color::Green, "     Source:", Color::Gray40, source_text);
}

fn render_transcribed_status(commands: &mut Vec<DrawCommand>, snippet_view: &SnippetView, x: u32, y: u32)
    requires
        x + 13 <= u32::MAX,
    ensures
        views(final(commands)@) == views(old(commands)@) + status_line(
            x as nat,
            y as nat,
            Color::Green,
            "Transcribed:"@,
            if snippet_view.transcribed {
                Color::Gray40
            } else {
                Color::White
            },
            bool_text(snippet_view.transcribed),
        ),
{
    let transcribed_text = bool_string(snippet_view.transcribed);
    let transcribed_text_color = if snippet_view.transcribed {
        Color::Gray40
    } else {
        Color::White
    };

    push_status_line(
        commands,
        x,
        y,
        Color::Green,
        "Transcribed:",
        transcribed_text_color,
        transcribed_text,
    );
}

fn render_has_border_status(commands: &mut Vec<DrawCommand>, has_border: bool, x: u32, y: u32)
    requires
        x + 13 <= u32::MAX,
    ensures
        views(final(commands)@) == views(old(commands)@) + status_line(
            x as nat,
            y as nat,
            Color::Yellow,
            " Has Border:"@,
            Color::White,
            bool_text(has_border),
        ),
{
    let has_border = bool_string(has_border);
    push_status_line(commands, x, y, Color::Yellow, " Has Border:", Color::White, has_border);
}

fn render_colored_status(commands: &mut Vec<DrawCommand>, colored: bool, x: u32, y: u32)
    requires
        x + 13 <= u32::MAX,
    ensures
        views(final(commands)@) == views(old(commands)@) + status_line(
            x as nat,
            y as nat,
            Color::Yellow,
            "    Colored:"@,
            Color::White,
            bool_text(colored),
        ),
{
    let colored = bool_string(colored);
    push_status_line(commands, x, y, Color::Yellow, "    Colored:", Color::White, colored);
}

fn selected_snippet_view(notebook_view: &NotebookView) -> (found: Option<&SnippetView>)
    ensures
        match found {
            Some(view) => first_selected_snippet(
                notebook_view@.snippet_views,
                notebook_view@.snippet_views.len(),
            ) == Some(view@),
            None => first_selected_snippet(
                notebook_view@.snippet_views,
                notebook_view@.snippet_views.len(),
            ) is None,
        },
{
    let mut index: usize = 0;

    while index < notebook_view.snippet_views.len()
        invariant
            index <= notebook_view.snippet_views.len(),
            first_selected_snippet(notebook_view@.snippet_views, index as nat) is None,
        decreases notebook_view.snippet_views.len() - index,
    {
        let view = &notebook_view.snippet_views[index];
        assert(view@ == notebook_view@.snippet_views[index as int]);
        if view.selected {
            proof {
                lemma_first_selected_snippet_stays(
                    notebook_view@.snippet_views,
                    (index + 1) as nat,
                    notebook_view@.snippet_views.len(),
                );
            }
            return Some(view);
        }
        index = index + 1;
    }

    None
}

fn selected_word_view(snippet_view: &SnippetView) -> (found: Option<&crate::views::WordView>)
    ensures
        match found {
            Some(view) => first_selected_word(
                snippet_view@.word_views,
                snippet_view@.word_views.len(),
            ) == Some(view@),
            None => first_selected_word(
                snippet_view@.word_views,
                snippet_view@.word_views.len(),
            ) is None,
        },
{
    let mut index: usize = 0;

    while index < snippet_view.word_views.len()
        invariant
            index <= snippet_view.word_views.len(),
            first_selected_word(snippet_view@.word_views, index as nat) is None,
        decreases snippet_view.word_views.len() - index,
    {
        let view = &snippet_view.word_views[index];
        assert(view@ == snippet_view@.word_views[index as int]);
        if view.selected {
            proof {
                lemma_first_selected_word_stays(
                    snippet_view@.word_views,
                    (index + 1) as nat,
                    snippet_view@.word_views.len(),
                );
            }
            return Some(view);
        }
        index = index + 1;
    }

    None
}

/// The coordinates that the selected snippet of a view needs fit the
/// screen's coordinates.
pub open spec fn selected_snippet_fits(view: NotebookViewModel, x: nat, y: nat) -> bool {
    &&& x + 13 <= u32::MAX
    &&& y + 13 <= u32::MAX
    &&& first_selected_snippet(view.snippet_views, view.snippet_views.len()) matches Some(
        snippet_view,
    ) ==> y + 3 + 2 * snippet_view.word_views.len() <= u32::MAX
}

/// What showing the selected snippet does to the map: the Tunic words in
/// view are drawn on it. Without a selected snippet the map stays as it is.
pub open spec fn selected_snippet_rendering(
    map: GlyphMapModel,
    view: NotebookViewModel,
    x: nat,
    y: nat,
) -> Rendering {
    match first_selected_snippet(view.snippet_views, view.snippet_views.len()) {
        Some(snippet_view) => words_in_view_rendering(
            map,
            snippet_view,
            snippet_view.word_views.len(),
            x,
            y,
        ),
        None => Rendering { map, failed_at: None },
    }
}

/// What is written for the selected snippet of a notebook view; nothing
/// without one.
pub open spec fn notebook_snippet_commands(view: NotebookViewModel, x: nat, y: nat) -> Seq<
    DrawCommandModel,
> {
    match first_selected_snippet(view.snippet_views, view.snippet_views.len()) {
        Some(snippet_view) => selected_snippet_commands(snippet_view, x, y),
        None => Seq::empty(),
    }
}

/// Shows the selected snippet: its words, and at the bottom of the screen
/// what is known of it and of its selected word. Fails where a glyph falls
/// outside the map.
pub fn render_selected_snippet_on(
    notebook_view: &NotebookView,
    _dictionary: &Dictionary,
    map: &mut GlyphMap,
    x: u32,
    y: u32,
) -> (outcome: Result<Vec<DrawCommand>, GlyphRenderError>)
    requires
        selected_snippet_fits(notebook_view@, x as nat, y as nat),
    ensures
        ({
            let expected = selected_snippet_rendering(
                old(map)@,
                notebook_view@,
                x as nat,
                y as nat,
            );

            match outcome {
                Ok(commands) => renders_as(*final(map), Ok(()), expected) && views(commands@)
                    == notebook_snippet_commands(notebook_view@, x as nat, y as nat),
                Err(error) => renders_as(*final(map), Err(error), expected),
            }
        }),
{
    match selected_snippet_view(notebook_view) {
        Some(snippet_view) => {
            let y_from_bottom: u32 = SCREEN_HEIGHT;
            let selected_word = selected_word_view(snippet_view);
            let (has_border, colored) = match selected_word {
                Some(view) => (view.word.has_border(), view.word.colored()),
                None => (false, false),
            };

            let mut commands = match render_snippet_on(snippet_view, map, x, y) {
                Ok(commands) => commands,
                Err(error) => {
                    return Err(error);
                },
            };
            let ghost words = views(commands@);

            match selected_word {
                Some(view) => {
                    render_selected_word_glyphs_as_base10(
                        &mut commands,
                        &view.word,
                        y,
                        y_from_bottom - 7,
                    );
                    render_word_definition(&mut commands, x, y_from_bottom - 6);
                    assert(views(commands@) =~= words + word_status_commands(
                        view@.word,
                        x as nat,
                        y as nat,
                    ));
                },
                None => {
                    assert(views(commands@) =~= words + Seq::<DrawCommandModel>::empty());
                },
            }
            let ghost shown = views(commands@);
            render_description_status(&mut commands, snippet_view, x, y_from_bottom - 5);
            render_source_status(&mut commands, snippet_view, x, y_from_bottom - 4);
            render_transcribed_status(&mut commands, snippet_view, x, y_from_bottom - 3);
            render_has_border_status(&mut commands, has_border, x, y_from_bottom - 2);
            render_colored_status(&mut commands, colored, x, y_from_bottom - 1);
            assert(views(commands@) =~= shown + snippet_status_commands(
                snippet_view@,
                has_border,
                colored,
                x as nat,
            ));

            Ok(commands)
        },
        None => {
            let commands: Vec<DrawCommand> = Vec::new();
            assert(views(commands@) =~= Seq::<DrawCommandModel>::empty());

            Ok(commands)
        },
    }
}

fn list_entry(snippet_view: &SnippetView, relative_index: usize, x: u32, y: u32) -> (entry: (
    DrawCommand,
    DrawCommand,
))
    requires
        y + relative_index * 3 + 1 <= u32::MAX,
    ensures
        seq![entry.0@, entry.1@] == list_entry_commands(
            snippet_view@,
            relative_index as nat,
            x as nat,
            y as nat,
        ),
{
    let row: u32 = y + (relative_index as u32) * 3;
    let description = snippet_view.snippet.description.as_str();
    let description_label = if snippet_view.selected {
        joined("-> ", padded_decimal(relative_index, 3).as_str()).concat(") ").concat(description)
    } else {
        padded_decimal(relative_index, 6).concat(") ").concat(description)
    };
    let source_text = joined("        Source: ", snippet_source_to_label(snippet_view).as_str());

    let entry = (
        DrawCommand::text(x, row, description_color_for(snippet_view), description_label),
        DrawCommand::text(x, row + 1, source_color_for(snippet_view), source_text),
    );
    assert(seq![entry.0@, entry.1@] =~= list_entry_commands(
        snippet_view@,
        relative_index as nat,
        x as nat,
        y as nat,
    ));

    entry
}

/// What is written for a notebook: the console of the notebook is cleared;
/// then, while snippets are selected, the list of the retained snippets,
/// and while a snippet is edited, that snippet.
pub open spec fn notebook_commands(view: NotebookViewModel, x: nat, y: nat) -> Seq<DrawCommandModel> {
    seq![DrawCommandModel::ActivateAndClear { console: NOTEBOOK_CONSOLE as nat }] + match view.state {
        NotebookEditorState::SelectingSnippet => list_commands(
            view.snippet_views,
            view.snippet_views.len(),
            x,
            y,
        ),
        NotebookEditorState::EditingSnippet => notebook_snippet_commands(view, x, y),
    }
}

/// The coordinates that a notebook view needs fit the screen's
/// coordinates.
pub open spec fn notebook_fits(view: NotebookViewModel, x: nat, y: nat) -> bool {
    match view.state {
        NotebookEditorState::SelectingSnippet => y + 3 * view.snippet_views.len() + 1 <= u32::MAX,
        NotebookEditorState::EditingSnippet => selected_snippet_fits(view, x, y),
    }
}

/// Shows a notebook. Only the selected snippet of a notebook that is
/// edited touches the map, and only there can this fail.
pub fn render_notebook_on(
    notebook_view: &NotebookView,
    dictionary: &Dictionary,
    map: &mut GlyphMap,
    x: u32,
    y: u32,
) -> (outcome: Result<Vec<DrawCommand>, GlyphRenderError>)
    requires
        notebook_fits(notebook_view@, x as nat, y as nat),
    ensures
        ({
            let expected = match notebook_view@.state {
                NotebookEditorState::SelectingSnippet => Rendering {
                    map: old(map)@,
                    failed_at: None,
                },
                NotebookEditorState::EditingSnippet => selected_snippet_rendering(
                    old(map)@,
                    notebook_view@,
                    x as nat,
                    y as nat,
                ),
            };

            match outcome {
                Ok(commands) => renders_as(*final(map), Ok(()), expected) && views(commands@)
                    == notebook_commands(notebook_view@, x as nat, y as nat),
                Err(error) => renders_as(*final(map), Err(error), expected),
            }
        }),
{
    let mut commands: Vec<DrawCommand> = Vec::new();
    let clear = DrawCommand::ActivateAndClear { console: NOTEBOOK_CONSOLE };
    commands.push(clear);
    let ghost start = seq![clear@];
    assert(views(commands@) =~= start);

    match notebook_view.state {
        NotebookEditorState::SelectingSnippet => {
            let count = notebook_view.snippet_views.len();
            let mut index: usize = 0;
            let mut relative_index: usize = 0;
            assert(views(commands@) =~= start + list_commands(
                notebook_view@.snippet_views,
                0,
                x as nat,
                y as nat,
            ));

            while index < count
                invariant
                    index <= count,
                    count == notebook_view.snippet_views.len(),
                    count == notebook_view@.snippet_views.len(),
                    relative_index <= index,
                    relative_index == retained_views_before(
                        notebook_view@.snippet_views,
                        index as nat,
                    ),
                    y + 3 * count + 1 <= u32::MAX,
                    views(commands@) == start + list_commands(
                        notebook_view@.snippet_views,
                        index as nat,
                        x as nat,
                        y as nat,
                    ),
                decreases count - index,
            {
                let snippet_view = &notebook_view.snippet_views[index];
                assert(snippet_view@ == notebook_view@.snippet_views[index as int]);

                if snippet_view.retained {
                    let ghost before = views(commands@);
                    let (description, source) = list_entry(snippet_view, relative_index, x, y);
                    proof {
                        lemma_views_push(commands@, description);
                        lemma_views_push(commands@.push(description), source);
                        assert(before.push(description@).push(source@) =~= start + (list_commands(
                            notebook_view@.snippet_views,
                            index as nat,
                            x as nat,
                            y as nat,
                        ) + seq![description@, source@]));
                    }
                    commands.push(description);
                    commands.push(source);
                    relative_index = relative_index + 1;
                }
                index = index + 1;
            }

            Ok(commands)
        },
        NotebookEditorState::EditingSnippet => {
            match render_selected_snippet_on(notebook_view, dictionary, map, x, y) {
                Ok(mut snippet_commands) => {
                    let ghost snippet = views(snippet_commands@);
                    let mut all = commands;
                    all.append(&mut snippet_commands);
                    assert(views(all@) =~= start + snippet);

                    Ok(all)
                },
                Err(error) => Err(error),
            }
        },
    }
}

/// A selected snippet that was found stays the first one however many
/// views follow.
pub proof fn lemma_first_selected_snippet_stays(
    snippet_views: Seq<SnippetViewModel>,
    found: nat,
    count: nat,
)
    requires
        found <= count,
        first_selected_snippet(snippet_views, found) is Some,
    ensures
        first_selected_snippet(snippet_views, count) == first_selected_snippet(
            snippet_views,
            found,
        ),
    decreases count,
{
    if found < count {
        lemma_first_selected_snippet_stays(snippet_views, found, (count - 1) as nat);
    }
}

/// A selected word that was found stays the first one however many views
/// follow.
pub proof fn lemma_first_selected_word_stays(word_views: Seq<WordViewModel>, found: nat, count: nat)
    requires
        found <= count,
        first_selected_word(word_views, found) is Some,
    ensures
        first_selected_word(word_views, count) == first_selected_word(word_views, found),
    decreases count,
{
    if found < count {
        lemma_first_selected_word_stays(word_views, found, (count - 1) as nat);
    }
}

/// Showing the selected snippet changes cells, never the size of the map.
pub proof fn lemma_selected_snippet_keeps_size(
    map: GlyphMapModel,
    view: NotebookViewModel,
    x: nat,
    y: nat,
)
    ensures
        selected_snippet_rendering(map, view, x, y).map.width == map.width,
        selected_snippet_rendering(map, view, x, y).map.height == map.height,
        selected_snippet_rendering(map, view, x, y).map.glyphs.len() == map.glyphs.len(),
{
    match first_selected_snippet(view.snippet_views, view.snippet_views.len()) {
        Some(snippet_view) => {
            lemma_words_in_view_keep_size(map, snippet_view, snippet_view.word_views.len(), x, y);
        },
        None => {},
    }
}

} // verus!
