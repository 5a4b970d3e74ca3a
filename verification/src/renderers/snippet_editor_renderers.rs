use vstd::prelude::*;

use crate::editors::snippet_editors::MAX_VISIBLE_WORDS;
use crate::language::words::{WordModel, WordType};
use crate::renderers::glyph_map_renderers::{
    glyph_color, lemma_word_keeps_size, renders_as, GlyphMap, GlyphMapModel,
    GlyphRenderError, Rendering,
};
use crate::renderers::{text_command, Color, DrawCommand, DrawCommandModel, SNIPPET_CONSOLE};
use crate::sequences::{lemma_views_push, views};
use crate::text::{decimal_digits, decimal_string};
use crate::views::{SnippetView, SnippetViewModel, WordViewModel};

verus! {

/// How many of the first `count` words are in view.
pub open spec fn in_view_before(word_views: Seq<WordViewModel>, count: nat) -> nat
    decreases count,
{
    if count == 0 {
        0
    } else {
        in_view_before(word_views, (count - 1) as nat) + if word_views[count
            - 1].within_visible_range {
            1nat
        } else {
            0nat
        }
    }
}

/// What stands in front of a word in view: its index; `++` for the last
/// row of a full window that has more words below it; `^^` for the first
/// row of a window that has words above it.
pub open spec fn word_label(row: nat, index: nat, word_count: nat) -> Seq<char> {
    if row == MAX_VISIBLE_WORDS - 1 && index < word_count - 1 {
        "++"@
    } else if row == 0 && index > 0 {
        "^^"@
    } else {
        decimal_digits(index)
    }
}

/// The text that is written for the word at `index`, which stands in row
/// `row` of the window: the word itself if it is English, and its label.
pub open spec fn word_commands(view: SnippetViewModel, index: nat, row: nat, x: nat, y: nat) -> Seq<
    DrawCommandModel,
> {
    let word_view = view.word_views[index as int];
    let label = text_command(
        1,
        row * 2 + y + 3,
        Color::Yellow,
        word_label(row, index, view.word_views.len()),
    );

    match word_view.word {
        WordModel::English(text) => seq![
            text_command(x + 3, row * 2 + y + 3, glyph_color(word_view.selected), text),
            label,
        ],
        WordModel::Tunic(_) => seq![label],
    }
}

/// The text that is written for the first `count` words of a snippet.
pub open spec fn words_commands(view: SnippetViewModel, count: nat, x: nat, y: nat) -> Seq<
    DrawCommandModel,
>
    decreases count,
{
    if count == 0 {
        seq![DrawCommandModel::ActivateAndClear { console: SNIPPET_CONSOLE as nat }]
    } else {
        let before = words_commands(view, (count - 1) as nat, x, y);

        if view.word_views[count - 1].within_visible_range {
            before + word_commands(
                view,
                (count - 1) as nat,
                in_view_before(view.word_views, (count - 1) as nat),
                x,
                y,
            )
        } else {
            before
        }
    }
}

/// The map after the Tunic words among the first `count` words that are in
/// view are drawn on it, each in the row of the map that is its row in the
/// window.
pub open spec fn words_in_view_rendering(
    map: GlyphMapModel,
    view: SnippetViewModel,
    count: nat,
    x: nat,
    y: nat,
) -> Rendering
    decreases count,
{
    if count == 0 {
        Rendering { map, failed_at: None }
    } else {
        let before = words_in_view_rendering(map, view, (count - 1) as nat, x, y);
        let word_view = view.word_views[count - 1];

        if before.failed_at is Some || !word_view.within_visible_range
            || word_view.word is English {
            before
        } else {
            before.map.with_word(
                word_view,
                x,
                y + in_view_before(view.word_views, (count - 1) as nat),
            )
        }
    }
}

fn word_label_text(row: usize, index: usize, word_count: usize) -> (label: String)
    requires
        index < word_count,
    ensures
        label@ == word_label(row as nat, index as nat, word_count as nat),
{
    let more_below = row == MAX_VISIBLE_WORDS - 1 && index < word_count - 1;
    let more_above = row == 0 && index > 0;

    if more_below {
        "++".to_owned()
    } else if more_above {
        "^^".to_owned()
    } else {
        decimal_string(index as u128)
    }
}

/// Shows the words of a snippet that are in view: Tunic words go onto the
/// map, English words and the labels of all words become commands for the
/// console of the snippet. The rows must fit on the screen's coordinates.
/// Fails where a glyph falls outside the map; the map then holds what was
/// drawn before.
pub fn render_snippet_on(snippet_view: &SnippetView, map: &mut GlyphMap, x: u32, y: u32) -> (outcome:
    Result<Vec<DrawCommand>, GlyphRenderError>)
    requires
        x + 3 <= u32::MAX,
        y + 3 + 2 * snippet_view.word_views.len() <= u32::MAX,
    ensures
        ({
            let expected = words_in_view_rendering(
                old(map)@,
                snippet_view@,
                snippet_view@.word_views.len(),
                x as nat,
                y as nat,
            );

            match outcome {
                Ok(commands) => renders_as(*final(map), Ok(()), expected) && views(commands@)
                    == words_commands(
                    snippet_view@,
                    snippet_view@.word_views.len(),
                    x as nat,
                    y as nat,
                ),
                Err(error) => renders_as(*final(map), Err(error), expected),
            }
        }),
{
    let word_count = snippet_view.word_views.len();
    let mut commands: Vec<DrawCommand> = Vec::new();
    commands.push(DrawCommand::ActivateAndClear { console: SNIPPET_CONSOLE });
    assert(views(commands@) =~= words_commands(snippet_view@, 0, x as nat, y as nat));

    let mut index: usize = 0;
    let mut row: usize = 0;

    while index < word_count
        invariant
            index <= word_count,
            word_count == snippet_view.word_views.len(),
            word_count == snippet_view@.word_views.len(),
            row <= index,
            row == in_view_before(snippet_view@.word_views, index as nat),
            x + 3 <= u32::MAX,
            y + 3 + 2 * word_count <= u32::MAX,
            views(commands@) == words_commands(snippet_view@, index as nat, x as nat, y as nat),
            renders_as(
                *map,
                Ok(()),
                words_in_view_rendering(old(map)@, snippet_view@, index as nat, x as nat, y as nat),
            ),
        decreases word_count - index,
    {
        let view = &snippet_view.word_views[index];
        assert(view@ == snippet_view@.word_views[index as int]);

        if view.within_visible_range {
            let text_y: u32 = (row as u32) * 2 + y + 3;
            let ghost before = views(commands@);

            match &view.word.word_type {
                WordType::English(word) => {
                    let color = if view.selected {
                        Color::Yellow
                    } else {
                        Color::White
                    };
                    let command = DrawCommand::text(x + 3, text_y, color, word.text());
                    proof {
                        lemma_views_push(commands@, command);
                    }
                    commands.push(command);
                },
                WordType::Tunic(_) => {
                    match map.render_word_on(view, x, y + row as u32) {
                        Ok(_) => {},
                        Err(error) => {
                            proof {
                                lemma_words_in_view_failure(
                                    old(map)@,
                                    snippet_view@,
                                    (index + 1) as nat,
                                    word_count as nat,
                                    x as nat,
                                    y as nat,
                                );
                            }
                            return Err(error);
                        },
                    }
                },
            }
            let label = DrawCommand::text(
                1,
                text_y,
                Color::Yellow,
                word_label_text(row, index, word_count),
            );
            proof {
                lemma_views_push(commands@, label);
                assert(views(commands@).push(label@) =~= before + word_commands(
                    snippet_view@,
                    index as nat,
                    row as nat,
                    x as nat,
                    y as nat,
                ));
            }
            commands.push(label);
            row = row + 1;
        }
        index = index + 1;
    }

    Ok(commands)
}

/// Once a word in view could not be drawn, the words behind it are not
/// tried.
pub proof fn lemma_words_in_view_failure(
    map: GlyphMapModel,
    view: SnippetViewModel,
    failed: nat,
    count: nat,
    x: nat,
    y: nat,
)
    requires
        failed <= count,
        words_in_view_rendering(map, view, failed, x, y).failed_at is Some,
    ensures
        words_in_view_rendering(map, view, count, x, y) == words_in_view_rendering(
            map,
            view,
            failed,
            x,
            y,
        ),
    decreases count,
{
    if failed < count {
        lemma_words_in_view_failure(map, view, failed, (count - 1) as nat, x, y);
    }
}

/// Drawing the words in view changes cells, never the size of the map.
pub proof fn lemma_words_in_view_keep_size(
    map: GlyphMapModel,
    view: SnippetViewModel,
    count: nat,
    x: nat,
    y: nat,
)
    ensures
        words_in_view_rendering(map, view, count, x, y).map.width == map.width,
        words_in_view_rendering(map, view, count, x, y).map.height == map.height,
        words_in_view_rendering(map, view, count, x, y).map.glyphs.len() == map.glyphs.len(),
    decreases count,
{
    if count > 0 {
        lemma_words_in_view_keep_size(map, view, (count - 1) as nat, x, y);
        let before = words_in_view_rendering(map, view, (count - 1) as nat, x, y);
        lemma_word_keeps_size(
            before.map,
            view.word_views[count - 1],
            x,
            y + in_view_before(view.word_views, (count - 1) as nat),
        );
    }
}

} // verus!
