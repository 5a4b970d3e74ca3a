use vstd::prelude::*;

use crate::editors::word_editors::WordEditorState;
use crate::language::glyphs::Glyph;
use crate::renderers::{Color, DrawCommand, DrawCommandModel};
use crate::sequences::{lemma_views_push, views};
use crate::text::{decimal_digits, decimal_string, joined};
use crate::views::{GlyphView, SnippetView, SnippetViewModel, WordView, WordViewModel};

verus! {

/// Why glyphs could not be put on a map.
#[derive(Debug, PartialEq, Eq)]
pub struct GlyphRenderError {
    description: String,
}

impl View for GlyphRenderError {
    type V = Seq<char>;

    closed spec fn view(&self) -> Seq<char> {
        self.description@
    }
}

impl Clone for GlyphRenderError {
    fn clone(&self) -> (copy: Self)
        ensures
            copy@ == self@,
    {
        Self { description: self.description.clone() }
    }
}

impl GlyphRenderError {
    pub fn new(description: String) -> (error: Self)
        ensures
            error@ == description@,
    {
        Self { description }
    }

    pub fn to_string(&self) -> (text: String)
        ensures
            text@ == "GlyphRenderError: "@ + self@,
    {
        joined("GlyphRenderError: ", self.description.as_str())
    }

    pub fn description(&self) -> (description: String)
        ensures
            description@ == self@,
    {
        self.description.clone()
    }
}

/// A glyph with the colour to draw it in. The drawing is its own
/// mathematical model.
#[derive(Clone, Copy, Debug, PartialEq, Eq, Structural)]
pub struct GlyphDrawing {
    pub glyph: Glyph,
    pub color: Color,
}

/// What the error says of a cell that the map does not have.
pub open spec fn invalid_index_description(index: nat, limit: nat) -> Seq<char> {
    "Invalid index for the GlyphMap: "@ + decimal_digits(index) + ". The limit is "@
        + decimal_digits(limit) + "."@
}

/// What the error says of a map that is too large to make.
pub open spec fn invalid_dimensions_description(width: nat, height: nat) -> Seq<char> {
    "Invalid dimensions for the GlyphMap: "@ + decimal_digits(width) + " by "@ + decimal_digits(
        height,
    )
}

/// Mathematical model of a [`GlyphMap`].
pub struct GlyphMapModel {
    pub width: nat,
    pub height: nat,
    pub glyphs: Seq<Option<GlyphDrawing>>,
}

/// A map together with the first cell index that could not be drawn on, if
/// there was one.
pub struct Rendering {
    pub map: GlyphMapModel,
    pub failed_at: Option<nat>,
}

/// The colour of a glyph, by whether it is selected.
pub open spec fn glyph_color(selected: bool) -> Color {
    if selected {
        Color::Yellow
    } else {
        Color::White
    }
}

/// The colour of the mark that shows what the keys do in the selected
/// word.
pub open spec fn state_color(state: WordEditorState) -> Color {
    match state {
        WordEditorState::ModifyGlyphSet => Color::Blue,
        WordEditorState::ModifySelectedGlyph => Color::Yellow,
    }
}

impl GlyphMapModel {
    /// The map of the given size with nothing drawn on it.
    pub open spec fn blank(width: nat, height: nat) -> Self {
        GlyphMapModel {
            width,
            height,
            glyphs: Seq::new(width * height, |i: int| None::<GlyphDrawing>),
        }
    }

    /// The place of a cell in the sequence of cells: rows follow each
    /// other.
    pub open spec fn cell_index(self, x: nat, y: nat) -> nat {
        x + y * self.width
    }

    pub open spec fn get_glyph(self, x: nat, y: nat) -> Option<GlyphDrawing> {
        if self.cell_index(x, y) < self.glyphs.len() {
            self.glyphs[self.cell_index(x, y) as int]
        } else {
            None
        }
    }

    /// Draws on one cell; fails on a cell that the map does not have.
    pub open spec fn with_glyph(self, x: nat, y: nat, drawing: GlyphDrawing) -> Rendering {
        if self.cell_index(x, y) < self.glyphs.len() {
            Rendering {
                map: GlyphMapModel {
                    glyphs: self.glyphs.update(self.cell_index(x, y) as int, Some(drawing)),
                    ..self
                },
                failed_at: None,
            }
        } else {
            Rendering { map: self, failed_at: Some(self.cell_index(x, y)) }
        }
    }

    pub open spec fn with_glyph_view(self, view: GlyphView, x: nat, y: nat) -> Rendering {
        self.with_glyph(
            x,
            y,
            GlyphDrawing { glyph: view.glyph, color: glyph_color(view.selected) },
        )
    }

    /// Draws the first `count` glyphs of a word from `(x, y)` to the right,
    /// each with its word line, the segment 0, toggled; stops at the first
    /// cell that the map does not have.
    pub open spec fn with_glyph_views(
        self,
        glyph_views: Seq<GlyphView>,
        count: nat,
        x: nat,
        y: nat,
    ) -> Rendering
        decreases count,
    {
        if count == 0 {
            Rendering { map: self, failed_at: None }
        } else {
            let before = self.with_glyph_views(glyph_views, (count - 1) as nat, x, y);
            let glyph_view = glyph_views[count - 1];

            if before.failed_at is Some {
                before
            } else {
                before.map.with_glyph_view(
                    GlyphView { glyph: glyph_view.glyph.toggled(0), ..glyph_view },
                    (x + count - 1) as nat,
                    y,
                )
            }
        }
    }

    /// Draws the glyphs of a word and, for a selected word, the mark of its
    /// state in the first cell of the map.
    pub open spec fn with_word(self, view: WordViewModel, x: nat, y: nat) -> Rendering {
        let glyphs = self.with_glyph_views(view.glyph_views, view.glyph_views.len(), x, y);

        if glyphs.failed_at is Some || !view.selected {
            glyphs
        } else {
            glyphs.map.with_glyph(
                0,
                0,
                GlyphDrawing { glyph: Glyph(0xffff), color: state_color(view.state) },
            )
        }
    }

    /// Draws the first `count` words of a snippet, one below the other.
    pub open spec fn with_words(
        self,
        word_views: Seq<WordViewModel>,
        count: nat,
        x: nat,
        y: nat,
    ) -> Rendering
        decreases count,
    {
        if count == 0 {
            Rendering { map: self, failed_at: None }
        } else {
            let before = self.with_words(word_views, (count - 1) as nat, x, y);

            if before.failed_at is Some {
                before
            } else {
                before.map.with_word(word_views[count - 1], x, (y + count - 1) as nat)
            }
        }
    }

    pub open spec fn with_snippet(self, view: SnippetViewModel, x: nat, y: nat) -> Rendering {
        self.with_words(view.word_views, view.word_views.len(), x, y)
    }

    /// The cells of column `gx` above row `rows` that show `segment`, as
    /// commands, from the top down.
    pub open spec fn column_commands(self, segment: u16, x: nat, y: nat, gx: nat, rows: nat) -> Seq<
        DrawCommandModel,
    >
        decreases rows,
    {
        if rows == 0 {
            Seq::empty()
        } else {
            let above = self.column_commands(segment, x, y, gx, (rows - 1) as nat);
            let gy = (rows - 1) as nat;

            match self.get_glyph(gx, gy) {
                Some(drawing) => if drawing.glyph.has_segment(segment) {
                    above.push(
                        DrawCommandModel::SetCell {
                            x: x + gx,
                            y: y + gy,
                            foreground: drawing.color,
                            symbol: segment,
                        },
                    )
                } else {
                    above
                },
                None => above,
            }
        }
    }

    /// The cells of the first `columns` columns that show `segment`, column
    /// by column.
    pub open spec fn segment_commands(self, segment: u16, x: nat, y: nat, columns: nat) -> Seq<
        DrawCommandModel,
    >
        decreases columns,
    {
        if columns == 0 {
            Seq::empty()
        } else {
            self.segment_commands(segment, x, y, (columns - 1) as nat) + self.column_commands(
                segment,
                x,
                y,
                (columns - 1) as nat,
                self.height,
            )
        }
    }

    /// What draws the first `segments` segments of all glyphs: for each
    /// segment its console is cleared and gets the cells that show it.
    pub open spec fn draw_commands(self, x: nat, y: nat, segments: nat) -> Seq<DrawCommandModel>
        decreases segments,
    {
        if segments == 0 {
            Seq::empty()
        } else {
            let segment = (segments - 1) as nat;

            self.draw_commands(x, y, segment).push(
                DrawCommandModel::ActivateAndClear { console: segment },
            ) + self.segment_commands(segment as u16, x, y, self.width)
        }
    }
}

/// A grid of cells, each of which may hold a glyph to draw.
#[derive(Debug, PartialEq, Eq)]
pub struct GlyphMap {
    pub width: u32,
    pub height: u32,
    pub glyphs: Vec<Option<GlyphDrawing>>,
}

impl View for GlyphMap {
    type V = GlyphMapModel;

    open spec fn view(&self) -> GlyphMapModel {
        GlyphMapModel {
            width: self.width as nat,
            height: self.height as nat,
            glyphs: self.glyphs@,
        }
    }
}

/// `outcome` and the map `after` are what the rendering `expected` says:
/// the map is the one of the rendering, and the step failed exactly if the
/// rendering did, with an error that names the cell and the number of
/// cells.
pub open spec fn renders_as(
    after: GlyphMap,
    outcome: Result<(), GlyphRenderError>,
    expected: Rendering,
) -> bool {
    &&& after@ == expected.map
    &&& match outcome {
        Ok(_) => expected.failed_at is None,
        Err(error) => expected.failed_at matches Some(index) && error@
            == invalid_index_description(index, expected.map.glyphs.len()),
    }
}

impl GlyphMap {
    /// A map of `width` by `height` cells with nothing on it. Fails for
    /// more cells than `u32` can count.
    pub fn new(width: u32, height: u32) -> (outcome: Result<Self, GlyphRenderError>)
        ensures
            match outcome {
                Ok(map) => width * height <= u32::MAX && map@ == GlyphMapModel::blank(
                    width as nat,
                    height as nat,
                ),
                Err(error) => width * height > u32::MAX && error@
                    == invalid_dimensions_description(width as nat, height as nat),
            },
    {
        match width.checked_mul(height) {
            Some(cells) => {
                let size = cells as usize;
                let glyphs: Vec<Option<GlyphDrawing>> = vec![None; size];
                assert(glyphs@ =~= GlyphMapModel::blank(width as nat, height as nat).glyphs);

                Ok(Self { width, height, glyphs })
            },
            None => {
                let description = "Invalid dimensions for the GlyphMap: ".to_owned().concat(
                    decimal_string(width as u128).as_str(),
                ).concat(" by ").concat(decimal_string(height as u128).as_str());

                Err(GlyphRenderError::new(description))
            },
        }
    }

    /// Draws on the cell in column `column` of row `row`.
    fn set_cell(&mut self, column: u128, row: u128, drawing: GlyphDrawing) -> (outcome: Result<
        (),
        GlyphRenderError,
    >)
        requires
            column <= 0x2_0000_0000_0000_0000,
            row <= 0x2_0000_0000_0000_0000,
        ensures
            renders_as(
                *final(self),
                outcome,
                old(self)@.with_glyph(column as nat, row as nat, drawing),
            ),
    {
        assert(row * self.width <= 0x2_0000_0000_0000_0000 * 0x1_0000_0000) by (nonlinear_arith)
            requires
                row <= 0x2_0000_0000_0000_0000,
                self.width < 0x1_0000_0000,
        ;
        let index: u128 = column + row * (self.width as u128);
        let limit = self.glyphs.len();

        if index < limit as u128 {
            self.glyphs.set(index as usize, Some(drawing));
            Ok(())
        } else {
            let description = "Invalid index for the GlyphMap: ".to_owned().concat(
                decimal_string(index).as_str(),
            ).concat(". The limit is ").concat(decimal_string(limit as u128).as_str()).concat(".");

            Err(GlyphRenderError::new(description))
        }
    }

    pub fn set_glyph(&mut self, x: u32, y: u32, glyph: Glyph, color: Color) -> (outcome: Result<
        (),
        GlyphRenderError,
    >)
        ensures
            renders_as(
                *final(self),
                outcome,
                old(self)@.with_glyph(x as nat, y as nat, GlyphDrawing { glyph, color }),
            ),
    {
        self.set_cell(x as u128, y as u128, GlyphDrawing { glyph, color })
    }

    pub fn get_glyph(&self, x: u32, y: u32) -> (drawing: Option<GlyphDrawing>)
        ensures
            drawing == self@.get_glyph(x as nat, y as nat),
    {
        assert(y * self.width <= 0x1_0000_0000 * 0x1_0000_0000) by (nonlinear_arith)
            requires
                y < 0x1_0000_0000,
                self.width < 0x1_0000_0000,
        ;
        let index: u128 = (x as u128) + (y as u128) * (self.width as u128);

        if index < self.glyphs.len() as u128 {
            self.glyphs[index as usize]
        } else {
            None
        }
    }

    fn draw_column_on(&self, commands: &mut Vec<DrawCommand>, segment: u16, x: u32, y: u32, gx: u32)
        requires
            segment < 16,
            x + self.width <= u32::MAX,
            y + self.height <= u32::MAX,
            gx < self.width,
        ensures
            views(final(commands)@) == views(old(commands)@) + self@.column_commands(
                segment,
                x as nat,
                y as nat,
                gx as nat,
                self.height as nat,
            ),
    {
        let mut gy: u32 = 0;
        assert(views(commands@) + Seq::<DrawCommandModel>::empty() =~= views(commands@));

        while gy < self.height
            invariant
                gy <= self.height,
                segment < 16,
                x + self.width <= u32::MAX,
                y + self.height <= u32::MAX,
                gx < self.width,
                views(commands@) == views(old(commands)@) + self@.column_commands(
                    segment,
                    x as nat,
                    y as nat,
                    gx as nat,
                    gy as nat,
                ),
            decreases self.height - gy,
        {
            match self.get_glyph(gx, gy) {
                Some(drawing) => {
                    match drawing.glyph.includes_segment(segment) {
                        Some(true) => {
                            let command = DrawCommand::SetCell {
                                x: x + gx,
                                y: y + gy,
                                foreground: drawing.color,
                                symbol: segment,
                            };
                            proof {
                                lemma_views_push(commands@, command);
                                assert((views(old(commands)@) + self@.column_commands(
                                    segment,
                                    x as nat,
                                    y as nat,
                                    gx as nat,
                                    gy as nat,
                                )).push(command@) =~= views(old(commands)@)
                                    + self@.column_commands(
                                    segment,
                                    x as nat,
                                    y as nat,
                                    gx as nat,
                                    gy as nat,
                                ).push(command@));
                            }
                            commands.push(command);
                        },
                        _ => {},
                    }
                },
                None => {},
            }
            gy = gy + 1;
        }
    }

    /// The commands that draw one segment of all glyphs.
    fn draw_segments_on(&self, commands: &mut Vec<DrawCommand>, x: u32, y: u32, segment: u16)
        requires
            segment < 16,
            x + self.width <= u32::MAX,
            y + self.height <= u32::MAX,
        ensures
            views(final(commands)@) == views(old(commands)@) + self@.segment_commands(
                segment,
                x as nat,
                y as nat,
                self.width as nat,
            ),
    {
        let mut gx: u32 = 0;
        assert(views(commands@) + Seq::<DrawCommandModel>::empty() =~= views(commands@));

        while gx < self.width
            invariant
                gx <= self.width,
                segment < 16,
                x + self.width <= u32::MAX,
                y + self.height <= u32::MAX,
                views(commands@) == views(old(commands)@) + self@.segment_commands(
                    segment,
                    x as nat,
                    y as nat,
                    gx as nat,
                ),
            decreases self.width - gx,
        {
            self.draw_column_on(commands, segment, x, y, gx);
            proof {
                let column = self@.column_commands(
                    segment,
                    x as nat,
                    y as nat,
                    gx as nat,
                    self.height as nat,
                );
                assert((views(old(commands)@) + self@.segment_commands(
                    segment,
                    x as nat,
                    y as nat,
                    gx as nat,
                )) + column =~= views(old(commands)@) + (self@.segment_commands(
                    segment,
                    x as nat,
                    y as nat,
                    gx as nat,
                ) + column));
            }
            gx = gx + 1;
        }
    }

    /// The commands that draw the map with its first cell at `(x, y)`: one
    /// console for each of the sixteen segments. The map must fit on the
    /// screen's coordinates.
    pub fn draw_on(&self, x: u32, y: u32) -> (commands: Vec<DrawCommand>)
        requires
            x + self.width <= u32::MAX,
            y + self.height <= u32::MAX,
        ensures
            views(commands@) == self@.draw_commands(x as nat, y as nat, 16),
    {
        let mut commands: Vec<DrawCommand> = Vec::new();
        let mut segment: u16 = 0;
        assert(views(commands@) =~= self@.draw_commands(x as nat, y as nat, 0));

        while segment < 16
            invariant
                segment <= 16,
                x + self.width <= u32::MAX,
                y + self.height <= u32::MAX,
                views(commands@) == self@.draw_commands(x as nat, y as nat, segment as nat),
            decreases 16 - segment,
        {
            let clear = DrawCommand::ActivateAndClear { console: segment as usize };
            proof {
                lemma_views_push(commands@, clear);
            }
            commands.push(clear);
            self.draw_segments_on(&mut commands, x, y, segment);
            segment = segment + 1;
        }

        commands
    }

    fn render_glyph_at(&mut self, view: &GlyphView, column: u128, row: u128) -> (outcome: Result<
        (),
        GlyphRenderError,
    >)
        requires
            column <= 0x2_0000_0000_0000_0000,
            row <= 0x2_0000_0000_0000_0000,
        ensures
            renders_as(
                *final(self),
                outcome,
                old(self)@.with_glyph_view(*view, column as nat, row as nat),
            ),
    {
        let color = if view.selected {
            Color::Yellow
        } else {
            Color::White
        };

        self.set_cell(column, row, GlyphDrawing { glyph: view.glyph, color })
    }

    pub fn render_glyph_on(&mut self, view: &GlyphView, x: u32, y: u32) -> (outcome: Result<
        (),
        GlyphRenderError,
    >)
        ensures
            renders_as(
                *final(self),
                outcome,
                old(self)@.with_glyph_view(*view, x as nat, y as nat),
            ),
    {
        self.render_glyph_at(view, x as u128, y as u128)
    }

    fn render_word_at(&mut self, view: &WordView, x: u32, row: u128) -> (outcome: Result<
        (),
        GlyphRenderError,
    >)
        requires
            row <= 0x2_0000_0000_0000_0000,
        ensures
            renders_as(*final(self), outcome, old(self)@.with_word(view@, x as nat, row as nat)),
    {
        let mut index: usize = 0;

        while index < view.glyph_views.len()
            invariant
                index <= view.glyph_views.len(),
                row <= 0x2_0000_0000_0000_0000,
                renders_as(
                    *self,
                    Ok(()),
                    old(self)@.with_glyph_views(
                        view@.glyph_views,
                        index as nat,
                        x as nat,
                        row as nat,
                    ),
                ),
            decreases view.glyph_views.len() - index,
        {
            let glyph_view = view.glyph_views[index];
            // The word line connects the glyphs of a word.
            let glyph = match glyph_view.glyph.with_toggled_segment(0) {
                Ok(glyph) => glyph,
                Err(_) => glyph_view.glyph,
            };
            let glyph_view = GlyphView { glyph, selected: glyph_view.selected };
            match self.render_glyph_at(&glyph_view, x as u128 + index as u128, row) {
                Ok(_) => {},
                Err(error) => {
                    proof {
                        lemma_glyph_views_failure(
                            old(self)@,
                            view@.glyph_views,
                            (index + 1) as nat,
                            view@.glyph_views.len(),
                            x as nat,
                            row as nat,
                        );
                    }
                    return Err(error);
                },
            }
            index = index + 1;
        }

        if view.selected {
            let color = match view.state {
                WordEditorState::ModifyGlyphSet => Color::Blue,
                WordEditorState::ModifySelectedGlyph => Color::Yellow,
            };

            self.set_cell(0, 0, GlyphDrawing { glyph: Glyph(0xffff), color })
        } else {
            Ok(())
        }
    }

    pub fn render_word_on(&mut self, view: &WordView, x: u32, y: u32) -> (outcome: Result<
        (),
        GlyphRenderError,
    >)
        ensures
            renders_as(*final(self), outcome, old(self)@.with_word(view@, x as nat, y as nat)),
    {
        self.render_word_at(view, x, y as u128)
    }

    pub fn render_snippet_on(&mut self, view: &SnippetView, x: u32, y: u32) -> (outcome: Result<
        (),
        GlyphRenderError,
    >)
        ensures
            renders_as(*final(self), outcome, old(self)@.with_snippet(view@, x as nat, y as nat)),
    {
        let mut index: usize = 0;

        while index < view.word_views.len()
            invariant
                index <= view.word_views.len(),
                renders_as(
                    *self,
                    Ok(()),
                    old(self)@.with_words(view@.word_views, index as nat, x as nat, y as nat),
                ),
            decreases view.word_views.len() - index,
        {
            let word_view = &view.word_views[index];
            assert(word_view@ == view@.word_views[index as int]);

            match self.render_word_at(word_view, x, y as u128 + index as u128) {
                Ok(_) => {},
                Err(error) => {
                    proof {
                        lemma_words_failure(
                            old(self)@,
                            view@.word_views,
                            (index + 1) as nat,
                            view@.word_views.len(),
                            x as nat,
                            y as nat,
                        );
                    }
                    return Err(error);
                },
            }
            index = index + 1;
        }

        Ok(())
    }
}

/// Once a glyph could not be drawn, the glyphs behind it are not tried.
pub proof fn lemma_glyph_views_failure(
    map: GlyphMapModel,
    glyph_views: Seq<GlyphView>,
    failed: nat,
    count: nat,
    x: nat,
    y: nat,
)
    requires
        failed <= count,
        map.with_glyph_views(glyph_views, failed, x, y).failed_at is Some,
    ensures
        map.with_glyph_views(glyph_views, count, x, y) == map.with_glyph_views(
            glyph_views,
            failed,
            x,
            y,
        ),
    decreases count,
{
    if failed < count {
        lemma_glyph_views_failure(map, glyph_views, failed, (count - 1) as nat, x, y);
    }
}

/// Once a word could not be drawn, the words behind it are not tried.
pub proof fn lemma_words_failure(
    map: GlyphMapModel,
    word_views: Seq<WordViewModel>,
    failed: nat,
    count: nat,
    x: nat,
    y: nat,
)
    requires
        failed <= count,
        map.with_words(word_views, failed, x, y).failed_at is Some,
    ensures
        map.with_words(word_views, count, x, y) == map.with_words(word_views, failed, x, y),
    decreases count,
{
    if failed < count {
        lemma_words_failure(map, word_views, failed, (count - 1) as nat, x, y);
    }
}

/// Drawing the glyphs of a word changes cells, never the size of the map.
pub proof fn lemma_glyph_views_keep_size(
    map: GlyphMapModel,
    glyph_views: Seq<GlyphView>,
    count: nat,
    x: nat,
    y: nat,
)
    ensures
        map.with_glyph_views(glyph_views, count, x, y).map.width == map.width,
        map.with_glyph_views(glyph_views, count, x, y).map.height == map.height,
        map.with_glyph_views(glyph_views, count, x, y).map.glyphs.len() == map.glyphs.len(),
    decreases count,
{
    if count > 0 {
        lemma_glyph_views_keep_size(map, glyph_views, (count - 1) as nat, x, y);
    }
}

/// Drawing a word changes cells, never the size of the map.
pub proof fn lemma_word_keeps_size(map: GlyphMapModel, view: WordViewModel, x: nat, y: nat)
    ensures
        map.with_word(view, x, y).map.width == map.width,
        map.with_word(view, x, y).map.height == map.height,
        map.with_word(view, x, y).map.glyphs.len() == map.glyphs.len(),
{
    lemma_glyph_views_keep_size(map, view.glyph_views, view.glyph_views.len(), x, y);
}

/// Drawing words changes cells, never the size of the map.
pub proof fn lemma_words_keep_size(
    map: GlyphMapModel,
    word_views: Seq<WordViewModel>,
    count: nat,
    x: nat,
    y: nat,
)
    ensures
        map.with_words(word_views, count, x, y).map.width == map.width,
        map.with_words(word_views, count, x, y).map.height == map.height,
        map.with_words(word_views, count, x, y).map.glyphs.len() == map.glyphs.len(),
    decreases count,
{
    if count > 0 {
        lemma_words_keep_size(map, word_views, (count - 1) as nat, x, y);
        let before = map.with_words(word_views, (count - 1) as nat, x, y);
        lemma_word_keeps_size(before.map, word_views[count - 1], x, (y + count - 1) as nat);
    }
}

} // verus!
