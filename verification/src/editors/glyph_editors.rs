use vstd::prelude::*;

use crate::editors::events::{EditorEvent, EditorEventModel};
use crate::language::glyphs::{Glyph, GlyphError, GlyphErrorModel};
use crate::language::Segment;
use crate::views::GlyphView;

verus! {

/// Edits one glyph. The editor is its own mathematical model.
#[derive(Clone, Copy, Debug, PartialEq, Eq, Structural)]
pub struct GlyphEditor {
    pub glyph: Glyph,
}

impl GlyphEditor {
    /// What `with_segment_toggled` answers.
    pub open spec fn toggle_outcome(self, segment: nat) -> Result<GlyphEditor, GlyphErrorModel> {
        match self.glyph.toggle_outcome(segment) {
            Ok(glyph) => Ok(GlyphEditor { glyph }),
            Err(error) => Err(error),
        }
    }

    /// The editor after a toggle that leaves the glyph alone where the
    /// segment does not exist.
    pub open spec fn toggled(self, segment: nat) -> GlyphEditor {
        match self.toggle_outcome(segment) {
            Ok(editor) => editor,
            Err(_) => self,
        }
    }

    /// The editor after toggling each of `segments` in order.
    pub open spec fn toggled_each(self, segments: Seq<nat>) -> GlyphEditor
        decreases segments.len(),
    {
        if segments.len() == 0 {
            self
        } else {
            self.toggled_each(segments.drop_last()).toggled(segments.last())
        }
    }

    /// The editor after `event`: only the toggling of segments changes it.
    pub open spec fn applied(self, event: EditorEventModel) -> GlyphEditor {
        match event {
            EditorEventModel::ToggleSegmentOnSelectedGlyph(segment) => self.toggled(segment),
            EditorEventModel::ToggleSegmentsOnSelectedGlyph(segments) => self.toggled_each(
                segments,
            ),
            _ => self,
        }
    }

    pub fn new(glyph: Glyph) -> (editor: Self)
        ensures
            editor == (GlyphEditor { glyph }),
    {
        Self { glyph }
    }

    pub fn with_segment_toggled(self, segment: usize) -> (outcome: Result<GlyphEditor, GlyphError>)
        ensures
            match outcome {
                Ok(editor) => self.toggle_outcome(segment as nat) == Ok::<
                    GlyphEditor,
                    GlyphErrorModel,
                >(editor),
                Err(error) => self.toggle_outcome(segment as nat) == Err::<
                    GlyphEditor,
                    GlyphErrorModel,
                >(error@),
            },
    {
        match self.glyph.with_toggled_segment(segment) {
            Ok(glyph) => Ok(Self { glyph }),
            Err(error) => Err(error),
        }
    }

    /// Toggles one segment in place. On an error the glyph is as it was.
    pub fn toggle_segment(&mut self, segment: usize) -> (outcome: Result<(), GlyphError>)
        ensures
            match outcome {
                Ok(_) => old(self).toggle_outcome(segment as nat) == Ok::<
                    GlyphEditor,
                    GlyphErrorModel,
                >(*final(self)),
                Err(error) => old(self).toggle_outcome(segment as nat) == Err::<
                    GlyphEditor,
                    GlyphErrorModel,
                >(error@) && *final(self) == *old(self),
            },
    {
        match self.glyph.with_toggled_segment(segment) {
            Ok(glyph) => {
                self.glyph = glyph;
                Ok(())
            },
            Err(error) => Err(error),
        }
    }

    pub fn to_view(&self, selected: bool) -> (view: GlyphView)
        ensures
            view == (GlyphView { glyph: self.glyph, selected }),
    {
        GlyphView { glyph: self.glyph, selected }
    }

    fn with_segments_toggled(self, segments: &Vec<Segment>) -> (editor: Self)
        ensures
            editor == self.toggled_each(crate::editors::events::segments_view(segments@)),
    {
        let ghost all = crate::editors::events::segments_view(segments@);
        let mut editor = self;
        let mut position: usize = 0;

        while position < segments.len()
            invariant
                position <= segments.len(),
                all == crate::editors::events::segments_view(segments@),
                editor == self.toggled_each(all.take(position as int)),
            decreases segments.len() - position,
        {
            proof {
                assert(all.take(position + 1).drop_last() =~= all.take(position as int));
                assert(all.take(position + 1).last() == segments@[position as int] as nat);
            }
            editor = match editor.with_segment_toggled(segments[position]) {
                Ok(toggled) => toggled,
                Err(_) => editor,
            };
            position = position + 1;
        }
        assert(all.take(position as int) =~= all);

        editor
    }

    /// Applies an event. A toggle of a segment that does not exist leaves
    /// the editor as it was.
    pub fn apply(self, event: EditorEvent) -> (editor: Self)
        ensures
            editor == self.applied(event@),
    {
        match event {
            EditorEvent::ToggleSegmentOnSelectedGlyph(segment) => {
                match self.with_segment_toggled(segment) {
                    Ok(editor) => editor,
                    Err(_) => self,
                }
            },
            EditorEvent::ToggleSegmentsOnSelectedGlyph(segments) => self.with_segments_toggled(
                &segments,
            ),
            _ => self,
        }
    }
}

impl Default for GlyphEditor {
    fn default() -> (editor: Self)
        ensures
            editor == (GlyphEditor { glyph: Glyph(0) }),
    {
        Self { glyph: Glyph(0) }
    }
}

/// Toggling the same segment twice through the editor gives back the glyph
/// one started from.
pub proof fn lemma_editor_toggle_is_its_own_inverse(editor: GlyphEditor, segment: nat)
    requires
        segment < 16,
    ensures
        editor.toggled(segment).toggled(segment) == editor,
{
    crate::language::glyphs::lemma_toggle_is_its_own_inverse(editor.glyph, segment as u16);
}

} // verus!
