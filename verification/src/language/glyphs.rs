use vstd::prelude::*;
use vstd::std_specs::convert::FromSpecImpl;

use crate::text::{decimal_digits, decimal_string, joined, numbers_text};

verus! {

/// How many segments a glyph has.
pub const GLYPH_SEGMENT_COUNT: usize = 16;

/// The bit that stands for segment `segment`: segment 0 is the highest of
/// the sixteen bits.
pub open spec fn segment_mask(segment: u16) -> u16
    recommends
        segment < 16,
{
    0x8000u16 >> segment
}

/// One character of the script: sixteen strokes, each present or absent.
#[derive(Clone, Copy, Debug, PartialEq, Eq, Structural, Hash)]
pub struct Glyph(pub u16);

impl Glyph {
    /// Whether `segment` is drawn in this glyph.
    pub open spec fn has_segment(self, segment: u16) -> bool
        recommends
            segment < 16,
    {
        self.0 & segment_mask(segment) != 0
    }

    /// This glyph with `segment` drawn if it was absent and erased if it was
    /// present.
    pub open spec fn toggled(self, segment: u16) -> Glyph
        recommends
            segment < 16,
    {
        Glyph(self.0 ^ segment_mask(segment))
    }

    /// What `with_toggled_segment` answers for `index`.
    pub open spec fn toggle_outcome(self, index: nat) -> Result<Glyph, GlyphErrorModel> {
        if index < 16 {
            Ok(self.toggled(index as u16))
        } else {
            Err(GlyphErrorModel::unexpected_segment_index(self, index))
        }
    }

    pub fn includes_segment(&self, segment: u16) -> (included: Option<bool>)
        ensures
            included == if segment < 16 {
                Some(self.has_segment(segment))
            } else {
                None
            },
    {
        if segment < 16 {
            let mask: u16 = 0x8000u16 >> segment;
            let code = self.0;
            assert((mask & code) == (code & mask)) by (bit_vector);

            Some((mask & code) > 0)
        } else {
            None
        }
    }

    pub fn segment_index_from_mask(mask: u16) -> (index: Option<u16>)
        ensures
            match index {
                Some(segment) => segment < 16 && mask == segment_mask(segment),
                None => forall|segment: u16| segment < 16 ==> mask != #[trigger] segment_mask(segment),
            },
    {
        let mut segment: u16 = 0;

        while segment < 16
            invariant
                segment <= 16,
                forall|earlier: u16| earlier < segment ==> mask != #[trigger] segment_mask(earlier),
            decreases 16 - segment,
        {
            if mask == 0x8000u16 >> segment {
                return Some(segment);
            }
            segment = segment + 1;
        }

        None
    }

    pub fn mask_from_usize(index: usize) -> (mask: Option<u16>)
        ensures
            mask == if index < 16 {
                Some(segment_mask(index as u16))
            } else {
                None
            },
    {
        if index < 16 {
            let segment: u16 = index as u16;

            Some(0x8000u16 >> segment)
        } else {
            None
        }
    }

    /// Toggles one segment. An index of 16 or more names no segment and is
    /// answered with an error that carries the glyph unchanged.
    pub fn with_toggled_segment(&self, index: usize) -> (outcome: Result<Self, GlyphError>)
        ensures
            match outcome {
                Ok(glyph) => self.toggle_outcome(index as nat) == Ok::<Glyph, GlyphErrorModel>(glyph),
                Err(error) => self.toggle_outcome(index as nat) == Err::<Glyph, GlyphErrorModel>(error@),
            },
    {
        match Self::mask_from_usize(index) {
            Some(mask) => {
                let code = self.0;
                assert((mask & code) == (code & mask)) by (bit_vector);
                let new_code = if (mask & code) > 0 {
                    code ^ mask
                } else {
                    assert((mask & code) == 0 ==> (code | mask) == (code ^ mask)) by (bit_vector);
                    code | mask
                };

                Ok(Self(new_code))
            },
            None => {
                let description = String::from_str("Unexpected segment index: ").concat(
                    decimal_string(index as u128).as_str(),
                );

                Err(GlyphError::new(*self, description))
            },
        }
    }

    /// The glyph as text: `Glyph(` and its number `)`.
    pub open spec fn text(self) -> Seq<char> {
        "Glyph("@ + decimal_digits(self.0 as nat) + ")"@
    }

    pub fn to_string(&self) -> (text: String)
        ensures
            text@ == self.text(),
    {
        joined("Glyph(", decimal_string(self.0 as u128).as_str()).concat(")")
    }

    /// The glyph that new words and new glyph slots start from: no segment
    /// drawn.
    pub fn blank() -> (glyph: Self)
        ensures
            glyph == Glyph(0),
    {
        Glyph(0)
    }

    /// A glyph with no segment drawn.
    pub fn is_blank(&self) -> (blank: bool)
        ensures
            blank == (self.0 == 0),
    {
        self.0 == 0
    }
}

impl From<u16> for Glyph {
    fn from(item: u16) -> (glyph: Self) {
        Self(item)
    }
}

impl FromSpecImpl<u16> for Glyph {
    open spec fn obeys_from_spec() -> bool {
        true
    }

    open spec fn from_spec(item: u16) -> Self {
        Glyph(item)
    }
}

impl Default for Glyph {
    fn default() -> (glyph: Self)
        ensures
            glyph == Glyph(0),
    {
        Glyph(0)
    }
}

/// Mathematical model of a [`GlyphError`].
pub struct GlyphErrorModel {
    pub glyph: Glyph,
    pub description: Seq<char>,
}

/// The numbers of a sequence of glyphs.
pub open spec fn glyph_codes(glyphs: Seq<Glyph>) -> Seq<nat> {
    Seq::new(glyphs.len(), |i: int| glyphs[i].0 as nat)
}

/// The numbers of the glyphs in base ten, with `separator` between them.
pub fn glyph_numbers_string(glyphs: &Vec<Glyph>, separator: &str) -> (text: String)
    ensures
        text@ == numbers_text(glyph_codes(glyphs@), separator@),
{
    let ghost codes = glyph_codes(glyphs@);
    if glyphs.len() == 0 {
        return String::new();
    }
    let mut text = decimal_string(glyphs[0].0 as u128);
    let mut index: usize = 1;
    assert(codes.take(1).len() == 1 && codes.take(1)[0] == codes[0]);

    while index < glyphs.len()
        invariant
            1 <= index <= glyphs.len(),
            codes == glyph_codes(glyphs@),
            text@ == numbers_text(codes.take(index as int), separator@),
        decreases glyphs.len() - index,
    {
        proof {
            assert(codes.take(index + 1).drop_last() =~= codes.take(index as int));
            assert(codes.take(index + 1).last() == codes[index as int]);
        }
        text = text.concat(separator).concat(decimal_string(glyphs[index].0 as u128).as_str());
        index = index + 1;
    }
    assert(codes.take(index as int) =~= codes);

    text
}

impl GlyphErrorModel {
    /// The error as text: the glyph and what went wrong.
    pub open spec fn text(self) -> Seq<char> {
        "GlyphError("@ + self.glyph.text() + "): "@ + self.description
    }

    /// The error for an index that names no segment.
    pub open spec fn unexpected_segment_index(glyph: Glyph, index: nat) -> Self {
        GlyphErrorModel {
            glyph,
            description: "Unexpected segment index: "@ + decimal_digits(index),
        }
    }
}

/// Why a glyph could not be changed.
#[derive(Debug)]
pub struct GlyphError {
    glyph: Glyph,
    description: String,
}

impl View for GlyphError {
    type V = GlyphErrorModel;

    closed spec fn view(&self) -> GlyphErrorModel {
        GlyphErrorModel { glyph: self.glyph, description: self.description@ }
    }
}

impl Clone for GlyphError {
    fn clone(&self) -> (copy: Self)
        ensures
            copy@ == self@,
    {
        Self { glyph: self.glyph, description: self.description.clone() }
    }
}

impl GlyphError {
    pub fn new(glyph: Glyph, description: String) -> (error: Self)
        ensures
            error@ == (GlyphErrorModel { glyph, description: description@ }),
    {
        Self { glyph, description }
    }

    pub fn to_string(&self) -> (text: String)
        ensures
            text@ == self@.text(),
    {
        joined("GlyphError(", self.glyph.to_string().as_str()).concat("): ").concat(
            self.description.as_str(),
        )
    }

    /// The glyph that was to be changed.
    pub fn glyph(&self) -> (glyph: Glyph)
        ensures
            glyph == self@.glyph,
    {
        self.glyph
    }

    pub fn description(&self) -> (description: String)
        ensures
            description@ == self@.description,
    {
        self.description.clone()
    }
}

/// Toggling the same segment twice gives back the glyph one started from.
pub proof fn lemma_toggle_is_its_own_inverse(glyph: Glyph, segment: u16)
    requires
        segment < 16,
    ensures
        glyph.toggled(segment).toggled(segment) == glyph,
{
    let code = glyph.0;
    assert((code ^ (0x8000u16 >> segment)) ^ (0x8000u16 >> segment) == code) by (bit_vector);
}

/// Toggling a segment flips that segment and leaves the other fifteen alone.
pub proof fn lemma_toggle_flips_one_segment(glyph: Glyph, segment: u16, other: u16)
    requires
        segment < 16,
        other < 16,
    ensures
        glyph.toggled(segment).has_segment(other) == if other == segment {
            !glyph.has_segment(other)
        } else {
            glyph.has_segment(other)
        },
{
    let code = glyph.0;
    assert(segment < 16 && other < 16 ==> (((code ^ (0x8000u16 >> segment)) & (0x8000u16 >> other)
        != 0) == if other == segment {
        !(code & (0x8000u16 >> other) != 0)
    } else {
        code & (0x8000u16 >> other) != 0
    })) by (bit_vector);
}

} // verus!
