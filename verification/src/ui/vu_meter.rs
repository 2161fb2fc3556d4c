//! VU meter styles and the character sets each style draws with.

use vstd::prelude::*;

verus! {

/// Visual style preset for the VU meter.
#[derive(Debug, Clone, Copy, PartialEq, Eq, Structural)]
pub enum MeterStyle {
    /// Classic studio look: continuous bar with fractional precision.
    Studio,
    /// LED strip: discrete compact segments with micro-gaps.
    Led,
    /// Analog needle feel: pointed marker with tail.
    Analog,
}

impl Default for MeterStyle {
    fn default() -> (s: Self)
        ensures
            s == MeterStyle::Led,
    {
        MeterStyle::Led
    }
}

/// Default meter style for the application.
pub fn default_style() -> (s: MeterStyle)
    ensures
        s == MeterStyle::Led,
{
    MeterStyle::Led
}

/// Character set for rendering one meter style.
pub struct MeterChars {
    /// Background (empty track) character.
    pub bg: char,
    /// Full block for active segments.
    pub fg: char,
    /// Partial blocks for sub-cell precision, 1/8 up to 7/8.
    pub fractional: Vec<char>,
    /// Peak hold marker.
    pub peak: char,
    /// RMS marker by energy: low, mid, high.
    pub rms: Vec<char>,
    /// Trail characters by distance.
    pub trail: Vec<char>,
    /// Gap between LED segments, if any.
    pub segment_gap: Option<char>,
    /// Segment width in characters.
    pub segment_width: usize,
}

/// The eighth-blocks growing from the left edge.
pub open spec fn left_eighths() -> Seq<char> {
    seq!['▏', '▎', '▍', '▌', '▋', '▊', '▉']
}

/// The eighth-blocks growing from the bottom edge.
pub open spec fn lower_eighths() -> Seq<char> {
    seq!['▁', '▂', '▃', '▄', '▅', '▆', '▇']
}

/// The characters a style draws with.
pub open spec fn style_chars(style: MeterStyle, c: MeterChars) -> bool {
    match style {
        MeterStyle::Studio => {
            &&& c.bg == '░' && c.fg == '█' && c.peak == '▌'
            &&& c.fractional@ == left_eighths()
            &&& c.rms@ == seq!['○', '●', '⬤']
            &&& c.trail@ == seq!['·', '•', '∙']
            &&& c.segment_gap == None::<char> && c.segment_width == 1
        },
        MeterStyle::Led => {
            &&& c.bg == '▏' && c.fg == '▍' && c.peak == '▐'
            &&& c.fractional@ == left_eighths()
            &&& c.rms@ == seq!['◆', '●', '⬤']
            &&& c.trail@ == seq!['·', '•', '●']
            &&& c.segment_gap == Some(' ') && c.segment_width == 1
        },
        MeterStyle::Analog => {
            &&& c.bg == '·' && c.fg == '█' && c.peak == '▌'
            &&& c.fractional@ == lower_eighths()
            &&& c.rms@ == seq!['◢', '█', '◣']
            &&& c.trail@ == seq!['·', '•', '●', '◐', '◑']
            &&& c.segment_gap == None::<char> && c.segment_width == 1
        },
    }
}

impl MeterChars {
    /// The character set of a style.
    pub fn for_style(style: MeterStyle) -> (c: Self)
        ensures
            style_chars(style, c),
    {
        match style {
            MeterStyle::Studio => MeterChars {
                bg: '░',
                fg: '█',
                fractional: vec!['▏', '▎', '▍', '▌', '▋', '▊', '▉'],
                peak: '▌',
                rms: vec!['○', '●', '⬤'],
                trail: vec!['·', '•', '∙'],
                segment_gap: None,
                segment_width: 1,
            },
            MeterStyle::Led => MeterChars {
                bg: '▏',
                fg: '▍',
                fractional: vec!['▏', '▎', '▍', '▌', '▋', '▊', '▉'],
                peak: '▐',
                rms: vec!['◆', '●', '⬤'],
                trail: vec!['·', '•', '●'],
                segment_gap: Some(' '),
                segment_width: 1,
            },
            MeterStyle::Analog => MeterChars {
                bg: '·',
                fg: '█',
                fractional: vec!['▁', '▂', '▃', '▄', '▅', '▆', '▇'],
                peak: '▌',
                rms: vec!['◢', '█', '◣'],
                trail: vec!['·', '•', '●', '◐', '◑'],
                segment_gap: None,
                segment_width: 1,
            },
        }
    }
}

} // verus!
