//! Colour themes: a fixed list of palettes and the colours that the table
//! takes from the one that is chosen.

use vstd::prelude::*;

verus! {

/// A named colour scale.
#[derive(Clone, Copy, Debug, PartialEq, Eq, Structural)]
pub enum Palette {
    Slate,
    Blue,
    Emerald,
    Indigo,
    Red,
}

/// One step of a colour scale, such as 900 of `Blue`.
#[derive(Clone, Copy, Debug, PartialEq, Eq, Structural)]
pub struct Tone {
    pub palette: Palette,
    pub shade: u16,
}

/// The colours of every part of the table.
#[derive(Clone, Copy, Debug, PartialEq, Eq, Structural)]
pub struct TableColors {
    pub buffer_bg: Tone,
    pub header_bg: Tone,
    pub header_fg: Tone,
    pub row_fg: Tone,
    pub selected_style_fg: Tone,
    pub normal_row_color: Tone,
    pub alt_row_color: Tone,
    pub footer_border_color: Tone,
}

/// How many palettes the operator can cycle through.
pub const PALETTE_COUNT: usize = 4;

/// The palette at a position of the cycle.
pub open spec fn palette_at(index: int) -> Palette {
    if index == 0 {
        Palette::Blue
    } else if index == 1 {
        Palette::Emerald
    } else if index == 2 {
        Palette::Indigo
    } else {
        Palette::Red
    }
}

/// The palette at `index` of the cycle.
pub fn palette(index: usize) -> (chosen: Palette)
    requires
        index < PALETTE_COUNT,
    ensures
        chosen == palette_at(index as int),
{
    if index == 0 {
        Palette::Blue
    } else if index == 1 {
        Palette::Emerald
    } else if index == 2 {
        Palette::Indigo
    } else {
        Palette::Red
    }
}

/// The position after `index` in the cycle, wrapping at the end.
pub open spec fn color_after(index: nat) -> nat {
    (index + 1) % (PALETTE_COUNT as nat)
}

/// The position before `index` in the cycle, wrapping at the start.
pub open spec fn color_before(index: nat) -> nat {
    ((index + PALETTE_COUNT - 1) % (PALETTE_COUNT as int)) as nat
}

impl TableColors {
    /// The table's colours under `color`: the accents come from it, the
    /// neutral parts from `Slate`.
    pub open spec fn themed(color: Palette) -> TableColors {
        TableColors {
            buffer_bg: Tone { palette: Palette::Slate, shade: 950 },
            header_bg: Tone { palette: color, shade: 900 },
            header_fg: Tone { palette: Palette::Slate, shade: 200 },
            row_fg: Tone { palette: Palette::Slate, shade: 200 },
            selected_style_fg: Tone { palette: color, shade: 400 },
            normal_row_color: Tone { palette: Palette::Slate, shade: 950 },
            alt_row_color: Tone { palette: Palette::Slate, shade: 900 },
            footer_border_color: Tone { palette: color, shade: 400 },
        }
    }

    /// The table's colours under `color`.
    pub fn new(color: Palette) -> (colors: TableColors)
        ensures
            colors == TableColors::themed(color),
    {
        TableColors {
            buffer_bg: Tone { palette: Palette::Slate, shade: 950 },
            header_bg: Tone { palette: color, shade: 900 },
            header_fg: Tone { palette: Palette::Slate, shade: 200 },
            row_fg: Tone { palette: Palette::Slate, shade: 200 },
            selected_style_fg: Tone { palette: color, shade: 400 },
            normal_row_color: Tone { palette: Palette::Slate, shade: 950 },
            alt_row_color: Tone { palette: Palette::Slate, shade: 900 },
            footer_border_color: Tone { palette: color, shade: 400 },
        }
    }

    /// The background of the row at `index`: rows alternate between two.
    pub fn row_background(&self, index: usize) -> (tone: Tone)
        ensures
            tone == if index % 2 == 0 {
                self.normal_row_color
            } else {
                self.alt_row_color
            },
    {
        if index % 2 == 0 {
            self.normal_row_color
        } else {
            self.alt_row_color
        }
    }
}

} // verus!
