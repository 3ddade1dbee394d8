//! Row geometry and colour themes.
//!
//! A colour is held by name, as a shade of a colour family. The renderer turns
//! the name into a terminal colour; nothing here depends on what it looks like.

use vstd::prelude::*;

verus! {

/// Number of terminal lines that one table row occupies.
pub const ITEM_HEIGHT: usize = 4;

/// Number of themes that a view can cycle through.
pub const PALETTE_COUNT: usize = 4;

/// A family of colours.
#[derive(Clone, Copy, Debug, PartialEq, Eq, Structural)]
pub enum Palette {
    Red,
    Blue,
    Emerald,
    Indigo,
    Slate,
}

/// How dark a colour of a family is: the higher the number, the darker.
#[derive(Clone, Copy, Debug, PartialEq, Eq, Structural)]
pub enum Shade {
    C200,
    C400,
    C900,
    C950,
}

/// One colour: a shade of a family.
#[derive(Clone, Copy, Debug, PartialEq, Eq, Structural)]
pub struct Color {
    pub palette: Palette,
    pub shade: Shade,
}

/// The colours of every part of a table.
#[derive(Clone, Copy, Debug, PartialEq, Eq, Structural)]
pub struct TableColors {
    pub buffer_bg: Color,
    pub header_bg: Color,
    pub header_fg: Color,
    pub row_fg: Color,
    pub selected_style_fg: Color,
    pub normal_row_color: Color,
    pub alt_row_color: Color,
    pub footer_border_color: Color,
}

impl TableColors {
    /// The colours of a table themed with `color`: backgrounds and text are
    /// slate, the header and the accents are shades of the theme.
    pub open spec fn spec_new(color: Palette) -> TableColors {
        TableColors {
            buffer_bg: Color { palette: Palette::Slate, shade: Shade::C950 },
            header_bg: Color { palette: color, shade: Shade::C900 },
            header_fg: Color { palette: Palette::Slate, shade: Shade::C200 },
            row_fg: Color { palette: Palette::Slate, shade: Shade::C200 },
            selected_style_fg: Color { palette: color, shade: Shade::C400 },
            normal_row_color: Color { palette: Palette::Slate, shade: Shade::C950 },
            alt_row_color: Color { palette: Palette::Slate, shade: Shade::C900 },
            footer_border_color: Color { palette: color, shade: Shade::C400 },
        }
    }

    /// Builds the colours of a table themed with `color`.
    pub fn new(color: Palette) -> (colors: TableColors)
        ensures
            colors == Self::spec_new(color),
        no_unwind
    {
        TableColors {
            buffer_bg: Color { palette: Palette::Slate, shade: Shade::C950 },
            header_bg: Color { palette: color, shade: Shade::C900 },
            header_fg: Color { palette: Palette::Slate, shade: Shade::C200 },
            row_fg: Color { palette: Palette::Slate, shade: Shade::C200 },
            selected_style_fg: Color { palette: color, shade: Shade::C400 },
            normal_row_color: Color { palette: Palette::Slate, shade: Shade::C950 },
            alt_row_color: Color { palette: Palette::Slate, shade: Shade::C900 },
            footer_border_color: Color { palette: color, shade: Shade::C400 },
        }
    }
}

/// The theme at `index` of the theme table: red, blue, emerald, indigo.
pub open spec fn spec_palette(index: int) -> Palette {
    if index == 0 {
        Palette::Red
    } else if index == 1 {
        Palette::Blue
    } else if index == 2 {
        Palette::Emerald
    } else {
        Palette::Indigo
    }
}

/// The theme at `index` of the theme table.
pub fn palette(index: usize) -> (theme: Palette)
    requires
        index < PALETTE_COUNT,
    ensures
        theme == spec_palette(index as int),
    no_unwind
{
    if index == 0 {
        Palette::Red
    } else if index == 1 {
        Palette::Blue
    } else if index == 2 {
        Palette::Emerald
    } else {
        Palette::Indigo
    }
}

} // verus!
