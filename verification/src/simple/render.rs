//! The renderer: the layout of the menu, and the shapes and text that make up its cells
//! and its grid lines.
//!
//! Nothing here touches a display. Each function describes what is to be drawn, in the
//! terms of the display's drawing primitives: a filled rectangle, a line, a line of text.

use vstd::prelude::*;
use crate::simple::theme::{Color, SimpleSelectTheme};

verus! {

/// The horizontal resolution of the display.
pub const HORIZONTAL_RESOLUTION: i16 = 480;

/// The vertical resolution of the writable part of the display.
pub const VERTICAL_RESOLUTION: i16 = 240;

/// Width in pixels of one column of the menu, half of the display's horizontal resolution.
pub const COLUMN_WIDTH: i16 = 240;

/// Height in pixels of one row of the menu.
pub const ROW_HEIGHT: i16 = 40;

/// Number of rows in one column of the menu.
pub const ROWS: usize = 6;

/// The largest number of routes that the menu has cells for: two columns of six rows.
pub const MAX_ROUTES: usize = 12;

/// Width in pixels of the filled part of a cell.
pub const CELL_WIDTH: u16 = 238;

/// Height in pixels of the filled part of a cell.
pub const CELL_HEIGHT: u16 = 38;

/// Horizontal distance in pixels from the left edge of a cell to its label.
pub const LABEL_INSET_X: i16 = 8;

/// Vertical distance in pixels from the top edge of a cell to its label.
pub const LABEL_INSET_Y: i16 = 6;

/// The font family of a text.
#[derive(Clone, Copy, Debug, PartialEq, Eq, Structural)]
pub enum FontFamily {
    /// A font which has a fixed width for each character.
    Monospace,
    /// A font which has a varying width for each character.
    Proportional,
}

/// The font of a text: a family, and the size as a fraction of the full size.
#[derive(Clone, Copy, Debug, PartialEq, Eq, Structural)]
pub struct Font {
    pub numerator: u32,
    pub denominator: u32,
    pub family: FontFamily,
}

/// A filled rectangle, given by its top left corner and its dimensions. The rectangle
/// covers `width` columns of pixels from `x` on, and `height` rows from `y` on.
#[derive(Clone, Copy, Debug, PartialEq, Eq, Structural)]
pub struct RectDrawing {
    pub x: i16,
    pub y: i16,
    pub width: u16,
    pub height: u16,
    pub color: Color,
}

/// A line, given by its two end points.
#[derive(Clone, Copy, Debug, PartialEq, Eq, Structural)]
pub struct LineDrawing {
    pub start_x: i16,
    pub start_y: i16,
    pub end_x: i16,
    pub end_y: i16,
    pub color: Color,
}

/// A line of text on a transparent background, given by its top left corner.
#[derive(Clone, Copy, Debug, PartialEq, Eq)]
pub struct TextDrawing {
    pub text: &'static str,
    pub font: Font,
    pub x: i16,
    pub y: i16,
    pub color: Color,
}

/// One cell of the menu: its background, and the label drawn over it.
#[derive(Clone, Copy, Debug, PartialEq, Eq)]
pub struct ItemDrawing {
    pub rect: RectDrawing,
    pub label: TextDrawing,
}

/// The font of the labels: a third of the full size, proportional.
pub open spec fn spec_label_font() -> Font {
    Font { numerator: 1, denominator: 3, family: FontFamily::Proportional }
}

/// The font of the labels.
#[verifier::when_used_as_spec(spec_label_font)]
pub fn label_font() -> (font: Font)
    ensures
        font == spec_label_font(),
{
    Font { numerator: 1, denominator: 3, family: FontFamily::Proportional }
}

/// The left edge of the cell `index`: the first six cells are in the left column, all
/// others in the right one.
pub open spec fn cell_x(index: usize) -> int {
    if index <= 5 {
        0
    } else {
        COLUMN_WIDTH as int
    }
}

/// The top edge of the cell `index`: the cells of a column follow each other downward.
pub open spec fn cell_y(index: usize) -> int {
    (index % 6) * ROW_HEIGHT
}

/// Each of the twelve cells stands in the column `index / 6` and the row `index % 6`.
pub proof fn lemma_cell_column_row(index: usize)
    requires
        index < MAX_ROUTES,
    ensures
        cell_x(index) == (index / ROWS) * COLUMN_WIDTH,
        cell_y(index) == (index % ROWS) * ROW_HEIGHT,
        0 <= index / ROWS <= 1,
{
}

/// The background of the whole menu.
pub open spec fn spec_draw_background(theme: &SimpleSelectTheme) -> RectDrawing {
    RectDrawing {
        x: 0,
        y: 0,
        width: HORIZONTAL_RESOLUTION as u16,
        height: VERTICAL_RESOLUTION as u16,
        color: theme.background_default,
    }
}

/// The cell `index` with the label `label`, in the look that `selected` and `active` give.
pub open spec fn spec_draw_item(
    theme: &SimpleSelectTheme,
    label: &'static str,
    index: usize,
    selected: bool,
    active: bool,
) -> ItemDrawing {
    ItemDrawing {
        rect: RectDrawing {
            x: cell_x(index) as i16,
            y: cell_y(index) as i16,
            width: CELL_WIDTH,
            height: CELL_HEIGHT,
            color: theme.background(selected, active),
        },
        label: TextDrawing {
            text: label,
            font: label_font(),
            x: (cell_x(index) + LABEL_INSET_X) as i16,
            y: (cell_y(index) + LABEL_INSET_Y) as i16,
            color: theme.text(selected, active),
        },
    }
}

/// The vertical grid line, between the two columns.
pub open spec fn vertical_border(theme: &SimpleSelectTheme) -> LineDrawing {
    LineDrawing {
        start_x: (COLUMN_WIDTH - 1) as i16,
        start_y: 0,
        end_x: (COLUMN_WIDTH - 1) as i16,
        end_y: VERTICAL_RESOLUTION,
        color: theme.border,
    }
}

/// The horizontal grid line below the row `row`, counted from 1.
pub open spec fn horizontal_border(theme: &SimpleSelectTheme, row: int) -> LineDrawing {
    LineDrawing {
        start_x: 0,
        start_y: (row * ROW_HEIGHT - 1) as i16,
        end_x: HORIZONTAL_RESOLUTION,
        end_y: (row * ROW_HEIGHT - 1) as i16,
        color: theme.border,
    }
}

/// The grid lines in the order of drawing: the vertical one, then the five horizontal
/// ones that part the six rows, from the top down.
pub open spec fn spec_draw_borders(theme: &SimpleSelectTheme) -> Seq<LineDrawing> {
    Seq::new(
        ROWS as nat,
        |i: int|
            if i == 0 {
                vertical_border(theme)
            } else {
                horizontal_border(theme, i)
            },
    )
}

/// Describes the background of the whole menu.
#[verifier::when_used_as_spec(spec_draw_background)]
pub fn draw_background(theme: &SimpleSelectTheme) -> (rect: RectDrawing)
    ensures
        rect == spec_draw_background(theme),
{
    RectDrawing {
        x: 0,
        y: 0,
        width: HORIZONTAL_RESOLUTION as u16,
        height: VERTICAL_RESOLUTION as u16,
        color: theme.background_default,
    }
}

/// Describes the cell `index` with the label `label`, in the look that `selected` and
/// `active` give.
#[verifier::when_used_as_spec(spec_draw_item)]
pub fn draw_item(
    theme: &SimpleSelectTheme,
    label: &'static str,
    index: usize,
    selected: bool,
    active: bool,
) -> (item: ItemDrawing)
    ensures
        item == spec_draw_item(theme, label, index, selected, active),
{
    let x: i16 = if index <= 5 {
        0
    } else {
        COLUMN_WIDTH
    };
    let y: i16 = (index % 6) as i16 * ROW_HEIGHT;
    ItemDrawing {
        rect: RectDrawing {
            x,
            y,
            width: CELL_WIDTH,
            height: CELL_HEIGHT,
            color: theme.background(selected, active),
        },
        label: TextDrawing {
            text: label,
            font: label_font(),
            x: x + LABEL_INSET_X,
            y: y + LABEL_INSET_Y,
            color: theme.text(selected, active),
        },
    }
}

/// Describes the grid lines, in the order of drawing.
pub fn draw_borders(theme: &SimpleSelectTheme) -> (lines: Vec<LineDrawing>)
    ensures
        lines@ == spec_draw_borders(theme),
{
    let mut lines: Vec<LineDrawing> = Vec::new();
    lines.push(
        LineDrawing {
            start_x: COLUMN_WIDTH - 1,
            start_y: 0,
            end_x: COLUMN_WIDTH - 1,
            end_y: VERTICAL_RESOLUTION,
            color: theme.border,
        },
    );
    let mut n: i16 = 1;
    while n <= 5
        invariant
            1 <= n <= 6,
            lines@.len() == n,
            lines@[0] == vertical_border(theme),
            forall|i: int| 1 <= i < n ==> lines@[i] == horizontal_border(theme, i),
        decreases 6 - n,
    {
        lines.push(
            LineDrawing {
                start_x: 0,
                start_y: n * ROW_HEIGHT - 1,
                end_x: HORIZONTAL_RESOLUTION,
                end_y: n * ROW_HEIGHT - 1,
                color: theme.border,
            },
        );
        n = n + 1;
    }
    proof {
        assert(lines@ =~= spec_draw_borders(theme));
    }
    lines
}

} // verus!
