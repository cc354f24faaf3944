//! A model of the display's pixel buffer, to say what the drawings of the renderer do to
//! what is seen.
//!
//! A filled rectangle sets every pixel that it covers. A text sets the pixels of its
//! glyphs and leaves the others as they are; which pixels these are is the font's matter,
//! so the laws below hold for every set of them.

use vstd::prelude::*;
use crate::simple::render::{
    spec_draw_item, ItemDrawing, RectDrawing, HORIZONTAL_RESOLUTION, MAX_ROUTES,
    VERTICAL_RESOLUTION,
};
use crate::simple::touch::cell_index;
use crate::simple::theme::{Color, SimpleSelectTheme};

verus! {

/// The color of each pixel that has been drawn, by its column and row.
pub type Pixels = Map<(int, int), Color>;

impl RectDrawing {
    /// Whether the rectangle covers the pixel in column `x` and row `y`.
    pub open spec fn covers(self, x: int, y: int) -> bool {
        &&& self.x <= x < self.x + self.width
        &&& self.y <= y < self.y + self.height
    }
}

/// The pixels after a rectangle has been filled.
pub open spec fn fill(pixels: Pixels, rect: RectDrawing) -> Pixels {
    Map::new(
        |p: (int, int)| pixels.dom().contains(p) || rect.covers(p.0, p.1),
        |p: (int, int)|
            if rect.covers(p.0, p.1) {
                rect.color
            } else {
                pixels[p]
            },
    )
}

/// The pixels after a text whose glyphs cover `glyphs` has been drawn in `color`.
pub open spec fn write(pixels: Pixels, glyphs: Set<(int, int)>, color: Color) -> Pixels {
    Map::new(
        |p: (int, int)| pixels.dom().contains(p) || glyphs.contains(p),
        |p: (int, int)|
            if glyphs.contains(p) {
                color
            } else {
                pixels[p]
            },
    )
}

/// The pixels after a cell has been drawn: its background is filled, then its label is
/// drawn over it.
pub open spec fn paint(pixels: Pixels, item: ItemDrawing, glyphs: Set<(int, int)>) -> Pixels {
    write(fill(pixels, item.rect), glyphs, item.label.color)
}

/// Drawing a cell twice in the same look shows what drawing it once shows.
pub proof fn lemma_draw_item_idempotent(
    pixels: Pixels,
    theme: &SimpleSelectTheme,
    label: &'static str,
    index: usize,
    selected: bool,
    active: bool,
    glyphs: Set<(int, int)>,
)
    ensures
        ({
            let item = spec_draw_item(theme, label, index, selected, active);
            paint(paint(pixels, item, glyphs), item, glyphs) == paint(pixels, item, glyphs)
        }),
{
    let item = spec_draw_item(theme, label, index, selected, active);
    assert(paint(paint(pixels, item, glyphs), item, glyphs) =~= paint(pixels, item, glyphs));
}

/// Drawing a cell in a new look leaves nothing of its old look, as long as the glyphs of
/// its label are the same: what is seen is what the last drawing alone shows.
pub proof fn lemma_draw_item_replaces(
    pixels: Pixels,
    theme: &SimpleSelectTheme,
    label: &'static str,
    index: usize,
    before: (bool, bool),
    after: (bool, bool),
    glyphs: Set<(int, int)>,
)
    ensures
        ({
            let old_item = spec_draw_item(theme, label, index, before.0, before.1);
            let new_item = spec_draw_item(theme, label, index, after.0, after.1);
            paint(paint(pixels, old_item, glyphs), new_item, glyphs) == paint(
                pixels,
                new_item,
                glyphs,
            )
        }),
{
    let old_item = spec_draw_item(theme, label, index, before.0, before.1);
    let new_item = spec_draw_item(theme, label, index, after.0, after.1);
    assert(paint(paint(pixels, old_item, glyphs), new_item, glyphs) =~= paint(
        pixels,
        new_item,
        glyphs,
    ));
}

/// The background of each of the twelve cells lies on the display, and a touch on it maps
/// to the index of the cell.
pub proof fn lemma_touch_hits_cell(
    theme: &SimpleSelectTheme,
    label: &'static str,
    index: usize,
    selected: bool,
    active: bool,
    x: int,
    y: int,
)
    requires
        index < MAX_ROUTES,
        spec_draw_item(theme, label, index, selected, active).rect.covers(x, y),
    ensures
        0 <= x < HORIZONTAL_RESOLUTION,
        0 <= y < VERTICAL_RESOLUTION,
        cell_index(x, y) == index,
{
}

/// The backgrounds of two different cells share no pixel, whatever their looks.
pub proof fn lemma_cells_apart(
    theme: &SimpleSelectTheme,
    label: &'static str,
    index: usize,
    look: (bool, bool),
    other_label: &'static str,
    other: usize,
    other_look: (bool, bool),
    x: int,
    y: int,
)
    requires
        index < MAX_ROUTES,
        other < MAX_ROUTES,
        index != other,
    ensures
        !(spec_draw_item(theme, label, index, look.0, look.1).rect.covers(x, y) && spec_draw_item(
            theme,
            other_label,
            other,
            other_look.0,
            other_look.1,
        ).rect.covers(x, y)),
{
}

} // verus!
