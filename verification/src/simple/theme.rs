//! Colors of the menu.

use vstd::prelude::*;

verus! {

/// An RGB color.
#[derive(Clone, Copy, Debug, PartialEq, Eq, Hash, Structural)]
pub struct Color {
    /// Red channel
    pub r: u8,
    /// Green channel
    pub g: u8,
    /// Blue channel
    pub b: u8,
}

impl Color {
    /// Creates a color from its components.
    pub fn new(r: u8, g: u8, b: u8) -> (color: Color)
        ensures
            color == (Color { r, g, b }),
    {
        Color { r, g, b }
    }
}

/// Color theme for the [`SimpleSelect`] autonomous selector.
///
/// A cell has one of four looks, by whether its route is selected and whether the cell is
/// active, that is, being pressed. Each look has a background color and a text color.
///
/// [`SimpleSelect`]: super::SimpleSelect
#[derive(Clone, Copy, Debug, PartialEq, Eq, Structural)]
pub struct SimpleSelectTheme {
    pub background_default: Color,
    pub background_active: Color,
    pub background_selected: Color,
    pub background_selected_active: Color,
    pub text_default: Color,
    pub text_active: Color,
    pub text_selected: Color,
    pub text_selected_active: Color,
    pub border: Color,
}

/// The default dark theme.
pub open spec fn spec_theme_dark() -> SimpleSelectTheme {
    SimpleSelectTheme {
        background_default: Color { r: 25, g: 25, b: 25 },
        background_active: Color { r: 102, g: 102, b: 102 },
        background_selected: Color { r: 67, g: 189, b: 224 },
        background_selected_active: Color { r: 123, g: 209, b: 233 },
        text_default: Color { r: 187, g: 187, b: 187 },
        text_active: Color { r: 187, g: 187, b: 187 },
        text_selected: Color { r: 255, g: 255, b: 255 },
        text_selected_active: Color { r: 255, g: 255, b: 255 },
        border: Color { r: 153, g: 153, b: 153 },
    }
}

/// The default dark theme.
#[verifier::when_used_as_spec(spec_theme_dark)]
pub fn theme_dark() -> (theme: SimpleSelectTheme)
    ensures
        theme == spec_theme_dark(),
{
    SimpleSelectTheme {
        background_default: Color::new(25, 25, 25),
        background_active: Color::new(102, 102, 102),
        background_selected: Color::new(67, 189, 224),
        background_selected_active: Color::new(123, 209, 233),
        text_default: Color::new(187, 187, 187),
        text_active: Color::new(187, 187, 187),
        text_selected: Color::new(255, 255, 255),
        text_selected_active: Color::new(255, 255, 255),
        border: Color::new(153, 153, 153),
    }
}

impl SimpleSelectTheme {
    /// The background color of a cell in the given look.
    pub open spec fn spec_background(&self, selected: bool, active: bool) -> Color {
        if selected {
            if active {
                self.background_selected_active
            } else {
                self.background_selected
            }
        } else {
            if active {
                self.background_active
            } else {
                self.background_default
            }
        }
    }

    /// The text color of a cell in the given look.
    pub open spec fn spec_text(&self, selected: bool, active: bool) -> Color {
        if selected {
            if active {
                self.text_selected_active
            } else {
                self.text_selected
            }
        } else {
            if active {
                self.text_active
            } else {
                self.text_default
            }
        }
    }

    /// The background color of a cell in the given look.
    #[verifier::when_used_as_spec(spec_background)]
    pub fn background(&self, selected: bool, active: bool) -> (color: Color)
        ensures
            color == self.spec_background(selected, active),
    {
        match (selected, active) {
            (false, false) => self.background_default,
            (false, true) => self.background_active,
            (true, false) => self.background_selected,
            (true, true) => self.background_selected_active,
        }
    }

    /// The text color of a cell in the given look.
    #[verifier::when_used_as_spec(spec_text)]
    pub fn text(&self, selected: bool, active: bool) -> (color: Color)
        ensures
            color == self.spec_text(selected, active),
    {
        match (selected, active) {
            (false, false) => self.text_default,
            (false, true) => self.text_active,
            (true, false) => self.text_selected,
            (true, true) => self.text_selected_active,
        }
    }
}

impl Default for SimpleSelectTheme {
    fn default() -> (theme: Self)
        ensures
            theme == theme_dark(),
    {
        theme_dark()
    }
}

} // verus!
