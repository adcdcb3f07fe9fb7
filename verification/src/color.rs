use vstd::prelude::*;

verus! {

/// Palette for the seven playable tetromino kinds plus the translucent
/// background marker used for unfilled board cells.
#[allow(non_camel_case_types)]
#[derive(Copy, Clone, Debug, PartialEq, Eq, Structural)]
pub enum Colors {
    CYAN,
    YELLOW,
    PURPLE,
    GREEN,
    RED,
    BLUE,
    ORANGE,
    BACKGROUND,
}

impl Colors {
    /// The red, green, blue and alpha channels of this color, each in 0..=255.
    /// Every piece color is fully opaque; the background is translucent.
    pub open spec fn spec_rgba(self) -> (u8, u8, u8, u8) {
        match self {
            Colors::CYAN => (115, 218, 255, 255),
            Colors::YELLOW => (255, 255, 54, 255),
            Colors::PURPLE => (134, 54, 255, 255),
            Colors::GREEN => (158, 255, 54, 255),
            Colors::RED => (255, 87, 54, 255),
            Colors::BLUE => (74, 54, 255, 255),
            Colors::ORANGE => (255, 155, 54, 255),
            Colors::BACKGROUND => (180, 202, 237, 128),
        }
    }

    /// Returns the RGBA channels of this color.
    pub fn get_color(self) -> (rgba: (u8, u8, u8, u8))
        ensures
            rgba == self.spec_rgba(),
    {
        match self {
            Colors::CYAN => (115, 218, 255, 255),
            Colors::YELLOW => (255, 255, 54, 255),
            Colors::PURPLE => (134, 54, 255, 255),
            Colors::GREEN => (158, 255, 54, 255),
            Colors::RED => (255, 87, 54, 255),
            Colors::BLUE => (74, 54, 255, 255),
            Colors::ORANGE => (255, 155, 54, 255),
            Colors::BACKGROUND => (180, 202, 237, 128),
        }
    }
}

} // verus!
