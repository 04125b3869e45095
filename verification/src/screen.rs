//! The pixel grid an external renderer reads out of the machine: 160 by
//! 144 pixels of four shades, in row-major order.
use vstd::prelude::*;
use vstd::pervasive::VecAdditionalExecFns;

verus! {

/// One pixel's shade; index 0 of the 2-bit tile colour is the lightest.
#[derive(PartialEq, Eq, Structural, Clone, Copy, Debug)]
pub enum Pixel {
    Black,
    DarkGray,
    LightGray,
    White,
}

/// The screen width in pixels.
pub const HORIZONTAL_SCREEN_PIXELS: u8 = 160;

/// The screen height in pixels.
pub const VERTICAL_SCREEN_PIXELS: u8 = 144;

/// The 160 by 144 pixel grid, row-major: the pixel at column `x` and row
/// `y` sits at index `y * 160 + x`.
pub struct Screen {
    pixels: Vec<Pixel>,
}

impl View for Screen {
    type V = Seq<Pixel>;

    closed spec fn view(&self) -> Seq<Pixel> {
        self.pixels@
    }
}

impl Screen {
    /// An all-white screen.
    pub fn new() -> (s: Screen)
        ensures
            s@.len() == 160 * 144,
            forall|i: int| 0 <= i < 160 * 144 ==> s@[i] == Pixel::White,
    {
        let mut pixels: Vec<Pixel> = Vec::new();
        let mut i: usize = 0;
        while i < 160 * 144
            invariant
                i <= 160 * 144,
                pixels@.len() == i,
                forall|j: int| 0 <= j < i ==> pixels@[j] == Pixel::White,
            decreases 160 * 144 - i,
        {
            pixels.push(Pixel::White);
            i = i + 1;
        }
        Screen { pixels }
    }

    /// The pixel at column `x`, row `y`.
    pub fn get_pixel(&self, x: u8, y: u8) -> (p: Pixel)
        requires
            x < 160,
            y < 144,
            self@.len() == 160 * 144,
        ensures
            p == self@[y as int * 160 + x as int],
    {
        self.pixels[y as usize * 160 + x as usize]
    }

    /// Replace the pixel at column `x`, row `y`.
    pub fn set_pixel(&mut self, x: u8, y: u8, p: Pixel)
        requires
            x < 160,
            y < 144,
            old(self)@.len() == 160 * 144,
        ensures
            final(self)@ == old(self)@.update(y as int * 160 + x as int, p),
    {
        self.pixels.set(y as usize * 160 + x as usize, p);
    }
}

} // verus!
