use vstd::prelude::*;
use crate::error::RizeError;

verus! {

pub const DISPLAY_WIDTH: usize = 32;
pub const DISPLAY_HEIGHT: usize = 32;

/// Index of pixel (x, y) in the column-major pixel sequence.
pub open spec fn pixel_index(x: int, y: int) -> int {
    x * DISPLAY_HEIGHT + y
}

/// The colour a pixel has before anything is drawn.
pub open spec fn initial_color(x: int, y: int) -> [u8; 4] {
    [(x + 100) as u8, 100u8, (y + 100) as u8, 255u8]
}

/// The pixel store: a `DISPLAY_WIDTH` by `DISPLAY_HEIGHT` grid of RGBA
/// colours.
#[derive(Debug)]
pub struct DisplayMemory {
    pixels: Vec<[u8; 4]>,
}

impl View for DisplayMemory {
    type V = Seq<[u8; 4]>;

    /// The colour of each pixel, at `pixel_index(x, y)`.
    closed spec fn view(&self) -> Seq<[u8; 4]> {
        self.pixels@
    }
}

impl DisplayMemory {
    pub open spec fn wf(&self) -> bool {
        self@.len() == DISPLAY_WIDTH * DISPLAY_HEIGHT
    }

    /// A display with every pixel at its initial colour.
    pub fn init() -> (r: DisplayMemory)
        ensures
            r.wf(),
            forall|x: int, y: int|
                0 <= x < DISPLAY_WIDTH && 0 <= y < DISPLAY_HEIGHT ==> r@[pixel_index(x, y)]
                    == initial_color(x, y),
    {
        let mut pixels: Vec<[u8; 4]> = Vec::new();
        let mut x: usize = 0;
        while x < DISPLAY_WIDTH
            invariant
                x <= DISPLAY_WIDTH,
                pixels@.len() == x * DISPLAY_HEIGHT,
                forall|a: int, b: int|
                    0 <= a < x && 0 <= b < DISPLAY_HEIGHT ==> pixels@[pixel_index(a, b)]
                        == initial_color(a, b),
            decreases DISPLAY_WIDTH - x,
        {
            let mut y: usize = 0;
            while y < DISPLAY_HEIGHT
                invariant
                    x < DISPLAY_WIDTH,
                    y <= DISPLAY_HEIGHT,
                    pixels@.len() == x * DISPLAY_HEIGHT + y,
                    forall|a: int, b: int|
                        0 <= a < x && 0 <= b < DISPLAY_HEIGHT ==> pixels@[pixel_index(a, b)]
                            == initial_color(a, b),
                    forall|b: int| 0 <= b < y ==> pixels@[pixel_index(x as int, b)] == initial_color(x as int, b),
                decreases DISPLAY_HEIGHT - y,
            {
                pixels.push([(x + 100) as u8, 100u8, (y + 100) as u8, 255u8]);
                y = y + 1;
            }
            x = x + 1;
        }
        DisplayMemory { pixels }
    }

    /// Paints pixel (x, y); a coordinate outside the display is a display
    /// error and paints nothing.
    pub fn set_pixel(&mut self, x: u8, y: u8, color: [u8; 4]) -> (r: Result<(), RizeError>)
        requires
            old(self).wf(),
        ensures
            final(self).wf(),
            (x < DISPLAY_WIDTH && y < DISPLAY_HEIGHT) <==> r is Ok,
            r is Ok ==> final(self)@ == old(self)@.update(pixel_index(x as int, y as int), color),
            r is Err ==> r->Err_0.type_ is Display && final(self)@ == old(self)@,
    {
        if (x as usize) >= DISPLAY_WIDTH {
            return Err(RizeError::display("x coordinate out of bounds"));
        }
        if (y as usize) >= DISPLAY_HEIGHT {
            return Err(RizeError::display("y coordinate out of bounds"));
        }
        let i = (x as usize) * DISPLAY_HEIGHT + (y as usize);
        self.pixels.set(i, color);
        Ok(())
    }

    /// The colour of pixel (x, y); a coordinate outside the display is a
    /// display error.
    pub fn get_pixel(&self, x: u16, y: u16) -> (r: Result<[u8; 4], RizeError>)
        requires
            self.wf(),
        ensures
            (x < DISPLAY_WIDTH && y < DISPLAY_HEIGHT) <==> r is Ok,
            r is Ok ==> r->Ok_0 == self@[pixel_index(x as int, y as int)],
            r is Err ==> r->Err_0.type_ is Display,
    {
        if (x as usize) >= DISPLAY_WIDTH {
            return Err(RizeError::display("x coordinate out of bounds"));
        }
        if (y as usize) >= DISPLAY_HEIGHT {
            return Err(RizeError::display("y coordinate out of bounds"));
        }
        Ok(self.pixels[(x as usize) * DISPLAY_HEIGHT + (y as usize)])
    }

    /// Returns every pixel to its initial colour.
    pub fn reset(&mut self)
        ensures
            final(self).wf(),
            forall|x: int, y: int|
                0 <= x < DISPLAY_WIDTH && 0 <= y < DISPLAY_HEIGHT ==> final(self)@[pixel_index(x, y)]
                    == initial_color(x, y),
    {
        *self = DisplayMemory::init();
    }
}

} // verus!
