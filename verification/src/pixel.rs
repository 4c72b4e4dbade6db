//! The framebuffer: one colour per cell of the 8x8 matrix.

use vstd::prelude::*;

verus! {

/// Number of cells along each side of the matrix.
pub const SIDE: usize = 8;

/// The colour of one cell: an 8-bit intensity for each of the three planes.
#[derive(Clone, Copy, Debug, PartialEq, Eq, Structural)]
pub struct Pixel {
    pub r: u8,
    pub g: u8,
    pub b: u8,
}

/// The colour with the given intensities.
pub open spec fn rgb(r: u8, g: u8, b: u8) -> Pixel {
    Pixel { r, g, b }
}

/// A dark cell.
pub open spec fn black() -> Pixel {
    rgb(0, 0, 0)
}

/// Coordinates that were refused because they lie outside the matrix.
#[derive(Clone, Copy, Debug, PartialEq, Eq, Structural)]
pub struct OutOfBounds {
    pub x: usize,
    pub y: usize,
}

/// Whether `(x, y)` names a cell of the matrix.
pub open spec fn on_matrix(x: int, y: int) -> bool {
    0 <= x < 8 && 0 <= y < 8
}

/// Position of cell `(x, y)` in a frame: lines follow each other, and within
/// a line the cells are ordered by `y`.
pub open spec fn cell_index(x: int, y: int) -> int {
    x * 8 + y
}

/// The colour of cell `(x, y)` in `frame`.
pub open spec fn cell(frame: Seq<Pixel>, x: int, y: int) -> Pixel
    recommends
        frame.len() == 64,
        on_matrix(x, y),
{
    frame[cell_index(x, y)]
}

/// `frame` after a write of `colour` to `(x, y)`. A write outside the matrix
/// is refused and leaves the frame as it was.
pub open spec fn paint(frame: Seq<Pixel>, x: int, y: int, colour: Pixel) -> Seq<Pixel> {
    if on_matrix(x, y) {
        frame.update(cell_index(x, y), colour)
    } else {
        frame
    }
}

/// The frame in which every cell is dark.
pub open spec fn blank_frame() -> Seq<Pixel> {
    Seq::new(64, |i: int| black())
}

/// The pixel memory of the matrix. Its view is the sequence of its 64 cells,
/// cell `(x, y)` at position `cell_index(x, y)`.
#[derive(Clone, Copy, Debug)]
pub struct Framebuffer {
    cells: [Pixel; 64],
}

impl View for Framebuffer {
    type V = Seq<Pixel>;

    closed spec fn view(&self) -> Seq<Pixel> {
        self.cells@
    }
}

/// Every framebuffer shows exactly 64 cells.
pub broadcast proof fn lemma_frame_len(dots: Framebuffer)
    ensures
        #[trigger] dots@.len() == 64,
{
}

impl Framebuffer {
    /// A framebuffer with every cell dark.
    pub fn new() -> (dots: Framebuffer)
        ensures
            dots@ == blank_frame(),
    {
        let dots = Framebuffer { cells: [Pixel { r: 0, g: 0, b: 0 }; 64] };
        assert(dots@ =~= blank_frame());
        dots
    }

    /// Reads cell `(x, y)`, or `None` where the coordinates are off the matrix.
    pub fn get_pixel(&self, x: usize, y: usize) -> (colour: Option<Pixel>)
        ensures
            colour == if on_matrix(x as int, y as int) {
                Some(cell(self@, x as int, y as int))
            } else {
                None
            },
    {
        if x < SIDE && y < SIDE {
            Some(self.cells[x * SIDE + y])
        } else {
            None
        }
    }
}

/// Sets cell `(x, y)` to the colour `(r, g, b)`.
///
/// Coordinates outside the matrix are rejected: the call returns the
/// offending pair and writes nothing.
pub fn set_pixel(dots: &mut Framebuffer, x: usize, y: usize, r: u8, g: u8, b: u8) -> (done: Result<
    (),
    OutOfBounds,
>)
    ensures
        final(dots)@ == paint(old(dots)@, x as int, y as int, rgb(r, g, b)),
        on_matrix(x as int, y as int) ==> done == Ok::<(), OutOfBounds>(()),
        !on_matrix(x as int, y as int) ==> done == Err::<(), OutOfBounds>(OutOfBounds { x, y }),
{
    if x < SIDE && y < SIDE {
        dots.cells[x * SIDE + y] = Pixel { r, g, b };
        Ok(())
    } else {
        Err(OutOfBounds { x, y })
    }
}

/// Writing the same colour to the same cell twice gives the frame that the
/// first write gave.
pub proof fn lemma_set_pixel_idempotent(frame: Seq<Pixel>, x: int, y: int, colour: Pixel)
    requires
        frame.len() == 64,
    ensures
        paint(paint(frame, x, y, colour), x, y, colour) == paint(frame, x, y, colour),
        on_matrix(x, y) ==> cell(paint(frame, x, y, colour), x, y) == colour,
{
    assert(paint(paint(frame, x, y, colour), x, y, colour) =~= paint(frame, x, y, colour));
}

} // verus!
