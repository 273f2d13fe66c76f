//! A grid of luminance bytes and its rendering as lines of glyphs.

use crate::ramp::{glyph, glyph_in_ramp, glyph_is_no_line_break, map_to_ascii, ramp};
use crate::text::{is_one_line, lines_of, lines_of_text_of, text_of};
use vstd::prelude::*;

verus! {

/// A grid of luminance bytes, `0` for black and `255` for white, stored row
/// by row from the top, each row from the left.
pub struct LumaGrid {
    width: usize,
    height: usize,
    pixels: Vec<u8>,
}

/// What a `LumaGrid` stands for.
pub struct LumaGridView {
    pub width: nat,
    pub height: nat,
    pub pixels: Seq<u8>,
}

impl LumaGridView {
    /// The luminance at `row` and `col`.
    pub open spec fn at(self, row: int, col: int) -> u8
        recommends
            0 <= row < self.height,
            0 <= col < self.width,
    {
        self.pixels[row * self.width + col]
    }

    /// The glyphs of one row, from the left.
    pub open spec fn ascii_row(self, row: int) -> Seq<char>
        recommends
            0 <= row < self.height,
    {
        Seq::new(self.width, |col: int| glyph(self.at(row, col)))
    }

    /// The grid as ASCII art: one line per row, from the top.
    pub open spec fn ascii(self) -> Seq<Seq<char>> {
        Seq::new(self.height, |row: int| self.ascii_row(row))
    }
}

impl View for LumaGrid {
    type V = LumaGridView;

    closed spec fn view(&self) -> LumaGridView {
        LumaGridView {
            width: self.width as nat,
            height: self.height as nat,
            pixels: self.pixels@,
        }
    }
}

impl LumaGrid {
    /// A grid holds exactly one byte per pixel.
    #[verifier::type_invariant]
    spec fn well_formed(self) -> bool {
        self.pixels@.len() == self.width * self.height
    }

    /// Makes a grid of `width` by `height` pixels from its bytes, or `None`
    /// if there is not exactly one byte per pixel.
    pub fn new(width: usize, height: usize, pixels: Vec<u8>) -> (grid: Option<LumaGrid>)
        ensures
            grid is Some <==> pixels@.len() == width * height,
            grid matches Some(g) ==> g@ == (LumaGridView {
                width: width as nat,
                height: height as nat,
                pixels: pixels@,
            }),
    {
        let given: usize = pixels.len();
        match width.checked_mul(height) {
            Some(count) => {
                if given == count {
                    Some(LumaGrid { width, height, pixels })
                } else {
                    None
                }
            },
            None => None,
        }
    }

    /// Makes the grid of an image of `width` by `height` pixels from its
    /// luminance bytes.
    pub(crate) fn from_image(width: u32, height: u32, pixels: Vec<u8>) -> (grid: LumaGrid)
        requires
            pixels@.len() == width * height,
        ensures
            grid@ == (LumaGridView {
                width: width as nat,
                height: height as nat,
                pixels: pixels@,
            }),
    {
        LumaGrid { width: width as usize, height: height as usize, pixels }
    }

    /// Number of columns.
    pub fn width(&self) -> (w: usize)
        ensures
            w == self@.width,
    {
        self.width
    }

    /// Number of rows.
    pub fn height(&self) -> (h: usize)
        ensures
            h == self@.height,
    {
        self.height
    }

    /// The luminance bytes, one per pixel, row by row.
    pub fn pixels(&self) -> (pixels: &Vec<u8>)
        ensures
            pixels@ == self@.pixels,
            pixels@.len() == self@.width * self@.height,
    {
        proof {
            use_type_invariant(self);
        }
        &self.pixels
    }

    /// Renders the grid: every byte becomes its glyph, every row a line.
    pub fn to_ascii(&self) -> (art: Vec<String>)
        ensures
            art.deep_view() == self@.ascii(),
            art@.len() == self@.height,
            forall|row: int| 0 <= row < art@.len() ==> (#[trigger] art@[row])@.len() == self@.width,
    {
        proof {
            use_type_invariant(self);
        }
        let width: usize = self.width;
        let height: usize = self.height;
        let count: usize = self.pixels.len();
        let mut art: Vec<String> = Vec::new();
        let mut row: usize = 0;
        while row < height
            invariant
                row <= height,
                width == self.width,
                height == self.height,
                count == self.pixels@.len() == width * height,
                art@.len() == row,
                forall|r: int| 0 <= r < row ==> (#[trigger] art@[r])@ == self@.ascii_row(r),
            decreases height - row,
        {
            let mut line: String = String::new();
            let mut col: usize = 0;
            while col < width
                invariant
                    row < height,
                    col <= width,
                    width == self.width,
                    height == self.height,
                    count == self.pixels@.len() == width * height,
                    line@.len() == col,
                    forall|c: int|
                        0 <= c < col ==> #[trigger] line@[c] == glyph(self@.at(row as int, c)),
                decreases width - col,
            {
                assert(row * width + col < width * height && row * width >= 0) by (nonlinear_arith)
                    requires
                        row < height,
                        col < width,
                ;
                let v: u8 = self.pixels[row * width + col];
                line.push(map_to_ascii(v));
                col += 1;
            }
            assert(line@ =~= self@.ascii_row(row as int));
            art.push(line);
            row += 1;
        }
        assert(art.deep_view() =~= self@.ascii());
        art
    }
}

/// Every character of a rendered grid is a glyph of the ramp.
pub proof fn ascii_glyphs_in_ramp(grid: LumaGridView)
    ensures
        forall|row: int, col: int|
            0 <= row < grid.height && 0 <= col < grid.width ==> ramp().contains(
                #[trigger] grid.ascii()[row][col],
            ),
{
    assert forall|row: int, col: int|
        0 <= row < grid.height && 0 <= col < grid.width implies ramp().contains(
        #[trigger] grid.ascii()[row][col],
    ) by {
        glyph_in_ramp(grid.at(row, col));
    }
}

/// A rendered grid that is written as text and read back line by line is
/// the same art again.
pub proof fn ascii_round_trip(grid: LumaGridView)
    ensures
        lines_of(text_of(grid.ascii())) == grid.ascii(),
{
    let art = grid.ascii();
    assert forall|row: int| 0 <= row < art.len() implies is_one_line(#[trigger] art[row]) by {
        let line = art[row];
        if line.contains('\n') {
            let col = choose|col: int| 0 <= col < line.len() && line[col] == '\n';
            glyph_is_no_line_break(grid.at(row, col));
        }
        if line.len() > 0 {
            glyph_is_no_line_break(grid.at(row, line.len() - 1));
        }
    }
    lines_of_text_of(art);
}

/// Whether `art` renders some grid of `width` by `height` luminance bytes.
pub open spec fn renders_grid(art: Seq<Seq<char>>, width: nat, height: nat) -> bool {
    exists|pixels: Seq<u8>|
        pixels.len() == width * height && art == (#[trigger] LumaGridView {
            width,
            height,
            pixels,
        }.ascii())
}

/// The art of a grid has the shape of the grid, holds glyphs of the ramp
/// only, and can be read back from its text.
pub proof fn rendered_art(art: Seq<Seq<char>>, width: nat, height: nat)
    requires
        renders_grid(art, width, height),
    ensures
        art.len() == height,
        forall|row: int| 0 <= row < height ==> (#[trigger] art[row]).len() == width,
        forall|row: int, col: int|
            0 <= row < height && 0 <= col < width ==> ramp().contains(#[trigger] art[row][col]),
        lines_of(text_of(art)) == art,
{
    let pixels = choose|pixels: Seq<u8>|
        pixels.len() == width * height && art == (#[trigger] LumaGridView {
            width,
            height,
            pixels,
        }.ascii());
    let grid = LumaGridView { width, height, pixels };
    ascii_glyphs_in_ramp(grid);
    ascii_round_trip(grid);
}

} // verus!
