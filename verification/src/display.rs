//! What a rendering surface is handed: the framebuffer, and how large a
//! cell is to be drawn.

use vstd::prelude::*;

verus! {

/// Size of one framebuffer cell on the host surface, in host pixels.
#[derive(Clone, Copy, Debug, PartialEq, Eq, Structural)]
pub struct Scale {
    pub width: i32,
    pub height: i32,
}

/// A surface that can show the framebuffer.
pub trait Display {
    /// Shows the 64 x 32 framebuffer, each cell `scale` large.
    fn draw_to_screen(&self, screen_buf: &[bool; 2048], scale: &Scale);
}

/// A filled rectangle on the host surface.
#[derive(Clone, Copy, Debug, PartialEq, Eq, Structural)]
pub struct PixelRect {
    pub x: i32,
    pub y: i32,
    pub width: u32,
    pub height: u32,
}

impl Scale {
    /// Whether the rectangle of cell `cell` can be computed: its column
    /// times the width and its row times the height each fit in 32 bits.
    /// The host takes width and height as unsigned numbers, so a negative
    /// one counts as the large number that it wraps round to.
    pub open spec fn reaches(self, cell: int) -> bool {
        &&& (cell % 64) * (self.width as u32) <= u32::MAX
        &&& (cell / 64) * (self.height as u32) <= u32::MAX
    }

    /// Whether the rectangle of every lit cell of `screen` can be computed.
    pub open spec fn drawable(self, screen: Seq<bool>) -> bool {
        forall|cell: int| 0 <= cell < 2048 && screen[cell] ==> #[trigger] self.reaches(cell)
    }

    /// Whether the rectangle of every lit cell of `screen` can be computed.
    pub fn is_drawable(&self, screen: &[bool; 2048]) -> (r: bool)
        ensures
            r == self.drawable(screen@),
    {
        let width = self.width as u32;
        let height = self.height as u32;
        let mut cell: usize = 0;
        while cell < 2048
            invariant
                cell <= 2048,
                width == self.width as u32,
                height == self.height as u32,
                forall|c: int| 0 <= c < cell && screen@[c] ==> #[trigger] self.reaches(c),
            decreases 2048 - cell,
        {
            if screen[cell] {
                let x = (cell % 64) as u64;
                let y = (cell / 64) as u64;
                assert(x * width <= 63 * 0xFFFF_FFFF) by (nonlinear_arith)
                    requires
                        0 <= x <= 63,
                        0 <= width <= 0xFFFF_FFFF,
                ;
                assert(y * height <= 31 * 0xFFFF_FFFF) by (nonlinear_arith)
                    requires
                        0 <= y <= 31,
                        0 <= height <= 0xFFFF_FFFF,
                ;
                if x * (width as u64) > 0xFFFF_FFFF || y * (height as u64) > 0xFFFF_FFFF {
                    assert(!self.reaches(cell as int));
                    return false;
                }
            }
            cell = cell + 1;
        }
        true
    }

    /// The rectangle that cell `cell` of the framebuffer takes on the host
    /// surface: column `cell % 64`, row `cell / 64`, each cell
    /// `width` x `height` large. The corner is where the host's signed
    /// 32-bit coordinates put it: a product above their range wraps round.
    pub open spec fn rect_of(self, cell: int) -> PixelRect {
        PixelRect {
            x: ((cell % 64) * (self.width as u32)) as i32,
            y: ((cell / 64) * (self.height as u32)) as i32,
            width: self.width as u32,
            height: self.height as u32,
        }
    }

    /// The scale at which the framebuffer fills a surface of
    /// `width` x `height` host pixels: a 64th of the width, a 32nd of the
    /// height, each rounded towards zero.
    pub open spec fn fitting(width: i32, height: i32) -> Scale {
        Scale {
            width: (if width >= 0 {
                width / 64
            } else {
                -((-width) / 64)
            }) as i32,
            height: (if height >= 0 {
                height / 32
            } else {
                -((-height) / 32)
            }) as i32,
        }
    }

    /// The scale at which the framebuffer fills a surface of
    /// `width` x `height` host pixels.
    pub fn for_window(width: i32, height: i32) -> (scale: Scale)
        ensures
            scale == Scale::fitting(width, height),
    {
        Scale { width: width / 64, height: height / 32 }
    }
}

/// The lit cells of `screen` among the first `count`, in rising order.
pub open spec fn lit_cells(screen: Seq<bool>, count: int) -> Seq<int>
    decreases count,
{
    if count <= 0 {
        Seq::empty()
    } else if screen[count - 1] {
        lit_cells(screen, count - 1).push(count - 1)
    } else {
        lit_cells(screen, count - 1)
    }
}

/// The rectangles to fill for a framebuffer: one for each lit cell, in the
/// order of the cells.
pub open spec fn lit_rects_of(screen: Seq<bool>, scale: Scale) -> Seq<PixelRect> {
    lit_cells(screen, 2048).map_values(|cell: int| scale.rect_of(cell))
}

/// At a scale that is not negative, and at which the rightmost and the lowest
/// cell still begin inside the host's coordinates, every framebuffer can be
/// drawn, and each rectangle begins at its column times the width and its row
/// times the height. A scale fitted to a window is such a scale.
pub proof fn lemma_plain_scale(scale: Scale, screen: Seq<bool>, cell: int)
    requires
        0 <= scale.width,
        0 <= scale.height,
        63 * scale.width <= i32::MAX,
        31 * scale.height <= i32::MAX,
        0 <= cell < 2048,
    ensures
        scale.drawable(screen),
        scale.rect_of(cell).x == (cell % 64) * scale.width,
        scale.rect_of(cell).y == (cell / 64) * scale.height,
        scale.rect_of(cell).width == scale.width,
        scale.rect_of(cell).height == scale.height,
        forall|width: i32, height: i32|
            width >= 0 && height >= 0 ==> 63 * (#[trigger] Scale::fitting(width, height)).width
                <= i32::MAX && 31 * Scale::fitting(width, height).height <= i32::MAX,
{
    assert forall|c: int| 0 <= c < 2048 implies #[trigger] scale.reaches(c) by {
        lemma_products(scale, c);
    }
    lemma_products(scale, cell);
}

/// The products of a cell's column and row with a scale that is not negative
/// lie between 0 and those of the last column and row.
proof fn lemma_products(scale: Scale, cell: int)
    requires
        0 <= scale.width,
        0 <= scale.height,
        0 <= cell < 2048,
    ensures
        0 <= (cell % 64) * scale.width <= 63 * scale.width,
        0 <= (cell / 64) * scale.height <= 31 * scale.height,
{
    let x = cell % 64;
    let y = cell / 64;
    assert(0 <= x * scale.width <= 63 * scale.width) by (nonlinear_arith)
        requires
            0 <= x <= 63,
            scale.width >= 0,
    ;
    assert(0 <= y * scale.height <= 31 * scale.height) by (nonlinear_arith)
        requires
            0 <= y <= 31,
            scale.height >= 0,
    ;
}

/// The rectangles to fill on the host surface to show `screen`: one for
/// each lit cell, in the order of the cells. Every lit cell must be within
/// reach of the scale.
pub fn lit_rects(screen: &[bool; 2048], scale: &Scale) -> (rects: Vec<PixelRect>)
    requires
        scale.drawable(screen@),
    ensures
        rects@ == lit_rects_of(screen@, *scale),
{
    let mut rects: Vec<PixelRect> = Vec::new();
    let mut cell: usize = 0;
    while cell < 2048
        invariant
            cell <= 2048,
            scale.drawable(screen@),
            rects@ == lit_cells(screen@, cell as int).map_values(|c: int| scale.rect_of(c)),
        decreases 2048 - cell,
    {
        if screen[cell] {
            let x = (cell % 64) as u32;
            let y = (cell / 64) as u32;
            assert(scale.reaches(cell as int));
            let rect = PixelRect {
                x: (x * (scale.width as u32)) as i32,
                y: (y * (scale.height as u32)) as i32,
                width: scale.width as u32,
                height: scale.height as u32,
            };
            assert(rect == scale.rect_of(cell as int));
            rects.push(rect);
            assert(rects@ =~= lit_cells(screen@, cell + 1).map_values(
                |c: int| scale.rect_of(c),
            ));
        } else {
            assert(lit_cells(screen@, cell + 1) == lit_cells(screen@, cell as int));
        }
        cell = cell + 1;
    }
    rects
}

} // verus!
