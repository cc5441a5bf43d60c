//! The pixel grid: the order in which a render pass visits pixels, and how a
//! pixel's three 8-bit channels are packed into one framebuffer word.
use vstd::prelude::*;
use vstd::arithmetic::div_mod::lemma_fundamental_div_mod_converse;

verus! {

/// The `(row, column)` visited at step `k` of a row-major walk over a grid
/// `width` pixels wide.
pub open spec fn cell_at(width: int, k: int) -> (int, int) {
    (k / width, k % width)
}

/// The framebuffer word `0x00RRGGBB` for channels `r`, `g`, `b`.
pub open spec fn packed(r: int, g: int, b: int) -> int {
    r * 65536 + g * 256 + b
}

/// Every pixel of a `width` by `height` image, rows top to bottom and each
/// row left to right: the order in which a render pass lays out its samples.
pub fn pixel_grid(width: u32, height: u32) -> (cells: Vec<(u32, u32)>)
    requires
        width * height <= usize::MAX,
    ensures
        cells@.len() == width * height,
        forall|k: int|
            0 <= k < cells@.len() ==> (#[trigger] cells@[k]).0 == cell_at(width as int, k).0
                && cells@[k].1 == cell_at(width as int, k).1,
{
    let mut cells: Vec<(u32, u32)> = Vec::new();
    let mut i: u32 = 0;
    while i < height
        invariant
            i <= height,
            width * height <= usize::MAX,
            cells@.len() == i * width,
            forall|k: int|
                0 <= k < cells@.len() ==> (#[trigger] cells@[k]).0 == cell_at(width as int, k).0
                    && cells@[k].1 == cell_at(width as int, k).1,
        decreases height - i,
    {
        let mut j: u32 = 0;
        while j < width
            invariant
                i < height,
                j <= width,
                cells@.len() == i * width + j,
                forall|k: int|
                    0 <= k < cells@.len() ==> (#[trigger] cells@[k]).0 == cell_at(width as int, k).0
                        && cells@[k].1 == cell_at(width as int, k).1,
            decreases width - j,
        {
            proof {
                lemma_fundamental_div_mod_converse(
                    (i * width + j) as int,
                    width as int,
                    i as int,
                    j as int,
                );
            }
            cells.push((i, j));
            j += 1;
        }
        proof {
            assert((i + 1) * width == i * width + width) by (nonlinear_arith);
        }
        i += 1;
    }
    proof {
        assert(i * width == width * height) by (nonlinear_arith)
            requires
                i == height,
        ;
    }
    cells
}

/// Packs three 8-bit channels into the framebuffer word `0x00RRGGBB`.
pub fn pack_pixel(r: u32, g: u32, b: u32) -> (p: u32)
    requires
        r < 256,
        g < 256,
        b < 256,
    ensures
        p == packed(r as int, g as int, b as int),
        p >> 16u32 == r,
        (p >> 8u32) & 255 == g,
        p & 255 == b,
{
    let p = b | (g << 8u32) | (r << 16u32);
    assert(p == r * 65536 + g * 256 + b && p >> 16u32 == r && (p >> 8u32) & 255 == g && p & 255 == b)
        by (bit_vector)
        requires
            r < 256,
            g < 256,
            b < 256,
            p == b | (g << 8u32) | (r << 16u32),
    ;
    p
}

} // verus!
