//! The size of the quad that shows the framebuffer: as large as the surface
//! allows without changing the framebuffer's proportions.

use vstd::prelude::*;

verus! {

/// A fraction of two naturals. A zero denominator occurs only over a zero
/// numerator, and stands for an extent that is not defined.
#[derive(Copy, Clone, Debug, PartialEq, Eq, Structural)]
pub struct Ratio {
    pub numerator: u128,
    pub denominator: u128,
}

/// Half-extents of the quad in normalized device coordinates: the quad spans
/// `[-width, width]` by `[-height, height]`, and 1 reaches the surface's edge.
#[derive(Copy, Clone, Debug, PartialEq, Eq, Structural)]
pub struct QuadSize {
    pub width: Ratio,
    pub height: Ratio,
}

impl Ratio {
    /// The whole extent.
    pub open spec fn one() -> Ratio {
        Ratio { numerator: 1, denominator: 1 }
    }

    /// A fraction that has a value.
    pub open spec fn defined(self) -> bool {
        self.denominator > 0
    }
}

/// Whether a frame scaled to the full width of the surface is no higher than
/// the surface. The height it then has is `surface_width * frame_height /
/// frame_width`; the test is stated without the division.
pub open spec fn fills_width(
    frame_width: usize,
    frame_height: usize,
    surface_width: u32,
    surface_height: u32,
) -> bool {
    frame_width > 0 && surface_width * frame_height <= surface_height * frame_width
}

/// The letterboxed quad. Where the frame fits at full width, the quad is as
/// wide as the surface and as high as the scaled frame; otherwise it is as high
/// as the surface and as wide as the frame scaled to full height.
pub open spec fn aspect_fit(
    frame_width: usize,
    frame_height: usize,
    surface_width: u32,
    surface_height: u32,
) -> QuadSize {
    if fills_width(frame_width, frame_height, surface_width, surface_height) {
        QuadSize {
            width: Ratio::one(),
            height: Ratio {
                numerator: (surface_width * frame_height) as u128,
                denominator: (surface_height * frame_width) as u128,
            },
        }
    } else {
        QuadSize {
            width: Ratio {
                numerator: (surface_height * frame_width) as u128,
                denominator: (surface_width * frame_height) as u128,
            },
            height: Ratio::one(),
        }
    }
}

/// The product of a surface dimension and a frame dimension fits in 128 bits.
pub proof fn lemma_product_fits(surface: u32, frame: usize)
    ensures
        0 <= surface * frame <= u128::MAX,
{
    assert(0 <= surface * frame <= 0xffff_ffff * 0xffff_ffff_ffff_ffff) by (nonlinear_arith)
        requires
            0 <= surface <= 0xffff_ffff,
            0 <= frame <= 0xffff_ffff_ffff_ffff,
    ;
}

/// The quad never reaches beyond the surface: a half-extent that is defined is
/// at most 1, and one that is not defined has a zero numerator.
pub proof fn lemma_quad_inside_surface(
    frame_width: usize,
    frame_height: usize,
    surface_width: u32,
    surface_height: u32,
)
    ensures
        ({
            let quad = aspect_fit(frame_width, frame_height, surface_width, surface_height);
            &&& quad.width.numerator <= quad.width.denominator
            &&& quad.height.numerator <= quad.height.denominator
        }),
{
    lemma_product_fits(surface_width, frame_height);
    lemma_product_fits(surface_height, frame_width);
    if !fills_width(frame_width, frame_height, surface_width, surface_height) && frame_width == 0 {
        assert(surface_height * frame_width == 0);
    }
}

/// The quad touches the surface's edge in at least one direction, so no
/// larger quad of the same proportions fits.
pub proof fn lemma_quad_fills_one_direction(
    frame_width: usize,
    frame_height: usize,
    surface_width: u32,
    surface_height: u32,
)
    ensures
        ({
            let quad = aspect_fit(frame_width, frame_height, surface_width, surface_height);
            quad.width == Ratio::one() || quad.height == Ratio::one()
        }),
{
}

/// A frame and a surface that both have an area give a quad whose two
/// half-extents are defined, and the quad on the surface has the frame's
/// proportions: measured in surface pixels, its width is to its height as the
/// frame's width is to the frame's height.
pub proof fn lemma_quad_keeps_proportions(
    frame_width: usize,
    frame_height: usize,
    surface_width: u32,
    surface_height: u32,
)
    requires
        frame_width > 0,
        frame_height > 0,
        surface_width > 0,
        surface_height > 0,
    ensures
        ({
            let quad = aspect_fit(frame_width, frame_height, surface_width, surface_height);
            &&& quad.width.defined()
            &&& quad.height.defined()
            &&& (quad.width.numerator * surface_width * frame_height) * quad.height.denominator
                == (quad.height.numerator * surface_height * frame_width) * quad.width.denominator
        }),
{
    lemma_product_fits(surface_width, frame_height);
    lemma_product_fits(surface_height, frame_width);
    let a = surface_width * frame_height;
    let b = surface_height * frame_width;
    assert(a > 0) by (nonlinear_arith)
        requires
            a == surface_width * frame_height,
            surface_width > 0,
            frame_height > 0,
    ;
    assert(b > 0) by (nonlinear_arith)
        requires
            b == surface_height * frame_width,
            surface_height > 0,
            frame_width > 0,
    ;
    let quad = aspect_fit(frame_width, frame_height, surface_width, surface_height);
    if fills_width(frame_width, frame_height, surface_width, surface_height) {
        assert((1 * surface_width * frame_height) * b == (a * surface_height * frame_width) * 1)
            by (nonlinear_arith)
            requires
                a == surface_width * frame_height,
                b == surface_height * frame_width,
        ;
    } else {
        assert((b * surface_width * frame_height) * 1 == (1 * surface_height * frame_width) * a)
            by (nonlinear_arith)
            requires
                a == surface_width * frame_height,
                b == surface_height * frame_width,
        ;
    }
}

} // verus!
