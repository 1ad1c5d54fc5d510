use vstd::prelude::*;
use crate::surface::SurfaceDimensions;

verus! {

/// Absolute pointer position in surface pixels, origin at the top-left corner.
#[derive(Clone, Copy, Debug, PartialEq, Eq, Structural)]
pub struct PointerSample {
    pub x: i64,
    pub y: i64,
}

/// The pointer position handed to the shader, in normalized device coordinates
/// and kept exact: the horizontal coordinate is `x_num / x_den`, the vertical
/// one `y_num / y_den`. Rounding to the GPU's number format happens only where
/// the value is written to the GPU.
#[derive(Clone, Copy, Debug, PartialEq, Eq, Structural)]
pub struct PointerUniform {
    pub x_num: i128,
    pub x_den: u32,
    pub y_num: i128,
    pub y_den: u32,
}

impl PointerUniform {
    /// Both denominators are non-zero, so the fractions denote numbers.
    pub open spec fn wf(self) -> bool {
        self.x_den > 0 && self.y_den > 0
    }

    /// The horizontal coordinate equals `n / d`.
    pub open spec fn x_is(self, n: int, d: int) -> bool {
        self.x_num * d == n * self.x_den
    }

    /// The vertical coordinate equals `n / d`.
    pub open spec fn y_is(self, n: int, d: int) -> bool {
        self.y_num * d == n * self.y_den
    }

    /// The centre of the surface: the value used until a first sample arrives.
    pub open spec fn neutral_spec() -> PointerUniform {
        PointerUniform { x_num: 0, x_den: 1, y_num: 0, y_den: 1 }
    }

    pub fn neutral() -> (u: PointerUniform)
        ensures
            u == PointerUniform::neutral_spec(),
    {
        PointerUniform { x_num: 0, x_den: 1, y_num: 0, y_den: 1 }
    }
}

/// `x' = 2x/w - 1` and `y' = 1 - 2y/h`, written as the fractions
/// `(2x - w)/w` and `(h - 2y)/h`.
pub open spec fn normalized(p: PointerSample, d: SurfaceDimensions) -> PointerUniform {
    PointerUniform {
        x_num: (2 * p.x - d.width) as i128,
        x_den: d.width,
        y_num: (d.height - 2 * p.y) as i128,
        y_den: d.height,
    }
}

/// Maps a pixel position on a surface of size `d` to normalized device
/// coordinates. Positions off the surface are not clamped.
pub fn normalize(p: PointerSample, d: SurfaceDimensions) -> (u: PointerUniform)
    ensures
        u == normalized(p, d),
        u.x_num == 2 * p.x - d.width,
        u.y_num == d.height - 2 * p.y,
        d.positive() ==> u.wf(),
{
    let x_num: i128 = 2 * (p.x as i128) - (d.width as i128);
    let y_num: i128 = (d.height as i128) - 2 * (p.y as i128);
    PointerUniform { x_num, x_den: d.width, y_num, y_den: d.height }
}

/// On a surface of any positive size, the top-left corner maps to (-1, 1) and
/// the bottom-right corner to (1, -1), exactly.
pub proof fn lemma_normalize_corners(d: SurfaceDimensions)
    requires
        d.positive(),
    ensures
        normalized(PointerSample { x: 0, y: 0 }, d).x_is(-1, 1),
        normalized(PointerSample { x: 0, y: 0 }, d).y_is(1, 1),
        normalized(PointerSample { x: d.width as i64, y: d.height as i64 }, d).x_is(1, 1),
        normalized(PointerSample { x: d.width as i64, y: d.height as i64 }, d).y_is(-1, 1),
{
}

} // verus!
