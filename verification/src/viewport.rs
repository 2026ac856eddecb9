use vstd::prelude::*;

verus! {

/// The first pixel coordinate of an axis of `d` pixels, relative to the
/// image center: the floor of `-d/2`.
pub open spec fn axis_lo(d: u32) -> int {
    -((d as int) / 2)
}

/// One past the last pixel coordinate of an axis of `d` pixels: `d/2`
/// rounded half away from zero. For an odd `d` the range is asymmetric by
/// one pixel; both renderers depend on this exact rounding.
pub open spec fn axis_hi(d: u32) -> int {
    ((d as int) + 1) / 2
}

pub fn pixel_lo(d: u32) -> (r: i64)
    ensures
        r == axis_lo(d),
{
    -((d / 2) as i64)
}

pub fn pixel_hi(d: u32) -> (r: i64)
    ensures
        r == axis_hi(d),
{
    ((d as u64 + 1) / 2) as i64
}

/// Each axis spans exactly `d` pixel coordinates, so the centered loop
/// bounds visit one plane coordinate per output pixel.
pub proof fn lemma_axis_span(d: u32)
    ensures
        axis_hi(d) - axis_lo(d) == d as int,
{
    let di = d as int;
    assert((di + 1) / 2 + di / 2 == di) by (nonlinear_arith);
}

} // verus!
