use vstd::prelude::*;

use crate::color::Rgb;
use crate::color::rgb;

verus! {

/// The fixed default color ramp: dark blues rising to a bright blue, then
/// yellow, orange, and darkening reds, ending in black. The final stop is
/// the designated color for samples that never resolved (a non-finite
/// smoothed iteration count).
pub open spec fn default_palette() -> Seq<Rgb> {
    seq![
        rgb(0x00, 0x00, 0x30),
        rgb(0x00, 0x00, 0x55),
        rgb(0x00, 0x00, 0x77),
        rgb(0x00, 0x00, 0xBB),
        rgb(0x30, 0x3F, 0xFF),
        rgb(0xFF, 0xFF, 0x00),
        rgb(0xFF, 0x7F, 0x00),
        rgb(0x7F, 0x00, 0x00),
        rgb(0x5C, 0x00, 0x00),
        rgb(0x30, 0x00, 0x00),
        rgb(0x00, 0x00, 0x00),
    ]
}

/// The default palette as an owned vector of stops.
pub fn default_stops() -> (v: Vec<Rgb>)
    ensures
        v@ == default_palette(),
        v@.len() == 11,
        v@.last() == rgb(0, 0, 0),
{
    let mut v: Vec<Rgb> = Vec::new();
    v.push(Rgb { r: 0x00, g: 0x00, b: 0x30 });
    v.push(Rgb { r: 0x00, g: 0x00, b: 0x55 });
    v.push(Rgb { r: 0x00, g: 0x00, b: 0x77 });
    v.push(Rgb { r: 0x00, g: 0x00, b: 0xBB });
    v.push(Rgb { r: 0x30, g: 0x3F, b: 0xFF });
    v.push(Rgb { r: 0xFF, g: 0xFF, b: 0x00 });
    v.push(Rgb { r: 0xFF, g: 0x7F, b: 0x00 });
    v.push(Rgb { r: 0x7F, g: 0x00, b: 0x00 });
    v.push(Rgb { r: 0x5C, g: 0x00, b: 0x00 });
    v.push(Rgb { r: 0x30, g: 0x00, b: 0x00 });
    v.push(Rgb { r: 0x00, g: 0x00, b: 0x00 });
    proof {
        assert(v@ =~= default_palette());
    }
    v
}

/// `i` clamped into the index range `[0, len - 1]` of a palette of `len`
/// stops.
pub open spec fn clamp_index_spec(i: int, len: int) -> int {
    if i < 0 {
        0
    } else if i >= len {
        len - 1
    } else {
        i
    }
}

pub fn clamp_index(i: i64, len: usize) -> (r: usize)
    requires
        1 <= len,
    ensures
        r == clamp_index_spec(i as int, len as int),
        r < len,
{
    if i <= 0 {
        0
    } else if i as u64 >= len as u64 {
        len - 1
    } else {
        i as usize
    }
}

/// The two palette stops bracketing an interpolation position: the stop at
/// index `lo` (the floor of the position) and at `hi` (its ceiling), each
/// index clamped into range.
pub fn bracket_stops(stops: &Vec<Rgb>, lo: i64, hi: i64) -> (r: (Rgb, Rgb))
    requires
        stops@.len() >= 1,
    ensures
        r.0 == stops@[clamp_index_spec(lo as int, stops@.len() as int)],
        r.1 == stops@[clamp_index_spec(hi as int, stops@.len() as int)],
{
    let a = stops[clamp_index(lo, stops.len())];
    let b = stops[clamp_index(hi, stops.len())];
    (a, b)
}

/// The last stop of the palette, returned verbatim for any sample whose
/// smoothed iteration count is not finite.
pub fn terminal_color(stops: &Vec<Rgb>) -> (c: Rgb)
    requires
        stops@.len() >= 1,
    ensures
        c == stops@.last(),
{
    stops[stops.len() - 1]
}

/// Stop selection for one palette lookup. A sample flagged non-finite takes
/// the last stop on both sides, so that blending at any weight reproduces it
/// exactly; a finite sample takes the clamped floor and ceiling stops of its
/// interpolation position.
pub fn palette_stops(stops: &Vec<Rgb>, finite: bool, lo: i64, hi: i64) -> (r: (Rgb, Rgb))
    requires
        stops@.len() >= 1,
    ensures
        !finite ==> r.0 == stops@.last() && r.1 == stops@.last(),
        finite ==> r.0 == stops@[clamp_index_spec(lo as int, stops@.len() as int)]
            && r.1 == stops@[clamp_index_spec(hi as int, stops@.len() as int)],
{
    if !finite {
        let c = terminal_color(stops);
        (c, c)
    } else {
        bracket_stops(stops, lo, hi)
    }
}

} // verus!
