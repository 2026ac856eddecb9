use vstd::prelude::*;

use crate::color::Rgb;
use crate::color::rgb;
use crate::color::bytes_of_colors;
use crate::color::pixel_at;
use crate::color::lemma_bytes_of_colors_len;
use crate::color::lemma_bytes_of_colors_index;

verus! {

/// The lighter of the two fixed checkerboard colors.
pub open spec fn light_color() -> Rgb {
    rgb(0xA9, 0xA9, 0xA9)
}

/// The darker of the two fixed checkerboard colors.
pub open spec fn dark_color() -> Rgb {
    rgb(0x55, 0x55, 0x55)
}

/// A cell's color. `x_first` and `y_first` say whether the shifted pixel
/// coordinate on each axis falls into the first half of its tiling period
/// (its value modulo twice the square size is below the square size). The
/// cell is light when exactly one of the two holds, dark otherwise.
pub open spec fn checker_color(x_first: bool, y_first: bool) -> Rgb {
    if x_first != y_first {
        light_color()
    } else {
        dark_color()
    }
}

pub fn classify_cell(x_first: bool, y_first: bool) -> (c: Rgb)
    ensures
        c == checker_color(x_first, y_first),
{
    if x_first != y_first {
        Rgb { r: 0xA9, g: 0xA9, b: 0xA9 }
    } else {
        Rgb { r: 0x55, g: 0x55, b: 0x55 }
    }
}

/// The color of every cell of a checkerboard, in row-major order.
pub open spec fn checker_colors(cells: Seq<(bool, bool)>) -> Seq<Rgb> {
    cells.map_values(|c: (bool, bool)| checker_color(c.0, c.1))
}

/// Classify a whole grid of cells, row-major.
pub fn checkerboard_colors(cells: &Vec<(bool, bool)>) -> (colors: Vec<Rgb>)
    ensures
        colors@ == checker_colors(cells@),
        colors@.len() == cells@.len(),
{
    let n = cells.len();
    let mut colors: Vec<Rgb> = Vec::new();
    let mut j: usize = 0;
    while j < n
        invariant
            j <= n,
            n == cells@.len(),
            colors@ == checker_colors(cells@.take(j as int)),
        decreases n - j,
    {
        let cell = cells[j];
        colors.push(classify_cell(cell.0, cell.1));
        proof {
            assert(colors@ =~= checker_colors(cells@.take(j as int + 1)));
        }
        j += 1;
    }
    proof {
        assert(cells@.take(n as int) =~= cells@);
    }
    colors
}

/// Every checkerboard pixel is one of the two fixed colors, and the byte
/// stream of a grid of cells holds exactly three bytes per cell.
pub proof fn lemma_checkerboard_two_colors(cells: Seq<(bool, bool)>)
    ensures
        bytes_of_colors(checker_colors(cells)).len() == 3 * cells.len(),
        forall|i: int|
            0 <= i < cells.len() ==> #[trigger] pixel_at(bytes_of_colors(checker_colors(cells)), i)
                == light_color() || pixel_at(bytes_of_colors(checker_colors(cells)), i)
                == dark_color(),
{
    lemma_bytes_of_colors_len(checker_colors(cells));
    assert forall|i: int|
        0 <= i < cells.len() implies #[trigger] pixel_at(
        bytes_of_colors(checker_colors(cells)),
        i,
    ) == light_color() || pixel_at(bytes_of_colors(checker_colors(cells)), i)
        == dark_color() by {
        lemma_bytes_of_colors_index(checker_colors(cells), i);
    }
}

} // verus!
