use vstd::prelude::*;

verus! {

/// One pixel's color: red, green and blue channel bytes.
#[derive(Clone, Copy, PartialEq, Eq, Structural, Debug)]
pub struct Rgb {
    pub r: u8,
    pub g: u8,
    pub b: u8,
}

pub open spec fn rgb(r: u8, g: u8, b: u8) -> Rgb {
    Rgb { r, g, b }
}

/// The interleaved byte stream of a row-major color sequence: three bytes
/// per pixel, red first, green, then blue.
pub open spec fn bytes_of_colors(colors: Seq<Rgb>) -> Seq<u8>
    decreases colors.len(),
{
    if colors.len() == 0 {
        Seq::empty()
    } else {
        bytes_of_colors(colors.drop_last())
            + seq![colors.last().r, colors.last().g, colors.last().b]
    }
}

/// The pixel stored at index `i` of an interleaved byte stream.
pub open spec fn pixel_at(buf: Seq<u8>, i: int) -> Rgb {
    rgb(buf[3 * i], buf[3 * i + 1], buf[3 * i + 2])
}

pub proof fn lemma_bytes_of_colors_len(colors: Seq<Rgb>)
    ensures
        bytes_of_colors(colors).len() == 3 * colors.len(),
    decreases colors.len(),
{
    if colors.len() > 0 {
        lemma_bytes_of_colors_len(colors.drop_last());
    }
}

pub proof fn lemma_bytes_of_colors_index(colors: Seq<Rgb>, i: int)
    requires
        0 <= i < colors.len(),
    ensures
        bytes_of_colors(colors).len() == 3 * colors.len(),
        pixel_at(bytes_of_colors(colors), i) == colors[i],
    decreases colors.len(),
{
    lemma_bytes_of_colors_len(colors);
    lemma_bytes_of_colors_len(colors.drop_last());
    if i < colors.len() - 1 {
        lemma_bytes_of_colors_index(colors.drop_last(), i);
    }
}

/// Append one pixel's three bytes to the buffer.
fn push_color(buf: &mut Vec<u8>, c: Rgb)
    ensures
        final(buf)@ == old(buf)@ + seq![c.r, c.g, c.b],
{
    buf.push(c.r);
    buf.push(c.g);
    buf.push(c.b);
    proof {
        assert(buf@ =~= old(buf)@ + seq![c.r, c.g, c.b]);
    }
}

/// Flatten a row-major color sequence into its interleaved byte stream.
pub fn write_pixels(colors: &Vec<Rgb>) -> (buf: Vec<u8>)
    ensures
        buf@ == bytes_of_colors(colors@),
        buf@.len() == 3 * colors@.len(),
        forall|i: int| 0 <= i < colors@.len() ==> pixel_at(buf@, i) == colors@[i],
{
    let n = colors.len();
    let mut buf: Vec<u8> = Vec::new();
    let mut j: usize = 0;
    while j < n
        invariant
            j <= n,
            n == colors@.len(),
            buf@ == bytes_of_colors(colors@.take(j as int)),
        decreases n - j,
    {
        push_color(&mut buf, colors[j]);
        proof {
            assert(colors@.take(j as int + 1).drop_last() =~= colors@.take(j as int));
            assert(colors@.take(j as int + 1).last() == colors@[j as int]);
        }
        j += 1;
    }
    proof {
        assert(colors@.take(n as int) =~= colors@);
        lemma_bytes_of_colors_len(colors@);
        assert forall|i: int| 0 <= i < colors@.len() implies pixel_at(buf@, i)
            == colors@[i] by {
            lemma_bytes_of_colors_index(colors@, i);
        }
    }
    buf
}

} // verus!
