use fractal_raster::checker::checkerboard_colors;
use fractal_raster::checker::classify_cell;
use fractal_raster::color::Rgb;
use fractal_raster::raster::RenderError;
use fractal_raster::raster::checkerboard_image;

const LIGHT: Rgb = Rgb { r: 0xA9, g: 0xA9, b: 0xA9 };
const DARK: Rgb = Rgb { r: 0x55, g: 0x55, b: 0x55 };

/// Whether a shifted coordinate falls into the first half of its tiling
/// period of twice the square size.
fn first_half(v: f64, square_size: f64) -> bool {
    v % (2f64 * square_size) < square_size
}

fn decode(bytes: &[u8]) -> (Vec<u8>, u32, u32) {
    let decoder = png::Decoder::new(std::io::Cursor::new(bytes));
    let mut reader = decoder.read_info().unwrap();
    let mut buf = vec![0u8; reader.output_buffer_size().unwrap()];
    let info = reader.next_frame(&mut buf).unwrap();
    let n = info.buffer_size();
    buf.truncate(n);
    (buf, info.width, info.height)
}

#[test]
fn cell_classification_is_xor() {
    assert_eq!(classify_cell(true, true), DARK);
    assert_eq!(classify_cell(false, false), DARK);
    assert_eq!(classify_cell(true, false), LIGHT);
    assert_eq!(classify_cell(false, true), LIGHT);
}

#[test]
fn origin_cell_with_zero_shift_is_dark() {
    // With center_x = width and center_y = height both shifts vanish, and at
    // pixel (0, 0) both axes fall into the first half of their period for
    // any positive square size, so the origin cell classifies dark.
    for s in [0.5f64, 1f64, 7f64, 64f64] {
        let x_first = first_half(0f64, s);
        let y_first = first_half(0f64, s);
        assert!(x_first && y_first);
        assert_eq!(classify_cell(x_first, y_first), DARK);
    }
}

#[test]
fn colors_follow_cells_row_major() {
    let cells = vec![(true, true), (false, true), (true, false), (false, false)];
    let colors = checkerboard_colors(&cells);
    assert_eq!(colors, vec![DARK, LIGHT, LIGHT, DARK]);
}

#[test]
fn checkerboard_image_decodes_to_the_two_colors() {
    // A 4x2 board with unit squares: adjacent cells alternate.
    let width = 4u32;
    let height = 2u32;
    let square_size = 1f64;
    let mut cells = Vec::new();
    for y in 0..height {
        for x in 0..width {
            cells.push((
                first_half(x as f64, square_size),
                first_half(y as f64, square_size),
            ));
        }
    }
    let encoded = checkerboard_image(&cells, width, height).unwrap();
    let (pixels, w, h) = decode(&encoded);
    assert_eq!((w, h), (width, height));
    assert_eq!(pixels.len(), 3 * width as usize * height as usize);
    let expected_rows = [
        [DARK, LIGHT, DARK, LIGHT],
        [LIGHT, DARK, LIGHT, DARK],
    ];
    for y in 0..height as usize {
        for x in 0..width as usize {
            let i = 3 * (y * width as usize + x);
            let expect = expected_rows[y][x];
            assert_eq!(pixels[i], expect.r);
            assert_eq!(pixels[i + 1], expect.g);
            assert_eq!(pixels[i + 2], expect.b);
        }
    }
}

#[test]
fn zero_dimension_is_refused() {
    let cells = vec![];
    assert_eq!(checkerboard_image(&cells, 0, 4), Err(RenderError::EmptyImage));
    assert_eq!(checkerboard_image(&cells, 4, 0), Err(RenderError::EmptyImage));
}

#[test]
fn cell_count_mismatch_is_refused() {
    let cells = vec![(true, true), (false, false)];
    assert_eq!(checkerboard_image(&cells, 3, 3), Err(RenderError::SizeMismatch));
}
