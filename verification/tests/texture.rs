use uv_texture::palette::palette_rgba;
use uv_texture::texture::uv_debug_texture;
use uv_texture::texture::TextureImage;

const PALETTE: [u8; 32] = [
    255, 102, 159, 255,
    255, 159, 102, 255,
    236, 255, 102, 255,
    121, 255, 102, 255,
    102, 255, 198, 255,
    102, 198, 255, 255,
    121, 102, 255, 255,
    236, 102, 255, 255,
];

/// The palette rotated right by `r` entries, as bytes.
fn rotated(r: usize) -> Vec<u8> {
    let mut pal = PALETTE.to_vec();
    pal.rotate_right(4 * (r % 8));
    pal
}

/// The expected bytes of row `y`: the palette rotated right by `y` entries,
/// repeated and truncated to `side` texels.
fn expected_row(side: usize, y: usize) -> Vec<u8> {
    let pal = rotated(y);
    (0..side * 4).map(|p| pal[p % 32]).collect()
}

/// Row `y` of a generated buffer.
fn row(data: &[u8], side: usize, y: usize) -> &[u8] {
    &data[y * side * 4..(y + 1) * side * 4]
}

#[test]
fn length_is_side_squared_times_four() {
    for side in [1usize, 2, 3, 5, 8, 9, 16, 17] {
        assert_eq!(uv_debug_texture(side).len(), side * side * 4);
    }
}

#[test]
fn zero_side_gives_empty_buffer() {
    assert_eq!(uv_debug_texture(0).len(), 0);
}

#[test]
fn first_row_is_original_palette() {
    for side in [1usize, 5, 8, 9, 16] {
        let t = uv_debug_texture(side);
        assert_eq!(row(&t, side, 0), expected_row(side, 0).as_slice());
    }
}

#[test]
fn second_row_is_palette_rotated_once() {
    for side in [2usize, 5, 8, 9] {
        let t = uv_debug_texture(side);
        assert_eq!(row(&t, side, 1), expected_row(side, 1).as_slice());
        // The last original entry leads the second row.
        assert_eq!(&row(&t, side, 1)[0..4], &PALETTE[28..32]);
    }
}

#[test]
fn rows_follow_the_rotation_cycle() {
    let side = 9usize;
    let t = uv_debug_texture(side);
    for y in [0usize, 1, 7, 8] {
        assert_eq!(row(&t, side, y), expected_row(side, y).as_slice());
    }
    // The rotation cycle has length eight: row 8 repeats row 0 exactly.
    assert_eq!(row(&t, side, 8), row(&t, side, 0));
}

#[test]
fn eight_by_eight_scenario() {
    let t = uv_debug_texture(8);
    assert_eq!(t.len(), 256);
    assert_eq!(&t[0..4], &[255, 102, 159, 255]);
    assert_eq!(&t[32..36], &[236, 102, 255, 255]);
}

#[test]
fn narrow_rows_truncate_mid_cycle() {
    let side = 5usize;
    let t = uv_debug_texture(side);
    assert_eq!(row(&t, side, 0), &PALETTE[0..20]);
    assert_eq!(row(&t, side, 1), expected_row(side, 1).as_slice());
}

#[test]
fn generation_is_deterministic() {
    assert_eq!(uv_debug_texture(12), uv_debug_texture(12));
    assert_eq!(uv_debug_texture(0), uv_debug_texture(0));
}

#[test]
fn palette_bytes_are_in_order() {
    assert_eq!(palette_rgba(), PALETTE);
}

#[test]
fn image_resource_declares_its_extent() {
    let img = TextureImage::generate(8);
    assert_eq!(img.width, 8);
    assert_eq!(img.height, 8);
    assert_eq!(img.depth, 1);
    assert_eq!(img.data, uv_debug_texture(8));
}
