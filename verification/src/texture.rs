//! The texture generator and its row-rotation laws.

use vstd::prelude::*;

use crate::palette::palette;
use crate::palette::palette_rgba;
use crate::palette::rotated_palette;

verus! {

/// The generated texture for a given side length, as a flat byte sequence:
/// row-major, `side * 4` bytes per row; row `y` is `rotated_palette(y)`
/// repeated and truncated to fill the row.
pub open spec fn texture_bytes(side: int) -> Seq<u8> {
    Seq::new(
        (side * side * 4) as nat,
        |i: int| rotated_palette(i / (side * 4))[i % (side * 4) % 32],
    )
}

/// Generates the UV debug texture: a square bitmap of `side_length` by
/// `side_length` RGBA texels whose rows cycle through the rotated palette.
pub fn uv_debug_texture(side_length: usize) -> (out: Vec<u8>)
    requires
        side_length * side_length * 4 <= usize::MAX,
    ensures
        out@ == texture_bytes(side_length as int),
        out@.len() == side_length * side_length * 4,
{
    let pal = palette_rgba();
    let mut data: Vec<u8> = Vec::new();
    let mut y: usize = 0;
    while y < side_length
        invariant
            y <= side_length,
            side_length * side_length * 4 <= usize::MAX,
            pal@ == palette(),
            data@.len() == (y * side_length) * 4,
            forall|i: int| 0 <= i < data@.len() ==> data@[i] == texture_bytes(side_length as int)[i],
        decreases side_length - y,
    {
        let shift = y % 8;
        let mut x: usize = 0;
        while x < side_length
            invariant
                x <= side_length,
                y < side_length,
                side_length * side_length * 4 <= usize::MAX,
                pal@ == palette(),
                shift == y % 8,
                data@.len() == (y * side_length + x) * 4,
                forall|i: int| 0 <= i < data@.len()
                    ==> data@[i] == texture_bytes(side_length as int)[i],
            decreases side_length - x,
        {
            let entry = (x % 8 + 8 - shift) % 8;
            let base = entry * 4;
            proof {
                let s = side_length as int;
                let xi = x as int;
                let yi = y as int;
                lemma_shift_index(xi, yi);
                assert(entry == (xi % 8 - yi) % 8);
                lemma_row_rotation(s, yi, xi, 0);
                lemma_row_rotation(s, yi, xi, 1);
                lemma_row_rotation(s, yi, xi, 2);
                lemma_row_rotation(s, yi, xi, 3);
                crate::palette::lemma_rotated_entry(yi, xi % 8, 0);
                crate::palette::lemma_rotated_entry(yi, xi % 8, 1);
                crate::palette::lemma_rotated_entry(yi, xi % 8, 2);
                crate::palette::lemma_rotated_entry(yi, xi % 8, 3);
            }
            data.push(pal[base]);
            data.push(pal[base + 1]);
            data.push(pal[base + 2]);
            data.push(pal[base + 3]);
            x += 1;
        }
        proof {
            let s = side_length as int;
            let yi = y as int;
            assert((yi * s + s) * 4 == ((yi + 1) * s) * 4) by (nonlinear_arith);
        }
        y += 1;
    }
    proof {
        let s = side_length as int;
        assert(s * s * 4 >= 0) by (nonlinear_arith)
            requires
                0 <= s,
        ;
        assert(data@ =~= texture_bytes(s));
    }
    data
}

/// Inside one row, the shift computed from `x % 8` and `y % 8` picks the same
/// palette entry as rotating the palette right by the full row index `y`.
proof fn lemma_shift_index(x: int, y: int)
    requires
        0 <= x,
        0 <= y,
    ensures
        (x % 8 + 8 - y % 8) % 8 == (x % 8 - y) % 8,
{
    vstd::arithmetic::div_mod::lemma_mod_add_multiples_vanish(x % 8 - y % 8, 8);
    vstd::arithmetic::div_mod::lemma_sub_mod_noop_right(x % 8, y, 8);
}

/// Byte `c` of texel `x` in row `y` of the texture is byte `c` of entry
/// `x mod 8` of the palette rotated right by `y` entries: every row repeats
/// the rotated palette, truncated at the row's end.
pub proof fn lemma_row_rotation(side: int, y: int, x: int, c: int)
    requires
        0 < side,
        0 <= y < side,
        0 <= x < side,
        0 <= c < 4,
    ensures
        0 <= (y * side + x) * 4 + c < side * side * 4,
        texture_bytes(side)[(y * side + x) * 4 + c] == rotated_palette(y)[(x % 8) * 4 + c],
{
    let i = (y * side + x) * 4 + c;
    let row = side * 4;
    let p = x * 4 + c;
    assert(i == y * row + p) by (nonlinear_arith)
        requires
            i == (y * side + x) * 4 + c,
            row == side * 4,
            p == x * 4 + c,
    ;
    assert(y * row + p < side * side * 4) by (nonlinear_arith)
        requires
            0 < side,
            0 <= y < side,
            0 <= x < side,
            0 <= c < 4,
            row == side * 4,
            p == x * 4 + c,
    ;
    vstd::arithmetic::div_mod::lemma_fundamental_div_mod_converse_div(i, row, y, p);
    vstd::arithmetic::div_mod::lemma_fundamental_div_mod_converse_mod(i, row, y, p);
    assert(i / row == y);
    assert(i % row == p);
    let q = x / 8;
    let s8 = x % 8;
    assert(p == q * 32 + (s8 * 4 + c)) by (nonlinear_arith)
        requires
            p == x * 4 + c,
            x == 8 * q + s8,
    ;
    vstd::arithmetic::div_mod::lemma_fundamental_div_mod_converse_mod(
        p,
        32,
        x / 8,
        (x % 8) * 4 + c,
    );
    assert(p % 32 == (x % 8) * 4 + c);
}

/// Row 0 of the texture is the original palette repeated across the row,
/// before any rotation has been applied.
pub proof fn lemma_first_row(side: int, x: int, c: int)
    requires
        0 < side,
        0 <= x < side,
        0 <= c < 4,
    ensures
        texture_bytes(side)[x * 4 + c] == palette()[(x % 8) * 4 + c],
{
    lemma_row_rotation(side, 0, x, c);
    crate::palette::lemma_rotation_identity();
}

/// Row 1 of the texture is the palette rotated right by one entry: texel 0
/// holds the original palette's last entry, and texel `x` holds original
/// entry `x mod 8 - 1` otherwise.
pub proof fn lemma_second_row(side: int, x: int, c: int)
    requires
        2 <= side,
        0 <= x < side,
        0 <= c < 4,
    ensures
        texture_bytes(side)[(side + x) * 4 + c] == if x % 8 == 0 {
            palette()[28 + c]
        } else {
            palette()[(x % 8 - 1) * 4 + c]
        },
{
    lemma_row_rotation(side, 1, x, c);
    crate::palette::lemma_rotated_entry(1, x % 8, c);
    if x % 8 != 0 {
        vstd::arithmetic::div_mod::lemma_small_mod((x % 8 - 1) as nat, 8);
    }
}

/// Rows eight apart are byte-identical: the palette rotation cycle has
/// length eight, so row 8 repeats row 0.
pub proof fn lemma_row_cycle(side: int, y: int, x: int, c: int)
    requires
        0 < side,
        0 <= y,
        y + 8 < side,
        0 <= x < side,
        0 <= c < 4,
    ensures
        texture_bytes(side)[((y + 8) * side + x) * 4 + c] == texture_bytes(
            side,
        )[(y * side + x) * 4 + c],
{
    lemma_row_rotation(side, y, x, c);
    lemma_row_rotation(side, y + 8, x, c);
    crate::palette::lemma_rotation_cycle(y);
}

/// The generated texture is a function of the side length alone: any two
/// buffers that both carry the texture bytes for one side length are
/// byte-identical, so repeated generation is deterministic.
pub proof fn lemma_deterministic(side: int, first: Seq<u8>, second: Seq<u8>)
    requires
        first == texture_bytes(side),
        second == texture_bytes(side),
    ensures
        first == second,
{
}

/// A generated square image resource: the flat RGBA byte buffer together
/// with the extent it declares to a consumer (width, height, and depth 1).
pub struct TextureImage {
    pub width: usize,
    pub height: usize,
    pub depth: usize,
    pub data: Vec<u8>,
}

impl TextureImage {
    /// A well-formed image is square, one layer deep, and carries one 4-byte
    /// RGBA texel per pixel.
    pub open spec fn wf(self) -> bool {
        &&& self.height == self.width
        &&& self.depth == 1
        &&& self.data@.len() == self.width * self.width * 4
    }

    /// Builds the UV debug texture image for the given side length.
    pub fn generate(side_length: usize) -> (out: TextureImage)
        requires
            side_length * side_length * 4 <= usize::MAX,
        ensures
            out.wf(),
            out.width == side_length,
            out.data@ == texture_bytes(side_length as int),
    {
        let data = uv_debug_texture(side_length);
        TextureImage { width: side_length, height: side_length, depth: 1, data }
    }
}

} // verus!
