//! The fixed eight-entry RGBA palette and its rotations.

use vstd::prelude::*;

verus! {

/// The fixed palette: eight RGBA entries of four bytes each, 32 bytes in all.
pub open spec fn palette() -> Seq<u8> {
    seq![
        255u8, 102u8, 159u8, 255u8,
        255u8, 159u8, 102u8, 255u8,
        236u8, 255u8, 102u8, 255u8,
        121u8, 255u8, 102u8, 255u8,
        102u8, 255u8, 198u8, 255u8,
        102u8, 198u8, 255u8, 255u8,
        121u8, 102u8, 255u8, 255u8,
        236u8, 102u8, 255u8, 255u8,
    ]
}

/// The palette rotated right by `r` entries: entry `e` of the result is entry
/// `(e - r) mod 8` of the original palette, so each rotation moves the last
/// entry to the front.
pub open spec fn rotated_palette(r: int) -> Seq<u8> {
    Seq::new(32, |j: int| palette()[((j / 4 - r) % 8) * 4 + j % 4])
}

/// Entry `e`, byte `c` of the palette rotated right by `r` entries is byte
/// `c` of entry `(e - r) mod 8` of the original palette.
pub proof fn lemma_rotated_entry(r: int, e: int, c: int)
    requires
        0 <= e < 8,
        0 <= c < 4,
    ensures
        rotated_palette(r)[e * 4 + c] == palette()[((e - r) % 8) * 4 + c],
{
    let j = e * 4 + c;
    vstd::arithmetic::div_mod::lemma_fundamental_div_mod_converse_div(j, 4, e, c);
    vstd::arithmetic::div_mod::lemma_fundamental_div_mod_converse_mod(j, 4, e, c);
}

/// Rotating right by zero entries leaves the palette unchanged.
#[verifier::rlimit(30)]
pub proof fn lemma_rotation_identity()
    ensures
        rotated_palette(0) == palette(),
{
    assert forall|j: int| 0 <= j < 32 implies rotated_palette(0)[j] == palette()[j] by {
        vstd::arithmetic::div_mod::lemma_fundamental_div_mod(j, 4);
        vstd::arithmetic::div_mod::lemma_small_mod((j / 4) as nat, 8);
        assert((j / 4 - 0) % 8 * 4 + j % 4 == j);
    }
    assert(rotated_palette(0) =~= palette());
}

/// One further rotation moves each byte four places to the right, with the
/// last entry's bytes wrapping around to the front.
pub proof fn lemma_rotation_step(r: int, j: int)
    requires
        0 <= j < 32,
    ensures
        rotated_palette(r + 1)[j] == rotated_palette(r)[if j < 4 { j + 28 } else { j - 4 }],
{
    if j < 4 {
        vstd::arithmetic::div_mod::lemma_mod_add_multiples_vanish(j / 4 - 1 - r, 8);
    }
}

/// Eight rotations return the palette to its original order: the rotation
/// cycle has length eight.
pub proof fn lemma_rotation_cycle(r: int)
    ensures
        rotated_palette(r + 8) == rotated_palette(r),
{
    assert forall|j: int| 0 <= j < 32 implies rotated_palette(r + 8)[j] == rotated_palette(r)[j] by {
        vstd::arithmetic::div_mod::lemma_mod_sub_multiples_vanish(j / 4 - r, 8);
    }
    assert(rotated_palette(r + 8) =~= rotated_palette(r));
}

/// The palette as an executable byte array, in the fixed order.
pub fn palette_rgba() -> (out: [u8; 32])
    ensures
        out@ == palette(),
{
    let pal: [u8; 32] = [
        255, 102, 159, 255,
        255, 159, 102, 255,
        236, 255, 102, 255,
        121, 255, 102, 255,
        102, 255, 198, 255,
        102, 198, 255, 255,
        121, 102, 255, 255,
        236, 102, 255, 255,
    ];
    proof {
        assert(pal@ =~= palette());
    }
    pal
}

} // verus!
