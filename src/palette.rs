//! The colour palette: 256 RGBA entries, one per one-byte voxel value.
//!
//! Entry `i` decodes the byte `i` as four 2-bit channels, lowest bits first
//! (red in bits 0-1, green in 2-3, blue in 4-5, alpha in 6-7), and widens each
//! 2-bit value `v` to the 8-bit value `v * 85`, so that 3 maps to 255.
use vstd::prelude::*;

verus! {

/// Divisor that brings channel `c` of an index down to its lowest two bits.
pub open spec fn channel_shift(c: int) -> int {
    if c == 0 {
        1
    } else if c == 1 {
        4
    } else if c == 2 {
        16
    } else {
        64
    }
}

/// The 8-bit value of channel `c` (0 to 3) of palette entry `i`.
pub open spec fn channel_value(i: int, c: int) -> u8 {
    ((i / channel_shift(c)) % 4 * 85) as u8
}

/// The full palette as 256 entries of 4 channels.
pub open spec fn all_color_table() -> Seq<Seq<u8>> {
    Seq::new(256, |i: int| Seq::new(4, |c: int| channel_value(i, c)))
}

/// A palette of 256 RGBA colours.
#[derive(Clone, Copy)]
pub struct VoxelColors([[u8; 4]; 256]);

impl View for VoxelColors {
    type V = Seq<Seq<u8>>;

    /// The entries in index order, each as its four channels.
    closed spec fn view(&self) -> Seq<Seq<u8>> {
        Seq::new(256, |i: int| self.0[i]@)
    }
}

proof fn lemma_channel_bits(b: u8)
    ensures
        b & 3 == b % 4,
        (b >> 2u8) & 3 == (b / 4) % 4,
        (b >> 4u8) & 3 == (b / 16) % 4,
        (b >> 6u8) & 3 == (b / 64) % 4,
{
    assert(b & 3 == b % 4 && (b >> 2u8) & 3 == (b / 4) % 4 && (b >> 4u8) & 3 == (b / 16) % 4
        && (b >> 6u8) & 3 == (b / 64) % 4) by (bit_vector);
}

impl VoxelColors {
    /// The palette that holds every colour whose four channels each take one
    /// of the values 0, 85, 170 and 255.
    pub fn all_color() -> (r: VoxelColors)
        ensures
            r@ == all_color_table(),
    {
        let mut table: [[u8; 4]; 256] = [[0u8; 4]; 256];
        let mut i: usize = 0;
        while i < 256
            invariant
                i <= 256,
                forall|j: int, c: int| 0 <= j < i && 0 <= c < 4 ==> #[trigger] table[j]@[c] == channel_value(j, c),
            decreases 256 - i,
        {
            let b = i as u8;
            proof {
                lemma_channel_bits(b);
            }
            let entry: [u8; 4] = [(b & 3) * 85, (b >> 2u8 & 3) * 85, (b >> 4u8 & 3) * 85, (b >> 6u8 & 3) * 85];
            assert(entry@[0] == channel_value(i as int, 0));
            assert(entry@[1] == channel_value(i as int, 1));
            assert(entry@[2] == channel_value(i as int, 2));
            assert(entry@[3] == channel_value(i as int, 3));
            table[i] = entry;
            i = i + 1;
        }
        let r = VoxelColors(table);
        assert forall|j: int| 0 <= j < 256 implies #[trigger] r@[j] == all_color_table()[j] by {
            assert(r@[j] =~= all_color_table()[j]);
        }
        assert(r@ =~= all_color_table());
        r
    }

    /// The entries in index order.
    pub fn colors(&self) -> (r: &[[u8; 4]; 256])
        ensures
            self@.len() == 256,
            forall|i: int| 0 <= i < 256 ==> (#[trigger] r[i])@ == self@[i],
            forall|i: int| 0 <= i < 256 ==> (#[trigger] self@[i]).len() == 4,
    {
        &self.0
    }
}

/// Generating the palette is deterministic: any two palettes that
/// `VoxelColors::all_color` returns are equal, and channel `c` of entry `i`
/// is bits `2c` and `2c + 1` of `i`, times 85.
pub proof fn lemma_all_color_deterministic(a: VoxelColors, b: VoxelColors)
    requires
        a@ == all_color_table(),
        b@ == all_color_table(),
    ensures
        a@ == b@,
        forall|i: int, c: int| 0 <= i < 256 && 0 <= c < 4 ==> (#[trigger] a@[i][c]) as int == (i / channel_shift(c)) % 4 * 85,
{
    assert forall|i: int, c: int| 0 <= i < 256 && 0 <= c < 4 implies (#[trigger] a@[i][c]) as int == (i / channel_shift(c)) % 4 * 85 by {
        assert(0 <= (i / channel_shift(c)) % 4 < 4);
    }
}

} // verus!
