//! Byte layouts of the GPU buffers that mirror a voxel grid and the palette.
//!
//! A voxel buffer starts with a 16-byte header that holds the grid's
//! dimension as three little-endian `u32` values followed by four bytes of
//! padding (on the GPU side a three-component vector is aligned to 16 bytes),
//! and continues with one byte per cell in flat index order. Its size is
//! fixed when it is made; an update overwrites the cells and is refused for a
//! grid of any other dimension.
use vstd::prelude::*;
use crate::grid::{cell_count, UVec3, Voxel};
use crate::palette::VoxelColors;

verus! {

/// Size in bytes of the dimension header that precedes the cells.
pub const HEADER_SIZE: u64 = 16;

/// Size in bytes of the palette buffer: 256 entries of 4 bytes.
pub const PALETTE_BUFFER_SIZE: u64 = 1024;

/// The four bytes of `v`, least significant first.
pub open spec fn le_bytes(v: u32) -> Seq<u8> {
    seq![
        (v % 256) as u8,
        (v / 256 % 256) as u8,
        (v / 65536 % 256) as u8,
        (v / 16777216) as u8,
    ]
}

/// The header of a voxel buffer for a grid of dimension `d`.
pub open spec fn header_bytes(d: UVec3) -> Seq<u8> {
    le_bytes(d.x) + le_bytes(d.y) + le_bytes(d.z) + seq![0u8, 0u8, 0u8, 0u8]
}

/// The palette buffer's contents: the entries in index order, four channel
/// bytes each.
pub open spec fn palette_bytes(p: Seq<Seq<u8>>) -> Seq<u8> {
    Seq::new(p.len() * 4, |k: int| p[k / 4][k % 4])
}

/// Why a buffer refused an update.
#[derive(Clone, Copy, Debug, PartialEq, Eq, Structural)]
pub enum BufferError {
    /// The grid's dimension differs from the one the buffer was made for.
    DimensionMismatch { buffer: UVec3, voxel: UVec3 },
}

/// The CPU-side description of the GPU buffer that mirrors one voxel grid.
#[derive(Clone, Copy, Debug, PartialEq, Eq, Structural)]
pub struct VoxelBuffer {
    dimension: UVec3,
}

fn push_le_bytes(out: &mut Vec<u8>, v: u32)
    ensures
        final(out)@ == old(out)@ + le_bytes(v),
{
    out.push((v % 256) as u8);
    out.push((v / 256 % 256) as u8);
    out.push((v / 65536 % 256) as u8);
    out.push((v / 16777216) as u8);
    assert(out@ =~= old(out)@ + le_bytes(v));
}

impl VoxelBuffer {
    /// The dimension the buffer was made for.
    pub closed spec fn dim(&self) -> UVec3 {
        self.dimension
    }

    /// Describes the buffer for grids of dimension `dimension`.
    pub fn new(dimension: UVec3) -> (r: VoxelBuffer)
        requires
            cell_count(dimension) + HEADER_SIZE <= u64::MAX,
        ensures
            r.dim() == dimension,
    {
        VoxelBuffer { dimension }
    }

    /// The dimension the buffer was made for.
    pub fn dimension(&self) -> (r: UVec3)
        ensures
            r == self.dim(),
    {
        self.dimension
    }

    /// Size of the buffer in bytes: the header, then one byte per cell.
    pub fn size(&self) -> (r: u64)
        requires
            cell_count(self.dim()) + HEADER_SIZE <= u64::MAX,
        ensures
            r == cell_count(self.dim()) + HEADER_SIZE,
    {
        let (dx, dy, dz) = (self.dimension.x as u64, self.dimension.y as u64, self.dimension.z as u64);
        proof {
            assert(dx * dy <= u64::MAX && dx * dy * dz <= u64::MAX) by (nonlinear_arith)
                requires dx * dy * dz + 16 <= u64::MAX, dx <= u32::MAX, dy <= u32::MAX;
        }
        dx * dy * dz + HEADER_SIZE
    }

    /// The header bytes, written once at offset 0 when the buffer is made.
    pub fn header(&self) -> (r: Vec<u8>)
        ensures
            r@ == header_bytes(self.dim()),
            r@.len() == HEADER_SIZE,
    {
        let mut out: Vec<u8> = Vec::new();
        push_le_bytes(&mut out, self.dimension.x);
        push_le_bytes(&mut out, self.dimension.y);
        push_le_bytes(&mut out, self.dimension.z);
        out.push(0u8);
        out.push(0u8);
        out.push(0u8);
        out.push(0u8);
        assert(out@ =~= header_bytes(self.dim()));
        out
    }

    /// The write that brings the buffer in line with `voxel`: the offset at
    /// which its cells go and the bytes themselves, which end exactly where
    /// the buffer ends. Refused when the grid's dimension is not the
    /// buffer's.
    pub fn update<'a>(&self, voxel: &'a Voxel) -> (r: Result<(u64, &'a [u8]), BufferError>)
        requires
            voxel.wf(),
        ensures
            r.is_ok() == (voxel.dim() == self.dim()),
            r matches Ok((offset, bytes)) ==> {
                &&& offset == HEADER_SIZE
                &&& bytes@ == voxel@
                &&& offset + bytes@.len() == cell_count(self.dim()) + HEADER_SIZE
            },
            r matches Err(e) ==> e == (BufferError::DimensionMismatch { buffer: self.dim(), voxel: voxel.dim() }),
    {
        let vd = voxel.dimension();
        if self.dimension != vd {
            return Err(BufferError::DimensionMismatch { buffer: self.dimension, voxel: vd });
        }
        Ok((HEADER_SIZE, voxel.as_bytes()))
    }
}

impl VoxelColors {
    /// The palette as the bytes of its GPU buffer: entry `i` at offset
    /// `4 * i`, channels in order.
    pub fn to_bytes(&self) -> (r: Vec<u8>)
        ensures
            r@ == palette_bytes(self@),
            r@.len() == PALETTE_BUFFER_SIZE,
    {
        let colors = self.colors();
        let mut out: Vec<u8> = Vec::new();
        let mut i: usize = 0;
        while i < 256
            invariant
                i <= 256,
                forall|j: int| 0 <= j < 256 ==> (#[trigger] colors[j])@ == self@[j],
                forall|j: int| 0 <= j < 256 ==> (#[trigger] self@[j]).len() == 4,
                out@ =~= palette_bytes(self@.take(i as int)),
                self@.len() == 256,
            decreases 256 - i,
        {
            let entry = colors[i];
            let mut c: usize = 0;
            while c < 4
                invariant
                    c <= 4,
                    i < 256,
                    entry@ == self@[i as int],
                    self@[i as int].len() == 4,
                    out@.len() == 4 * i + c,
                    out@.take(4 * i) =~= palette_bytes(self@.take(i as int)),
                    forall|k: int| 0 <= k < c ==> out@[4 * i + k] == entry@[k],
                decreases 4 - c,
            {
                out.push(entry[c]);
                c = c + 1;
            }
            assert forall|k: int| 0 <= k < 4 * (i + 1) implies #[trigger] out@[k] == palette_bytes(self@.take(i + 1))[k] by {
                if k < 4 * i {
                    assert(out@[k] == out@.take(4 * i)[k]);
                } else {
                    assert(k / 4 == i && k % 4 == k - 4 * i);
                }
            }
            assert(out@ =~= palette_bytes(self@.take(i + 1)));
            i = i + 1;
        }
        assert(self@.take(256) =~= self@);
        out
    }
}

} // verus!
