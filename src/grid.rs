//! A dense three-dimensional grid of one-byte cells.
//!
//! Cells are laid out flat, x fastest: the cell at `(x, y, z)` of a grid of
//! dimension `(dx, dy, dz)` stands at index `x + y * dx + z * dx * dy`.
use vstd::prelude::*;
use vstd::arithmetic::div_mod::{lemma_fundamental_div_mod, lemma_fundamental_div_mod_converse};

verus! {

/// An unsigned three-component vector: a grid dimension or a cell position.
#[derive(Clone, Copy, Debug, PartialEq, Eq, Structural)]
pub struct UVec3 {
    pub x: u32,
    pub y: u32,
    pub z: u32,
}

/// Builds a `UVec3` from its components.
pub fn uvec3(x: u32, y: u32, z: u32) -> (r: UVec3)
    ensures
        r == (UVec3 { x, y, z }),
{
    UVec3 { x, y, z }
}

/// Number of cells of a grid of dimension `d`.
pub open spec fn cell_count(d: UVec3) -> nat {
    (d.x as nat) * (d.y as nat) * (d.z as nat)
}

/// Number of cells of a grid of dimension `d`, or `None` when it does not
/// fit in a `u64`.
pub fn cell_count_of(d: UVec3) -> (r: Option<u64>)
    ensures
        r == (if cell_count(d) <= u64::MAX {
            Some(cell_count(d) as u64)
        } else {
            None::<u64>
        }),
{
    proof {
        let (x, y) = (d.x as int, d.y as int);
        assert(x * y <= u64::MAX) by (nonlinear_arith)
            requires 0 <= x <= u32::MAX, 0 <= y <= u32::MAX;
    }
    let xy = d.x as u64 * d.y as u64;
    xy.checked_mul(d.z as u64)
}

/// Whether position `p` names a cell of a grid of dimension `d`.
pub open spec fn in_bounds(d: UVec3, p: UVec3) -> bool {
    p.x < d.x && p.y < d.y && p.z < d.z
}

/// Flat index of position `p` in a grid of dimension `d`.
pub open spec fn index_of(d: UVec3, p: UVec3) -> int {
    p.x + p.y * d.x + p.z * d.x * d.y
}

/// Position of the cell at flat index `i` in a grid of dimension `d`.
pub open spec fn position_of(d: UVec3, i: int) -> UVec3 {
    UVec3 {
        x: (i % (d.x as int)) as u32,
        y: ((i / (d.x as int)) % (d.y as int)) as u32,
        z: (i / (d.x as int) / (d.y as int)) as u32,
    }
}

/// The positions of a grid of dimension `d` in the order `for_each_mut`
/// visits them.
pub open spec fn visit_order(d: UVec3) -> Seq<UVec3> {
    Seq::new(cell_count(d), |i: int| position_of(d, i))
}

proof fn lemma_index_in_range(d: UVec3, p: UVec3)
    requires
        in_bounds(d, p),
    ensures
        0 <= index_of(d, p) < cell_count(d),
{
    let (x, y, z, dx, dy, dz) = (p.x as int, p.y as int, p.z as int, d.x as int, d.y as int, d.z as int);
    assert(0 <= x + y * dx + z * dx * dy) by (nonlinear_arith)
        requires 0 <= x, 0 <= y, 0 <= z, 0 <= dx, 0 <= dy;
    assert(x + y * dx + z * dx * dy < dx * dy * dz) by (nonlinear_arith)
        requires 0 <= x < dx, 0 <= y < dy, 0 <= z < dz;
}

/// Every in-bounds position maps to an index of the grid, and that index
/// maps back to the same position.
pub proof fn lemma_get_index_then_get_position(d: UVec3, p: UVec3)
    requires
        in_bounds(d, p),
    ensures
        0 <= index_of(d, p) < cell_count(d),
        position_of(d, index_of(d, p)) == p,
{
    lemma_index_in_range(d, p);
    let (x, y, z, dx, dy) = (p.x as int, p.y as int, p.z as int, d.x as int, d.y as int);
    let i = index_of(d, p);
    let q = y + z * dy;
    assert(i == q * dx + x) by (nonlinear_arith)
        requires i == x + y * dx + z * dx * dy, q == y + z * dy;
    lemma_fundamental_div_mod_converse(i, dx, q, x);
    assert(q == z * dy + y);
    lemma_fundamental_div_mod_converse(q, dy, z, y);
}

/// Every index of the grid maps to an in-bounds position, and that position
/// maps back to the same index.
pub proof fn lemma_get_position_then_get_index(d: UVec3, i: int)
    requires
        0 <= i < cell_count(d),
    ensures
        in_bounds(d, position_of(d, i)),
        index_of(d, position_of(d, i)) == i,
{
    let (dx, dy, dz) = (d.x as int, d.y as int, d.z as int);
    assert(dx > 0 && dy > 0 && dz > 0) by (nonlinear_arith)
        requires 0 <= i < dx * dy * dz, 0 <= dx, 0 <= dy, 0 <= dz;
    let q = i / dx;
    let x = i % dx;
    let y = q % dy;
    let z = q / dy;
    lemma_fundamental_div_mod(i, dx);
    lemma_fundamental_div_mod(q, dy);
    assert(0 <= x < dx && 0 <= q && 0 <= y < dy && 0 <= z) by (nonlinear_arith)
        requires dx > 0, dy > 0, i >= 0, x == i % dx, q == i / dx, y == q % dy, z == q / dy;
    assert(z < dz) by (nonlinear_arith)
        requires i == dx * q + x, q == dy * z + y, 0 <= x < dx, 0 <= y < dy, 0 <= z, i < dx * dy * dz, dx > 0, dy > 0;
    assert(i == x + y * dx + z * dx * dy) by (nonlinear_arith)
        requires i == dx * q + x, q == dy * z + y;
}

/// `for_each_mut` visits exactly as many positions as the grid has cells,
/// each in-bounds position once and no other.
pub proof fn lemma_for_each_mut_visits_each_position_once(d: UVec3)
    ensures
        visit_order(d).len() == cell_count(d),
        visit_order(d).no_duplicates(),
        forall|p: UVec3| in_bounds(d, p) <==> visit_order(d).contains(p),
{
    let s = visit_order(d);
    assert forall|i: int, j: int| 0 <= i < s.len() && 0 <= j < s.len() && i != j implies s[i] != s[j] by {
        lemma_get_position_then_get_index(d, i);
        lemma_get_position_then_get_index(d, j);
    }
    assert forall|p: UVec3| in_bounds(d, p) <==> s.contains(p) by {
        if in_bounds(d, p) {
            lemma_get_index_then_get_position(d, p);
            assert(s[index_of(d, p)] == p);
        }
        if s.contains(p) {
            let i = choose|i: int| 0 <= i < s.len() && s[i] == p;
            lemma_get_position_then_get_index(d, i);
        }
    }
}

/// A voxel grid: one palette index per cell.
pub struct Voxel {
    dimension: UVec3,
    data: Vec<u8>,
}

impl View for Voxel {
    type V = Seq<u8>;

    /// The cells in flat index order.
    closed spec fn view(&self) -> Seq<u8> {
        self.data@
    }
}

impl Voxel {
    /// The dimension the grid was made with.
    pub closed spec fn dim(&self) -> UVec3 {
        self.dimension
    }

    /// The storage holds exactly one cell per position.
    pub closed spec fn wf(&self) -> bool {
        &&& self.data@.len() == cell_count(self.dimension)
        &&& cell_count(self.dimension) <= usize::MAX
    }

    /// The cell at in-bounds position `p`.
    pub open spec fn cell(&self, p: UVec3) -> u8 {
        self@[index_of(self.dim(), p)]
    }

    /// A grid of the given dimension with every cell zero.
    pub fn new(dimension: UVec3) -> (r: Voxel)
        requires
            cell_count(dimension) <= usize::MAX,
        ensures
            r.wf(),
            r.dim() == dimension,
            r@ == Seq::new(cell_count(dimension), |i: int| 0u8),
            forall|p: UVec3| in_bounds(dimension, p) ==> #[trigger] r.cell(p) == 0,
    {
        let n = Self::cell_count_exec(dimension);
        let data = vec![0u8; n];
        let r = Voxel { dimension, data };
        assert(r@ =~= Seq::new(cell_count(dimension), |i: int| 0u8));
        assert forall|p: UVec3| in_bounds(dimension, p) implies #[trigger] r.cell(p) == 0 by {
            lemma_index_in_range(dimension, p);
        }
        r
    }

    fn cell_count_exec(d: UVec3) -> (n: usize)
        requires
            cell_count(d) <= usize::MAX,
        ensures
            n == cell_count(d),
    {
        let (dx, dy, dz) = (d.x as usize, d.y as usize, d.z as usize);
        if dx == 0 || dy == 0 || dz == 0 {
            assert(cell_count(d) == 0) by (nonlinear_arith)
                requires dx == 0 || dy == 0 || dz == 0, cell_count(d) == dx as nat * dy as nat * dz as nat;
            return 0;
        }
        assert(dx * dy <= cell_count(d)) by (nonlinear_arith)
            requires cell_count(d) == dx as nat * dy as nat * dz as nat, dx > 0, dy > 0, dz > 0;
        dx * dy * dz
    }

    /// Flat index of `position` in a grid of dimension `dimension`, or `None`
    /// when the position lies outside it.
    pub fn get_index(dimension: UVec3, position: UVec3) -> (r: Option<usize>)
        requires
            cell_count(dimension) <= usize::MAX,
        ensures
            r == (if in_bounds(dimension, position) {
                Some(index_of(dimension, position) as usize)
            } else {
                None::<usize>
            }),
    {
        let UVec3 { x, y, z } = position;
        let UVec3 { x: dx, y: dy, z: dz } = dimension;
        if x >= dx || y >= dy || z >= dz {
            return None;
        }
        proof {
            lemma_index_in_range(dimension, position);
            let (xi, yi, zi, dxi, dyi) = (x as int, y as int, z as int, dx as int, dy as int);
            assert(yi * dxi <= index_of(dimension, position) && zi * dxi <= zi * dxi * dyi
                && zi * dxi * dyi <= index_of(dimension, position)) by (nonlinear_arith)
                requires 0 <= xi, 0 <= yi, 0 <= zi, dyi >= 1, dxi >= 1,
                    index_of(dimension, position) == xi + yi * dxi + zi * dxi * dyi;
        }
        Some(x as usize + y as usize * dx as usize + z as usize * dx as usize * dy as usize)
    }

    /// Position of the cell at flat `index` in a grid of dimension
    /// `dimension`, or `None` when the index is past its last cell.
    pub fn get_position(dimension: UVec3, index: usize) -> (r: Option<UVec3>)
        requires
            cell_count(dimension) <= usize::MAX,
        ensures
            r == (if index < cell_count(dimension) {
                Some(position_of(dimension, index as int))
            } else {
                None::<UVec3>
            }),
    {
        let n = Self::cell_count_exec(dimension);
        if index >= n {
            return None;
        }
        proof {
            lemma_get_position_then_get_index(dimension, index as int);
        }
        let dx = dimension.x as usize;
        let dy = dimension.y as usize;
        let q = index / dx;
        Some(UVec3 { x: (index % dx) as u32, y: (q % dy) as u32, z: (q / dy) as u32 })
    }

    /// The cell at `position`, or `None` when it lies outside the grid.
    pub fn get(&self, position: UVec3) -> (r: Option<&u8>)
        requires
            self.wf(),
        ensures
            r.is_some() == in_bounds(self.dim(), position),
            r.is_some() ==> *r.unwrap() == self.cell(position),
    {
        match Self::get_index(self.dimension, position) {
            Some(i) => {
                proof { lemma_index_in_range(self.dimension, position); }
                Some(&self.data[i])
            },
            None => None,
        }
    }

    /// A mutable reference to the cell at `position`, or `None` when it lies
    /// outside the grid. Writing through it changes that cell and no other.
    pub fn get_mut(&mut self, position: UVec3) -> (r: Option<&mut u8>)
        requires
            old(self).wf(),
        ensures
            r.is_some() == in_bounds(old(self).dim(), position),
            r.is_some() ==> {
                &&& *r.unwrap() == old(self).cell(position)
                &&& final(self).dim() == old(self).dim()
                &&& final(self).wf()
                &&& final(self)@ == old(self)@.update(index_of(old(self).dim(), position), *final(r.unwrap()))
            },
            r.is_none() ==> *final(self) == *old(self),
    {
        match Self::get_index(self.dimension, position) {
            Some(i) => {
                proof { lemma_index_in_range(self.dimension, position); }
                Some(&mut self.data[i])
            },
            None => None,
        }
    }

    /// Replaces every cell by what `callback` returns for its old value and
    /// its position, visiting the cells in flat index order (x fastest).
    pub fn for_each_mut(&mut self, mut callback: impl FnMut(u8, UVec3) -> u8)
        requires
            old(self).wf(),
            forall|v: u8, p: UVec3| in_bounds(old(self).dim(), p) ==> callback.requires((v, p)),
        ensures
            final(self).wf(),
            final(self).dim() == old(self).dim(),
            forall|i: int| 0 <= i < cell_count(old(self).dim()) ==> callback.ensures(
                (old(self)@[i], #[trigger] visit_order(old(self).dim())[i]),
                final(self)@[i],
            ),
    {
        let d = self.dimension;
        let n = self.data.len();
        if n == 0 {
            return;
        }
        proof {
            assert(d.x > 0 && d.y > 0 && d.z > 0) by (nonlinear_arith)
                requires n == (d.x as nat) * (d.y as nat) * (d.z as nat), n > 0;
        }
        let ghost old_cells = self@;
        let ghost f0 = callback;
        proof {
            assert(index_of(d, UVec3 { x: 0, y: 0, z: 0 }) == 0) by (nonlinear_arith);
        }
        let mut i: usize = 0;
        let mut x: u32 = 0;
        let mut y: u32 = 0;
        let mut z: u32 = 0;
        while i < n
            invariant
                self.dimension == d,
                n == self.data@.len(),
                n == cell_count(d),
                d.x > 0 && d.y > 0 && d.z > 0,
                x < d.x && y < d.y && z <= d.z,
                i <= n,
                i == index_of(d, UVec3 { x, y, z }),
                old_cells == old(self)@,
                callback == f0,
                old_cells.len() == n,
                forall|v: u8, p: UVec3| in_bounds(d, p) ==> callback.requires((v, p)),
                forall|j: int| i <= j < n ==> self.data@[j] == old_cells[j],
                forall|j: int| 0 <= j < i ==> callback.ensures(
                    (old_cells[j], #[trigger] visit_order(d)[j]),
                    self.data@[j],
                ),
            decreases n - i,
        {
            let position = UVec3 { x, y, z };
            proof {
                let (xi, yi, zi, dx, dy, dz) = (x as int, y as int, z as int, d.x as int, d.y as int, d.z as int);
                assert(zi < dz) by (nonlinear_arith)
                    requires i == xi + yi * dx + zi * dx * dy, i < dx * dy * dz, 0 <= xi, 0 <= yi, 0 <= zi <= dz, dx > 0, dy > 0;
                lemma_get_index_then_get_position(d, position);
            }
            let v = callback(self.data[i], position);
            self.data.set(i, v);
            i = i + 1;
            if x + 1 < d.x {
                x = x + 1;
            } else if y + 1 < d.y {
                x = 0;
                y = y + 1;
            } else {
                x = 0;
                y = 0;
                z = z + 1;
            }
            proof {
                let (px, py, pz) = (position.x as int, position.y as int, position.z as int);
                let (xi, yi, zi, dx, dy) = (x as int, y as int, z as int, d.x as int, d.y as int);
                assert(xi + yi * dx + zi * dx * dy == px + py * dx + pz * dx * dy + 1) by (nonlinear_arith)
                    requires
                        (px + 1 < dx && xi == px + 1 && yi == py && zi == pz)
                        || (px + 1 == dx && py + 1 < dy && xi == 0 && yi == py + 1 && zi == pz)
                        || (px + 1 == dx && py + 1 == dy && xi == 0 && yi == 0 && zi == pz + 1);
            }
        }
    }

    /// The cells in flat index order.
    pub fn as_bytes(&self) -> (r: &[u8])
        requires
            self.wf(),
        ensures
            r@ == self@,
            r@.len() == cell_count(self.dim()),
    {
        self.data.as_slice()
    }

    /// Number of cells.
    pub fn len(&self) -> (r: usize)
        requires
            self.wf(),
        ensures
            r == self@.len(),
            r == cell_count(self.dim()),
    {
        self.data.len()
    }

    /// The grid's dimension.
    pub fn dimension(&self) -> (r: UVec3)
        ensures
            r == self.dim(),
    {
        self.dimension
    }

    /// Extent along x.
    pub fn width(&self) -> (r: u32)
        ensures
            r == self.dim().x,
    {
        self.dimension.x
    }

    /// Extent along y.
    pub fn height(&self) -> (r: u32)
        ensures
            r == self.dim().y,
    {
        self.dimension.y
    }

    /// Extent along z.
    pub fn length(&self) -> (r: u32)
        ensures
            r == self.dim().z,
    {
        self.dimension.z
    }
}

} // verus!
