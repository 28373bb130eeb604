//! Mesh data for the colored instanced renderer: the hexagon's triangle-fan
//! index list and the grid of per-instance transforms.
//!
//! Geometry is stated in hundredths of a unit (fixed point), so the grid's
//! scale and spacing are exact plain integers; the unverified shell divides
//! by one hundred when it fills the GPU-side transform matrices.

use vstd::prelude::*;
use vstd::arithmetic::div_mod::lemma_fundamental_div_mod_converse;
use vstd::arithmetic::div_mod::lemma_mod_pos_bound;
use vstd::arithmetic::div_mod::lemma_multiply_divide_lt;

verus! {

/// The hexagon's index list: a fan of four triangles, every triangle
/// starting at the shared apex vertex 0, covering the six vertices.
pub open spec fn hexagon_index_seq() -> Seq<u16> {
    seq![0u16, 1u16, 2u16, 0u16, 2u16, 3u16, 0u16, 3u16, 4u16, 0u16, 4u16, 5u16]
}

/// Builds the hexagon's index buffer contents (16-bit indices).
pub fn hexagon_indices() -> (r: Vec<u16>)
    ensures
        r@ == hexagon_index_seq(),
{
    let mut r: Vec<u16> = Vec::new();
    r.push(0);
    r.push(1);
    r.push(2);
    r.push(0);
    r.push(2);
    r.push(3);
    r.push(0);
    r.push(3);
    r.push(4);
    r.push(0);
    r.push(4);
    r.push(5);
    proof {
        assert(r@ =~= hexagon_index_seq());
    }
    r
}

/// The index list always holds exactly twelve indices (four triangles of
/// three), every index names one of the hexagon's six vertices, and vertex
/// 0 opens every triangle: it is the shared apex of the fan.
pub proof fn lemma_hexagon_index_properties()
    ensures
        hexagon_index_seq().len() == 12,
        forall|i: int| 0 <= i < 12 ==> #[trigger] hexagon_index_seq()[i] < 6,
        forall|i: int| 0 <= i < 12 && i % 3 == 0 ==> #[trigger] hexagon_index_seq()[i] == 0,
{
    assert forall|i: int| 0 <= i < 12 implies #[trigger] hexagon_index_seq()[i] < 6 by {
        assert(hexagon_index_seq()[i] < 6);
    }
    assert forall|i: int| 0 <= i < 12 && i % 3 == 0 implies #[trigger] hexagon_index_seq()[i]
        == 0 by {
        assert(hexagon_index_seq()[i] == 0);
    }
}

/// One copy of the mesh in the instance grid: the per-instance transform
/// matrix reduced to its content, a uniform diagonal scale on x, y and z
/// and a translation in the x/y plane, both in hundredths of a unit.
#[derive(Clone, Copy, Debug, PartialEq, Eq, Structural)]
pub struct GridTransform {
    /// Uniform scale factor, in hundredths.
    pub scale: u64,
    /// Translation along x, in hundredths.
    pub tx: u64,
    /// Translation along y, in hundredths.
    pub ty: u64,
}

/// The transform of grid cell `(x, y)`: every instance carries the same
/// scale and sits at `(x * displacement, y * displacement)`.
pub open spec fn spec_grid_transform(x: int, y: int, displacement: u64, scale: u64) -> GridTransform {
    GridTransform { scale, tx: (x * displacement) as u64, ty: (y * displacement) as u64 }
}

/// Builds the per-instance transforms of a `side` x `side` grid, spaced by
/// `displacement` and scaled by `scale` (both in hundredths of a unit).
/// Cell `(x, y)` lands at position `x * side + y`, x varying slowest, as
/// the instance buffer expects.
pub fn instance_grid(side: usize, displacement: u64, scale: u64) -> (r: Vec<GridTransform>)
    requires
        side <= 0xFFFF,
        displacement <= 0xFFFF_FFFF,
    ensures
        r@.len() == side * side,
        forall|x: int, y: int|
            0 <= x < side && 0 <= y < side ==> r@[x * side + y] == spec_grid_transform(
                x,
                y,
                displacement,
                scale,
            ),
{
    proof {
        assert(side * side <= 0xFFFF * 0xFFFF) by (nonlinear_arith)
            requires
                side <= 0xFFFF;
    }
    let total: usize = side * side;
    let mut r: Vec<GridTransform> = Vec::new();
    let mut k: usize = 0;
    while k < total
        invariant
            total == side * side,
            side <= 0xFFFF,
            displacement <= 0xFFFF_FFFF,
            k <= total,
            r@.len() == k,
            forall|j: int|
                0 <= j < k ==> r@[j] == spec_grid_transform(
                    j / (side as int),
                    j % (side as int),
                    displacement,
                    scale,
                ),
        decreases total - k,
    {
        proof {
            assert(side > 0) by (nonlinear_arith)
                requires
                    k < total,
                    total == side * side,
                    0 <= k,
                    0 <= side;
            lemma_multiply_divide_lt(k as int, side as int, side as int);
            lemma_mod_pos_bound(k as int, side as int);
            let q = k as int / side as int;
            let m = k as int % side as int;
            assert(q * displacement <= 0xFFFF * 0xFFFF_FFFF) by (nonlinear_arith)
                requires
                    0 <= q,
                    q < 0x1_0000,
                    displacement <= 0xFFFF_FFFF;
            assert(m * displacement <= 0xFFFF * 0xFFFF_FFFF) by (nonlinear_arith)
                requires
                    0 <= m,
                    m < 0x1_0000,
                    displacement <= 0xFFFF_FFFF;
        }
        let x: usize = k / side;
        let y: usize = k % side;
        let tx: u64 = (x as u64) * displacement;
        let ty: u64 = (y as u64) * displacement;
        r.push(GridTransform { scale, tx, ty });
        k = k + 1;
    }
    assert forall|x: int, y: int| 0 <= x < side && 0 <= y < side implies r@[x * side + y]
        == spec_grid_transform(x, y, displacement, scale) by {
        let j = x * side + y;
        assert(0 <= j && j < side * side) by (nonlinear_arith)
            requires
                0 <= x,
                x < side,
                0 <= y,
                y < side,
                j == x * side + y;
        lemma_fundamental_div_mod_converse(j, side as int, x, y);
    }
    r
}

} // verus!
