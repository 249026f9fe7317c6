//! The integer side of the terrain mesh: the square grid of vertices and
//! the index buffer that splits each grid cell into two triangles.
use vstd::prelude::*;
use vstd::arithmetic::div_mod::lemma_fundamental_div_mod_converse;

verus! {

/// The index of the vertex in column `x` and row `z` of a grid with
/// `size` cells, hence `size + 1` vertices, per side.
pub open spec fn grid_vertex(size: int, x: int, z: int) -> int {
    z * (size + 1) + x
}

/// Entry `t` (`0..6`) of the two triangles of the cell in column `x` and
/// row `z`: first (corner, corner below, corner right), then (corner right,
/// corner below, corner below right).
pub open spec fn cell_entry(size: int, x: int, z: int, t: int) -> int {
    let i = grid_vertex(size, x, z);
    let right = i + 1;
    let down = i + size + 1;
    let down_right = down + 1;
    if t == 0 {
        i
    } else if t == 1 {
        down
    } else if t == 2 {
        right
    } else if t == 3 {
        right
    } else if t == 4 {
        down
    } else {
        down_right
    }
}

/// Entry `m` of the index buffer of a grid with `size` cells per side: six
/// entries per cell, the cells taken row by row.
pub open spec fn index_entry(size: int, m: int) -> int {
    let cell = m / 6;
    cell_entry(size, cell % size, cell / size, m % 6)
}

proof fn lemma_cell_bounds(size: int, x: int, z: int)
    requires
        0 <= x < size,
        0 <= z < size,
    ensures
        grid_vertex(size, x, z) + size + 3 <= (size + 1) * (size + 1),
        (size + 1) * (size + 1) <= size * size * 6 + 1,
        6 * (z * size + x) + 6 <= 6 * size * size,
        0 <= z * size + x,
{
    assert(z * (size + 1) + x + size + 3 <= (size + 1) * (size + 1)) by (nonlinear_arith)
        requires
            0 <= x < size,
            0 <= z < size,
    ;
    assert((size + 1) * (size + 1) <= size * size * 6 + 1) by (nonlinear_arith)
        requires
            1 <= size,
    ;
    assert(6 * (z * size + x) + 6 <= 6 * size * size) by (nonlinear_arith)
        requires
            0 <= x < size,
            0 <= z < size,
    ;
    assert(0 <= z * size + x) by (nonlinear_arith)
        requires
            0 <= x,
            0 <= z,
            0 <= size,
    ;
}

/// Entry `6 * (z * size + x) + t` of the buffer is entry `t` of cell
/// `(x, z)`.
proof fn lemma_entry_of_cell(size: int, x: int, z: int, t: int)
    requires
        0 <= x < size,
        0 <= z < size,
        0 <= t < 6,
    ensures
        index_entry(size, 6 * (z * size + x) + t) == cell_entry(size, x, z, t),
{
    let k = z * size + x;
    lemma_fundamental_div_mod_converse(6 * k + t, 6, k, t);
    lemma_fundamental_div_mod_converse(k, size, z, x);
}

/// The six entries the index buffer holds for the cell in column `x` and
/// row `z`, with `i = z * (size + 1) + x` its top-left corner: the triangle
/// `(i, i + size + 1, i + 1)` and then the triangle `(i + 1, i + size + 1,
/// i + size + 2)`, both wound the same way.
pub proof fn lemma_cell_entries(size: int, x: int, z: int)
    requires
        0 <= x < size,
        0 <= z < size,
    ensures
        ({
            let c = 6 * (z * size + x);
            let i = z * (size + 1) + x;
            &&& index_entry(size, c) == i
            &&& index_entry(size, c + 1) == i + size + 1
            &&& index_entry(size, c + 2) == i + 1
            &&& index_entry(size, c + 3) == i + 1
            &&& index_entry(size, c + 4) == i + size + 1
            &&& index_entry(size, c + 5) == i + size + 2
        }),
{
    lemma_entry_of_cell(size, x, z, 0);
    lemma_entry_of_cell(size, x, z, 1);
    lemma_entry_of_cell(size, x, z, 2);
    lemma_entry_of_cell(size, x, z, 3);
    lemma_entry_of_cell(size, x, z, 4);
    lemma_entry_of_cell(size, x, z, 5);
}

/// The triangle index buffer of a square grid with `size` cells per side:
/// each cell, row by row, is split into two triangles that share the
/// diagonal from the corner right to the corner below.
pub fn grid_triangle_indices(size: u32) -> (indices: Vec<u32>)
    requires
        size * size * 6 <= u32::MAX,
    ensures
        indices@.len() == 6 * size * size,
        forall|m: int|
            0 <= m < indices@.len() ==> #[trigger] indices@[m] == index_entry(size as int, m),
        forall|x: int, z: int, t: int|
            0 <= x < size && 0 <= z < size && 0 <= t < 6 ==> indices@[6 * (z * size + x) + t]
                == #[trigger] cell_entry(size as int, x, z, t),
        forall|m: int|
            0 <= m < indices@.len() ==> #[trigger] indices@[m] < (size + 1) * (size + 1),
        forall|x: int, z: int|
            0 <= x < size && 0 <= z < size ==> {
                let c = #[trigger] (6 * (z * size + x));
                let i = z * (size + 1) + x;
                &&& indices@[c] == i
                &&& indices@[c + 1] == i + size + 1
                &&& indices@[c + 2] == i + 1
                &&& indices@[c + 3] == i + 1
                &&& indices@[c + 4] == i + size + 1
                &&& indices@[c + 5] == i + size + 2
            },
{
    let ghost sz = size as int;
    assert(size < u32::MAX) by (nonlinear_arith)
        requires
            size * size * 6 <= u32::MAX,
    ;
    let verts_per_side = size + 1;
    let mut indices: Vec<u32> = Vec::new();
    let mut z: u32 = 0;
    while z < size
        invariant
            sz == size,
            size * size * 6 <= u32::MAX,
            verts_per_side == size + 1,
            z <= size,
            indices@.len() == 6 * (z * size),
            forall|m: int| 0 <= m < indices@.len() ==> #[trigger] indices@[m] == index_entry(sz, m),
        decreases size - z,
    {
        let mut x: u32 = 0;
        while x < size
            invariant
                sz == size,
                size * size * 6 <= u32::MAX,
                verts_per_side == size + 1,
                z < size,
                x <= size,
                indices@.len() == 6 * (z * size + x),
                forall|m: int|
                    0 <= m < indices@.len() ==> #[trigger] indices@[m] == index_entry(sz, m),
            decreases size - x,
        {
            proof {
                lemma_cell_bounds(sz, x as int, z as int);
                assert(z * verts_per_side + x + verts_per_side + 1 <= u32::MAX) by (nonlinear_arith)
                    requires
                        verts_per_side == size + 1,
                        z * (size + 1) + x + size + 3 <= (size + 1) * (size + 1),
                        (size + 1) * (size + 1) <= size * size * 6 + 1,
                        size * size * 6 <= u32::MAX,
                ;
            }
            let i = z * verts_per_side + x;
            let i_right = i + 1;
            let i_down = i + verts_per_side;
            let i_down_right = i_down + 1;

            let ghost base = indices@.len() as int;
            indices.push(i);
            indices.push(i_down);
            indices.push(i_right);
            indices.push(i_right);
            indices.push(i_down);
            indices.push(i_down_right);
            proof {
                assert forall|t: int| 0 <= t < 6 implies #[trigger] indices@[base + t]
                    == index_entry(sz, base + t) by {
                    lemma_entry_of_cell(sz, x as int, z as int, t);
                }
                assert forall|m: int| 0 <= m < indices@.len() implies #[trigger] indices@[m]
                    == index_entry(sz, m) by {
                    if m >= base {
                        assert(indices@[base + (m - base)] == index_entry(sz, base + (m - base)));
                    }
                }
                assert(6 * (z * size + x) + 6 == 6 * (z * size + (x + 1))) by (nonlinear_arith);
            }
            x = x + 1;
        }
        assert(6 * (z * size + size) == 6 * ((z + 1) * size)) by (nonlinear_arith);
        z = z + 1;
    }
    proof {
        assert(indices@.len() == 6 * sz * sz) by (nonlinear_arith)
            requires
                indices@.len() == 6 * (sz * sz),
        ;
        assert forall|x: int, z: int, t: int|
            0 <= x < size && 0 <= z < size && 0 <= t < 6 implies indices@[6 * (z * size + x) + t]
            == #[trigger] cell_entry(sz, x, z, t) by {
            lemma_cell_bounds(sz, x, z);
            lemma_entry_of_cell(sz, x, z, t);
            assert(0 <= 6 * (z * size + x) + t < indices@.len());
            assert(indices@[6 * (z * size + x) + t] == index_entry(sz, 6 * (z * size + x) + t));
        }
        assert forall|x: int, z: int| 0 <= x < size && 0 <= z < size implies {
            let c = #[trigger] (6 * (z * size + x));
            let i = z * (size + 1) + x;
            &&& indices@[c] == i
            &&& indices@[c + 1] == i + size + 1
            &&& indices@[c + 2] == i + 1
            &&& indices@[c + 3] == i + 1
            &&& indices@[c + 4] == i + size + 1
            &&& indices@[c + 5] == i + size + 2
        } by {
            lemma_cell_entries(sz, x, z);
            lemma_cell_bounds(sz, x, z);
            let c = 6 * (z * size + x);
            assert(indices@[c + 0] == index_entry(sz, c + 0));
            assert(indices@[c + 1] == index_entry(sz, c + 1));
            assert(indices@[c + 2] == index_entry(sz, c + 2));
            assert(indices@[c + 3] == index_entry(sz, c + 3));
            assert(indices@[c + 4] == index_entry(sz, c + 4));
            assert(indices@[c + 5] == index_entry(sz, c + 5));
        }
        assert forall|m: int| 0 <= m < indices@.len() implies #[trigger] indices@[m] < (size + 1) * (
        size + 1) by {
            let cell = m / 6;
            let t = m % 6;
            let cz = cell / sz;
            let cx = cell % sz;
            assert(0 <= cell < sz * sz) by (nonlinear_arith)
                requires
                    0 <= m < 6 * sz * sz,
                    cell == m / 6,
            ;
            assert(0 <= cz < sz && 0 <= cx < sz) by (nonlinear_arith)
                requires
                    0 <= cell < sz * sz,
                    cz == cell / sz,
                    cx == cell % sz,
                    sz > 0,
            ;
            lemma_cell_bounds(sz, cx, cz);
            assert(indices@[m] == index_entry(sz, m));
            assert(index_entry(sz, m) == cell_entry(sz, cx, cz, t));
            assert(cell_entry(sz, cx, cz, t) <= grid_vertex(sz, cx, cz) + sz + 2);
        }
    }
    indices
}

} // verus!
