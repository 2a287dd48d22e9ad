//! The render mesh of the grid: two triangles per grid cell, wound alike.
use vstd::prelude::*;

verus! {

/// Index of the vertex at `(row, col)` on a grid with `r` vertices a side.
pub open spec fn grid_index(r: int, row: int, col: int) -> int {
    row * r + col
}

/// Entry `t` of the index list: cell `t / 6`, taken row by row over the
/// `(r - 1) * (r - 1)` cells, contributes the triangles
/// `(a, a + 1, a + r)` and `(a + 1, a + r + 1, a + r)` where `a` is the
/// cell's top-left vertex.
pub open spec fn triangle_entry(r: int, t: int) -> int {
    let cell = t / 6;
    let a = grid_index(r, cell / (r - 1), cell % (r - 1));
    let corner = t % 6;
    if corner == 0 {
        a
    } else if corner == 1 || corner == 3 {
        a + 1
    } else if corner == 4 {
        a + r + 1
    } else {
        a + r
    }
}

/// The whole index list of a grid with `r` vertices a side.
pub open spec fn triangle_list(r: int) -> Seq<u32> {
    Seq::new((6 * ((r - 1) * (r - 1))) as nat, |t: int| triangle_entry(r, t) as u32)
}

/// Whether the index list of a grid of side `r` fits in memory with `u32` entries.
pub open spec fn mesh_fits(r: int) -> bool {
    2 <= r && r * r <= u32::MAX && 6 * ((r - 1) * (r - 1)) <= usize::MAX
}

/// The row and column of vertex `v` on a grid with `r` vertices a side.
pub fn vertex_cell(r: u32, v: u32) -> (rc: (u32, u32))
    requires
        r > 0,
    ensures
        rc.0 == v / r,
        rc.1 == v % r,
{
    (v / r, v % r)
}

proof fn lemma_entry_split(r: int, i: int, j: int, c: int)
    requires
        r >= 2,
        0 <= i < r - 1,
        0 <= j < r - 1,
        0 <= c < 6,
    ensures
        (6 * (i * (r - 1) + j) + c) / 6 == i * (r - 1) + j,
        (6 * (i * (r - 1) + j) + c) % 6 == c,
        (i * (r - 1) + j) / (r - 1) == i,
        (i * (r - 1) + j) % (r - 1) == j,
        0 <= i * r + j,
        (i + 1) * r + j + 1 < r * r,
        i * r + j + r + 1 < r * r,
        0 <= i * r <= r * r,
        i * (r - 1) + j + 1 <= (r - 1) * (r - 1),
{
    let cell = i * (r - 1) + j;
    vstd::arithmetic::div_mod::lemma_fundamental_div_mod_converse(6 * cell + c, 6, cell, c);
    vstd::arithmetic::div_mod::lemma_fundamental_div_mod_converse(cell, r - 1, i, j);
    assert((i + 1) * r + j + 1 < r * r && 0 <= i * r + j && i * r + j + r + 1 < r * r && 0 <= i
        * r <= r * r && i * (r - 1) + j + 1 <= (r - 1) * (r - 1)) by (nonlinear_arith)
        requires
            r >= 2,
            0 <= i < r - 1,
            0 <= j < r - 1,
    ;
}

/// Builds the triangle index list of a grid with `r` vertices a side:
/// `6 * (r - 1) * (r - 1)` entries, every one a vertex of the grid.
pub fn triangle_indices(r: u32) -> (out: Vec<u32>)
    requires
        mesh_fits(r as int),
    ensures
        out@ == triangle_list(r as int),
        forall|t: int| 0 <= t < out@.len() ==> out@[t] < r * r,
{
    let cells: u32 = r - 1;
    let mut out: Vec<u32> = Vec::new();
    let mut i: u32 = 0;
    while i < cells
        invariant
            mesh_fits(r as int),
            cells == r - 1,
            i <= cells,
            out@.len() == 6 * (i * (r - 1)),
            forall|t: int| 0 <= t < out@.len() ==> out@[t] == triangle_entry(r as int, t) as u32,
            forall|t: int| 0 <= t < out@.len() ==> out@[t] < r * r,
        decreases cells - i,
    {
        let mut j: u32 = 0;
        while j < cells
            invariant
                mesh_fits(r as int),
                cells == r - 1,
                i < cells,
                j <= cells,
                out@.len() == 6 * (i * (r - 1) + j),
                forall|t: int|
                    0 <= t < out@.len() ==> out@[t] == triangle_entry(r as int, t) as u32,
                forall|t: int| 0 <= t < out@.len() ==> out@[t] < r * r,
            decreases cells - j,
        {
            proof {
                lemma_entry_split(r as int, i as int, j as int, 0);
                lemma_entry_split(r as int, i as int, j as int, 1);
                lemma_entry_split(r as int, i as int, j as int, 2);
                lemma_entry_split(r as int, i as int, j as int, 3);
                lemma_entry_split(r as int, i as int, j as int, 4);
                lemma_entry_split(r as int, i as int, j as int, 5);
            }
            let a: u32 = i * r + j;
            let below: u32 = a + r;
            out.push(a);
            out.push(a + 1);
            out.push(below);
            out.push(a + 1);
            out.push(below + 1);
            out.push(below);
            j = j + 1;
        }
        proof {
            assert(i * (r - 1) + (r - 1) == (i + 1) * (r - 1)) by (nonlinear_arith);
        }
        i = i + 1;
    }
    assert(out@ =~= triangle_list(r as int));
    out
}

} // verus!
