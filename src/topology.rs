//! Spring topology of a square grid of `r * r` vertices.
//!
//! Vertex `v` sits at row `v / r`, column `v % r`. Each vertex owns twelve
//! spring slots, stored contiguously at `[12 * v, 12 * v + 11]`: slots
//! `0..4` are structural, `4..8` shear and `8..12` bend. A slot whose
//! neighbour falls off the grid holds the sentinel index `r * r`.
use vstd::prelude::*;

verus! {

/// Number of spring slots owned by each vertex.
pub const SLOTS_PER_VERTEX: usize = 12;

/// The category of a spring, which selects its stiffness and damping.
#[derive(Clone, Copy, Debug, PartialEq, Eq, Structural)]
pub enum SpringKind {
    /// Structural springs between axis-adjacent neighbours, one grid unit apart.
    Axial,
    /// Diagonal neighbours, `sqrt(2)` grid units apart.
    Shear,
    /// Neighbours two grid units apart along an axis.
    Bend,
}

/// The category that slot `k` of a vertex's block carries.
pub open spec fn slot_kind(k: int) -> SpringKind {
    if k < 4 {
        SpringKind::Axial
    } else if k < 8 {
        SpringKind::Shear
    } else {
        SpringKind::Bend
    }
}

/// Row offset of the neighbour that slot `k` links to.
pub open spec fn slot_row_offset(k: int) -> int {
    if k == 1 || k == 4 || k == 7 {
        -1
    } else if k == 3 || k == 5 || k == 6 {
        1
    } else if k == 9 {
        -2
    } else if k == 11 {
        2
    } else {
        0
    }
}

/// Column offset of the neighbour that slot `k` links to.
pub open spec fn slot_col_offset(k: int) -> int {
    if k == 0 || k == 4 || k == 5 {
        -1
    } else if k == 2 || k == 6 || k == 7 {
        1
    } else if k == 8 {
        -2
    } else if k == 10 {
        2
    } else {
        0
    }
}

/// The index that stands for "no neighbour" on a grid of `r * r` vertices.
pub open spec fn sentinel(r: int) -> int {
    r * r
}

/// Whether a row or column coordinate lies on a grid with `r` vertices a side.
pub open spec fn on_grid(r: int, x: int) -> bool {
    0 <= x < r
}

/// The neighbour index held by slot `k` of vertex `v`, or the sentinel.
pub open spec fn neighbor_of(r: int, v: int, k: int) -> int {
    let row = v / r + slot_row_offset(k);
    let col = v % r + slot_col_offset(k);
    if on_grid(r, row) && on_grid(r, col) {
        row * r + col
    } else {
        sentinel(r)
    }
}

/// The category carried by slot `k` of a vertex's block.
pub fn slot_kind_of(k: usize) -> (kind: SpringKind)
    requires
        k < SLOTS_PER_VERTEX,
    ensures
        kind == slot_kind(k as int),
{
    if k < 4 {
        SpringKind::Axial
    } else if k < 8 {
        SpringKind::Shear
    } else {
        SpringKind::Bend
    }
}

/// The row and column offsets of the neighbour that slot `k` links to.
pub fn slot_offset(k: usize) -> (offset: (i64, i64))
    requires
        k < SLOTS_PER_VERTEX,
    ensures
        offset.0 == slot_row_offset(k as int),
        offset.1 == slot_col_offset(k as int),
{
    let row: i64 = if k == 1 || k == 4 || k == 7 {
        -1
    } else if k == 3 || k == 5 || k == 6 {
        1
    } else if k == 9 {
        -2
    } else if k == 11 {
        2
    } else {
        0
    };
    let col: i64 = if k == 0 || k == 4 || k == 5 {
        -1
    } else if k == 2 || k == 6 || k == 7 {
        1
    } else if k == 8 {
        -2
    } else if k == 10 {
        2
    } else {
        0
    };
    (row, col)
}

/// Whether `r` is a grid size whose indices, sentinel included, fit in `u32`.
pub open spec fn grid_fits(r: int) -> bool {
    2 <= r && r * r <= u32::MAX
}

/// The neighbour index held by slot `k` of vertex `v`, or the sentinel `r * r`.
pub fn neighbor_index(r: u32, v: u32, k: usize) -> (n: u32)
    requires
        grid_fits(r as int),
        v < r * r,
        k < SLOTS_PER_VERTEX,
    ensures
        n == neighbor_of(r as int, v as int, k as int),
{
    let (dr, dc) = slot_offset(k);
    let row: i64 = (v / r) as i64 + dr;
    let col: i64 = (v % r) as i64 + dc;
    let side: i64 = r as i64;
    if 0 <= row && row < side && 0 <= col && col < side {
        proof {
            assert(row * side + col < side * side) by (nonlinear_arith)
                requires
                    0 <= row < side,
                    0 <= col < side,
            ;
        }
        (row * side + col) as u32
    } else {
        r * r
    }
}

/// One spring slot: the vertex that owns it, the vertex it links to (or the
/// sentinel) and its category.
#[derive(Clone, Copy, Debug, PartialEq, Eq, Structural)]
pub struct SpringLink {
    /// The vertex that owns the slot.
    pub origin: u32,
    /// The linked vertex, or the sentinel `r * r`.
    pub neighbor: u32,
    /// The category, which the slot's position within its block decides.
    pub kind: SpringKind,
}

/// Why a grid configuration was refused.
#[derive(Clone, Copy, Debug, PartialEq, Eq, Structural)]
pub enum TopologyError {
    /// Fewer than two vertices per row.
    GridTooSmall,
}

/// The spring stored at position `i` of the table for a grid of side `r`.
pub open spec fn link_at(r: int, i: int) -> SpringLink {
    SpringLink {
        origin: (i / 12) as u32,
        neighbor: neighbor_of(r, i / 12, i % 12) as u32,
        kind: slot_kind(i % 12),
    }
}

/// The whole spring table of a grid of side `r`: twelve slots per vertex.
pub open spec fn spring_table(r: int) -> Seq<SpringLink> {
    Seq::new((12 * (r * r)) as nat, |i: int| link_at(r, i))
}

/// Whether the table for a grid of side `r` can be held in memory and indexed by `u32`.
pub open spec fn table_fits(r: int) -> bool {
    r * r <= u32::MAX && 12 * (r * r) <= usize::MAX
}

proof fn lemma_slot_split(v: int, k: int)
    requires
        0 <= v,
        0 <= k < 12,
    ensures
        (12 * v + k) / 12 == v,
        (12 * v + k) % 12 == k,
{
    vstd::arithmetic::div_mod::lemma_fundamental_div_mod_converse(12 * v + k, 12, v, k);
}

/// Builds the spring table of a grid with `r` vertices per row.
pub fn build_springs(r: u32) -> (res: Result<Vec<SpringLink>, TopologyError>)
    requires
        table_fits(r as int),
    ensures
        match res {
            Ok(links) => r >= 2 && links@ == spring_table(r as int),
            Err(e) => r < 2 && e == TopologyError::GridTooSmall,
        },
{
    if r < 2 {
        return Err(TopologyError::GridTooSmall);
    }
    let count: u32 = r * r;
    let mut links: Vec<SpringLink> = Vec::new();
    let mut v: u32 = 0;
    while v < count
        invariant
            grid_fits(r as int),
            table_fits(r as int),
            count == r * r,
            v <= count,
            links@.len() == 12 * v,
            forall|j: int| 0 <= j < links@.len() ==> links@[j] == link_at(r as int, j),
        decreases count - v,
    {
        let mut k: usize = 0;
        while k < SLOTS_PER_VERTEX
            invariant
                grid_fits(r as int),
                table_fits(r as int),
                count == r * r,
                v < count,
                k <= SLOTS_PER_VERTEX,
                links@.len() == 12 * v + k,
                forall|j: int| 0 <= j < links@.len() ==> links@[j] == link_at(r as int, j),
            decreases SLOTS_PER_VERTEX - k,
        {
            let neighbor = neighbor_index(r, v, k);
            let kind = slot_kind_of(k);
            proof {
                lemma_slot_split(v as int, k as int);
            }
            links.push(SpringLink { origin: v, neighbor, kind });
            k = k + 1;
        }
        v = v + 1;
    }
    assert(links@ =~= spring_table(r as int));
    Ok(links)
}

/// The square of a spring's rest length, in squared grid units:
/// structural springs rest at one unit, shear at `sqrt(2)`, bend at two.
pub open spec fn rest_length_sq_units(kind: SpringKind) -> nat {
    match kind {
        SpringKind::Axial => 1,
        SpringKind::Shear => 2,
        SpringKind::Bend => 4,
    }
}

impl SpringKind {
    /// The square of this category's rest length, in squared grid units.
    pub fn rest_length_squared_in_units(self) -> (m: u32)
        ensures
            m as nat == rest_length_sq_units(self),
    {
        match self {
            SpringKind::Axial => 1,
            SpringKind::Shear => 2,
            SpringKind::Bend => 4,
        }
    }
}

/// How many of the first `n` slots of vertex `v` hold the sentinel.
pub open spec fn sentinel_count(r: int, v: int, n: int) -> nat
    decreases n,
{
    if n <= 0 {
        0
    } else {
        sentinel_count(r, v, n - 1) + if neighbor_of(r, v, n - 1) == sentinel(r) {
            1nat
        } else {
            0nat
        }
    }
}

/// A slot holds the sentinel exactly when its neighbour falls off the grid.
pub proof fn lemma_sentinel_iff_off_grid(r: int, v: int, k: int)
    requires
        r >= 2,
        0 <= v < r * r,
    ensures
        (neighbor_of(r, v, k) == sentinel(r)) <==> !(on_grid(r, v / r + slot_row_offset(k))
            && on_grid(r, v % r + slot_col_offset(k))),
        0 <= neighbor_of(r, v, k) <= sentinel(r),
{
    let row = v / r + slot_row_offset(k);
    let col = v % r + slot_col_offset(k);
    if on_grid(r, row) && on_grid(r, col) {
        assert(0 <= row * r + col < r * r) by (nonlinear_arith)
            requires
                0 <= row < r,
                0 <= col < r,
        ;
    }
}

proof fn lemma_row_col(r: int, row: int, col: int)
    requires
        r >= 2,
        0 <= row < r,
        0 <= col < r,
    ensures
        (row * r + col) / r == row,
        (row * r + col) % r == col,
        0 <= row * r + col < r * r,
{
    vstd::arithmetic::div_mod::lemma_fundamental_div_mod_converse(row * r + col, r, row, col);
    assert(row * r + col < r * r) by (nonlinear_arith)
        requires
            0 <= row < r,
            0 <= col < r,
    ;
}

/// Of the vertex at `(row, col)`, how many slots hold the sentinel.
pub open spec fn sentinels_at(r: int, row: int, col: int) -> nat {
    sentinel_count(r, row * r + col, 12)
}

proof fn lemma_sentinels_by_slot(r: int, row: int, col: int)
    requires
        r >= 2,
        0 <= row < r,
        0 <= col < r,
    ensures
        forall|k: int|
            0 <= k < 12 ==> ((neighbor_of(r, row * r + col, k) == sentinel(r)) <==> !(on_grid(
                r,
                row + slot_row_offset(k),
            ) && on_grid(r, col + slot_col_offset(k)))),
{
    lemma_row_col(r, row, col);
    assert forall|k: int| 0 <= k < 12 implies ((neighbor_of(r, row * r + col, k) == sentinel(r))
        <==> !(on_grid(r, row + slot_row_offset(k)) && on_grid(r, col + slot_col_offset(k)))) by {
        lemma_sentinel_iff_off_grid(r, row * r + col, k);
    }
}

/// Each corner of the grid has at least six of its twelve slots on the
/// sentinel, and a vertex at least two rows and columns away from every edge
/// has none.
pub proof fn lemma_corner_and_interior_sentinels(r: int, row: int, col: int)
    requires
        r >= 2,
        0 <= row < r,
        0 <= col < r,
    ensures
        (row == 0 || row == r - 1) && (col == 0 || col == r - 1) ==> sentinels_at(r, row, col)
            >= 6,
        2 <= row <= r - 3 && 2 <= col <= r - 3 ==> sentinels_at(r, row, col) == 0,
{
    lemma_sentinels_by_slot(r, row, col);
    reveal_with_fuel(sentinel_count, 13);
}

/// The spring table of a grid of side `r` has exactly twelve slots per
/// vertex, in vertex order, each tagged by its position in the block; it is a
/// function of `r` alone, so two tables built for the same side are equal.
pub proof fn lemma_spring_table_shape(r: int, a: Seq<SpringLink>, b: Seq<SpringLink>)
    requires
        r >= 2,
        table_fits(r),
        a == spring_table(r),
        b == spring_table(r),
    ensures
        a.len() == 12 * (r * r),
        a == b,
        forall|v: int, k: int|
            #![trigger a[12 * v + k]]
            0 <= v < r * r && 0 <= k < 12 ==> a[12 * v + k].origin == v && a[12 * v + k].kind
                == slot_kind(k) && a[12 * v + k].neighbor == neighbor_of(r, v, k),
{
    assert forall|v: int, k: int|
        #![trigger a[12 * v + k]]
        0 <= v < r * r && 0 <= k < 12 implies a[12 * v + k].origin == v && a[12 * v + k].kind
            == slot_kind(k) && a[12 * v + k].neighbor == neighbor_of(r, v, k) by {
        lemma_slot_split(v, k);
        lemma_sentinel_iff_off_grid(r, v, k);
        assert(12 * v + k < 12 * (r * r));
    }
}

/// The live springs among the first `n` slots of `block`: each slot whose
/// neighbour is a vertex below `vertex_count`, with the category of its slot.
pub open spec fn live_prefix(block: Seq<SpringLink>, vertex_count: int, n: int) -> Seq<
    (u32, SpringKind),
>
    decreases n,
{
    if n <= 0 {
        seq![]
    } else {
        let prev = live_prefix(block, vertex_count, n - 1);
        if block[n - 1].neighbor < vertex_count {
            prev.push((block[n - 1].neighbor, slot_kind(n - 1)))
        } else {
            prev
        }
    }
}

/// The live springs of vertex `v`, in slot order: sentinel slots contribute nothing.
pub open spec fn live_springs_of(links: Seq<SpringLink>, v: int, vertex_count: int) -> Seq<
    (u32, SpringKind),
> {
    live_prefix(links.subrange(12 * v, 12 * v + 12), vertex_count, 12)
}

/// The springs of vertex `v` that act on it, as (neighbour, category) pairs in
/// slot order. Slots whose neighbour is not a vertex, the sentinel among them,
/// are skipped; the category is the one that the slot's position selects.
pub fn live_springs(links: &Vec<SpringLink>, v: usize, vertex_count: u32) -> (out: Vec<
    (u32, SpringKind),
>)
    requires
        12 * v + 12 <= links@.len(),
    ensures
        out@ == live_springs_of(links@, v as int, vertex_count as int),
        forall|i: int| 0 <= i < out@.len() ==> out@[i].0 < vertex_count,
{
    let len: usize = links.len();
    let base: usize = 12 * v;
    let ghost block = links@.subrange(12 * v, 12 * v + 12);
    let mut out: Vec<(u32, SpringKind)> = Vec::new();
    let mut k: usize = 0;
    while k < SLOTS_PER_VERTEX
        invariant
            base == 12 * v,
            base + 12 <= links@.len(),
            links@.len() == len,
            block == links@.subrange(12 * v, 12 * v + 12),
            k <= SLOTS_PER_VERTEX,
            out@ == live_prefix(block, vertex_count as int, k as int),
            forall|i: int| 0 <= i < out@.len() ==> out@[i].0 < vertex_count,
        decreases SLOTS_PER_VERTEX - k,
    {
        let link = links[base + k];
        assert(link == block[k as int]);
        if link.neighbor < vertex_count {
            out.push((link.neighbor, slot_kind_of(k)));
        }
        k = k + 1;
    }
    out
}

/// In a grid's table every slot carries the category of its position, so a
/// spring's rest length is one unit in slots `0..4`, `sqrt(2)` units in
/// `4..8` and two units in `8..12`.
pub proof fn lemma_rest_length_by_slot(r: int, i: int)
    requires
        r >= 2,
        0 <= i < 12 * (r * r),
    ensures
        rest_length_sq_units(spring_table(r)[i].kind) == if i % 12 < 4 {
            1nat
        } else if i % 12 < 8 {
            2nat
        } else {
            4nat
        },
{
}

/// In a grid's table a slot's neighbour is a vertex exactly when it is not
/// the sentinel, so keeping the slots whose neighbour lies below `r * r`
/// skips the sentinel slots and no others.
pub proof fn lemma_live_iff_not_sentinel(r: int, i: int)
    requires
        r >= 2,
        table_fits(r),
        0 <= i < 12 * (r * r),
    ensures
        (spring_table(r)[i].neighbor < r * r) <==> (spring_table(r)[i].neighbor != sentinel(r)),
{
    vstd::arithmetic::div_mod::lemma_fundamental_div_mod(i, 12);
    assert(i / 12 < r * r);
    lemma_sentinel_iff_off_grid(r, i / 12, i % 12);
}

} // verus!
