//! How one simulation frame is dispatched: the force stage, then the
//! integration stage, each over every vertex in fixed-size groups.
use vstd::prelude::*;

verus! {

/// Number of work items in one dispatched group.
pub const GROUP_SIZE: u32 = 128;

/// The number of groups of `group_size` items that cover `n` items.
pub open spec fn groups_for(n: int, group_size: int) -> int {
    (n + group_size - 1) / group_size
}

/// The number of groups of `group_size` work items needed to cover `n`
/// items: the least count whose groups hold them all.
pub fn workgroup_count(n: u32, group_size: u32) -> (g: u32)
    requires
        group_size > 0,
    ensures
        g == groups_for(n as int, group_size as int),
        g * group_size >= n,
        g == 0 || (g - 1) * group_size < n,
{
    let q: u32 = n / group_size;
    let rem: u32 = n % group_size;
    let ghost (ni, gi, qi, ri) = (n as int, group_size as int, q as int, rem as int);
    proof {
        vstd::arithmetic::div_mod::lemma_fundamental_div_mod(ni, gi);
        assert(ni == qi * gi + ri && 0 <= ri < gi) by (nonlinear_arith)
            requires
                ni == gi * (ni / gi) + (ni % gi),
                qi == ni / gi,
                ri == ni % gi,
                gi > 0,
        ;
        assert((qi + 1) * gi == qi * gi + gi) by (nonlinear_arith);
        if rem != 0 {
            assert(qi < u32::MAX) by (nonlinear_arith)
                requires
                    ni == qi * gi + ri,
                    0 < ri < gi,
                    ni <= u32::MAX,
                    qi >= 0,
            ;
        }
    }
    let g: u32 = if rem == 0 {
        q
    } else {
        q + 1
    };
    proof {
        if rem == 0 {
            vstd::arithmetic::div_mod::lemma_fundamental_div_mod_converse(ni + gi - 1, gi, qi, gi - 1);
        } else {
            vstd::arithmetic::div_mod::lemma_fundamental_div_mod_converse(
                ni + gi - 1,
                gi,
                qi + 1,
                ri - 1,
            );
        }
        assert(g * gi >= ni && (g == 0 || (g - 1) * gi < ni)) by (nonlinear_arith)
            requires
                ni == qi * gi + ri,
                0 <= ri < gi,
                g == if ri == 0 {
                    qi
                } else {
                    qi + 1
                },
        ;
    }
    g
}

/// One of the two per-vertex stages of a frame.
#[derive(Clone, Copy, Debug, PartialEq, Eq, Structural)]
pub enum Stage {
    /// Sums spring, damping and gravity forces and updates velocities.
    Forces,
    /// Advances positions and resolves the sphere collision.
    Integration,
}

/// A stage dispatched over `groups` groups of work items.
#[derive(Clone, Copy, Debug, PartialEq, Eq, Structural)]
pub struct Dispatch {
    pub stage: Stage,
    pub groups: u32,
}

/// The dispatches of one frame over `vertex_count` vertices, in order: the
/// force stage, then, after a full barrier, the integration stage, each
/// covering every vertex.
pub open spec fn frame_plan(vertex_count: int) -> Seq<Dispatch> {
    let g = groups_for(vertex_count, GROUP_SIZE as int) as u32;
    seq![Dispatch { stage: Stage::Forces, groups: g }, Dispatch { stage: Stage::Integration, groups: g }]
}

/// The ordered dispatches of one frame over `vertex_count` vertices.
pub fn frame_dispatches(vertex_count: u32) -> (plan: Vec<Dispatch>)
    ensures
        plan@ == frame_plan(vertex_count as int),
{
    let groups = workgroup_count(vertex_count, GROUP_SIZE);
    let mut plan: Vec<Dispatch> = Vec::new();
    plan.push(Dispatch { stage: Stage::Forces, groups });
    plan.push(Dispatch { stage: Stage::Integration, groups });
    assert(plan@ =~= frame_plan(vertex_count as int));
    plan
}

} // verus!
