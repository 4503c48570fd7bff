//! Sizes of the voxel grid and of its mip pyramid, and the thread-group
//! counts of the compute passes that fill them.

use vstd::prelude::*;
use vstd::arithmetic::power2::pow2;
use vstd::arithmetic::power2::lemma_pow2_pos;
use vstd::arithmetic::power2::lemma_pow2_unfold;
use vstd::arithmetic::power2::lemma_pow2_strictly_increases;
use vstd::arithmetic::power2::lemma2_to64;
use vstd::arithmetic::div_mod::lemma_div_denominator;
use vstd::arithmetic::div_mod::lemma_fundamental_div_mod;
use vstd::arithmetic::div_mod::lemma_div_is_ordered;
use vstd::arithmetic::div_mod::lemma_div_by_multiple;
use vstd::arithmetic::div_mod::lemma_basic_div;
use vstd::bits::lemma_u32_shr_is_div;

verus! {

/// Edge length of one thread group of the compute passes.
pub const GROUP_EDGE: u32 = 8;

/// Width, height and depth of a texel domain.
#[derive(Clone, Copy, Debug, PartialEq, Eq, Structural)]
pub struct Extent {
    pub width: u32,
    pub height: u32,
    pub depth: u32,
}

/// Thread-group counts of one compute dispatch.
#[derive(Clone, Copy, Debug, PartialEq, Eq, Structural)]
pub struct Dispatch {
    pub x: u32,
    pub y: u32,
    pub z: u32,
}

/// Edge length of level `level` of a directional chain over a grid of edge
/// `voxel_size`: the grid's edge halved `level + 1` times.
pub open spec fn mip_edge(voxel_size: nat, level: nat) -> nat {
    voxel_size / pow2(level + 1)
}

/// Number of thread groups that cover `size` texels along one axis, never
/// fewer than one.
pub open spec fn group_count(size: nat) -> nat {
    if size / 8 == 0 {
        1
    } else {
        size / 8
    }
}

/// Thread groups of the clear and fill passes: the whole grid in blocks of
/// eight.
pub open spec fn grid_dispatch(voxel_size: nat) -> (nat, nat, nat) {
    (voxel_size / 8, voxel_size / 8, voxel_size / 8)
}

/// Thread groups of the base pass: blocks of eight over half the grid's
/// resolution across and over its full resolution in depth, at least one
/// block along each axis.
pub open spec fn base_dispatch(voxel_size: nat) -> (nat, nat, nat) {
    (group_count(voxel_size / 2), group_count(voxel_size / 2), group_count(voxel_size))
}

/// Thread groups of the pass that writes level `level` from the level
/// before it.
pub open spec fn level_dispatch(voxel_size: nat, level: nat) -> (nat, nat, nat) {
    let count = group_count(mip_edge(voxel_size, level));
    (count, count, count)
}

/// The dispatch with the given group counts.
pub open spec fn dispatch_of(counts: (nat, nat, nat)) -> Dispatch {
    Dispatch { x: counts.0 as u32, y: counts.1 as u32, z: counts.2 as u32 }
}

/// The view of a [`Dispatch`] as a triple of naturals.
pub open spec fn dispatch_triple(d: Dispatch) -> (nat, nat, nat) {
    (d.x as nat, d.y as nat, d.z as nat)
}

/// Level `level` is the level before it, halved and rounded down.
pub proof fn lemma_mip_edge_halves(voxel_size: nat, level: nat)
    ensures
        mip_edge(voxel_size, level + 1) == mip_edge(voxel_size, level) / 2,
        mip_edge(voxel_size, 0) == voxel_size / 2,
{
    lemma_pow2_pos(level + 1);
    lemma_pow2_unfold(level + 2);
    lemma_div_denominator(voxel_size as int, pow2(level + 1) as int, 2);
    lemma2_to64();
}

/// Where the grid's edge is a multiple of `2^(level + 2)`, level `level + 1`
/// is exactly half of level `level`: nothing is lost to rounding.
pub proof fn lemma_mip_edge_exact_half(voxel_size: nat, level: nat)
    requires
        voxel_size % pow2(level + 2) == 0,
    ensures
        2 * mip_edge(voxel_size, level + 1) == mip_edge(voxel_size, level),
{
    let p = pow2(level + 1) as int;
    let q = pow2(level + 2) as int;
    lemma_pow2_pos(level + 1);
    lemma_pow2_unfold(level + 2);
    let k = voxel_size as int / q;
    lemma_fundamental_div_mod(voxel_size as int, q);
    assert(voxel_size as int == (2 * k) * p) by (nonlinear_arith)
        requires
            voxel_size as int == q * k,
            q == 2 * p,
    ;
    lemma_div_by_multiple(2 * k, p);
}

/// A chain of `level_count` levels over a grid whose edge is at least
/// `2^level_count` has no empty level.
pub proof fn lemma_mip_edge_positive(voxel_size: nat, level_count: nat, level: nat)
    requires
        level < level_count,
        pow2(level_count) <= voxel_size,
    ensures
        mip_edge(voxel_size, level) >= 1,
{
    lemma_pow2_pos(level + 1);
    if level + 1 < level_count {
        lemma_pow2_strictly_increases(level + 1, level_count);
    }
    let p = pow2(level + 1) as int;
    lemma_div_is_ordered(p, voxel_size as int, p);
}

/// Every pass that writes a mip level runs at least one thread group along
/// each axis.
pub proof fn lemma_level_dispatch_positive(voxel_size: nat, level: nat)
    ensures
        level_dispatch(voxel_size, level).0 >= 1,
        level_dispatch(voxel_size, level).1 >= 1,
        level_dispatch(voxel_size, level).2 >= 1,
{
}

/// Computes [`mip_edge`].
pub fn mip_edge_length(voxel_size: u32, level: usize) -> (edge: u32)
    ensures
        edge == mip_edge(voxel_size as nat, level as nat),
{
    if level >= 31 {
        proof {
            lemma2_to64();
            if level > 31 {
                lemma_pow2_strictly_increases(32, (level + 1) as nat);
            }
            lemma_basic_div(voxel_size as int, pow2((level + 1) as nat) as int);
        }
        0
    } else {
        let shift: u32 = level as u32 + 1;
        proof {
            lemma_u32_shr_is_div(voxel_size, shift);
        }
        voxel_size >> shift
    }
}

/// Computes [`group_count`].
pub fn dispatch_count(size: u32) -> (count: u32)
    ensures
        count == group_count(size as nat),
        count >= 1,
{
    let groups: u32 = size / GROUP_EDGE;
    if groups == 0 {
        1
    } else {
        groups
    }
}

/// Computes [`grid_dispatch`].
pub fn grid_dispatch_of(voxel_size: u32) -> (d: Dispatch)
    ensures
        dispatch_triple(d) == grid_dispatch(voxel_size as nat),
        d == dispatch_of(grid_dispatch(voxel_size as nat)),
{
    let count: u32 = voxel_size / GROUP_EDGE;
    Dispatch { x: count, y: count, z: count }
}

/// Computes [`base_dispatch`].
pub fn base_dispatch_of(voxel_size: u32) -> (d: Dispatch)
    ensures
        dispatch_triple(d) == base_dispatch(voxel_size as nat),
        d == dispatch_of(base_dispatch(voxel_size as nat)),
        d.x >= 1,
        d.y >= 1,
        d.z >= 1,
{
    let size: u32 = voxel_size / 2;
    let count: u32 = dispatch_count(size);
    let depth: u32 = dispatch_count(voxel_size);
    Dispatch { x: count, y: count, z: depth }
}

/// Computes [`level_dispatch`].
pub fn level_dispatch_of(voxel_size: u32, level: usize) -> (d: Dispatch)
    ensures
        dispatch_triple(d) == level_dispatch(voxel_size as nat, level as nat),
        d == dispatch_of(level_dispatch(voxel_size as nat, level as nat)),
        d.x >= 1,
        d.y >= 1,
        d.z >= 1,
{
    let size: u32 = mip_edge_length(voxel_size, level);
    let count: u32 = dispatch_count(size);
    Dispatch { x: count, y: count, z: count }
}

/// Number of voxels of a grid of edge `voxel_size`, which is also the
/// number of cells of its accumulation buffer.
pub open spec fn grid_volume(voxel_size: nat) -> nat {
    voxel_size * voxel_size * voxel_size
}

/// Computes [`grid_volume`].
pub fn voxel_count(voxel_size: u32) -> (count: u128)
    ensures
        count == grid_volume(voxel_size as nat),
{
    let edge: u128 = voxel_size as u128;
    assert(edge * edge <= 0xffff_ffff * 0xffff_ffff) by (nonlinear_arith)
        requires
            edge <= 0xffff_ffff,
    ;
    let face: u128 = edge * edge;
    assert(face * edge <= 0xffff_ffff * 0xffff_ffff * 0xffff_ffff) by (nonlinear_arith)
        requires
            face <= 0xffff_ffff * 0xffff_ffff,
            edge <= 0xffff_ffff,
    ;
    face * edge
}

/// The voxel texture of a grid of edge `voxel_size`: a cube of that edge.
pub fn voxel_texture_extent(voxel_size: u32) -> (extent: Extent)
    ensures
        extent.width == voxel_size,
        extent.height == voxel_size,
        extent.depth == voxel_size,
{
    Extent { width: voxel_size, height: voxel_size, depth: voxel_size }
}

/// The texel domain that level 0 of one directional chain is resolved over,
/// seen along that direction: half the grid's resolution across, the grid's
/// full resolution in depth.
pub fn anisotropic_base_extent(voxel_size: u32) -> (extent: Extent)
    ensures
        extent.width == mip_edge(voxel_size as nat, 0),
        extent.height == mip_edge(voxel_size as nat, 0),
        extent.width == voxel_size / 2,
        extent.depth == voxel_size,
{
    proof {
        lemma_mip_edge_halves(voxel_size as nat, 0);
    }
    let half: u32 = voxel_size / 2;
    Extent { width: half, height: half, depth: voxel_size }
}

} // verus!
