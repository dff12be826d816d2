//! Kernel-wide laws, stated and proved over the update model.

use crate::boids::BoidState;
use crate::boids::NUDGE_BASE;
use crate::boids::NUDGE_LOW;
use crate::boids::NUDGE_SPREAD;
use crate::boids::SimpleConfig;
use crate::boids::align_accum;
use crate::boids::alignment_s;
use crate::boids::boundary_forces_s;
use crate::boids::bounce_s;
use crate::boids::coh_accum;
use crate::boids::cohesion_s;
use crate::boids::in_margin_s;
use crate::boids::is_neighbor;
use crate::boids::limit_mag_s;
use crate::boids::normal_update_s;
use crate::boids::sep_accum;
use crate::boids::separation_s;
use crate::boids::update_one_s;
use crate::fixed::SCALE;
use crate::fixed::fmul;
use crate::fixed::lemma_fmul_fraction;
use crate::fixed::sadd;
use crate::fixed::sat64;
use crate::fixed::ssub;
use crate::vec2::Vec2;
use crate::vec2::len_s;
use crate::vec2::v2s;
use vstd::prelude::*;

verus! {

/// All three accumulations are empty when no agent in the first `n`
/// is a neighbor.
pub proof fn lemma_accum_no_neighbors(states: Seq<BoidState>, i: int, radius: int, n: int)
    requires
        forall|j: int| 0 <= j < n ==> !is_neighbor(states, i, j, radius),
    ensures
        sep_accum(states, i, radius, n) == (0int, 0int, 0int),
        align_accum(states, i, radius, n) == (0int, 0int, 0int),
        coh_accum(states, i, radius, n) == (0int, 0int, 0int),
    decreases n,
{
    if n > 0 {
        assert(!is_neighbor(states, i, n - 1, radius));
        lemma_accum_no_neighbors(states, i, radius, n - 1);
    }
}

/// An agent with no neighbor within a radius receives exactly zero
/// separation, alignment and cohesion force at that radius.
pub proof fn lemma_isolated_agent_zero_forces(states: Seq<BoidState>, i: int, radius: int)
    requires
        forall|j: int| 0 <= j < states.len() ==> !is_neighbor(states, i, j, radius),
    ensures
        separation_s(states, i, radius) == (0int, 0int),
        alignment_s(states, i, radius) == (0int, 0int),
        cohesion_s(states, i, radius) == (0int, 0int),
{
    lemma_accum_no_neighbors(states, i, radius, states.len() as int);
}

/// An agent strictly inside the margin band is neither bounced nor
/// overridden: its update is the normal flocking tier, and its output
/// flag is clear whenever the advanced position avoids the margin.
pub proof fn lemma_strictly_inside_normal_tier(
    states: Seq<BoidState>,
    i: int,
    cfg: SimpleConfig,
    dt: int,
    min_speed: int,
    jitter: int,
    r1: int,
    r2: int,
)
    requires
        0 <= i < states.len(),
        cfg.boundary_margin >= 0,
        cfg.boundary_margin < states[i].x,
        (states[i].x as int) < ssub(cfg.world_width as int, cfg.boundary_margin as int),
        cfg.boundary_margin < states[i].y,
        (states[i].y as int) < ssub(cfg.world_height as int, cfg.boundary_margin as int),
    ensures
        !bounce_s(states[i], cfg, NUDGE_BASE as int, r1).0,
        !in_margin_s(states[i].x as int, states[i].y as int, cfg),
        update_one_s(states, i, cfg, dt, min_speed, jitter, r1, r2) == normal_update_s(
            states,
            i,
            cfg,
            dt,
            min_speed,
            jitter,
            r2,
        ),
        ({
            let m = update_one_s(states, i, cfg, dt, min_speed, jitter, r1, r2);
            !in_margin_s(m.0, m.1, cfg) ==> m.4 == 0
        }),
{
    reveal(update_one_s);
    let b = states[i];
    assert(ssub(cfg.world_width as int, cfg.boundary_margin as int) <= cfg.world_width as int);
    assert(ssub(cfg.world_height as int, cfg.boundary_margin as int) <= cfg.world_height as int);
    assert(!bounce_s(b, cfg, NUDGE_BASE as int, r1).0);
    assert(!in_margin_s(b.x as int, b.y as int, cfg));
}

/// A bounced agent's velocity on an out-of-bounds axis points back
/// into the world, and its magnitude strictly exceeds the nudge floor
/// of 4.0.
pub proof fn lemma_bounce_points_inward(b: BoidState, cfg: SimpleConfig, rng: int)
    requires
        0 <= rng <= SCALE as int,
        cfg.world_width >= 0,
        cfg.world_height >= 0,
    ensures
        (b.x as int) < 0 ==> bounce_s(b, cfg, NUDGE_BASE as int, rng).3 > 4 * (SCALE as int),
        (b.x as int) > cfg.world_width ==> bounce_s(b, cfg, NUDGE_BASE as int, rng).3 < -4 * (
        SCALE as int),
        (b.y as int) < 0 ==> bounce_s(b, cfg, NUDGE_BASE as int, rng).4 > 4 * (SCALE as int),
        (b.y as int) > cfg.world_height ==> bounce_s(b, cfg, NUDGE_BASE as int, rng).4 < -4 * (
        SCALE as int),
{
    let spread = fmul(NUDGE_SPREAD as int, rng);
    vstd::arithmetic::mul::lemma_mul_is_commutative(NUDGE_SPREAD as int, rng);
    lemma_fmul_fraction(rng, NUDGE_SPREAD as int);
    assert(0 <= spread <= NUDGE_SPREAD as int);
    let s = sadd(NUDGE_LOW as int, spread);
    assert(NUDGE_LOW as int <= s <= NUDGE_LOW + NUDGE_SPREAD);
    let boost = fmul(NUDGE_BASE as int, s);
    assert((NUDGE_BASE as int) * s == (SCALE as int) * (5 * s));
    vstd::arithmetic::div_mod::lemma_div_multiples_vanish(5 * s, SCALE as int);
    assert(boost == sat64(5 * s));
    assert(boost > 4 * (SCALE as int));
}

/// With zero strengths, zero jitter, a zero margin, a previous
/// position inside the world and a speed already within range, one
/// update step is pure linear motion: the velocity is kept and the
/// position advances by velocity times `dt`; the output flag is clear
/// whenever the new position is still inside the world.
#[verifier::rlimit(50)]
pub proof fn lemma_zero_force_linear_motion(
    states: Seq<BoidState>,
    i: int,
    cfg: SimpleConfig,
    dt: int,
    min_speed: int,
    r1: int,
    r2: int,
)
    requires
        0 <= i < states.len(),
        cfg.separation_strength == 0,
        cfg.alignment_strength == 0,
        cfg.cohesion_strength == 0,
        cfg.boundary_margin == 0,
        0 <= states[i].x <= cfg.world_width,
        0 <= states[i].y <= cfg.world_height,
        min_speed <= len_s(v2s(states[i].vx as int, states[i].vy as int)),
        len_s(v2s(states[i].vx as int, states[i].vy as int)) <= cfg.max_speed,
    ensures
        ({
            let m = update_one_s(states, i, cfg, dt, min_speed, 0, r1, r2);
            let b = states[i];
            m.2 == b.vx as int && m.3 == b.vy as int && m.0 == sadd(
                b.x as int,
                fmul(b.vx as int, dt),
            ) && m.1 == sadd(b.y as int, fmul(b.vy as int, dt)) && ((0 <= m.0
                <= cfg.world_width as int && 0 <= m.1 <= cfg.world_height as int) ==> m.4 == 0)
        }),
{
    reveal(update_one_s);
    let b = states[i];
    assert(!bounce_s(b, cfg, NUDGE_BASE as int, r1).0);
    assert(ssub(cfg.world_width as int, 0) == cfg.world_width as int);
    assert(ssub(cfg.world_height as int, 0) == cfg.world_height as int);
    assert(!in_margin_s(b.x as int, b.y as int, cfg));
    let sep = separation_s(states, i, cfg.separation_radius as int);
    let ali = alignment_s(states, i, cfg.alignment_radius as int);
    let coh = cohesion_s(states, i, cfg.cohesion_radius as int);
    lemma_fmul_zero(sep.0);
    lemma_fmul_zero(sep.1);
    lemma_fmul_zero(ali.0);
    lemma_fmul_zero(ali.1);
    lemma_fmul_zero(coh.0);
    lemma_fmul_zero(coh.1);
    assert(boundary_forces_s(b, cfg).0 == (0int, 0int));
    let fx = sadd(sadd(sadd(fmul(sep.0, 0), fmul(ali.0, 0)), fmul(coh.0, 0)), 0);
    assert(fx == 0);
    lemma_fmul_square_nonneg(cfg.max_force as int);
    assert(limit_mag_s(0, 0, cfg.max_force as int) == (0int, 0int));
    let v = v2s(b.vx as int, b.vy as int);
    assert(v == (Vec2 { x: b.vx, y: b.vy }));
    lemma_fmul_zero(dt);
    let m = normal_update_s(states, i, cfg, dt, min_speed, 0, r2);
    let angle = fmul(r2, crate::fixed::TAU_FP as int);
    lemma_fmul_zero(crate::fixed::cos_s(angle));
    lemma_fmul_zero(crate::fixed::sin_s(angle));
    assert(m.2 == b.vx as int && m.3 == b.vy as int);
    assert(m.0 == sadd(b.x as int, fmul(b.vx as int, dt)));
    assert(m.1 == sadd(b.y as int, fmul(b.vy as int, dt)));
}

/// Multiplication by a zero factor gives exactly zero.
pub proof fn lemma_fmul_zero(a: int)
    ensures
        fmul(a, 0) == 0,
        fmul(0, a) == 0,
{
    assert(a * 0 == 0);
    assert(0 * a == 0);
}

/// A fixed-point square is never negative.
pub proof fn lemma_fmul_square_nonneg(a: int)
    ensures
        fmul(a, a) >= 0,
{
    assert(a * a >= 0) by (nonlinear_arith);
    vstd::arithmetic::div_mod::lemma_div_pos_is_pos(a * a, SCALE as int);
}

} // verus!
