//! The per-frame flocking update kernel.
//!
//! Given the complete state of all agents, one call produces the next
//! state by combining neighbor-interaction forces (separation,
//! alignment, cohesion), boundary containment, progressive speed
//! governance and random jitter. Every stage is mirrored by a spec
//! function, so the contract of each stage pins its result down
//! exactly.

use crate::fixed::SCALE;
use crate::fixed::TAU_FP;
use crate::fixed::cos_s;
use crate::fixed::fdiv;
use crate::fixed::fmul;
use crate::fixed::fp_add;
use crate::fixed::fp_cos;
use crate::fixed::fp_div;
use crate::fixed::fp_mul;
use crate::fixed::fp_neg;
use crate::fixed::fp_scale;
use crate::fixed::fp_sin;
use crate::fixed::fp_sqrt;
use crate::fixed::fp_sub;
use crate::fixed::fsqrt;
use crate::fixed::sabs;
use crate::fixed::sadd;
use crate::fixed::sat64;
use crate::fixed::sin_s;
use crate::fixed::sneg;
use crate::fixed::ssub;
use crate::fixed::tdiv;
use crate::rand::frand01;
use crate::rand::frand01_val;
use crate::rand::hash_u32_spec;
use crate::vec2::Vec2;
use crate::vec2::add_s;
use crate::vec2::len_s;
use crate::vec2::normalized_s;
use crate::vec2::scale_s;
use crate::vec2::sub_s;
use crate::vec2::v2s;
use vstd::prelude::*;

verus! {

/// The status bit recording that an agent sits inside the boundary
/// margin.
pub const FLAG_IN_MARGIN: u32 = 1;

/// The blend share (0.1) of the progressive speed clamp.
pub const SPEED_BLEND: i64 = 6554;

/// The margin repulsion multiplier (30.0).
pub const WALL_MULT: i64 = 1966080;

/// The per-wall share (0.3) of the margin repulsion.
pub const WALL_SHARE: i64 = 19661;

/// The base bounce nudge (5.0).
pub const NUDGE_BASE: i64 = 327680;

/// The fixed floor (0.8) of the bounce nudge factor.
pub const NUDGE_LOW: i64 = 52429;

/// The random spread (0.4) of the bounce nudge factor.
pub const NUDGE_SPREAD: i64 = 26214;

/// The fixed-point representation of one half.
pub const HALF_FP: i64 = 32768;

/// The fixed-point representation of ten.
pub const TEN_FP: i64 = 655360;

/// One flocking agent: a position, a velocity and a status flag set.
#[derive(Clone, Copy, Debug)]
pub struct BoidState {
    pub x: i64,
    pub y: i64,
    pub vx: i64,
    pub vy: i64,
    pub flags: u32,
}

impl BoidState {
    /// The agent's position as a vector.
    pub fn pos(&self) -> (r: Vec2)
        ensures
            r == (Vec2 { x: self.x, y: self.y }),
    {
        Vec2 { x: self.x, y: self.y }
    }

    /// The agent's velocity as a vector.
    pub fn vel(&self) -> (r: Vec2)
        ensures
            r == (Vec2 { x: self.vx, y: self.vy }),
    {
        Vec2 { x: self.vx, y: self.vy }
    }

    /// A copy of the agent with the given velocity.
    pub fn with_vel(&self, v: Vec2) -> (r: Self)
        ensures
            r == (BoidState { vx: v.x, vy: v.y, ..*self }),
    {
        Self { x: self.x, y: self.y, vx: v.x, vy: v.y, flags: self.flags }
    }

    /// A copy of the agent with the given position.
    pub fn with_pos(&self, p: Vec2) -> (r: Self)
        ensures
            r == (BoidState { x: p.x, y: p.y, ..*self }),
    {
        Self { x: p.x, y: p.y, vx: self.vx, vy: self.vy, flags: self.flags }
    }

    /// A copy of the agent with the given position and velocity.
    pub fn with_pos_vel(&self, p: Vec2, v: Vec2) -> (r: Self)
        ensures
            r == (BoidState { x: p.x, y: p.y, vx: v.x, vy: v.y, ..*self }),
    {
        Self { x: p.x, y: p.y, vx: v.x, vy: v.y, flags: self.flags }
    }
}

/// The per-call configuration of the kernel. One configuration applies
/// uniformly to all agents of a call.
#[derive(Clone, Copy, Debug)]
pub struct SimpleConfig {
    pub separation_radius: i64,
    pub alignment_radius: i64,
    pub cohesion_radius: i64,
    pub separation_strength: i64,
    pub alignment_strength: i64,
    pub cohesion_strength: i64,
    pub max_speed: i64,
    pub max_force: i64,
    pub boundary_margin: i64,
    pub boundary_strength: i64,
    pub world_width: i64,
    pub world_height: i64,
}

/// The saturated squared distance between two agents' positions.
pub open spec fn dist_sq_s(a: BoidState, b: BoidState) -> int {
    let dx = ssub(a.x as int, b.x as int);
    let dy = ssub(a.y as int, b.y as int);
    sadd(fmul(dx, dx), fmul(dy, dy))
}

/// Whether agent `j` is a neighbor of agent `i` within `radius`:
/// another agent at a positive squared distance below the squared
/// radius.
pub open spec fn is_neighbor(states: Seq<BoidState>, i: int, j: int, radius: int) -> bool {
    j != i && 0 < dist_sq_s(states[i], states[j]) && dist_sq_s(states[i], states[j]) < fmul(
        radius,
        radius,
    )
}

/// One neighbor's separation contribution: the unit vector away from
/// the neighbor, weighted by the inverse distance.
pub open spec fn sep_contrib(a: BoidState, b: BoidState) -> (int, int) {
    let dx = ssub(a.x as int, b.x as int);
    let dy = ssub(a.y as int, b.y as int);
    let dist = fsqrt(sadd(fmul(dx, dx), fmul(dy, dy)));
    if dist > 0 {
        let w = fdiv(SCALE as int, dist);
        (fmul(fdiv(dx, dist), w), fmul(fdiv(dy, dist), w))
    } else {
        (0, 0)
    }
}

/// The separation sums over the first `n` agents: accumulated steering
/// components and the neighbor count.
pub open spec fn sep_accum(states: Seq<BoidState>, i: int, radius: int, n: int) -> (int, int, int)
    decreases n,
{
    if n <= 0 {
        (0, 0, 0)
    } else {
        let prev = sep_accum(states, i, radius, n - 1);
        if is_neighbor(states, i, n - 1, radius) {
            let c = sep_contrib(states[i], states[n - 1]);
            (sadd(prev.0, c.0), sadd(prev.1, c.1), prev.2 + 1)
        } else {
            prev
        }
    }
}

/// The separation force on agent `i`: the average of its neighbors'
/// contributions, and zero when it has no neighbor.
pub open spec fn separation_s(states: Seq<BoidState>, i: int, radius: int) -> (int, int) {
    let acc = sep_accum(states, i, radius, states.len() as int);
    if acc.2 > 0 {
        (tdiv(acc.0, acc.2), tdiv(acc.1, acc.2))
    } else {
        (0, 0)
    }
}

/// The alignment sums over the first `n` agents: accumulated neighbor
/// velocities and the neighbor count.
pub open spec fn align_accum(states: Seq<BoidState>, i: int, radius: int, n: int) -> (
    int,
    int,
    int,
)
    decreases n,
{
    if n <= 0 {
        (0, 0, 0)
    } else {
        let prev = align_accum(states, i, radius, n - 1);
        if is_neighbor(states, i, n - 1, radius) {
            (
                sadd(prev.0, states[n - 1].vx as int),
                sadd(prev.1, states[n - 1].vy as int),
                prev.2 + 1,
            )
        } else {
            prev
        }
    }
}

/// The alignment force on agent `i`: the average neighbor velocity
/// minus its own, and zero when it has no neighbor.
pub open spec fn alignment_s(states: Seq<BoidState>, i: int, radius: int) -> (int, int) {
    let acc = align_accum(states, i, radius, states.len() as int);
    if acc.2 > 0 {
        (
            ssub(tdiv(acc.0, acc.2), states[i].vx as int),
            ssub(tdiv(acc.1, acc.2), states[i].vy as int),
        )
    } else {
        (0, 0)
    }
}

/// The cohesion sums over the first `n` agents: accumulated neighbor
/// positions and the neighbor count.
pub open spec fn coh_accum(states: Seq<BoidState>, i: int, radius: int, n: int) -> (int, int, int)
    decreases n,
{
    if n <= 0 {
        (0, 0, 0)
    } else {
        let prev = coh_accum(states, i, radius, n - 1);
        if is_neighbor(states, i, n - 1, radius) {
            (
                sadd(prev.0, states[n - 1].x as int),
                sadd(prev.1, states[n - 1].y as int),
                prev.2 + 1,
            )
        } else {
            prev
        }
    }
}

/// The cohesion force on agent `i`: the unit vector toward the average
/// neighbor position minus its own velocity, and zero when it has no
/// neighbor or already sits at that average.
pub open spec fn cohesion_s(states: Seq<BoidState>, i: int, radius: int) -> (int, int) {
    let acc = coh_accum(states, i, radius, states.len() as int);
    if acc.2 > 0 {
        let dx = ssub(tdiv(acc.0, acc.2), states[i].x as int);
        let dy = ssub(tdiv(acc.1, acc.2), states[i].y as int);
        let dist = fsqrt(sadd(fmul(dx, dx), fmul(dy, dy)));
        if dist > 0 {
            (ssub(fdiv(dx, dist), states[i].vx as int), ssub(fdiv(dy, dist), states[i].vy as int))
        } else {
            (0, 0)
        }
    } else {
        (0, 0)
    }
}

/// A force vector rescaled to magnitude `max` when it is stronger than
/// `max`.
pub open spec fn limit_mag_s(x: int, y: int, max: int) -> (int, int) {
    let mag_sq = sadd(fmul(x, x), fmul(y, y));
    if mag_sq > fmul(max, max) {
        let mag = fsqrt(mag_sq);
        if mag > 0 {
            (fmul(fdiv(x, mag), max), fmul(fdiv(y, mag), max))
        } else {
            (x, y)
        }
    } else {
        (x, y)
    }
}

/// A velocity blended toward the speed range [min_speed, max_speed]:
/// below the floor, `accel` of the rescaled velocity is mixed in;
/// above the ceiling, `decel` of it is.
pub open spec fn clamp_speed_s(
    v: Vec2,
    min_speed: int,
    max_speed: int,
    accel: int,
    decel: int,
) -> Vec2 {
    let speed = len_s(v);
    let v1 = if speed < min_speed {
        let denom = if speed > 1 {
            speed
        } else {
            1
        };
        let scale = fdiv(min_speed, denom);
        add_s(scale_s(v, ssub(SCALE as int, accel)), scale_s(scale_s(v, scale), accel))
    } else {
        v
    };
    let speed1 = len_s(v1);
    if speed1 > max_speed && speed1 > 0 {
        let scale = fdiv(max_speed, speed1);
        add_s(scale_s(v1, ssub(SCALE as int, decel)), scale_s(scale_s(v1, scale), decel))
    } else {
        v1
    }
}

/// Neighbor counts accumulate upward from zero.
pub proof fn lemma_accum_count_nonneg(states: Seq<BoidState>, i: int, radius: int, n: int)
    ensures
        sep_accum(states, i, radius, n).2 >= 0,
        align_accum(states, i, radius, n).2 >= 0,
        coh_accum(states, i, radius, n).2 >= 0,
    decreases n,
{
    if n > 0 {
        lemma_accum_count_nonneg(states, i, radius, n - 1);
    }
}

/// Separation sums with a zero neighbor count are zero.
pub proof fn lemma_sep_accum_count_zero(states: Seq<BoidState>, i: int, radius: int, n: int)
    requires
        sep_accum(states, i, radius, n).2 == 0,
    ensures
        sep_accum(states, i, radius, n).0 == 0,
        sep_accum(states, i, radius, n).1 == 0,
    decreases n,
{
    if n > 0 {
        lemma_accum_count_nonneg(states, i, radius, n - 1);
        if !is_neighbor(states, i, n - 1, radius) {
            lemma_sep_accum_count_zero(states, i, radius, n - 1);
        }
    }
}

/// Calculate the separation force: steer away from nearby neighbors,
/// each weighted by its inverse distance. With no neighbor in range
/// the force is exactly zero.
pub fn separation(boid_idx: usize, states: &Vec<BoidState>, radius: i64) -> (r: (i64, i64))
    requires
        boid_idx < states.len(),
        states.len() <= 0x7fff_ffff,
    ensures
        r.0 as int == separation_s(states@, boid_idx as int, radius as int).0,
        r.1 as int == separation_s(states@, boid_idx as int, radius as int).1,
{
    let mut steer_x: i64 = 0;
    let mut steer_y: i64 = 0;
    let mut count: usize = 0;
    let r2: i64 = fp_mul(radius, radius);
    let bx: i64 = states[boid_idx].x;
    let by: i64 = states[boid_idx].y;
    let mut j: usize = 0;
    while j < states.len()
        invariant
            boid_idx < states.len(),
            states.len() <= 0x7fff_ffff,
            j <= states.len(),
            count <= j,
            bx == states@[boid_idx as int].x,
            by == states@[boid_idx as int].y,
            r2 as int == fmul(radius as int, radius as int),
            (steer_x as int, steer_y as int, count as int) == sep_accum(
                states@,
                boid_idx as int,
                radius as int,
                j as int,
            ),
        decreases states.len() - j,
    {
        if j != boid_idx {
            let dx: i64 = fp_sub(bx, states[j].x);
            let dy: i64 = fp_sub(by, states[j].y);
            let dist_sq: i64 = fp_add(fp_mul(dx, dx), fp_mul(dy, dy));
            if dist_sq > 0 && dist_sq < r2 {
                let dist: i64 = fp_sqrt(dist_sq);
                if dist > 0 {
                    let w: i64 = fp_div(SCALE, dist);
                    steer_x = fp_add(steer_x, fp_mul(fp_div(dx, dist), w));
                    steer_y = fp_add(steer_y, fp_mul(fp_div(dy, dist), w));
                }
                count = count + 1;
            }
        }
        j = j + 1;
    }
    if count > 0 {
        let c: i64 = count as i64;
        steer_x = steer_x / c;
        steer_y = steer_y / c;
    } else {
        proof {
            lemma_sep_accum_count_zero(
                states@,
                boid_idx as int,
                radius as int,
                states@.len() as int,
            );
        }
    }
    (steer_x, steer_y)
}

/// Calculate the alignment force: steer toward the average heading of
/// neighbors. With no neighbor in range the force is exactly zero.
pub fn alignment(boid_idx: usize, states: &Vec<BoidState>, radius: i64) -> (r: (i64, i64))
    requires
        boid_idx < states.len(),
        states.len() <= 0x7fff_ffff,
    ensures
        r.0 as int == alignment_s(states@, boid_idx as int, radius as int).0,
        r.1 as int == alignment_s(states@, boid_idx as int, radius as int).1,
{
    let mut avg_vx: i64 = 0;
    let mut avg_vy: i64 = 0;
    let mut count: usize = 0;
    let r2: i64 = fp_mul(radius, radius);
    let bx: i64 = states[boid_idx].x;
    let by: i64 = states[boid_idx].y;
    let mut j: usize = 0;
    while j < states.len()
        invariant
            boid_idx < states.len(),
            states.len() <= 0x7fff_ffff,
            j <= states.len(),
            count <= j,
            bx == states@[boid_idx as int].x,
            by == states@[boid_idx as int].y,
            r2 as int == fmul(radius as int, radius as int),
            (avg_vx as int, avg_vy as int, count as int) == align_accum(
                states@,
                boid_idx as int,
                radius as int,
                j as int,
            ),
        decreases states.len() - j,
    {
        if j != boid_idx {
            let dx: i64 = fp_sub(bx, states[j].x);
            let dy: i64 = fp_sub(by, states[j].y);
            let dist_sq: i64 = fp_add(fp_mul(dx, dx), fp_mul(dy, dy));
            if dist_sq > 0 && dist_sq < r2 {
                avg_vx = fp_add(avg_vx, states[j].vx);
                avg_vy = fp_add(avg_vy, states[j].vy);
                count = count + 1;
            }
        }
        j = j + 1;
    }
    if count > 0 {
        let c: i64 = count as i64;
        avg_vx = avg_vx / c;
        avg_vy = avg_vy / c;
        let steer_x: i64 = fp_sub(avg_vx, states[boid_idx].vx);
        let steer_y: i64 = fp_sub(avg_vy, states[boid_idx].vy);
        (steer_x, steer_y)
    } else {
        (0, 0)
    }
}

/// Calculate the cohesion force: steer toward the average position of
/// neighbors. With no neighbor in range the force is exactly zero.
pub fn cohesion(boid_idx: usize, states: &Vec<BoidState>, radius: i64) -> (r: (i64, i64))
    requires
        boid_idx < states.len(),
        states.len() <= 0x7fff_ffff,
    ensures
        r.0 as int == cohesion_s(states@, boid_idx as int, radius as int).0,
        r.1 as int == cohesion_s(states@, boid_idx as int, radius as int).1,
{
    let mut avg_x: i64 = 0;
    let mut avg_y: i64 = 0;
    let mut count: usize = 0;
    let r2: i64 = fp_mul(radius, radius);
    let bx: i64 = states[boid_idx].x;
    let by: i64 = states[boid_idx].y;
    let mut j: usize = 0;
    while j < states.len()
        invariant
            boid_idx < states.len(),
            states.len() <= 0x7fff_ffff,
            j <= states.len(),
            count <= j,
            bx == states@[boid_idx as int].x,
            by == states@[boid_idx as int].y,
            r2 as int == fmul(radius as int, radius as int),
            (avg_x as int, avg_y as int, count as int) == coh_accum(
                states@,
                boid_idx as int,
                radius as int,
                j as int,
            ),
        decreases states.len() - j,
    {
        if j != boid_idx {
            let dx: i64 = fp_sub(bx, states[j].x);
            let dy: i64 = fp_sub(by, states[j].y);
            let dist_sq: i64 = fp_add(fp_mul(dx, dx), fp_mul(dy, dy));
            if dist_sq > 0 && dist_sq < r2 {
                avg_x = fp_add(avg_x, states[j].x);
                avg_y = fp_add(avg_y, states[j].y);
                count = count + 1;
            }
        }
        j = j + 1;
    }
    if count > 0 {
        let c: i64 = count as i64;
        avg_x = avg_x / c;
        avg_y = avg_y / c;
        let desired_x: i64 = fp_sub(avg_x, bx);
        let desired_y: i64 = fp_sub(avg_y, by);
        let dist: i64 = fp_sqrt(fp_add(fp_mul(desired_x, desired_x), fp_mul(desired_y, desired_y)));
        if dist > 0 {
            let steer_x: i64 = fp_sub(fp_div(desired_x, dist), states[boid_idx].vx);
            let steer_y: i64 = fp_sub(fp_div(desired_y, dist), states[boid_idx].vy);
            (steer_x, steer_y)
        } else {
            (0, 0)
        }
    } else {
        (0, 0)
    }
}

/// Limit the magnitude of a force vector to `max_mag`, preserving its
/// direction.
pub fn limit_magnitude(x: i64, y: i64, max_mag: i64) -> (r: (i64, i64))
    ensures
        r.0 as int == limit_mag_s(x as int, y as int, max_mag as int).0,
        r.1 as int == limit_mag_s(x as int, y as int, max_mag as int).1,
{
    let mag_sq: i64 = fp_add(fp_mul(x, x), fp_mul(y, y));
    if mag_sq > fp_mul(max_mag, max_mag) {
        let mag: i64 = fp_sqrt(mag_sq);
        if mag > 0 {
            (fp_mul(fp_div(x, mag), max_mag), fp_mul(fp_div(y, mag), max_mag))
        } else {
            (x, y)
        }
    } else {
        (x, y)
    }
}

/// Clamp a velocity vector to the speed range [min_speed, max_speed]
/// progressively: each out-of-range side blends a share of the
/// rescaled velocity instead of clamping at once. A velocity whose
/// speed already lies within the range is returned unchanged.
pub fn clamp_speed_progressive(
    v: Vec2,
    min_speed: i64,
    max_speed: i64,
    accel: i64,
    decel: i64,
) -> (r: Vec2)
    ensures
        r == clamp_speed_s(v, min_speed as int, max_speed as int, accel as int, decel as int),
        min_speed <= len_s(v) <= max_speed ==> r == v,
{
    let mut out: Vec2 = v;
    let speed: i64 = out.length();
    if speed < min_speed {
        let denom: i64 = if speed > 1 {
            speed
        } else {
            1
        };
        let scale: i64 = fp_div(min_speed, denom);
        out = out.scale(fp_sub(SCALE, accel)).add(out.scale(scale).scale(accel));
    }
    let speed1: i64 = out.length();
    if speed1 > max_speed && speed1 > 0 {
        let scale: i64 = fp_div(max_speed, speed1);
        out = out.scale(fp_sub(SCALE, decel)).add(out.scale(scale).scale(decel));
    }
    out
}

/// The boundary decision for one agent: an additive force, a full
/// velocity override, or a hard bounce that fixes position and
/// velocity outright.
#[derive(Clone, Copy, Debug)]
pub enum BoundaryResult {
    Force { fx: i64, fy: i64 },
    OverrideVelocity { vx: i64, vy: i64 },
    Bounce { x: i64, y: i64, vx: i64, vy: i64 },
}

/// Whether a position lies within `boundary_margin` of some wall.
pub open spec fn in_margin_s(x: int, y: int, cfg: SimpleConfig) -> bool {
    x < cfg.boundary_margin || x > ssub(cfg.world_width as int, cfg.boundary_margin as int) || y
        < cfg.boundary_margin || y > ssub(cfg.world_height as int, cfg.boundary_margin as int)
}

/// A steepened smoothstep ramp: the clamped fraction `t` of `x`
/// between the edges, shaped as t^4 (6t - 15t^2 + 10).
pub open spec fn smoothstep_s(edge0: int, edge1: int, x: int) -> int {
    let span = ssub(edge1, edge0);
    let t_raw = if span > 0 {
        fdiv(ssub(x, edge0), span)
    } else {
        0
    };
    let t = if t_raw < 0 {
        0
    } else if t_raw > SCALE as int {
        SCALE as int
    } else {
        t_raw
    };
    let t2 = fmul(t, t);
    let inner = sadd(ssub(sat64(6 * t), sat64(15 * t2)), TEN_FP as int);
    fmul(fmul(t2, t2), inner)
}

/// One wall's repulsion at penetration `md` into a margin of width
/// `margin`: a smoothstepped ramp scaled by the wall multiplier and
/// the boundary strength, capped at four times the strength.
pub open spec fn wall_force_s(md: int, margin: int, strength: int) -> int
    recommends
        margin > 0,
{
    let d_raw = if md < 0 {
        0
    } else {
        md
    };
    let d = fdiv(d_raw, margin);
    let s = smoothstep_s(0, SCALE as int, d);
    let raw = fmul(fmul(fmul(WALL_MULT as int, WALL_SHARE as int), strength), s);
    let cap = sat64(4 * strength);
    if raw < cap {
        raw
    } else {
        cap
    }
}

/// The total margin force on an agent, the direction of the strongest
/// wall, and that wall's force. Walls are evaluated left, right, top,
/// bottom; on equal force the earlier wall keeps the record.
pub open spec fn boundary_forces_s(b: BoidState, cfg: SimpleConfig) -> ((int, int), (int, int), int) {
    let margin = cfg.boundary_margin as int;
    let strength = cfg.boundary_strength as int;
    let w = cfg.world_width as int;
    let h = cfg.world_height as int;
    if margin <= 0 {
        ((0, 0), (0, 0), 0)
    } else {
        let lf = wall_force_s(ssub(margin, b.x as int), margin, strength);
        let l_in = (b.x as int) < margin;
        let fx1 = if l_in {
            sadd(0, lf)
        } else {
            0
        };
        let m1 = if l_in && lf > 0 {
            lf
        } else {
            0
        };
        let d1 = if l_in && lf > 0 {
            (SCALE as int, 0int)
        } else {
            (0int, 0int)
        };
        let rf = wall_force_s(ssub(b.x as int, ssub(w, margin)), margin, strength);
        let r_in = (b.x as int) > ssub(w, margin);
        let fx2 = if r_in {
            ssub(fx1, rf)
        } else {
            fx1
        };
        let m2 = if r_in && rf > m1 {
            rf
        } else {
            m1
        };
        let d2 = if r_in && rf > m1 {
            (-(SCALE as int), 0int)
        } else {
            d1
        };
        let tf = wall_force_s(ssub(margin, b.y as int), margin, strength);
        let t_in = (b.y as int) < margin;
        let fy3 = if t_in {
            sadd(0, tf)
        } else {
            0
        };
        let m3 = if t_in && tf > m2 {
            tf
        } else {
            m2
        };
        let d3 = if t_in && tf > m2 {
            (0int, SCALE as int)
        } else {
            d2
        };
        let bf = wall_force_s(ssub(b.y as int, ssub(h, margin)), margin, strength);
        let b_in = (b.y as int) > ssub(h, margin);
        let fy4 = if b_in {
            ssub(fy3, bf)
        } else {
            fy3
        };
        let m4 = if b_in && bf > m3 {
            bf
        } else {
            m3
        };
        let d4 = if b_in && bf > m3 {
            (0int, -(SCALE as int))
        } else {
            d3
        };
        ((fx2, fy4), d4, m4)
    }
}

/// The hard-bounce outcome for an agent: whether some axis lies
/// outside the world, and the clamped position and reflected, nudged
/// velocity that a bounce would produce.
pub open spec fn bounce_s(b: BoidState, cfg: SimpleConfig, nudge: int, rng: int) -> (
    bool,
    int,
    int,
    int,
    int,
) {
    let w = cfg.world_width as int;
    let h = cfg.world_height as int;
    let boost = fmul(nudge, sadd(NUDGE_LOW as int, fmul(NUDGE_SPREAD as int, rng)));
    let out_x = (b.x as int) < 0 || (b.x as int) > w;
    let nx = if (b.x as int) < 0 {
        0
    } else if (b.x as int) > w {
        w
    } else {
        b.x as int
    };
    let nvx = if (b.x as int) < 0 {
        sadd(sabs(b.vx as int), boost)
    } else if (b.x as int) > w {
        ssub(sneg(sabs(b.vx as int)), boost)
    } else {
        b.vx as int
    };
    let out_y = (b.y as int) < 0 || (b.y as int) > h;
    let ny = if (b.y as int) < 0 {
        0
    } else if (b.y as int) > h {
        h
    } else {
        b.y as int
    };
    let nvy = if (b.y as int) < 0 {
        sadd(sabs(b.vy as int), boost)
    } else if (b.y as int) > h {
        ssub(sneg(sabs(b.vy as int)), boost)
    } else {
        b.vy as int
    };
    (out_x || out_y, nx, ny, nvx, nvy)
}

/// Whether a position lies within `boundary_margin` of some wall.
pub fn is_in_margin(x: i64, y: i64, config: &SimpleConfig) -> (r: bool)
    ensures
        r == in_margin_s(x as int, y as int, *config),
{
    x < config.boundary_margin || x > fp_sub(config.world_width, config.boundary_margin) || y
        < config.boundary_margin || y > fp_sub(config.world_height, config.boundary_margin)
}

/// The steepened smoothstep ramp of `x` between the two edges.
pub fn smoothstep(edge0: i64, edge1: i64, x: i64) -> (r: i64)
    ensures
        r as int == smoothstep_s(edge0 as int, edge1 as int, x as int),
{
    let span: i64 = fp_sub(edge1, edge0);
    let t_raw: i64 = if span > 0 {
        fp_div(fp_sub(x, edge0), span)
    } else {
        0
    };
    let t: i64 = if t_raw < 0 {
        0
    } else if t_raw > SCALE {
        SCALE
    } else {
        t_raw
    };
    let t2: i64 = fp_mul(t, t);
    let inner: i64 = fp_add(fp_sub(fp_scale(6, t), fp_scale(15, t2)), TEN_FP);
    fp_mul(fp_mul(t2, t2), inner)
}

/// One wall's repulsion at penetration `md` into the margin.
fn wall_force(md: i64, margin: i64, strength: i64) -> (r: i64)
    requires
        margin > 0,
    ensures
        r as int == wall_force_s(md as int, margin as int, strength as int),
{
    let d_raw: i64 = if md < 0 {
        0
    } else {
        md
    };
    let d: i64 = fp_div(d_raw, margin);
    let s: i64 = smoothstep(0, SCALE, d);
    let raw: i64 = fp_mul(fp_mul(fp_mul(WALL_MULT, WALL_SHARE), strength), s);
    let cap: i64 = fp_scale(4, strength);
    if raw < cap {
        raw
    } else {
        cap
    }
}

/// Calculate the force from all boundaries for an agent, the strongest
/// wall's direction, and that wall's force.
pub fn boundary_forces(boid: &BoidState, config: &SimpleConfig) -> (r: (
    (i64, i64),
    (i64, i64),
    i64,
))
    ensures
        r.0.0 as int == boundary_forces_s(*boid, *config).0.0,
        r.0.1 as int == boundary_forces_s(*boid, *config).0.1,
        r.1.0 as int == boundary_forces_s(*boid, *config).1.0,
        r.1.1 as int == boundary_forces_s(*boid, *config).1.1,
        r.2 as int == boundary_forces_s(*boid, *config).2,
{
    let margin: i64 = config.boundary_margin;
    let strength: i64 = config.boundary_strength;
    let width: i64 = config.world_width;
    let height: i64 = config.world_height;
    if margin <= 0 {
        return ((0, 0), (0, 0), 0);
    }
    let mut force_x: i64 = 0;
    let mut force_y: i64 = 0;
    let mut max_wall_force: i64 = 0;
    let mut wall_dir_x: i64 = 0;
    let mut wall_dir_y: i64 = 0;
    if boid.x < margin {
        let f: i64 = wall_force(fp_sub(margin, boid.x), margin, strength);
        if f > max_wall_force {
            max_wall_force = f;
            wall_dir_x = SCALE;
            wall_dir_y = 0;
        }
        force_x = fp_add(force_x, f);
    }
    if boid.x > fp_sub(width, margin) {
        let f: i64 = wall_force(fp_sub(boid.x, fp_sub(width, margin)), margin, strength);
        if f > max_wall_force {
            max_wall_force = f;
            wall_dir_x = -SCALE;
            wall_dir_y = 0;
        }
        force_x = fp_sub(force_x, f);
    }
    if boid.y < margin {
        let f: i64 = wall_force(fp_sub(margin, boid.y), margin, strength);
        if f > max_wall_force {
            max_wall_force = f;
            wall_dir_x = 0;
            wall_dir_y = SCALE;
        }
        force_y = fp_add(force_y, f);
    }
    if boid.y > fp_sub(height, margin) {
        let f: i64 = wall_force(fp_sub(boid.y, fp_sub(height, margin)), margin, strength);
        if f > max_wall_force {
            max_wall_force = f;
            wall_dir_x = 0;
            wall_dir_y = -SCALE;
        }
        force_y = fp_sub(force_y, f);
    }
    ((force_x, force_y), (wall_dir_x, wall_dir_y), max_wall_force)
}

/// Handle the hard bounce for an agent whose position has left the
/// world on some axis: that axis is clamped to the wall and its
/// velocity component reflected inward with a nudge.
pub fn handle_hard_bounce(
    boid: &BoidState,
    config: &SimpleConfig,
    nudge: i64,
    rng: i64,
) -> (r: Option<(i64, i64, i64, i64)>)
    ensures
        ({
            let bn = bounce_s(*boid, *config, nudge as int, rng as int);
            match r {
                Some(t) => bn.0 && t.0 as int == bn.1 && t.1 as int == bn.2 && t.2 as int == bn.3
                    && t.3 as int == bn.4,
                None => !bn.0,
            }
        }),
{
    let width: i64 = config.world_width;
    let height: i64 = config.world_height;
    let boost: i64 = fp_mul(nudge, fp_add(NUDGE_LOW, fp_mul(NUDGE_SPREAD, rng)));
    let mut new_x: i64 = boid.x;
    let mut new_y: i64 = boid.y;
    let mut new_vx: i64 = boid.vx;
    let mut new_vy: i64 = boid.vy;
    let mut bounced: bool = false;
    if boid.x < 0 {
        new_x = 0;
        new_vx = fp_add(crate::fixed::fp_abs(boid.vx), boost);
        bounced = true;
    } else if boid.x > width {
        new_x = width;
        new_vx = fp_sub(fp_neg(crate::fixed::fp_abs(boid.vx)), boost);
        bounced = true;
    }
    if boid.y < 0 {
        new_y = 0;
        new_vy = fp_add(crate::fixed::fp_abs(boid.vy), boost);
        bounced = true;
    } else if boid.y > height {
        new_y = height;
        new_vy = fp_sub(fp_neg(crate::fixed::fp_abs(boid.vy)), boost);
        bounced = true;
    }
    if bounced {
        Some((new_x, new_y, new_vx, new_vy))
    } else {
        None
    }
}

/// Decide the boundary response for one agent: a hard bounce when its
/// position has left the world, and otherwise the additive margin
/// force (which is zero away from the margin).
pub fn boundary_avoidance_simple(
    boid: &BoidState,
    config: &SimpleConfig,
    rng01: i64,
) -> (r: BoundaryResult)
    ensures
        ({
            let bn = bounce_s(*boid, *config, NUDGE_BASE as int, rng01 as int);
            let bf = boundary_forces_s(*boid, *config);
            if bn.0 {
                r == (BoundaryResult::Bounce {
                    x: bn.1 as i64,
                    y: bn.2 as i64,
                    vx: bn.3 as i64,
                    vy: bn.4 as i64,
                })
            } else {
                r == (BoundaryResult::Force { fx: bf.0.0 as i64, fy: bf.0.1 as i64 })
            }
        }),
{
    let forces: ((i64, i64), (i64, i64), i64) = boundary_forces(boid, config);
    match handle_hard_bounce(boid, config, NUDGE_BASE, rng01) {
        Some(t) => BoundaryResult::Bounce { x: t.0, y: t.1, vx: t.2, vy: t.3 },
        None => BoundaryResult::Force { fx: forces.0.0, fy: forces.0.1 },
    }
}

/// The deep-margin override for an agent inside the margin band: all
/// flocking and margin forces are bypassed for one strong pull toward
/// the world center, and the in-margin flag is set.
pub open spec fn margin_override_s(b: BoidState, cfg: SimpleConfig, dt: int, min_speed: int) -> (
    int,
    int,
    int,
    int,
    int,
) {
    let center = v2s(
        fmul(HALF_FP as int, cfg.world_width as int),
        fmul(HALF_FP as int, cfg.world_height as int),
    );
    let pos = v2s(b.x as int, b.y as int);
    let dir = normalized_s(sub_s(center, pos));
    let force = scale_s(dir, sat64(10 * (cfg.max_force as int)));
    let vel = clamp_speed_s(
        add_s(v2s(b.vx as int, b.vy as int), scale_s(force, dt)),
        min_speed,
        cfg.max_speed as int,
        SPEED_BLEND as int,
        SPEED_BLEND as int,
    );
    let np = add_s(pos, scale_s(vel, dt));
    (np.x as int, np.y as int, vel.x as int, vel.y as int, FLAG_IN_MARGIN as int)
}

/// The normal flocking tier: the weighted flocking forces plus the
/// additive margin force, limited to `max_force`, integrated, jittered
/// by the angle drawn from `r2`, speed-clamped, and advanced; the flag
/// reflects the margin test on the new position.
pub open spec fn normal_update_s(
    states: Seq<BoidState>,
    i: int,
    cfg: SimpleConfig,
    dt: int,
    min_speed: int,
    jitter: int,
    r2: int,
) -> (int, int, int, int, int) {
    let b = states[i];
    let sep = separation_s(states, i, cfg.separation_radius as int);
    let ali = alignment_s(states, i, cfg.alignment_radius as int);
    let coh = cohesion_s(states, i, cfg.cohesion_radius as int);
    let bf = boundary_forces_s(b, cfg).0;
    let fx = sadd(
        sadd(
            sadd(
                fmul(sep.0, cfg.separation_strength as int),
                fmul(ali.0, cfg.alignment_strength as int),
            ),
            fmul(coh.0, cfg.cohesion_strength as int),
        ),
        bf.0,
    );
    let fy = sadd(
        sadd(
            sadd(
                fmul(sep.1, cfg.separation_strength as int),
                fmul(ali.1, cfg.alignment_strength as int),
            ),
            fmul(coh.1, cfg.cohesion_strength as int),
        ),
        bf.1,
    );
    let lim = limit_mag_s(fx, fy, cfg.max_force as int);
    let vel0 = add_s(v2s(b.vx as int, b.vy as int), scale_s(v2s(lim.0, lim.1), dt));
    let angle = fmul(r2, TAU_FP as int);
    let jit = v2s(fmul(cos_s(angle), jitter), fmul(sin_s(angle), jitter));
    let vel = clamp_speed_s(
        add_s(vel0, jit),
        min_speed,
        cfg.max_speed as int,
        SPEED_BLEND as int,
        SPEED_BLEND as int,
    );
    let np = add_s(v2s(b.x as int, b.y as int), scale_s(vel, dt));
    let fl: int = if in_margin_s(np.x as int, np.y as int, cfg) {
        FLAG_IN_MARGIN as int
    } else {
        0
    };
    (np.x as int, np.y as int, vel.x as int, vel.y as int, fl)
}

/// The next state of agent `i` as one 5-tuple (x, y, vx, vy, flags),
/// given the two random draws of its frame: `r1` feeds the bounce
/// nudge, `r2` the jitter angle. The three boundary tiers apply in
/// strict priority: hard bounce, deep-margin override, then normal
/// flocking with the additive margin force.
#[verifier::opaque]
pub open spec fn update_one_s(
    states: Seq<BoidState>,
    i: int,
    cfg: SimpleConfig,
    dt: int,
    min_speed: int,
    jitter: int,
    r1: int,
    r2: int,
) -> (int, int, int, int, int) {
    let b = states[i];
    let bn = bounce_s(b, cfg, NUDGE_BASE as int, r1);
    if bn.0 {
        (bn.1, bn.2, bn.3, bn.4, 0)
    } else if in_margin_s(b.x as int, b.y as int, cfg) {
        margin_override_s(b, cfg, dt, min_speed)
    } else {
        normal_update_s(states, i, cfg, dt, min_speed, jitter, r2)
    }
}

/// Update a single agent against the unmodified frame, drawing its two
/// randoms from the generator state.
#[verifier::rlimit(50)]
pub fn update_boid_state(
    i: usize,
    boid: &BoidState,
    states: &Vec<BoidState>,
    config: &SimpleConfig,
    dt: i64,
    min_speed: i64,
    jitter: i64,
    rng: &mut u32,
) -> (r: BoidState)
    requires
        i < states.len(),
        states.len() <= 0x7fff_ffff,
        *boid == states@[i as int],
    ensures
        *final(rng) == hash_u32_spec(hash_u32_spec(*old(rng))),
        ({
            let r1 = frand01_val(hash_u32_spec(*old(rng)));
            let r2 = frand01_val(hash_u32_spec(hash_u32_spec(*old(rng))));
            let m = update_one_s(
                states@,
                i as int,
                *config,
                dt as int,
                min_speed as int,
                jitter as int,
                r1,
                r2,
            );
            r.x as int == m.0 && r.y as int == m.1 && r.vx as int == m.2 && r.vy as int == m.3
                && r.flags as int == m.4
        }),
{
    proof {
        reveal(update_one_s);
    }
    let r1: i64 = frand01(rng);
    let r2: i64 = frand01(rng);
    let bres: BoundaryResult = boundary_avoidance_simple(boid, config, r1);
    if let BoundaryResult::Bounce { x, y, vx, vy } = bres {
        return BoidState { x, y, vx, vy, flags: 0 };
    }
    if is_in_margin(boid.x, boid.y, config) {
        // Deep-margin override: a strong pull toward the world center
        // replaces all flocking and margin forces.
        let center: Vec2 = Vec2 {
            x: fp_mul(HALF_FP, config.world_width),
            y: fp_mul(HALF_FP, config.world_height),
        };
        let pos: Vec2 = boid.pos();
        let dir: Vec2 = center.sub(pos).normalized();
        let margin_force: i64 = fp_scale(10, config.max_force);
        let force: Vec2 = dir.scale(margin_force);
        let mut vel: Vec2 = boid.vel().add(force.scale(dt));
        vel = clamp_speed_progressive(vel, min_speed, config.max_speed, SPEED_BLEND, SPEED_BLEND);
        let new_pos: Vec2 = pos.add(vel.scale(dt));
        return BoidState {
            x: new_pos.x,
            y: new_pos.y,
            vx: vel.x,
            vy: vel.y,
            flags: FLAG_IN_MARGIN,
        };
    }
    let sep: (i64, i64) = separation(i, states, config.separation_radius);
    let ali: (i64, i64) = alignment(i, states, config.alignment_radius);
    let coh: (i64, i64) = cohesion(i, states, config.cohesion_radius);
    let mut force_x: i64 = fp_add(
        fp_add(
            fp_mul(sep.0, config.separation_strength),
            fp_mul(ali.0, config.alignment_strength),
        ),
        fp_mul(coh.0, config.cohesion_strength),
    );
    let mut force_y: i64 = fp_add(
        fp_add(
            fp_mul(sep.1, config.separation_strength),
            fp_mul(ali.1, config.alignment_strength),
        ),
        fp_mul(coh.1, config.cohesion_strength),
    );
    match bres {
        BoundaryResult::Force { fx, fy } => {
            force_x = fp_add(force_x, fx);
            force_y = fp_add(force_y, fy);
        },
        BoundaryResult::OverrideVelocity { vx, vy } => {
            let new_x: i64 = fp_add(boid.x, fp_mul(vx, dt));
            let new_y: i64 = fp_add(boid.y, fp_mul(vy, dt));
            return BoidState { x: new_x, y: new_y, vx, vy, flags: 0 };
        },
        BoundaryResult::Bounce { x, y, vx, vy } => {
            return BoidState { x, y, vx, vy, flags: 0 };
        },
    }
    let lim: (i64, i64) = limit_magnitude(force_x, force_y, config.max_force);
    let mut vel: Vec2 = boid.vel().add(Vec2 { x: lim.0, y: lim.1 }.scale(dt));
    let angle: i64 = fp_mul(r2, TAU_FP);
    proof {
        crate::fixed::lemma_fmul_fraction(r2 as int, TAU_FP as int);
    }
    let jit: Vec2 = Vec2 { x: fp_mul(fp_cos(angle), jitter), y: fp_mul(fp_sin(angle), jitter) };
    vel = vel.add(jit);
    vel = clamp_speed_progressive(vel, min_speed, config.max_speed, SPEED_BLEND, SPEED_BLEND);
    let new_pos: Vec2 = boid.pos().add(vel.scale(dt));
    let fl: u32 = if is_in_margin(new_pos.x, new_pos.y, config) {
        FLAG_IN_MARGIN
    } else {
        0
    };
    BoidState { x: new_pos.x, y: new_pos.y, vx: vel.x, vy: vel.y, flags: fl }
}

/// The agents encoded in a flat input buffer of stride 4
/// (x, y, vx, vy per agent), flags cleared. A trailing fragment
/// shorter than one stride is dropped.
pub open spec fn parse_states_s(data: Seq<i64>) -> Seq<BoidState> {
    Seq::new(
        (data.len() / 4) as nat,
        |i: int|
            BoidState {
                x: data[4 * i],
                y: data[4 * i + 1],
                vx: data[4 * i + 2],
                vy: data[4 * i + 3],
                flags: 0,
            },
    )
}

/// The generator state after the first `k` agents of a frame, each of
/// which draws twice.
pub open spec fn seed_after(seed: u32, k: nat) -> u32
    decreases k,
{
    if k == 0 {
        seed
    } else {
        hash_u32_spec(hash_u32_spec(seed_after(seed, (k - 1) as nat)))
    }
}

/// The next frame: every agent updated against the unmodified current
/// frame, with its randoms drawn in agent order from `seed`.
pub open spec fn update_all_s(
    states: Seq<BoidState>,
    cfg: SimpleConfig,
    dt: int,
    min_speed: int,
    jitter: int,
    seed: u32,
) -> Seq<(int, int, int, int, int)> {
    Seq::new(
        states.len(),
        |i: int|
            {
                let s = seed_after(seed, i as nat);
                update_one_s(
                    states,
                    i,
                    cfg,
                    dt,
                    min_speed,
                    jitter,
                    frand01_val(hash_u32_spec(s)),
                    frand01_val(hash_u32_spec(hash_u32_spec(s))),
                )
            },
    )
}

/// Whether an agent state equals a model row componentwise.
pub open spec fn state_matches(b: BoidState, m: (int, int, int, int, int)) -> bool {
    b.x as int == m.0 && b.y as int == m.1 && b.vx as int == m.2 && b.vy as int == m.3
        && b.flags as int == m.4
}

/// Rows of five components flattened into one buffer of stride 5.
pub open spec fn flatten5_s(rows: Seq<(int, int, int, int, int)>) -> Seq<i64>
    decreases rows.len(),
{
    if rows.len() == 0 {
        Seq::<i64>::empty()
    } else {
        let l = rows.last();
        flatten5_s(rows.drop_last()).push(l.0 as i64).push(l.1 as i64).push(l.2 as i64).push(
            l.3 as i64,
        ).push(l.4 as i64)
    }
}

/// A flattened sequence is five times as long as its rows.
pub proof fn lemma_flatten5_len(rows: Seq<(int, int, int, int, int)>)
    ensures
        flatten5_s(rows).len() == 5 * rows.len(),
    decreases rows.len(),
{
    if rows.len() > 0 {
        lemma_flatten5_len(rows.drop_last());
    }
}

/// The full frame update on a flat buffer: parse, update every agent,
/// and flatten the next frame with stride 5 (x, y, vx, vy, flags).
pub open spec fn update_flat_s(
    data: Seq<i64>,
    cfg: SimpleConfig,
    dt: int,
    min_speed: int,
    jitter: int,
    seed: u32,
) -> Seq<i64> {
    flatten5_s(update_all_s(parse_states_s(data), cfg, dt, min_speed, jitter, seed))
}

/// Update the whole flock held in a flat buffer of stride 4
/// (x, y, vx, vy per agent). The result uses stride 5: the derived
/// flags value follows each agent's new position and velocity. All
/// randomness comes from `seed`, so equal inputs give equal outputs.
pub fn update_boids_flat_impl(
    boids_data: &Vec<i64>,
    separation_radius: i64,
    alignment_radius: i64,
    cohesion_radius: i64,
    separation_strength: i64,
    alignment_strength: i64,
    cohesion_strength: i64,
    max_speed: i64,
    max_force: i64,
    boundary_margin: i64,
    boundary_strength: i64,
    world_width: i64,
    world_height: i64,
    dt: i64,
    min_speed: i64,
    jitter: i64,
    seed: u32,
) -> (result: Vec<i64>)
    requires
        boids_data.len() <= 0x7fff_ffff,
    ensures
        result@ == update_flat_s(
            boids_data@,
            (SimpleConfig {
                separation_radius,
                alignment_radius,
                cohesion_radius,
                separation_strength,
                alignment_strength,
                cohesion_strength,
                max_speed,
                max_force,
                boundary_margin,
                boundary_strength,
                world_width,
                world_height,
            }),
            dt as int,
            min_speed as int,
            jitter as int,
            seed,
        ),
        result@.len() == 5 * (boids_data@.len() / 4),
{
    let config = SimpleConfig {
        separation_radius,
        alignment_radius,
        cohesion_radius,
        separation_strength,
        alignment_strength,
        cohesion_strength,
        max_speed,
        max_force,
        boundary_margin,
        boundary_strength,
        world_width,
        world_height,
    };
    let boid_count: usize = boids_data.len() / 4;
    if boid_count == 0 {
        proof {
            assert(parse_states_s(boids_data@).len() == 0);
            assert(update_all_s(
                parse_states_s(boids_data@),
                config,
                dt as int,
                min_speed as int,
                jitter as int,
                seed,
            ).len() == 0);
        }
        return Vec::new();
    }
    let mut states: Vec<BoidState> = Vec::new();
    let mut i: usize = 0;
    while i < boid_count
        invariant
            boid_count == boids_data@.len() / 4,
            boids_data@.len() <= 0x7fff_ffff,
            i <= boid_count,
            states@.len() == i as int,
            forall|k: int| 0 <= k < i as int ==> states@[k] == parse_states_s(boids_data@)[k],
        decreases boid_count - i,
    {
        let idx: usize = i * 4;
        let b = BoidState {
            x: boids_data[idx],
            y: boids_data[idx + 1],
            vx: boids_data[idx + 2],
            vy: boids_data[idx + 3],
            flags: 0,
        };
        states.push(b);
        i = i + 1;
    }
    proof {
        assert(states@ =~= parse_states_s(boids_data@));
    }
    let ghost rows = update_all_s(states@, config, dt as int, min_speed as int, jitter as int, seed);
    let mut updated: Vec<BoidState> = Vec::new();
    let mut rng_state: u32 = seed;
    let mut i: usize = 0;
    while i < boid_count
        invariant
            boid_count == states@.len(),
            states@.len() <= 0x7fff_ffff,
            rows == update_all_s(states@, config, dt as int, min_speed as int, jitter as int, seed),
            i <= boid_count,
            updated@.len() == i as int,
            rng_state == seed_after(seed, i as nat),
            forall|k: int| 0 <= k < i as int ==> #[trigger] state_matches(updated@[k], rows[k]),
        decreases boid_count - i,
    {
        let b: BoidState = states[i];
        let nb: BoidState = update_boid_state(
            i,
            &b,
            &states,
            &config,
            dt,
            min_speed,
            jitter,
            &mut rng_state,
        );
        updated.push(nb);
        proof {
            let s0 = seed_after(seed, i as nat);
            assert(seed_after(seed, (i + 1) as nat) == hash_u32_spec(hash_u32_spec(s0)));
            assert(rows[i as int] == update_one_s(
                states@,
                i as int,
                config,
                dt as int,
                min_speed as int,
                jitter as int,
                frand01_val(hash_u32_spec(s0)),
                frand01_val(hash_u32_spec(hash_u32_spec(s0))),
            ));
            assert(state_matches(nb, rows[i as int]));
        }
        i = i + 1;
    }
    let mut result: Vec<i64> = Vec::new();
    let mut i: usize = 0;
    while i < boid_count
        invariant
            boid_count == states@.len(),
            updated@.len() == boid_count as int,
            rows == update_all_s(states@, config, dt as int, min_speed as int, jitter as int, seed),
            i <= boid_count,
            forall|k: int|
                0 <= k < boid_count as int ==> #[trigger] state_matches(updated@[k], rows[k]),
            result@ == flatten5_s(rows.take(i as int)),
        decreases boid_count - i,
    {
        let s: BoidState = updated[i];
        proof {
            let l = rows[i as int];
            assert(state_matches(updated@[i as int], l));
            assert(rows.take(i as int + 1).drop_last() =~= rows.take(i as int));
            assert(rows.take(i as int + 1).last() == l);
            assert(flatten5_s(rows.take(i as int + 1)) == flatten5_s(rows.take(i as int)).push(
                l.0 as i64,
            ).push(l.1 as i64).push(l.2 as i64).push(l.3 as i64).push(l.4 as i64));
        }
        result.push(s.x);
        result.push(s.y);
        result.push(s.vx);
        result.push(s.vy);
        result.push(s.flags as i64);
        i = i + 1;
    }
    proof {
        assert(rows.take(boid_count as int) =~= rows);
        lemma_flatten5_len(rows);
    }
    result
}

/// The generator state after the first `k` created agents, each of
/// which draws four times.
pub open spec fn create_seed_after(seed: u32, k: nat) -> u32
    decreases k,
{
    if k == 0 {
        seed
    } else {
        let s = create_seed_after(seed, (k - 1) as nat);
        hash_u32_spec(hash_u32_spec(hash_u32_spec(hash_u32_spec(s))))
    }
}

/// One created agent (x, y, vx, vy): position uniform in the given
/// box, velocity a uniform angle at a uniform speed up to `max_speed`.
pub open spec fn create_one_s(
    min_x: int,
    max_x: int,
    min_y: int,
    max_y: int,
    max_speed: int,
    s: u32,
) -> (int, int, int, int) {
    let s1 = hash_u32_spec(s);
    let s2 = hash_u32_spec(s1);
    let s3 = hash_u32_spec(s2);
    let s4 = hash_u32_spec(s3);
    let x = sadd(min_x, fmul(frand01_val(s1), ssub(max_x, min_x)));
    let y = sadd(min_y, fmul(frand01_val(s2), ssub(max_y, min_y)));
    let angle = fmul(frand01_val(s3), TAU_FP as int);
    let speed = fmul(frand01_val(s4), max_speed);
    (x, y, fmul(cos_s(angle), speed), fmul(sin_s(angle), speed))
}

/// The first `count` created agents as a flat buffer of stride 4.
pub open spec fn create_flat_s(
    count: nat,
    min_x: int,
    max_x: int,
    min_y: int,
    max_y: int,
    max_speed: int,
    seed: u32,
) -> Seq<i64>
    decreases count,
{
    if count == 0 {
        Seq::<i64>::empty()
    } else {
        let prev = create_flat_s((count - 1) as nat, min_x, max_x, min_y, max_y, max_speed, seed);
        let t = create_one_s(
            min_x,
            max_x,
            min_y,
            max_y,
            max_speed,
            create_seed_after(seed, (count - 1) as nat),
        );
        prev.push(t.0 as i64).push(t.1 as i64).push(t.2 as i64).push(t.3 as i64)
    }
}

/// Create `count` agents as a flat buffer of stride 4 (x, y, vx, vy),
/// sampled deterministically from `seed`: positions uniform in the
/// given box, velocities a uniform direction at a uniform speed up to
/// `max_speed`.
pub fn create_boids_flat(
    count: usize,
    min_x: i64,
    max_x: i64,
    min_y: i64,
    max_y: i64,
    max_speed: i64,
    seed: u32,
) -> (result: Vec<i64>)
    ensures
        result@ == create_flat_s(
            count as nat,
            min_x as int,
            max_x as int,
            min_y as int,
            max_y as int,
            max_speed as int,
            seed,
        ),
        result@.len() == 4 * count,
{
    let mut result: Vec<i64> = Vec::new();
    let mut rng_state: u32 = seed;
    let mut k: usize = 0;
    while k < count
        invariant
            k <= count,
            rng_state == create_seed_after(seed, k as nat),
            result@.len() == 4 * k,
            result@ == create_flat_s(
                k as nat,
                min_x as int,
                max_x as int,
                min_y as int,
                max_y as int,
                max_speed as int,
                seed,
            ),
        decreases count - k,
    {
        let r1: i64 = frand01(&mut rng_state);
        let r2: i64 = frand01(&mut rng_state);
        let r3: i64 = frand01(&mut rng_state);
        let r4: i64 = frand01(&mut rng_state);
        let x: i64 = fp_add(min_x, fp_mul(r1, fp_sub(max_x, min_x)));
        let y: i64 = fp_add(min_y, fp_mul(r2, fp_sub(max_y, min_y)));
        let angle: i64 = fp_mul(r3, TAU_FP);
        proof {
            crate::fixed::lemma_fmul_fraction(r3 as int, TAU_FP as int);
        }
        let speed: i64 = fp_mul(r4, max_speed);
        let vx: i64 = fp_mul(fp_cos(angle), speed);
        let vy: i64 = fp_mul(fp_sin(angle), speed);
        result.push(x);
        result.push(y);
        result.push(vx);
        result.push(vy);
        k = k + 1;
    }
    result
}

} // verus!
