use boids::boids::{
    alignment, boundary_forces, clamp_speed_progressive, cohesion, handle_hard_bounce,
    limit_magnitude, separation, smoothstep, BoidState, SimpleConfig, NUDGE_BASE, SPEED_BLEND,
};
use boids::fixed::SCALE;
use boids::vec2::Vec2;

fn boid(x: i64, y: i64, vx: i64, vy: i64) -> BoidState {
    BoidState { x, y, vx, vy, flags: 0 }
}

fn config_100x100(margin: i64) -> SimpleConfig {
    SimpleConfig {
        separation_radius: 2 * SCALE,
        alignment_radius: 2 * SCALE,
        cohesion_radius: 2 * SCALE,
        separation_strength: SCALE,
        alignment_strength: SCALE,
        cohesion_strength: SCALE,
        max_speed: 10 * SCALE,
        max_force: 10 * SCALE,
        boundary_margin: margin,
        boundary_strength: SCALE,
        world_width: 100 * SCALE,
        world_height: 100 * SCALE,
    }
}

#[test]
fn lone_agent_feels_no_force() {
    let states = vec![boid(5 * SCALE, 5 * SCALE, SCALE, 0)];
    assert_eq!(separation(0, &states, 100 * SCALE), (0, 0));
    assert_eq!(alignment(0, &states, 100 * SCALE), (0, 0));
    assert_eq!(cohesion(0, &states, 100 * SCALE), (0, 0));
}

#[test]
fn distant_agents_feel_no_force() {
    let states = vec![boid(0, 0, SCALE, 0), boid(50 * SCALE, 0, 0, SCALE)];
    assert_eq!(separation(0, &states, 2 * SCALE), (0, 0));
    assert_eq!(alignment(0, &states, 2 * SCALE), (0, 0));
    assert_eq!(cohesion(0, &states, 2 * SCALE), (0, 0));
}

#[test]
fn coincident_agents_are_excluded() {
    let states = vec![boid(5 * SCALE, 5 * SCALE, 0, 0), boid(5 * SCALE, 5 * SCALE, 0, 0)];
    assert_eq!(separation(0, &states, 2 * SCALE), (0, 0));
    assert_eq!(alignment(0, &states, 2 * SCALE), (0, 0));
    assert_eq!(cohesion(0, &states, 2 * SCALE), (0, 0));
}

#[test]
fn separation_pushes_two_agents_apart() {
    let states = vec![boid(0, 0, 0, 0), boid(SCALE, 0, 0, 0)];
    let f0 = separation(0, &states, 2 * SCALE);
    let f1 = separation(1, &states, 2 * SCALE);
    assert_eq!(f0, (-SCALE, 0));
    assert_eq!(f1, (SCALE, 0));
    assert_eq!(f0.0.abs(), f1.0.abs());
}

#[test]
fn alignment_averages_neighbor_velocity() {
    let states = vec![boid(0, 0, 0, 0), boid(SCALE, 0, 2 * SCALE, SCALE)];
    assert_eq!(alignment(0, &states, 2 * SCALE), (2 * SCALE, SCALE));
}

#[test]
fn cohesion_steers_toward_neighbors() {
    let states = vec![boid(0, 0, 0, 0), boid(SCALE, 0, 0, 0)];
    assert_eq!(cohesion(0, &states, 2 * SCALE), (SCALE, 0));
}

#[test]
fn limit_magnitude_rescales_long_vectors() {
    assert_eq!(limit_magnitude(3 * SCALE, 4 * SCALE, 6 * SCALE), (3 * SCALE, 4 * SCALE));
    assert_eq!(limit_magnitude(3 * SCALE, 4 * SCALE, 5 * SCALE / 2), (98302, 131070));
    assert_eq!(limit_magnitude(0, 0, SCALE), (0, 0));
}

#[test]
fn progressive_clamp_is_idempotent_in_range() {
    let v = Vec2::new(3 * SCALE, 4 * SCALE);
    let r = clamp_speed_progressive(v, SCALE, 10 * SCALE, SPEED_BLEND, SPEED_BLEND);
    assert_eq!((r.x, r.y), (v.x, v.y));
    let edge = clamp_speed_progressive(v, 5 * SCALE, 5 * SCALE, SPEED_BLEND, SPEED_BLEND);
    assert_eq!((edge.x, edge.y), (v.x, v.y));
}

#[test]
fn progressive_clamp_blends_above_ceiling() {
    let v = Vec2::new(3 * SCALE, 4 * SCALE);
    let r = clamp_speed_progressive(v, 0, 5 * SCALE / 2, SPEED_BLEND, SPEED_BLEND);
    assert_eq!((r.x, r.y), (186777, 249036));
}

#[test]
fn progressive_clamp_keeps_zero_velocity_at_rest() {
    let v = Vec2::new(0, 0);
    let r = clamp_speed_progressive(v, SCALE, 10 * SCALE, SPEED_BLEND, SPEED_BLEND);
    assert_eq!((r.x, r.y), (0, 0));
}

#[test]
fn smoothstep_landmarks() {
    assert_eq!(smoothstep(0, SCALE, 0), 0);
    assert_eq!(smoothstep(0, SCALE, SCALE), SCALE);
    assert_eq!(smoothstep(0, SCALE, SCALE / 2), 37888);
    assert_eq!(smoothstep(0, SCALE, -5 * SCALE), 0);
    assert_eq!(smoothstep(0, SCALE, 2 * SCALE), SCALE);
}

#[test]
fn wall_force_caps_at_four_strengths() {
    let cfg = config_100x100(10 * SCALE);
    let b = boid(0, 50 * SCALE, 0, 0);
    let ((fx, fy), (dx, dy), strongest) = boundary_forces(&b, &cfg);
    assert_eq!((fx, fy), (4 * SCALE, 0));
    assert_eq!((dx, dy), (SCALE, 0));
    assert_eq!(strongest, 4 * SCALE);
}

#[test]
fn boundary_force_is_zero_away_from_walls() {
    let cfg = config_100x100(10 * SCALE);
    let b = boid(50 * SCALE, 50 * SCALE, 0, 0);
    let ((fx, fy), _, strongest) = boundary_forces(&b, &cfg);
    assert_eq!((fx, fy, strongest), (0, 0, 0));
}

#[test]
fn corner_sums_wall_forces_on_both_axes() {
    let cfg = config_100x100(10 * SCALE);
    let b = boid(0, 0, 0, 0);
    let ((fx, fy), (dx, dy), strongest) = boundary_forces(&b, &cfg);
    assert_eq!((fx, fy), (4 * SCALE, 4 * SCALE));
    // The left wall was evaluated first and keeps the record on a tie.
    assert_eq!((dx, dy), (SCALE, 0));
    assert_eq!(strongest, 4 * SCALE);
}

#[test]
fn bounce_reflects_and_nudges_left_wall() {
    let cfg = config_100x100(0);
    let b = boid(-SCALE, 50 * SCALE, -2 * SCALE, SCALE);
    let r = handle_hard_bounce(&b, &cfg, NUDGE_BASE, 0);
    assert_eq!(r, Some((0, 50 * SCALE, 2 * SCALE + 262145, SCALE)));
    let r1 = handle_hard_bounce(&b, &cfg, NUDGE_BASE, SCALE);
    assert_eq!(r1, Some((0, 50 * SCALE, 2 * SCALE + 393215, SCALE)));
}

#[test]
fn bounce_clamps_both_axes_independently() {
    let cfg = config_100x100(0);
    let b = boid(101 * SCALE, -SCALE, 3 * SCALE, -SCALE);
    let r = handle_hard_bounce(&b, &cfg, NUDGE_BASE, 0).unwrap();
    assert_eq!(r.0, 100 * SCALE);
    assert_eq!(r.1, 0);
    assert_eq!(r.2, -3 * SCALE - 262145);
    assert_eq!(r.3, SCALE + 262145);
}

#[test]
fn inside_world_never_bounces() {
    let cfg = config_100x100(0);
    let b = boid(0, 100 * SCALE, -5 * SCALE, 5 * SCALE);
    assert_eq!(handle_hard_bounce(&b, &cfg, NUDGE_BASE, 0), None);
}
