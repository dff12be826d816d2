use boids::boids::{create_boids_flat, update_boids_flat_impl};
use boids::fixed::SCALE;

const W: i64 = 100 * SCALE;

#[allow(clippy::too_many_arguments)]
fn update_calm(data: &Vec<i64>, margin: i64, seed: u32) -> Vec<i64> {
    // Zero strengths and zero jitter: only boundary handling can move
    // an agent off its straight line.
    update_boids_flat_impl(
        data,
        2 * SCALE,
        2 * SCALE,
        2 * SCALE,
        0,
        0,
        0,
        10 * SCALE,
        SCALE,
        margin,
        SCALE,
        W,
        W,
        SCALE,
        0,
        0,
        seed,
    )
}

#[test]
fn empty_input_gives_empty_output() {
    let out = update_calm(&Vec::new(), 0, 5);
    assert_eq!(out, Vec::<i64>::new());
    assert_eq!(create_boids_flat(0, 0, SCALE, 0, SCALE, SCALE, 5), Vec::<i64>::new());
}

#[test]
fn trailing_fragment_is_dropped() {
    let data = vec![50 * SCALE, 50 * SCALE, 0, 0, 7 * SCALE, 8 * SCALE, 9 * SCALE];
    let out = update_calm(&data, 0, 5);
    assert_eq!(out.len(), 5);
}

#[test]
fn output_stride_is_five() {
    let mut data = Vec::new();
    for k in 0..4i64 {
        data.push(10 * SCALE + k * SCALE);
        data.push(20 * SCALE);
        data.push(0);
        data.push(0);
    }
    let out = update_calm(&data, 0, 5);
    assert_eq!(out.len(), 20);
}

#[test]
fn stationary_agent_at_center_stays_put() {
    let data = vec![50 * SCALE, 50 * SCALE, 0, 0];
    let out = update_calm(&data, 0, 17);
    assert_eq!(out, vec![50 * SCALE, 50 * SCALE, 0, 0, 0]);
}

#[test]
fn updates_are_deterministic_in_the_seed() {
    let data = vec![
        10 * SCALE,
        10 * SCALE,
        SCALE,
        0,
        12 * SCALE,
        10 * SCALE,
        0,
        SCALE,
    ];
    let a = update_boids_flat_impl(
        &data,
        5 * SCALE,
        5 * SCALE,
        5 * SCALE,
        SCALE,
        SCALE,
        SCALE,
        10 * SCALE,
        SCALE,
        10 * SCALE,
        SCALE,
        W,
        W,
        SCALE,
        SCALE / 2,
        SCALE / 4,
        99,
    );
    let b = update_boids_flat_impl(
        &data,
        5 * SCALE,
        5 * SCALE,
        5 * SCALE,
        SCALE,
        SCALE,
        SCALE,
        10 * SCALE,
        SCALE,
        10 * SCALE,
        SCALE,
        W,
        W,
        SCALE,
        SCALE / 2,
        SCALE / 4,
        99,
    );
    assert_eq!(a, b);
}

#[test]
fn zero_force_step_is_linear_motion() {
    // A calm step over agents created well inside a large world reduces
    // to new_pos = pos + vel * dt, new_vel = vel.
    let created = create_boids_flat(8, 40 * SCALE, 60 * SCALE, 40 * SCALE, 60 * SCALE, 2 * SCALE, 42);
    assert_eq!(created.len(), 32);
    let out = update_calm(&created, 0, 7);
    assert_eq!(out.len(), 40);
    for i in 0..8usize {
        let (x, y, vx, vy) = (
            created[4 * i],
            created[4 * i + 1],
            created[4 * i + 2],
            created[4 * i + 3],
        );
        assert_eq!(out[5 * i], x + vx);
        assert_eq!(out[5 * i + 1], y + vy);
        assert_eq!(out[5 * i + 2], vx);
        assert_eq!(out[5 * i + 3], vy);
        assert_eq!(out[5 * i + 4], 0);
    }
}

#[test]
fn created_agents_lie_in_the_requested_box() {
    let created = create_boids_flat(20, 10 * SCALE, 20 * SCALE, 30 * SCALE, 40 * SCALE, 2 * SCALE, 123);
    assert_eq!(created.len(), 80);
    for i in 0..20usize {
        let (x, y, vx, vy) = (
            created[4 * i],
            created[4 * i + 1],
            created[4 * i + 2],
            created[4 * i + 3],
        );
        assert!(10 * SCALE <= x && x <= 20 * SCALE);
        assert!(30 * SCALE <= y && y <= 40 * SCALE);
        assert!(vx.abs() <= 2 * SCALE);
        assert!(vy.abs() <= 2 * SCALE);
    }
    let again = create_boids_flat(20, 10 * SCALE, 20 * SCALE, 30 * SCALE, 40 * SCALE, 2 * SCALE, 123);
    assert_eq!(created, again);
}

#[test]
fn strictly_inside_agent_keeps_a_clear_flag() {
    // Strictly inside the margin band: the normal tier runs and the
    // in-margin flag stays clear.
    let data = vec![50 * SCALE, 50 * SCALE, SCALE, 0];
    let out = update_calm(&data, 10 * SCALE, 21);
    assert_eq!(out, vec![51 * SCALE, 50 * SCALE, SCALE, 0, 0]);
}

#[test]
fn deep_margin_agent_is_pulled_to_center() {
    // Inside the margin band the override replaces flocking: one strong
    // pull toward the world center, flag set.
    let data = vec![2 * SCALE, 50 * SCALE, 0, 0];
    let out = update_calm(&data, 10 * SCALE, 21);
    assert_eq!(out, vec![12 * SCALE, 50 * SCALE, 10 * SCALE, 0, 1]);
}

#[test]
fn hard_bounce_beats_the_margin_override() {
    // The previous position is out of bounds, so the bounce fires even
    // though the agent also sits inside the margin band.
    let data = vec![-SCALE, 50 * SCALE, -2 * SCALE, SCALE];
    let out = update_calm(&data, 10 * SCALE, 33);
    assert_eq!(out[0], 0);
    assert_eq!(out[1], 50 * SCALE);
    // The reflected component points back inward and exceeds the nudge
    // floor |old vx| + 4.0 strictly.
    assert!(out[2] > 2 * SCALE + 4 * SCALE);
    assert!(out[2] <= 2 * SCALE + 6 * SCALE);
    assert_eq!(out[3], SCALE);
    assert_eq!(out[4], 0);
}
