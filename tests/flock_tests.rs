use boids::{
    scale_by, update, Boid, Boundary, DirectionX, DirectionY, Flock, Params, Vec2, AVOID_FACTOR,
    BOID_COUNT, COORD_LIMIT, MARGIN, MAX_BOIDS, MAX_SPEED, PROTECTED_RANGE, UNIT,
};

fn viewport(width: i64, height: i64) -> Boundary {
    Boundary {
        left: -width / 2 * UNIT,
        right: width / 2 * UNIT,
        bottom: -height / 2 * UNIT,
        top: height / 2 * UNIT,
    }
}

fn boid_at(x: i64, y: i64) -> Boid {
    Boid {
        position: Vec2 { x, y },
        velocity: Vec2 { x: 4 * UNIT, y: 3 * UNIT },
        direction_x: DirectionX::Right,
        direction_y: DirectionY::Top,
    }
}

fn flock_of(boids: Vec<Boid>) -> Flock {
    Flock { boids, params: Params::default() }
}

#[test]
fn default_params_hold_the_tuning_values() {
    let p = Params::default();
    assert_eq!(p.turnfactor, 200_000);
    assert_eq!(p.visual_range, 40 * UNIT);
    assert_eq!(p.protected_range, 15 * UNIT);
    assert_eq!(p.centering_factor, 500);
    assert_eq!(p.avoid_factor, 5_000);
    assert_eq!(p.matching_factor, 50_000);
    assert_eq!(p.max_speed, 6 * UNIT);
    assert_eq!(p.min_speed, 3 * UNIT);
    assert_eq!(p.max_bias, 10_000);
    assert_eq!(p.bias_increment, 40);
    assert_eq!(p.default_bias_val, 1_000);
    assert!(p.check_limits());
}

#[test]
fn scale_by_rounds_toward_zero() {
    assert_eq!(scale_by(1_000_000, 5_000), 5_000);
    assert_eq!(scale_by(-10 * UNIT, AVOID_FACTOR), -50_000);
    assert_eq!(scale_by(1_000_001, 5_000), 5_000);
    assert_eq!(scale_by(-1_000_001, 5_000), -5_000);
    assert_eq!(scale_by(7, UNIT), 7);
    assert_eq!(scale_by(7, -UNIT), -7);
    assert_eq!(scale_by(199, 5_000), 0);
    assert_eq!(scale_by(-199, 5_000), 0);
}

#[test]
fn construction_staggers_boids_along_a_diagonal() {
    let flock = Flock::new(BOID_COUNT, Params::default());
    assert_eq!(flock.boids.len(), 10);
    for (i, b) in flock.boids.iter().enumerate() {
        let i = i as i64;
        assert_eq!(b.position, Vec2 { x: (-100 + 10 * i) * UNIT, y: (100 + 30 * i) * UNIT });
        assert_eq!(b.velocity, Vec2 { x: 4 * UNIT, y: 3 * UNIT });
        assert_eq!(b.direction_x, DirectionX::Right);
        assert_eq!(b.direction_y, DirectionY::Top);
    }
    assert_eq!(flock.params, Params::default());
    assert!(flock.check_limits());
}

#[test]
fn construction_of_no_boids_is_empty() {
    let flock = Flock::new(0, Params::default());
    assert!(flock.boids.is_empty());
    assert_eq!(flock.snapshot(), Vec::new());
}

#[test]
fn construction_of_the_largest_flock_is_within_limits() {
    let flock = Flock::new(MAX_BOIDS, Params::default());
    assert_eq!(flock.boids.len(), MAX_BOIDS);
    assert!(flock.check_limits());
}

#[test]
fn construction_is_idempotent() {
    let a = Flock::new(BOID_COUNT, Params::default());
    let b = Flock::new(BOID_COUNT, Params::default());
    assert_eq!(a.boids, b.boids);
    assert_eq!(a.params, b.params);
}

#[test]
fn snapshot_lists_positions_in_order() {
    let flock = flock_of(vec![boid_at(1, 2), boid_at(3, 4), boid_at(-5, 6)]);
    assert_eq!(
        flock.snapshot(),
        vec![Vec2 { x: 1, y: 2 }, Vec2 { x: 3, y: 4 }, Vec2 { x: -5, y: 6 }]
    );
}

#[test]
fn tick_uses_positions_from_before_the_tick() {
    let bounds = viewport(800, 600);
    let mut flock = flock_of(vec![boid_at(0, 0), boid_at(5 * UNIT, 100 * UNIT)]);
    update(&mut flock, &bounds);
    // boid 0: offsets (-5, -100) units scaled by 0.005, then moved by (4, 3)
    assert_eq!(flock.boids[0].position, Vec2 { x: 3_975_000, y: 2_500_000 });
    // boid 1 pushed against boid 0's old position, not its new one
    assert_eq!(flock.boids[1].position, Vec2 { x: 9_025_000, y: 103_500_000 });
}

#[test]
fn tick_result_does_not_depend_on_processing_order() {
    let bounds = viewport(800, 600);
    let a = boid_at(0, 0);
    let b = boid_at(5 * UNIT, 100 * UNIT);
    let mut forward = flock_of(vec![a, b]);
    let mut backward = flock_of(vec![b, a]);
    update(&mut forward, &bounds);
    update(&mut backward, &bounds);
    assert_eq!(forward.boids[0], backward.boids[1]);
    assert_eq!(forward.boids[1], backward.boids[0]);
}

#[test]
fn separation_skips_the_boid_itself() {
    let mut a = boid_at(0, 0);
    let mut b = boid_at(0, 0);
    let far = Vec2 { x: 100 * UNIT, y: 100 * UNIT };
    a.separate(&vec![Vec2 { x: 0, y: 0 }, far], 0, AVOID_FACTOR, PROTECTED_RANGE);
    b.separate(&vec![Vec2 { x: 3 * UNIT, y: -2 * UNIT }, far], 0, AVOID_FACTOR, PROTECTED_RANGE);
    assert_eq!(a.position, Vec2 { x: 0, y: 0 });
    assert_eq!(b.position, Vec2 { x: 0, y: 0 });
}

#[test]
fn lone_boid_only_moves() {
    let mut flock = flock_of(vec![boid_at(0, 0)]);
    update(&mut flock, &viewport(800, 600));
    assert_eq!(flock.boids[0].position, Vec2 { x: 4 * UNIT, y: 3 * UNIT });
}

#[test]
fn separation_triggers_on_one_close_axis() {
    let mut b = boid_at(0, 0);
    let peers = vec![Vec2 { x: 0, y: 0 }, Vec2 { x: 10 * UNIT, y: 40 * UNIT }];
    b.separate(&peers, 0, AVOID_FACTOR, PROTECTED_RANGE);
    assert_eq!(b.position, Vec2 { x: -50_000, y: -200_000 });
}

#[test]
fn separation_ignores_peers_far_on_both_axes() {
    let mut b = boid_at(0, 0);
    let peers = vec![Vec2 { x: 0, y: 0 }, Vec2 { x: 15 * UNIT, y: -15 * UNIT }];
    b.separate(&peers, 0, AVOID_FACTOR, PROTECTED_RANGE);
    assert_eq!(b.position, Vec2 { x: 0, y: 0 });
}

#[test]
fn separation_sums_offsets_of_all_close_peers() {
    let mut b = boid_at(0, 0);
    let peers = vec![
        Vec2 { x: 2 * UNIT, y: 50 * UNIT },
        Vec2 { x: 0, y: 0 },
        Vec2 { x: 60 * UNIT, y: -4 * UNIT },
        Vec2 { x: 60 * UNIT, y: 60 * UNIT },
    ];
    b.separate(&peers, 1, AVOID_FACTOR, PROTECTED_RANGE);
    // offsets (-2, -50) and (-60, 4) summed to (-62, -46) units, times 0.005
    assert_eq!(b.position, Vec2 { x: -310_000, y: -230_000 });
}

#[test]
fn speed_clamp_caps_from_above_only() {
    let mut b = boid_at(0, 0);
    b.velocity = Vec2 { x: 10 * UNIT, y: 2 * UNIT };
    b.clamp_speed(MAX_SPEED);
    assert_eq!(b.velocity, Vec2 { x: 6 * UNIT, y: 2 * UNIT });
    b.velocity = Vec2 { x: UNIT, y: -7 * UNIT };
    b.clamp_speed(MAX_SPEED);
    assert_eq!(b.velocity, Vec2 { x: UNIT, y: -7 * UNIT });
}

#[test]
fn tick_caps_velocity_at_max_speed() {
    let mut flock = flock_of(vec![boid_at(0, 0), boid_at(200 * UNIT, 200 * UNIT)]);
    flock.boids[0].velocity = Vec2 { x: 9 * UNIT, y: 7 * UNIT };
    flock.boids[1].velocity = Vec2 { x: 0, y: UNIT };
    update(&mut flock, &viewport(800, 600));
    assert_eq!(flock.boids[0].velocity, Vec2 { x: 6 * UNIT, y: 6 * UNIT });
    assert_eq!(flock.boids[0].position, Vec2 { x: 6 * UNIT, y: 6 * UNIT });
    assert_eq!(flock.boids[1].velocity, Vec2 { x: 0, y: UNIT });
}

#[test]
fn direction_x_transitions() {
    let (left, right) = (-400 * UNIT, 400 * UNIT);
    assert_eq!(DirectionX::Right.next(390 * UNIT, left, right), DirectionX::Left);
    assert_eq!(DirectionX::Left.next(395 * UNIT, left, right), DirectionX::Left);
    assert_eq!(DirectionX::Left.next(-390 * UNIT, left, right), DirectionX::Right);
    assert_eq!(DirectionX::Right.next(-500 * UNIT, left, right), DirectionX::Right);
    assert_eq!(DirectionX::Left.next(0, left, right), DirectionX::Left);
    assert_eq!(DirectionX::Right.next(389 * UNIT, left, right), DirectionX::Right);
}

#[test]
fn direction_y_transitions() {
    let (bottom, top) = (-300 * UNIT, 300 * UNIT);
    assert_eq!(DirectionY::Top.next(290 * UNIT, bottom, top), DirectionY::Bottom);
    assert_eq!(DirectionY::Bottom.next(-290 * UNIT, bottom, top), DirectionY::Top);
    assert_eq!(DirectionY::Bottom.next(0, bottom, top), DirectionY::Bottom);
    assert_eq!(DirectionY::Top.next(-289 * UNIT, bottom, top), DirectionY::Top);
}

#[test]
fn reflect_sets_both_flags() {
    let mut b = boid_at(395 * UNIT, -295 * UNIT);
    b.reflect(&viewport(800, 600));
    assert_eq!(b.direction_x, DirectionX::Left);
    assert_eq!(b.direction_y, DirectionY::Top);
    assert_eq!(b.position, Vec2 { x: 395 * UNIT, y: -295 * UNIT });
}

#[test]
fn advance_follows_direction_flags() {
    let mut b = boid_at(0, 0);
    b.direction_x = DirectionX::Left;
    b.direction_y = DirectionY::Bottom;
    b.advance();
    assert_eq!(b.position, Vec2 { x: -4 * UNIT, y: -3 * UNIT });
    b.velocity = Vec2 { x: -UNIT, y: 0 };
    b.advance();
    assert_eq!(b.position, Vec2 { x: -3 * UNIT, y: -3 * UNIT });
}

#[test]
fn boid_near_right_edge_turns_and_moves_left() {
    let bounds = viewport(800, 600);
    assert_eq!(MARGIN, 10 * UNIT);
    let start_x = bounds.right - 5 * UNIT;
    let mut flock = flock_of(vec![boid_at(start_x, 0)]);
    update(&mut flock, &bounds);
    assert_eq!(flock.boids[0].direction_x, DirectionX::Left);
    let after_first = flock.boids[0].position.x;
    assert_eq!(after_first, start_x - 4 * UNIT);
    update(&mut flock, &bounds);
    assert_eq!(flock.boids[0].direction_x, DirectionX::Left);
    assert!(flock.boids[0].position.x < after_first);
}

#[test]
fn default_flock_first_tick_in_800_by_600() {
    let mut flock = Flock::new(BOID_COUNT, Params::default());
    let before = flock.snapshot();
    update(&mut flock, &viewport(800, 600));
    for i in 0..10 {
        assert_ne!(flock.boids[i].position, before[i]);
        assert_eq!(flock.boids[i].direction_x, DirectionX::Right);
    }
    // boids from index 7 start at y >= 310, past top - margin = 290
    for i in 0..7 {
        assert_eq!(flock.boids[i].direction_y, DirectionY::Top);
    }
    for i in 7..10 {
        assert_eq!(flock.boids[i].direction_y, DirectionY::Bottom);
    }
    // boid 0 is pushed by boid 1 only: (-10, -30) units times 0.005
    assert_eq!(flock.boids[0].position, Vec2 { x: -96_050_000, y: 102_850_000 });
    // a middle boid is pushed from both sides, which cancels out
    assert_eq!(flock.boids[4].position, Vec2 { x: -56 * UNIT, y: 223 * UNIT });
    // the last boid is pushed by boid 8 and turned downward
    assert_eq!(flock.boids[9].position, Vec2 { x: -5_950_000, y: 367_150_000 });
}

#[test]
fn default_flock_first_tick_in_1024_by_768_keeps_directions() {
    let mut flock = Flock::new(BOID_COUNT, Params::default());
    let before = flock.snapshot();
    update(&mut flock, &viewport(1024, 768));
    for i in 0..10 {
        assert_ne!(flock.boids[i].position, before[i]);
        assert_eq!(flock.boids[i].direction_x, DirectionX::Right);
        assert_eq!(flock.boids[i].direction_y, DirectionY::Top);
    }
}

#[test]
fn limits_reject_out_of_range_values() {
    let mut flock = flock_of(vec![boid_at(0, 0)]);
    assert!(flock.check_limits());
    flock.boids[0].position.x = COORD_LIMIT + 1;
    assert!(!flock.check_limits());
    flock.boids[0].position.x = 0;
    flock.boids[0].velocity.y = -COORD_LIMIT - 1;
    assert!(!flock.check_limits());
    flock.boids[0].velocity.y = 0;
    flock.params.avoid_factor = 2 * UNIT;
    assert!(!flock.check_limits());
    assert!(!flock.params.check_limits());
    let mut bounds = viewport(800, 600);
    assert!(bounds.check_limits());
    bounds.top = COORD_LIMIT + 1;
    assert!(!bounds.check_limits());
}
