use pong::{
    cpu_matches_ball, handle_collisions, handle_player_input, move_ball, move_paddles, position,
    reset_ball, reset_ball_goal, reset_paddles, reset_scores, serve_ball, spawn_walls, update_scores,
    Ball, Collider, Event, GoalEvent, Paddle, Point, Score, ServeDirection, ServeTimer, Side,
    Velocity, WallLocation, TIME_TO_SERVE, UNIT,
};

fn ball(x: i64, y: i64, vx: i64, vy: i64) -> Ball {
    Ball { position: Point { x, y }, velocity: Velocity { x: vx, y: vy } }
}

fn all_colliders() -> Vec<Collider> {
    let mut cs = spawn_walls();
    cs.push(Paddle::new(Side::Right).collider());
    cs.push(Paddle::new(Side::Left).collider());
    cs
}

#[test]
fn arena_layout() {
    assert_eq!(WallLocation::Top.position(), Point { x: 0, y: 210 * UNIT });
    assert_eq!(WallLocation::Bottom.position(), Point { x: 0, y: -210 * UNIT });
    assert_eq!(WallLocation::Left.position(), Point { x: -310 * UNIT, y: 0 });
    assert_eq!(WallLocation::Right.position(), Point { x: 310 * UNIT, y: 0 });
    assert_eq!(WallLocation::Top.size(), (640 * UNIT, 20 * UNIT));
    assert_eq!(WallLocation::Left.size(), (20 * UNIT, 400 * UNIT));
    let walls = spawn_walls();
    assert_eq!(walls.len(), 4);
    assert_eq!(walls[0].goal, None);
    assert_eq!(walls[1].goal, None);
    assert_eq!(walls[2].goal.map(|g| g.side), Some(Side::Right));
    assert_eq!(walls[3].goal.map(|g| g.side), Some(Side::Left));
    assert_eq!(walls[3].rect.half_width, 10 * UNIT);
    assert_eq!(walls[3].rect.half_height, 200 * UNIT);
}

#[test]
fn paddle_spawn_positions() {
    assert_eq!(position(Side::Left), Point { x: -250 * UNIT, y: 0 });
    assert_eq!(position(Side::Right), Point { x: 250 * UNIT, y: 0 });
    let c = Paddle::new(Side::Right).collider();
    assert_eq!(c.rect.center, Point { x: 250 * UNIT, y: 0 });
    assert_eq!((c.rect.half_width, c.rect.half_height), (10 * UNIT, 30 * UNIT));
}

#[test]
fn ball_moves_by_speed_times_time() {
    let mut b = ball(0, 0, 1000, 0);
    move_ball(&mut b, 15_625);
    assert_eq!(b.position, Point { x: 6_250_000_000, y: 0 });
    let mut b = ball(10, -20, -600, 800);
    move_ball(&mut b, 1_000_000);
    assert_eq!(b.position, Point { x: 10 - 240 * UNIT, y: -20 + 320 * UNIT });
    assert_eq!(b.velocity, Velocity { x: -600, y: 800 });
}

#[test]
fn ball_at_rest_does_not_move() {
    let mut b = Ball::new();
    move_ball(&mut b, 1_000_000);
    assert_eq!(b, ball(0, 0, 0, 0));
}

#[test]
fn serve_waits_for_the_timer_then_launches() {
    let mut b = Ball::new();
    let mut timer = ServeTimer::new();
    let mut dir = ServeDirection::default();
    assert_eq!(timer.duration, TIME_TO_SERVE);
    serve_ball(&mut b, &mut timer, &mut dir, 500_000);
    assert_eq!(b.velocity, Velocity { x: 0, y: 0 });
    assert_eq!(dir, ServeDirection::Right);
    serve_ball(&mut b, &mut timer, &mut dir, 500_000);
    assert_eq!(b.velocity, Velocity { x: 1000, y: 0 });
    assert_eq!(dir, ServeDirection::Left);
    assert!(timer.just_finished);
    // A finished timer does not fire again until rewound.
    b.velocity = Velocity { x: 0, y: 0 };
    serve_ball(&mut b, &mut timer, &mut dir, 2_000_000);
    assert_eq!(b.velocity, Velocity { x: 0, y: 0 });
    assert_eq!(dir, ServeDirection::Left);
    assert!(!timer.just_finished);
}

#[test]
fn serve_directions_alternate_across_expirations() {
    let mut b = Ball::new();
    let mut timer = ServeTimer::new();
    let mut dir = ServeDirection::default();
    let mut launches = Vec::new();
    for _ in 0..6 {
        serve_ball(&mut b, &mut timer, &mut dir, TIME_TO_SERVE);
        launches.push(b.velocity.x);
        reset_ball_goal(&mut b, &mut timer);
    }
    assert_eq!(launches, vec![1000, -1000, 1000, -1000, 1000, -1000]);
}

#[test]
fn serve_direction_opposite() {
    assert_eq!(ServeDirection::Left.opposite(), ServeDirection::Right);
    assert_eq!(ServeDirection::Right.opposite(), ServeDirection::Left);
}

#[test]
fn goal_reset_recenters_and_rewinds() {
    let mut b = ball(-295 * UNIT, 3, -1000, 0);
    let mut timer = ServeTimer::new();
    timer.tick(TIME_TO_SERVE);
    reset_ball_goal(&mut b, &mut timer);
    assert_eq!(b, ball(0, 0, 0, 0));
    assert_eq!(timer, ServeTimer::new());
}

#[test]
fn full_ball_reset_restores_default_direction() {
    let mut b = ball(5, 5, 1000, 0);
    let mut timer = ServeTimer::new();
    timer.tick(300);
    let mut dir = ServeDirection::Left;
    reset_ball(&mut b, &mut timer, &mut dir);
    assert_eq!(b, ball(0, 0, 0, 0));
    assert_eq!(timer.elapsed, 0);
    assert_eq!(dir, ServeDirection::Right);
}

#[test]
fn ball_entering_left_goal_reports_goal() {
    let mut b = ball(-295 * UNIT, 0, -1000, 0);
    let events = handle_collisions(&mut b, &all_colliders());
    assert_eq!(events, vec![Event::Goal(GoalEvent(Side::Left))]);
    assert_eq!(b, ball(-295 * UNIT, 0, -1000, 0));
}

#[test]
fn wall_before_goal_bounces_then_scores() {
    // Touches the top wall, listed first, and the right goal.
    let mut b = ball(295 * UNIT, 195 * UNIT, 600, 800);
    let events = handle_collisions(&mut b, &all_colliders());
    assert_eq!(events, vec![Event::Collision, Event::Goal(GoalEvent(Side::Right))]);
    assert_eq!(b.velocity, Velocity { x: 600, y: -800 });
}

#[test]
fn goal_ends_the_pass_before_later_colliders() {
    let colliders = vec![
        Collider::goal(WallLocation::Right, Side::Right),
        Collider::wall(WallLocation::Top),
    ];
    let mut b = ball(295 * UNIT, 195 * UNIT, 600, 800);
    let events = handle_collisions(&mut b, &colliders);
    assert_eq!(events, vec![Event::Goal(GoalEvent(Side::Right))]);
    assert_eq!(b.velocity, Velocity { x: 600, y: 800 });
}

#[test]
fn paddle_hit_bounces_at_an_angle() {
    let mut b = ball(-235 * UNIT, 15 * UNIT, -1000, 0);
    let events = handle_collisions(&mut b, &all_colliders());
    assert_eq!(events, vec![Event::Collision]);
    assert_eq!(b.velocity, Velocity { x: 817, y: 573 });
    assert_eq!(b.position, Point { x: -235 * UNIT, y: 15 * UNIT });
}

#[test]
fn top_wall_reflects_once() {
    let mut b = ball(0, 195 * UNIT, 600, 800);
    let events = handle_collisions(&mut b, &all_colliders());
    assert_eq!(events, vec![Event::Collision]);
    assert_eq!(b.velocity, Velocity { x: 600, y: -800 });
    let events = handle_collisions(&mut b, &all_colliders());
    assert_eq!(events, vec![Event::Collision]);
    assert_eq!(b.velocity, Velocity { x: 600, y: -800 });
}

#[test]
fn free_ball_has_no_events() {
    let mut b = ball(0, 0, 1000, 0);
    let events = handle_collisions(&mut b, &all_colliders());
    assert!(events.is_empty());
    assert_eq!(b.velocity, Velocity { x: 1000, y: 0 });
}

#[test]
fn player_input_sets_velocity() {
    let mut p = Paddle::new(Side::Right);
    handle_player_input(&mut p, true, false);
    assert_eq!(p.velocity, 1000);
    handle_player_input(&mut p, false, true);
    assert_eq!(p.velocity, -1000);
    handle_player_input(&mut p, true, true);
    assert_eq!(p.velocity, 0);
    handle_player_input(&mut p, false, false);
    assert_eq!(p.velocity, 0);
}

#[test]
fn cpu_follows_the_ball() {
    let mut p = Paddle::new(Side::Left);
    cpu_matches_ball(&mut p, Some(20 * UNIT));
    assert_eq!(p.velocity, 200);
    cpu_matches_ball(&mut p, Some(-20 * UNIT));
    assert_eq!(p.velocity, -200);
    cpu_matches_ball(&mut p, Some(5 * UNIT));
    assert_eq!(p.velocity, 0);
    cpu_matches_ball(&mut p, Some(7 * UNIT));
    assert_eq!(p.velocity, 0);
    cpu_matches_ball(&mut p, Some(30 * UNIT));
    assert_eq!(p.velocity, 300);
    cpu_matches_ball(&mut p, None);
    assert_eq!(p.velocity, 0);
    cpu_matches_ball(&mut p, Some(i64::MAX));
    assert_eq!(p.velocity, 92_233_720_368);
}

#[test]
fn paddles_move_and_stay_in_bounds() {
    let mut p = Paddle::new(Side::Right);
    p.velocity = 200;
    move_paddles(&mut p, 100_000);
    assert_eq!(p.y, 10 * UNIT);
    p.velocity = 1000;
    move_paddles(&mut p, 1_000_000);
    assert_eq!(p.y, 170 * UNIT);
    p.velocity = -1000;
    move_paddles(&mut p, u64::MAX);
    assert_eq!(p.y, -170 * UNIT);
}

#[test]
fn paddles_reset_to_spawn() {
    let mut cpu = Paddle { side: Side::Left, y: 100 * UNIT, velocity: 300 };
    let mut player = Paddle { side: Side::Right, y: -50 * UNIT, velocity: -1000 };
    reset_paddles(&mut cpu, &mut player);
    assert_eq!(cpu, Paddle { side: Side::Left, y: 0, velocity: 0 });
    assert_eq!(player, Paddle { side: Side::Right, y: 0, velocity: 0 });
}

#[test]
fn goals_score_for_the_opposite_side() {
    let mut score = Score::new();
    update_scores(&mut score, &vec![Event::Goal(GoalEvent(Side::Left)), Event::Collision]);
    assert_eq!(score, Score { left: 0, right: 1 });
    update_scores(&mut score, &vec![Event::Goal(GoalEvent(Side::Right))]);
    assert_eq!(score, Score { left: 1, right: 1 });
    score.record_goal(Side::Left);
    assert_eq!(score, Score { left: 1, right: 2 });
    update_scores(&mut score, &vec![Event::Collision]);
    assert_eq!(score, Score { left: 1, right: 2 });
}

#[test]
fn score_reaches_the_largest_counter() {
    let mut score = Score { left: u32::MAX - 1, right: 0 };
    score.record_goal(Side::Right);
    assert_eq!(score.left, u32::MAX);
    reset_scores(&mut score);
    assert_eq!(score, Score { left: 0, right: 0 });
}
