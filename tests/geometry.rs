use pong::{
    bounce_velocity, collide_with_side, cosine_permille, deflect_vertical, paddle_bounce_angle,
    sine_permille, Circle, Collision, Point, Rect, Velocity, UNIT,
};

fn paddle_rect() -> Rect {
    Rect { center: Point { x: 25 * UNIT, y: 0 }, half_width: 10 * UNIT, half_height: 30 * UNIT }
}

fn ball_at(x: i64, y: i64) -> Circle {
    Circle { center: Point { x, y }, radius: 10 * UNIT }
}

#[test]
fn separated_shapes_do_not_collide() {
    assert_eq!(collide_with_side(ball_at(0, 0), paddle_rect()), None);
    assert_eq!(collide_with_side(ball_at(25 * UNIT, 41 * UNIT), paddle_rect()), None);
}

#[test]
fn corner_gap_is_no_collision() {
    // Offset (-8, 8) from the top-left corner: 128 > 100.
    assert_eq!(collide_with_side(ball_at(7 * UNIT, 38 * UNIT), paddle_rect()), None);
}

#[test]
fn left_face_hit() {
    assert_eq!(collide_with_side(ball_at(7 * UNIT, 0), paddle_rect()), Some(Collision::Left));
}

#[test]
fn right_face_hit() {
    assert_eq!(collide_with_side(ball_at(43 * UNIT, 5 * UNIT), paddle_rect()), Some(Collision::Right));
}

#[test]
fn top_and_bottom_face_hits() {
    assert_eq!(collide_with_side(ball_at(25 * UNIT, 38 * UNIT), paddle_rect()), Some(Collision::Top));
    assert_eq!(collide_with_side(ball_at(25 * UNIT, -38 * UNIT), paddle_rect()), Some(Collision::Bottom));
}

#[test]
fn touching_exactly_at_radius_collides() {
    assert_eq!(collide_with_side(ball_at(5 * UNIT, 0), paddle_rect()), Some(Collision::Left));
}

#[test]
fn corner_tie_goes_to_vertical_side() {
    // Offset (-6, 6) from the top-left corner.
    assert_eq!(collide_with_side(ball_at(9 * UNIT, 36 * UNIT), paddle_rect()), Some(Collision::Top));
}

#[test]
fn center_inside_rectangle_is_bottom() {
    assert_eq!(collide_with_side(ball_at(25 * UNIT, 0), paddle_rect()), Some(Collision::Bottom));
}

#[test]
fn extreme_coordinates_do_not_overflow() {
    let far = Circle { center: Point { x: i64::MIN, y: i64::MAX }, radius: i64::MAX };
    let wall = Rect { center: Point { x: i64::MAX, y: i64::MIN }, half_width: i64::MAX, half_height: 0 };
    assert_eq!(collide_with_side(far, wall), None);
}

#[test]
fn sine_and_cosine_values() {
    assert_eq!(sine_permille(0), 0);
    assert_eq!(sine_permille(300), 500);
    assert_eq!(sine_permille(-300), -500);
    assert_eq!(sine_permille(900), 1000);
    assert_eq!(sine_permille(700), 939);
    assert_eq!(sine_permille(350), 573);
    assert_eq!(cosine_permille(0), 1000);
    assert_eq!(cosine_permille(700), 343);
    assert_eq!(cosine_permille(-350), 817);
}

#[test]
fn bounce_angle_follows_offset_and_clamps() {
    let hh = 30 * UNIT;
    assert_eq!(paddle_bounce_angle(0, 0, hh), 0);
    assert_eq!(paddle_bounce_angle(1, 0, hh), 0);
    assert_eq!(paddle_bounce_angle(15 * UNIT, 0, hh), 350);
    assert_eq!(paddle_bounce_angle(-15 * UNIT, 0, hh), -350);
    assert_eq!(paddle_bounce_angle(30 * UNIT, 0, hh), 700);
    assert_eq!(paddle_bounce_angle(40 * UNIT, 0, hh), 700);
    assert_eq!(paddle_bounce_angle(-40 * UNIT, 0, hh), -700);
    assert_eq!(paddle_bounce_angle(25 * UNIT, 10 * UNIT, hh), 350);
}

#[test]
fn bounce_is_steeper_nearer_the_top() {
    let hh = 30 * UNIT;
    let center = paddle_bounce_angle(0, 0, hh);
    let middle = paddle_bounce_angle(10 * UNIT, 0, hh);
    let near_top = paddle_bounce_angle(25 * UNIT, 0, hh);
    let top = paddle_bounce_angle(30 * UNIT, 0, hh);
    assert!(center < middle && middle < near_top && near_top < top);
    assert!(sine_permille(center) < sine_permille(middle));
    assert!(sine_permille(middle) < sine_permille(near_top));
    assert!(sine_permille(near_top) < sine_permille(top));
}

#[test]
fn side_bounce_gives_angled_velocity() {
    let v = Velocity { x: 1000, y: 0 };
    let r = bounce_velocity(15 * UNIT, v, paddle_rect(), Collision::Left);
    assert_eq!(r, Velocity { x: -817, y: 573 });
    let r = bounce_velocity(-15 * UNIT, Velocity { x: -1000, y: 0 }, paddle_rect(), Collision::Right);
    assert_eq!(r, Velocity { x: 817, y: -573 });
    let r = bounce_velocity(0, v, paddle_rect(), Collision::Left);
    assert_eq!(r, Velocity { x: -1000, y: 0 });
}

#[test]
fn vertical_reflection_only_toward_the_face() {
    assert_eq!(deflect_vertical(Velocity { x: 300, y: -400 }, Collision::Top), Velocity { x: 300, y: 400 });
    assert_eq!(deflect_vertical(Velocity { x: 300, y: 400 }, Collision::Top), Velocity { x: 300, y: 400 });
    assert_eq!(deflect_vertical(Velocity { x: 300, y: 400 }, Collision::Bottom), Velocity { x: 300, y: -400 });
    assert_eq!(deflect_vertical(Velocity { x: 300, y: -400 }, Collision::Bottom), Velocity { x: 300, y: -400 });
    assert_eq!(deflect_vertical(Velocity { x: 300, y: -400 }, Collision::Left), Velocity { x: 300, y: -400 });
}

#[test]
fn vertical_reflection_twice_is_once() {
    let v = Velocity { x: 600, y: 800 };
    let once = bounce_velocity(195 * UNIT, v, paddle_rect(), Collision::Bottom);
    let twice = bounce_velocity(195 * UNIT, once, paddle_rect(), Collision::Bottom);
    assert_eq!(once, Velocity { x: 600, y: -800 });
    assert_eq!(twice, once);
}
