use pong::ball::Ball;
use pong::ball::ANGLE_LIMIT;
use pong::ball::BALL_HEIGHT;
use pong::ball::BALL_WIDTH;
use pong::ball::MAX_ACCELERATION;
use pong::color::Color;

fn standard_ball() -> Ball {
    Ball::new()
}

#[test]
fn new_ball_is_centered_with_unit_speed() {
    let b = standard_ball();
    assert_eq!(b.width, 1000);
    assert_eq!(b.height, 1000);
    assert_eq!(b.position_x, -500);
    assert_eq!(b.position_y, -500);
    assert_eq!(b.acceleration_x, 100);
    assert_eq!(b.acceleration_y, 100);
    assert_eq!(b.color, Color { red: 255, green: 255, blue: 255, alpha: 255 });
    assert!(-ANGLE_LIMIT <= b.angle && b.angle < ANGLE_LIMIT);
}

#[test]
fn reset_position_centers_regardless_of_prior_position() {
    let mut b = standard_ball();
    b.position_x = 123_456;
    b.position_y = -987_654;
    b.reset_position();
    // Center at the origin: twice the corner plus the extent is zero.
    assert_eq!(2 * b.position_x + b.width, 0);
    assert_eq!(2 * b.position_y + b.height, 0);
    assert_eq!(b.position_x, -BALL_WIDTH / 2);
    assert_eq!(b.position_y, -BALL_HEIGHT / 2);
}

#[test]
fn reverse_flips_sign_only() {
    let mut b = standard_ball();
    b.acceleration_x = 230;
    b.acceleration_y = -115;
    b.reverse_x();
    b.reverse_y();
    assert_eq!(b.acceleration_x, -230);
    assert_eq!(b.acceleration_y, 115);
}

#[test]
fn increase_scales_by_growth_ratio() {
    let mut b = standard_ball();
    b.acceleration_x = 100;
    b.increase_acceleration_x();
    assert_eq!(b.acceleration_x, 115);
    b.increase_acceleration_x();
    assert_eq!(b.acceleration_x, 132);

    b.acceleration_y = -200;
    b.increase_acceleration_y();
    assert_eq!(b.acceleration_y, -230);
}

#[test]
fn increase_applies_growth_exactly_up_to_the_clamp() {
    // 435 * 115 / 100 == 500: exactly at the clamp, so the growth applies.
    let mut b = standard_ball();
    b.acceleration_x = 435;
    b.increase_acceleration_x();
    assert_eq!(b.acceleration_x, MAX_ACCELERATION);
}

#[test]
fn increase_leaves_speed_alone_past_the_clamp() {
    // 455 * 115 / 100 == 523 > 500: the grown magnitude does not fit, so
    // the speed keeps its prior value.
    let mut b = standard_ball();
    b.acceleration_x = 455;
    b.increase_acceleration_x();
    assert_eq!(b.acceleration_x, 455);

    b.acceleration_y = -455;
    b.increase_acceleration_y();
    assert_eq!(b.acceleration_y, -455);
}

#[test]
fn touch_predicates_see_each_side() {
    let b = standard_ball();
    // Object with edges x 1000..2000, y -500..500.
    // Ball edges x 500..1500 overlap its left edge from outside.
    assert!(b.check_touch_right(500, 1500, -100, 900, 1000, -500, 500));
    // Fully left of the object: no touch.
    assert!(!b.check_touch_right(-500, 500, -100, 900, 1000, -500, 500));
    // Crossing the object's right edge from outside.
    assert!(b.check_touch_left(1500, 2500, -100, 900, 2000, -500, 500));
    assert!(!b.check_touch_left(2500, 3500, -100, 900, 2000, -500, 500));
    // Vertical overlap tests against edges y 1000..2000.
    assert!(b.check_touch_up(0, 1000, 500, 1500, -500, 500, 1000, 2000));
    assert!(b.check_touch_down(0, 1000, 500, 1500, -500, 500, 1000, 2000));
    // No vertical-range overlap: nothing touches.
    assert!(!b.check_touch_up(0, 1000, 2500, 3500, -500, 500, 1000, 2000));
}

#[test]
fn collision_on_a_horizontal_touch_reflects_x_only() {
    let mut b = standard_ball();
    b.position_x = 400;
    b.position_y = 0;
    b.acceleration_x = 100;
    b.acceleration_y = 100;
    // Object with left edge at 1000: the ball's right edge (1400) is past
    // it while its left edge (400) is not.
    let hit = b.check_collision(1000, 2000, -500, 500);
    assert!(hit);
    assert_eq!(b.acceleration_x, -115);
    assert_eq!(b.acceleration_y, 100);
    // The position never changes in a collision check.
    assert_eq!(b.position_x, 400);
    assert_eq!(b.position_y, 0);
}

#[test]
fn collision_misses_when_ranges_do_not_overlap() {
    let mut b = standard_ball();
    b.position_x = 0;
    b.position_y = 0;
    let hit = b.check_collision(5000, 6000, 5000, 6000);
    assert!(!hit);
    assert_eq!(b.acceleration_x, 100);
    assert_eq!(b.acceleration_y, 100);
}

#[test]
fn randomize_angle_stays_in_range() {
    for _ in 0..100 {
        let angle = Ball::randomize_angle();
        assert!(-ANGLE_LIMIT <= angle && angle < ANGLE_LIMIT);
    }
}
