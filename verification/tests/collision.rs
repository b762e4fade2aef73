use pong_core::ball::Ball;
use pong_core::geometry::collides_ball_paddle;
use pong_core::paddle::{Paddle, PaddleType};

fn paddle_at(x: i64, y: i64) -> Paddle {
    Paddle { x_pos: x, y_pos: y, paddle_type: PaddleType::Player }
}

fn ball_at(x: i64, y: i64) -> Ball {
    Ball { x_pos: x, y_pos: y, x_vel: 0, y_vel: 0 }
}

#[test]
fn separated_on_x_axis_no_collision() {
    // Paddle spans x in [0, 32_000); ball starts at 40_000.
    assert!(!collides_ball_paddle(&paddle_at(0, 0), &ball_at(40_000, 0)));
}

#[test]
fn separated_on_y_axis_no_collision() {
    // Paddle spans y in [0, 128_000); ball starts at 130_000.
    assert!(!collides_ball_paddle(&paddle_at(0, 0), &ball_at(0, 130_000)));
}

#[test]
fn touching_edges_do_not_collide() {
    // Ball's left edge exactly at the paddle's right edge: strict overlap fails.
    assert!(!collides_ball_paddle(&paddle_at(0, 0), &ball_at(32_000, 0)));
    // Ball's right edge exactly at the paddle's left edge.
    assert!(!collides_ball_paddle(&paddle_at(32_000, 0), &ball_at(0, 0)));
    // Ball's top edge exactly at the paddle's bottom edge.
    assert!(!collides_ball_paddle(&paddle_at(0, 0), &ball_at(0, 128_000)));
    // Ball's bottom edge exactly at the paddle's top edge.
    assert!(!collides_ball_paddle(&paddle_at(0, 32_000), &ball_at(0, 0)));
}

#[test]
fn one_milliunit_of_overlap_collides() {
    assert!(collides_ball_paddle(&paddle_at(0, 0), &ball_at(31_999, 127_999)));
}

#[test]
fn ball_inside_paddle_collides() {
    assert!(collides_ball_paddle(&paddle_at(0, 0), &ball_at(0, 48_000)));
}

#[test]
fn partial_overlap_collides() {
    assert!(collides_ball_paddle(&paddle_at(64_000, 296_000), &ball_at(70_000, 400_000)));
}

#[test]
fn overlap_on_one_axis_only_no_collision() {
    // Overlapping x projections, disjoint y projections.
    assert!(!collides_ball_paddle(&paddle_at(0, 0), &ball_at(10_000, 200_000)));
    // Overlapping y projections, disjoint x projections.
    assert!(!collides_ball_paddle(&paddle_at(0, 0), &ball_at(200_000, 10_000)));
}
