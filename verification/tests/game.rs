use pong::ai::ai_move_paddle;
use pong::ball::{Ball, Scorer};
use pong::paddle::Paddle;
use pong::rect::Rect;

/// Elapsed seconds times a speed, truncated toward zero to pixels, as the
/// match loop computes it before every tick.
fn scaled(delta_time: f32, speed: u32) -> i32 {
    (delta_time * speed as f32) as i32
}

#[test]
fn paddle_moves_with_intent() {
    let mut p = Paddle::new(32, 100);
    p.move_offset(1);
    p.tick(40, 720);
    assert_eq!(p.pos_bounds.y, 140);
    p.move_offset(-1);
    p.tick(15, 720);
    assert_eq!(p.pos_bounds.y, 125);
    p.move_offset(0);
    p.tick(40, 720);
    assert_eq!(p.pos_bounds.y, 125);
}

#[test]
fn paddle_rejects_update_at_top() {
    let mut p = Paddle::new(32, 30);
    p.move_offset(-1);
    p.tick(40, 720);
    // The whole displacement is rejected: no clamp-slide to y == 0.
    assert_eq!(p.pos_bounds.y, 30);
}

#[test]
fn paddle_rejects_update_at_bottom() {
    // Field height 720, paddle height 160: the paddle may not pass 560.
    let mut p = Paddle::new(32, 530);
    p.move_offset(1);
    p.tick(40, 720);
    assert_eq!(p.pos_bounds.y, 530);
    // A smaller step that stays strictly inside is applied.
    p.tick(20, 720);
    assert_eq!(p.pos_bounds.y, 550);
}

#[test]
fn paddle_stays_in_field_over_many_ticks() {
    let mut p = Paddle::new(32, 100);
    p.move_offset(1);
    for _ in 0..100 {
        p.tick(37, 720);
        assert!(p.pos_bounds.y >= 0 && p.pos_bounds.y + 160 <= 720);
    }
    p.move_offset(-1);
    for _ in 0..100 {
        p.tick(53, 720);
        assert!(p.pos_bounds.y >= 0 && p.pos_bounds.y + 160 <= 720);
    }
}

#[test]
fn ball_example_scenario() {
    // Field 1080x720; ball launched from (540, 360) toward the upper left;
    // 0.05 s per frame at speed 500 gives 25 pixels per axis per tick.
    let mut b = Ball::new(540, 360);
    b.move_offset(-1, -1);
    let step = scaled(0.05, pong::ball::SPEED);
    assert_eq!(step, 25);
    for i in 1..=8 {
        let r = b.tick(step, (1080, 720));
        assert!(matches!(r, Scorer::Noone));
        assert_eq!(b.pos_bounds.x, 540 - 25 * i);
        assert_eq!(b.pos_bounds.y, 360 - 25 * i);
    }
    assert_eq!(b.pos_bounds.x, 340);
    assert_eq!(b.pos_bounds.y, 160);
}

#[test]
fn ball_bounces_off_top_wall() {
    let mut b = Ball::new(540, 360);
    b.move_offset(1, -1);
    b.pos_bounds.set_y(10);
    let r = b.tick(25, (1080, 720));
    assert!(matches!(r, Scorer::Noone));
    // The raw displacement -25 is negated for this frame...
    assert_eq!(b.pos_bounds.y, 35);
    assert_eq!(b.pos_bounds.x, 565);
    // ...and the stored vertical direction flips for future frames.
    assert_eq!(b.pos_offset.y, 1);
    assert_eq!(b.pos_offset.x, 1);
}

#[test]
fn ball_bounces_off_bottom_wall() {
    // Field height 720, ball height 16: positions at or past 704 bounce.
    let mut b = Ball::new(540, 360);
    b.move_offset(1, 1);
    b.pos_bounds.set_y(690);
    let r = b.tick(25, (1080, 720));
    assert!(matches!(r, Scorer::Noone));
    assert_eq!(b.pos_bounds.y, 665);
    assert_eq!(b.pos_offset.y, -1);
}

#[test]
fn ball_scores_for_ai_on_left_edge() {
    let mut b = Ball::new(540, 360);
    b.move_offset(-1, -1);
    b.pos_bounds.set_x(20);
    b.pos_bounds.set_y(300);
    let r = b.tick(25, (1080, 720));
    assert!(matches!(r, Scorer::Ai));
    // The ball returns to its origin with both directions flipped.
    assert_eq!(b.pos_bounds.x, 540);
    assert_eq!(b.pos_bounds.y, 360);
    assert_eq!(b.pos_offset.x, 1);
    assert_eq!(b.pos_offset.y, 1);
}

#[test]
fn ball_scores_for_player_on_right_edge() {
    // Field width 1080, ball width 16: positions at or past 1064 score.
    let mut b = Ball::new(540, 360);
    b.move_offset(1, 1);
    b.pos_bounds.set_x(1050);
    b.pos_bounds.set_y(300);
    let r = b.tick(25, (1080, 720));
    assert!(matches!(r, Scorer::Player));
    assert_eq!(b.pos_bounds.x, 540);
    assert_eq!(b.pos_bounds.y, 360);
    assert_eq!(b.pos_offset.x, -1);
    assert_eq!(b.pos_offset.y, -1);
}

#[test]
fn ball_bounce_and_score_in_one_tick() {
    // Near the upper left corner both corrections fire: the bounce flips
    // the vertical direction and the score flips it back, so only the
    // horizontal direction ends up flipped, and the ball still resets.
    let mut b = Ball::new(540, 360);
    b.move_offset(-1, -1);
    b.pos_bounds.set_x(20);
    b.pos_bounds.set_y(10);
    let r = b.tick(25, (1080, 720));
    assert!(matches!(r, Scorer::Ai));
    assert_eq!(b.pos_bounds.x, 540);
    assert_eq!(b.pos_bounds.y, 360);
    assert_eq!(b.pos_offset.x, 1);
    assert_eq!(b.pos_offset.y, -1);
}

#[test]
fn collision_top_edge_flips_both_directions() {
    let mut b = Ball::new(40, 104);
    b.move_offset(-1, -1);
    let p = Paddle::new(32, 100);
    b.check_collision(&p);
    assert_eq!(b.pos_offset.x, 1);
    assert_eq!(b.pos_offset.y, 1);
    // The ball itself does not move on contact.
    assert_eq!(b.pos_bounds, Rect::new(40, 104, 16, 16));
}

#[test]
fn collision_bottom_edge_flips_both_directions() {
    // Paddle from y=20 to y=180; contact at y=175 lies within 8 pixels of
    // the bottom edge.
    let mut b = Ball::new(40, 175);
    b.move_offset(-1, -1);
    let p = Paddle::new(32, 20);
    b.check_collision(&p);
    assert_eq!(b.pos_offset.x, 1);
    assert_eq!(b.pos_offset.y, 1);
}

#[test]
fn collision_middle_flips_only_horizontal() {
    let mut b = Ball::new(40, 104);
    b.move_offset(-1, -1);
    let p = Paddle::new(32, 20);
    b.check_collision(&p);
    assert_eq!(b.pos_offset.x, 1);
    assert_eq!(b.pos_offset.y, -1);
}

#[test]
fn collision_disjoint_is_a_no_op() {
    let mut b = Ball::new(40, 104);
    b.move_offset(-1, -1);
    let p = Paddle::new(600, 100);
    b.check_collision(&p);
    assert_eq!(b.pos_offset.x, -1);
    assert_eq!(b.pos_offset.y, -1);
    assert_eq!(b.pos_bounds, Rect::new(40, 104, 16, 16));
}

#[test]
fn collision_shared_edge_is_a_no_op() {
    // The paddle's right edge touches the ball's left edge exactly:
    // touching rectangles do not intersect.
    let mut b = Ball::new(48, 104);
    b.move_offset(-1, -1);
    let p = Paddle::new(32, 100);
    b.check_collision(&p);
    assert_eq!(b.pos_offset.x, -1);
    assert_eq!(b.pos_offset.y, -1);
}

#[test]
fn ai_follows_ball_below_band() {
    // Paddle at y=100 with height 160: center 180; the band reaches 360.
    let mut p = Paddle::new(1048, 100);
    let b = Ball::new(540, 400);
    ai_move_paddle(&mut p, &b);
    assert_eq!(p.y_offset, 1);
}

#[test]
fn ai_follows_ball_above_band() {
    let mut p = Paddle::new(1048, 300);
    // Center 380, band from 200 to 560.
    let b = Ball::new(540, 150);
    ai_move_paddle(&mut p, &b);
    assert_eq!(p.y_offset, -1);
}

#[test]
fn ai_keeps_intent_within_band() {
    let mut p = Paddle::new(1048, 100);
    let mut b = Ball::new(540, 400);
    ai_move_paddle(&mut p, &b);
    assert_eq!(p.y_offset, 1);
    // Center 180: y=170 lies within the hysteresis band, so the previous
    // intent stands.
    b.pos_bounds.set_y(170);
    ai_move_paddle(&mut p, &b);
    assert_eq!(p.y_offset, 1);
    // The exact band edges also keep the intent.
    b.pos_bounds.set_y(360);
    ai_move_paddle(&mut p, &b);
    assert_eq!(p.y_offset, 1);
    b.pos_bounds.set_y(0);
    ai_move_paddle(&mut p, &b);
    assert_eq!(p.y_offset, 1);
}

#[test]
fn rect_intersection_matches_overlap() {
    let a = Rect::new(0, 0, 5, 5);
    let b = Rect::new(2, 2, 5, 5);
    assert_eq!(a.intersection(b), Some(Rect::new(2, 2, 3, 3)));
    // Sharing an edge without overlapping yields nothing.
    assert_eq!(a.intersection(Rect::new(5, 0, 5, 5)), None);
    assert_eq!(a.intersection(Rect::new(6, 0, 5, 5)), None);
}

#[test]
fn displacement_truncates_toward_zero() {
    // 0.0333 s at 800 px/s is 26.64 px: truncation, not rounding.
    assert_eq!(scaled(0.0333, pong::paddle::SPEED), 26);
    assert_eq!(scaled(0.05, pong::ball::SPEED), 25);
    assert_eq!(scaled(0.0, pong::ball::SPEED), 0);
}
