use pong::Ball;
use pong::Direction;
use pong::InputSnapshot;
use pong::MainState;
use pong::Player;
use pong::Side;

fn default_state(ball: Ball) -> MainState {
    MainState {
        player_1: Player::new(Side::Left),
        player_2: Player::new(Side::Right),
        ball,
        score: (0, 0),
    }
}

fn idle_input() -> InputSnapshot {
    InputSnapshot { p1_up: false, p1_down: false, p2_up: false, p2_down: false }
}

#[test]
fn ball_new_centered_in_range() {
    for _ in 0..50 {
        let b = Ball::new();
        assert_eq!(b.x, 400_000);
        assert_eq!(b.y, 300_000);
        assert_eq!(b.speed, 5);
        assert!(-1000 <= b.dir_x && b.dir_x < 1000);
        assert!(-1000 <= b.dir_y && b.dir_y < 1000);
    }
}

#[test]
fn ball_update_is_exact() {
    let mut b = Ball { x: 100_000, y: 200_000, speed: 5, dir_x: -250, dir_y: 1000 };
    b.update();
    assert_eq!(b.x, 98_750);
    assert_eq!(b.y, 205_000);
    assert_eq!(b.dir_x, -250);
    assert_eq!(b.dir_y, 1000);
    assert_eq!(b.speed, 5);
}

#[test]
fn ball_reset_with_recenters() {
    let mut b = Ball { x: 812_000, y: 40_000, speed: 5, dir_x: 1000, dir_y: -400 };
    b.reset_with(Side::Left, 123);
    assert_eq!((b.x, b.y), (400_000, 300_000));
    assert_eq!(b.dir_x, -1000);
    assert_eq!(b.dir_y, 123);
    assert_eq!(b.speed, 5);
}

#[test]
fn ball_reset_resamples_vertical() {
    for _ in 0..50 {
        let mut b = Ball { x: -2_000, y: 40_000, speed: 5, dir_x: -1000, dir_y: -400 };
        b.reset(Side::Right);
        assert_eq!((b.x, b.y), (400_000, 300_000));
        assert_eq!(b.dir_x, 1000);
        assert!(-1000 <= b.dir_y && b.dir_y < 1000);
    }
}

#[test]
fn player_new_posts_and_center() {
    let left = Player::new(Side::Left);
    let right = Player::new(Side::Right);
    assert_eq!((left.x, left.y, left.speed), (20_000, 275_000, 10));
    assert_eq!((right.x, right.y, right.speed), (750_000, 275_000, 10));
}

#[test]
fn player_moves_one_step() {
    let mut p = Player::new(Side::Left);
    p.move_player(Direction::Up);
    assert_eq!(p.y, 265_000);
    p.move_player(Direction::Down);
    p.move_player(Direction::Down);
    assert_eq!(p.y, 285_000);
    assert_eq!(p.x, 20_000);
}

#[test]
fn player_clamped_at_top() {
    let mut p = Player { x: 20_000, y: 5_000, speed: 10 };
    p.move_player(Direction::Up);
    assert_eq!(p.y, 0);
    p.move_player(Direction::Up);
    assert_eq!(p.y, 0);
}

#[test]
fn player_clamped_at_bottom() {
    let mut p = Player { x: 750_000, y: 545_000, speed: 10 };
    p.move_player(Direction::Down);
    assert_eq!(p.y, 550_000);
    p.move_player(Direction::Down);
    assert_eq!(p.y, 550_000);
}

#[test]
fn fresh_game_layout() {
    let s = MainState::new();
    assert_eq!(s.score, (0, 0));
    assert_eq!((s.player_1.x, s.player_1.y), (20_000, 275_000));
    assert_eq!((s.player_2.x, s.player_2.y), (750_000, 275_000));
    assert_eq!((s.ball.x, s.ball.y), (400_000, 300_000));
    assert!(-1000 <= s.ball.dir_x && s.ball.dir_x < 1000);
    assert!(-1000 <= s.ball.dir_y && s.ball.dir_y < 1000);
}

#[test]
fn right_exit_scores_left_and_recenters() {
    let mut s = default_state(Ball { x: 799_000, y: 300_000, speed: 5, dir_x: 1000, dir_y: 0 });
    s.tick();
    assert_eq!(s.score, (1, 0));
    assert_eq!((s.ball.x, s.ball.y), (400_000, 300_000));
    assert_eq!(s.ball.dir_x, -1000);
    assert!(-1000 <= s.ball.dir_y && s.ball.dir_y < 1000);
}

#[test]
fn left_exit_scores_right_and_recenters() {
    let mut s = default_state(Ball { x: 2_000, y: 100_000, speed: 5, dir_x: -1000, dir_y: 0 });
    s.tick();
    assert_eq!(s.score, (0, 1));
    assert_eq!((s.ball.x, s.ball.y), (400_000, 300_000));
    assert_eq!(s.ball.dir_x, 1000);
    assert!(-1000 <= s.ball.dir_y && s.ball.dir_y < 1000);
}

#[test]
fn ball_on_the_width_line_does_not_score() {
    let mut s = default_state(Ball { x: 800_000, y: 100_000, speed: 5, dir_x: 0, dir_y: 0 });
    s.check_collision();
    assert_eq!(s.score, (0, 0));
    assert_eq!(s.ball.x, 800_000);
}

#[test]
fn left_paddle_hit_reflects_ball() {
    let mut s = default_state(Ball { x: 49_000, y: 290_000, speed: 5, dir_x: 1000, dir_y: 500 });
    s.player_1.y = 275_000;
    s.check_collision();
    assert_eq!(s.ball.dir_x, -1000);
    assert_eq!(s.ball.dir_y, 500);
    assert_eq!((s.ball.x, s.ball.y), (49_000, 290_000));
    assert_eq!(s.score, (0, 0));
}

#[test]
fn left_paddle_test_uses_width_as_lower_bound() {
    // The ball stands over the left paddle's box, but at 25 units it is
    // not past the paddle's width of 30, so the literal rule sees no
    // collision.
    let mut s = default_state(Ball { x: 25_000, y: 290_000, speed: 5, dir_x: -300, dir_y: 0 });
    s.check_collision();
    assert_eq!(s.ball.dir_x, -300);
}

#[test]
fn right_paddle_hit_reflects_ball() {
    let mut s = default_state(Ball { x: 751_000, y: 300_000, speed: 5, dir_x: 800, dir_y: -200 });
    s.check_collision();
    assert_eq!(s.ball.dir_x, -800);
    assert_eq!(s.ball.dir_y, -200);
    assert_eq!((s.ball.x, s.ball.y), (751_000, 300_000));
    assert_eq!(s.score, (0, 0));
}

#[test]
fn paddle_edge_heights_do_not_hit() {
    // Vertical containment is strict: a ball level with the paddle's
    // top or bottom edge passes by.
    let mut s = default_state(Ball { x: 49_000, y: 275_000, speed: 5, dir_x: 1000, dir_y: 0 });
    s.check_collision();
    assert_eq!(s.ball.dir_x, 1000);
    let mut s = default_state(Ball { x: 49_000, y: 325_000, speed: 5, dir_x: 1000, dir_y: 0 });
    s.check_collision();
    assert_eq!(s.ball.dir_x, 1000);
}

#[test]
fn bounce_below_bottom_edge() {
    let mut s = default_state(Ball { x: 400_000, y: 602_000, speed: 5, dir_x: 300, dir_y: 700 });
    s.score = (3, 4);
    s.check_collision();
    assert_eq!(s.ball.dir_y, -700);
    assert_eq!(s.ball.dir_x, 300);
    assert_eq!((s.ball.x, s.ball.y), (400_000, 602_000));
    assert_eq!(s.score, (3, 4));
}

#[test]
fn bounce_above_top_edge() {
    let mut s = default_state(Ball { x: 400_000, y: -2_000, speed: 5, dir_x: -300, dir_y: -500 });
    s.check_collision();
    assert_eq!(s.ball.dir_y, 500);
    assert_eq!(s.ball.dir_x, -300);
    assert_eq!((s.ball.x, s.ball.y), (400_000, -2_000));
}

#[test]
fn ball_on_the_top_line_does_not_bounce() {
    let mut s = default_state(Ball { x: 400_000, y: 0, speed: 5, dir_x: 0, dir_y: -600 });
    s.check_collision();
    assert_eq!(s.ball.dir_y, -600);
}

#[test]
fn quiet_tick_changes_no_score() {
    let mut s = default_state(Ball { x: 400_000, y: 300_000, speed: 5, dir_x: 640, dir_y: -480 });
    s.tick();
    assert_eq!(s.score, (0, 0));
    assert_eq!((s.ball.x, s.ball.y), (403_200, 297_600));
    assert_eq!((s.ball.dir_x, s.ball.dir_y), (640, -480));
}

#[test]
fn both_paddles_move_in_one_snapshot() {
    let mut s = default_state(Ball { x: 400_000, y: 300_000, speed: 5, dir_x: 0, dir_y: 0 });
    let input = InputSnapshot { p1_up: true, p1_down: false, p2_up: false, p2_down: true };
    s.on_input(&input);
    assert_eq!(s.player_1.y, 265_000);
    assert_eq!(s.player_2.y, 285_000);
}

#[test]
fn opposed_keys_cancel_mid_field() {
    let mut s = default_state(Ball { x: 400_000, y: 300_000, speed: 5, dir_x: 0, dir_y: 0 });
    let input = InputSnapshot { p1_up: true, p1_down: true, p2_up: false, p2_down: false };
    s.on_input(&input);
    assert_eq!(s.player_1.y, 275_000);
    assert_eq!(s.player_2.y, 275_000);
}

#[test]
fn full_frame_physics_then_input() {
    let mut s = default_state(Ball { x: 400_000, y: 300_000, speed: 5, dir_x: 1000, dir_y: 0 });
    let input = InputSnapshot { p1_up: false, p1_down: true, p2_up: true, p2_down: false };
    s.update(&input);
    assert_eq!(s.ball.x, 405_000);
    assert_eq!(s.player_1.y, 285_000);
    assert_eq!(s.player_2.y, 265_000);
    assert_eq!(s.score, (0, 0));
}

#[test]
fn long_rally_keeps_state_in_bounds() {
    let mut s = MainState::new();
    let input = idle_input();
    for i in 0..2_000 {
        if i % 3 == 0 {
            let busy = InputSnapshot { p1_up: true, p1_down: false, p2_up: false, p2_down: true };
            s.update(&busy);
        } else {
            s.update(&input);
        }
        assert!(0 <= s.ball.x && s.ball.x <= 800_000);
        assert!(-5_000 <= s.ball.y && s.ball.y <= 605_000);
        assert!(0 <= s.player_1.y && s.player_1.y <= 550_000);
        assert!(0 <= s.player_2.y && s.player_2.y <= 550_000);
        assert!(s.ball.dir_x.abs() <= 1000 && s.ball.dir_y.abs() <= 1000);
    }
}
