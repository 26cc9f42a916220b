use pong::Ball;
use pong::DrawCmd;
use pong::MainState;
use pong::Player;
use pong::Side;

#[test]
fn draw_emits_score_ball_and_paddles() {
    let s = MainState {
        player_1: Player::new(Side::Left),
        player_2: Player::new(Side::Right),
        ball: Ball { x: 123_000, y: 456_000, speed: 5, dir_x: 700, dir_y: -100 },
        score: (2, 7),
    };
    let cmds = s.draw();
    assert_eq!(
        cmds,
        vec![
            DrawCmd::ScoreText { left: 2, right: 7, x: 50_000, y: 10_000 },
            DrawCmd::Circle { x: 123_000, y: 456_000, radius: 10_000 },
            DrawCmd::Rect { x: 20_000, y: 275_000, width: 30_000, height: 50_000 },
            DrawCmd::Rect { x: 750_000, y: 275_000, width: 30_000, height: 50_000 },
        ]
    );
}

#[test]
fn draw_twice_without_tick_is_identical() {
    let s = MainState::new();
    let first = s.draw();
    let second = s.draw();
    let third = s.draw();
    assert_eq!(first, second);
    assert_eq!(second, third);
}

#[test]
fn entity_draw_matches_state_draw() {
    let s = MainState {
        player_1: Player::new(Side::Left),
        player_2: Player::new(Side::Right),
        ball: Ball { x: 10_000, y: 20_000, speed: 5, dir_x: 0, dir_y: 0 },
        score: (0, 0),
    };
    let cmds = s.draw();
    assert_eq!(cmds[1], s.ball.draw());
    assert_eq!(cmds[2], s.player_1.draw());
    assert_eq!(cmds[3], s.player_2.draw());
}
