use pong_core::session::{new_session, update, update_frame, GameState, InputState};

fn idle() -> InputState {
    InputState {
        escape: false,
        player_up: false,
        player_down: false,
        enemy_up: false,
        enemy_down: false,
        mouse_x: 0,
        mouse_y: 0,
        released: false,
    }
}

#[test]
fn ball_reaches_left_edge_and_ends_game() {
    let mut s = new_session();
    s.state = GameState::Game;
    // Park both paddles at the top so the ball cannot reach them.
    s.player.y_pos = 0;
    s.enemy.y_pos = 0;
    s.ball.x_pos = 640_000;
    s.ball.y_pos = 344_000;
    s.ball.x_vel = -400;
    s.ball.y_vel = 0;
    // 640 pixels at 400 pixels per second is 1.6 s: 100 frames of 16 ms.
    let mut frames_to_exit: u64 = 0;
    for frame in 1..200u64 {
        let _ = update(&mut s, &idle(), 16, 0, 0);
        if s.ball.x_pos < 0 {
            frames_to_exit = frame;
            break;
        }
    }
    // Within one frame of the exact crossing time.
    assert!(99 <= frames_to_exit && frames_to_exit <= 101);
    assert!(matches!(s.state, GameState::Game));
    // The frame after the crossing ends the game.
    let _ = update(&mut s, &idle(), 16, 0, 0);
    assert!(matches!(s.state, GameState::GameOver));
}

#[test]
fn ball_reaches_right_edge_and_ends_game() {
    let mut s = new_session();
    s.state = GameState::Game;
    s.player.y_pos = 0;
    s.enemy.y_pos = 0;
    s.ball.x_pos = 640_000;
    s.ball.y_pos = 344_000;
    s.ball.x_vel = 400;
    s.ball.y_vel = 0;
    let mut ended = false;
    for _ in 0..200u64 {
        let _ = update(&mut s, &idle(), 16, 0, 0);
        if matches!(s.state, GameState::GameOver) {
            ended = true;
            break;
        }
    }
    assert!(ended);
    assert!(s.ball.x_pos + 32_000 > 1_280_000);
}

#[test]
fn game_over_session_is_idle() {
    let mut s = new_session();
    s.state = GameState::GameOver;
    s.ball.x_pos = -50_000;
    for _ in 0..10 {
        let exit = update(&mut s, &idle(), 16, 0, 0);
        assert!(!exit);
    }
    assert!(matches!(s.state, GameState::GameOver));
    assert_eq!(s.ball.x_pos, -50_000);
}

#[test]
fn full_session_with_live_randomness() {
    let mut s = new_session();
    // Start the game from the menu through the play button.
    let click = InputState { mouse_x: 640_000, mouse_y: 249_000, released: true, ..idle() };
    let exit = update_frame(&mut s, &click, 16);
    assert!(!exit);
    assert!(matches!(s.state, GameState::Game));
    // Run frames with the process random source: the ball reaches the player
    // paddle and rebounds, and the session invariants hold throughout.
    let mut flipped = false;
    for _ in 0..300u64 {
        let _ = update_frame(&mut s, &idle(), 16);
        if s.ball.x_vel > 0 {
            flipped = true;
        }
        assert!(s.ball.x_vel == 400 || s.ball.x_vel == -400);
        assert!(-1000 < s.ball.y_vel && s.ball.y_vel < 1000);
        assert!(0 <= s.player.y_pos && s.player.y_pos <= 592_000);
    }
    assert!(flipped);
}
