use pong_core::session::{new_session, update, GameState, GuiButtonTypes, InputState};

fn pointer(mouse_x: i64, mouse_y: i64, released: bool, escape: bool) -> InputState {
    InputState {
        escape,
        player_up: false,
        player_down: false,
        enemy_up: false,
        enemy_down: false,
        mouse_x,
        mouse_y,
        released,
    }
}

#[test]
fn new_session_starts_in_menu_with_two_buttons() {
    let s = new_session();
    assert!(matches!(s.state, GameState::Menu));
    assert_eq!(s.gui.len(), 2);
    assert_eq!(s.gui[0].text, "Play");
    assert!(matches!(s.gui[0].result, GuiButtonTypes::Play));
    assert_eq!(s.gui[0].x_pos, 426_666);
    assert_eq!(s.gui[0].y_pos, 199_000);
    assert_eq!(s.gui[0].x_size, 426_666);
    assert_eq!(s.gui[0].y_size, 100_000);
    assert_eq!(s.gui[1].text, "Quit");
    assert!(matches!(s.gui[1].result, GuiButtonTypes::Quit));
    assert_eq!(s.gui[1].y_pos, 349_000);
    assert_eq!(s.player.x_pos, 64_000);
    assert_eq!(s.player.y_pos, 296_000);
    assert_eq!(s.enemy.x_pos, 1_184_000);
    assert_eq!(s.enemy.y_pos, 296_000);
    assert_eq!(s.ball.x_pos, 624_000);
    assert_eq!(s.ball.y_pos, 344_000);
    assert_eq!(s.ball.x_vel, -400);
    assert_eq!(s.ball.y_vel, -1);
}

#[test]
fn release_on_play_button_starts_game() {
    let mut s = new_session();
    let exit = update(&mut s, &pointer(640_000, 249_000, true, false), 16, 0, 0);
    assert!(matches!(s.state, GameState::Game));
    assert!(!exit);
}

#[test]
fn release_on_play_button_edge_counts() {
    let mut s = new_session();
    // The button edges are inclusive.
    let exit = update(&mut s, &pointer(426_666, 199_000, true, false), 16, 0, 0);
    assert!(matches!(s.state, GameState::Game));
    assert!(!exit);
}

#[test]
fn release_outside_buttons_changes_nothing() {
    let mut s = new_session();
    let exit = update(&mut s, &pointer(100_000, 100_000, true, false), 16, 0, 0);
    assert!(matches!(s.state, GameState::Menu));
    assert!(!exit);
    assert_eq!(s.ball.x_pos, 624_000);
}

#[test]
fn hover_without_release_changes_nothing() {
    let mut s = new_session();
    let exit = update(&mut s, &pointer(640_000, 249_000, false, false), 16, 0, 0);
    assert!(matches!(s.state, GameState::Menu));
    assert!(!exit);
}

#[test]
fn release_on_quit_button_requests_exit() {
    let mut s = new_session();
    let exit = update(&mut s, &pointer(640_000, 399_000, true, false), 16, 0, 0);
    assert!(exit);
    assert!(matches!(s.state, GameState::Menu));
}

#[test]
fn escape_requests_exit_in_every_state() {
    let mut s = new_session();
    assert!(update(&mut s, &pointer(0, 0, false, true), 16, 0, 0));
    s.state = GameState::Game;
    assert!(update(&mut s, &pointer(0, 0, false, true), 16, 0, 0));
    s.state = GameState::GameOver;
    assert!(update(&mut s, &pointer(0, 0, false, true), 16, 0, 0));
}

#[test]
fn escape_in_game_still_runs_the_frame() {
    let mut s = new_session();
    s.state = GameState::Game;
    let exit = update(&mut s, &pointer(0, 0, false, true), 16, 0, 0);
    assert!(exit);
    assert_eq!(s.ball.x_pos, 624_000 - 400 * 16);
}

#[test]
fn game_over_ignores_pointer_and_ball() {
    let mut s = new_session();
    s.state = GameState::GameOver;
    s.ball.x_vel = 700;
    let exit = update(&mut s, &pointer(640_000, 249_000, true, false), 16, 0, 0);
    assert!(!exit);
    assert!(matches!(s.state, GameState::GameOver));
    assert_eq!(s.ball.x_pos, 624_000);
}
