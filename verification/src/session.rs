//! The game session and its state machine: menu, running game and game
//! over, with one update function per state and a dispatcher.
//!
//! Crossing a horizontal screen bound ends the game (the session moves to
//! `GameOver`) rather than reflecting the ball; only the vertical bounds
//! reflect.

use vstd::prelude::*;
use crate::ball::{bounce_spec, integrate_spec, reflect_spec, Ball, BallV};
use crate::geometry::paddle_hits_ball;
use crate::paddle::{move_paddle, move_paddle_spec, paddle_y_in_range, Paddle, PaddleType, PaddleV};
use crate::{
    coord_ok, vel_ok, BALL_HALF_SIZE, BALL_SIZE, DT_LIMIT, PADDLE_DIST_FROM_EDGE,
    PADDLE_HALF_HEIGHT, PADDLE_WIDTH, POS_LIMIT, RAND_UNIT, SCREEN_WIDTH,
};

verus! {

/// The three states of the session.
#[derive(Clone, Copy, PartialEq, Eq, Structural, Debug)]
pub enum GameState {
    Menu,
    Game,
    GameOver,
}

/// What pressing a menu button does.
#[derive(Clone, Copy, PartialEq, Eq, Structural, Debug)]
pub enum GuiButtonTypes {
    Play,
    Quit,
}

/// Left edge of the menu buttons: one third of the screen width, in
/// milli-pixels, rounded down.
pub const BUTTON_X: i64 = 426_666;

/// Width of the menu buttons: one third of the screen width, in
/// milli-pixels, rounded down.
pub const BUTTON_WIDTH: i64 = 426_666;

/// Height of the menu buttons, in milli-pixels (100 pixels).
pub const BUTTON_HEIGHT: i64 = 100_000;

/// Top edge of the play button, in milli-pixels (199 pixels).
pub const PLAY_BUTTON_Y: i64 = 199_000;

/// Top edge of the quit button, in milli-pixels (349 pixels).
pub const QUIT_BUTTON_Y: i64 = 349_000;

/// Starting top edge of both paddles: vertically centered, in milli-pixels
/// (half the screen height minus half the paddle height).
pub const PADDLE_START_Y: i64 = 296_000;

/// Starting left edge of the ball: horizontally centered, in milli-pixels
/// (half the screen width minus half the ball size).
pub const BALL_START_X: i64 = 624_000;

/// Starting top edge of the ball: vertically centered, in milli-pixels
/// (half the screen height minus half the ball size).
pub const BALL_START_Y: i64 = 344_000;

/// Starting horizontal ball velocity: 400 pixels per second to the left.
pub const BALL_START_VX: i64 = -400;

/// Starting vertical ball velocity: 1 pixel per second upward.
pub const BALL_START_VY: i64 = -1;

/// A menu button: a rectangle, a label and the action it triggers. Static
/// after construction.
#[derive(Clone, Copy, Debug)]
pub struct GuiButton {
    pub x_pos: i64,
    pub y_pos: i64,
    pub x_size: i64,
    pub y_size: i64,
    pub text: &'static str,
    pub result: GuiButtonTypes,
}

/// Mathematical model of a menu button: the rectangle and the action. The
/// label only matters to the renderer.
#[verifier::ext_equal]
pub ghost struct ButtonV {
    pub x: int,
    pub y: int,
    pub w: int,
    pub h: int,
    pub action: GuiButtonTypes,
}

impl View for GuiButton {
    type V = ButtonV;

    open spec fn view(&self) -> ButtonV {
        ButtonV {
            x: self.x_pos as int,
            y: self.y_pos as int,
            w: self.x_size as int,
            h: self.y_size as int,
            action: self.result,
        }
    }
}

/// The raw key and pointer state of one frame, as the window layer hands it
/// over.
#[derive(Clone, Copy, Debug)]
pub struct InputState {
    /// The escape key was pressed this frame.
    pub escape: bool,
    /// The player paddle's up key is held.
    pub player_up: bool,
    /// The player paddle's down key is held.
    pub player_down: bool,
    /// The enemy paddle's up key is held.
    pub enemy_up: bool,
    /// The enemy paddle's down key is held.
    pub enemy_down: bool,
    /// Pointer position, in milli-pixels.
    pub mouse_x: i64,
    /// Pointer position, in milli-pixels.
    pub mouse_y: i64,
    /// The pointer button was released this frame.
    pub released: bool,
}

/// The whole game session: the active state, both paddles, the ball and the
/// menu buttons.
pub struct Session {
    pub state: GameState,
    pub player: Paddle,
    pub enemy: Paddle,
    pub ball: Ball,
    pub gui: Vec<GuiButton>,
}

/// Mathematical model of a session.
#[verifier::ext_equal]
pub ghost struct SessionV {
    pub state: GameState,
    pub player: PaddleV,
    pub enemy: PaddleV,
    pub ball: BallV,
    pub gui: Seq<ButtonV>,
}

impl View for Session {
    type V = SessionV;

    open spec fn view(&self) -> SessionV {
        SessionV {
            state: self.state,
            player: self.player@,
            enemy: self.enemy@,
            ball: self.ball@,
            gui: self.gui@.map_values(|b: GuiButton| b@),
        }
    }
}

/// A button rectangle whose corners the menu arithmetic can add without
/// overflow.
pub open spec fn button_ok(b: ButtonV) -> bool {
    coord_ok(b.x) && coord_ok(b.y) && 0 <= b.w <= POS_LIMIT && 0 <= b.h <= POS_LIMIT
}

/// The session invariant: paddles fully on screen, paddle positions and
/// button rectangles within the coordinate bound, ball velocity within the
/// velocity bound. The ball's position is not constrained here: it may
/// leave the screen, which is what ends the game.
pub open spec fn session_wf(s: SessionV) -> bool {
    &&& paddle_y_in_range(s.player.y)
    &&& paddle_y_in_range(s.enemy.y)
    &&& coord_ok(s.player.x)
    &&& coord_ok(s.enemy.x)
    &&& vel_ok(s.ball.vx)
    &&& vel_ok(s.ball.vy)
    &&& forall|i: int| 0 <= i < s.gui.len() ==> button_ok(#[trigger] s.gui[i])
}

/// A point lies inside a button's rectangle (edges included).
pub open spec fn point_in_button(b: ButtonV, mx: int, my: int) -> bool {
    b.x <= mx <= b.x + b.w && b.y <= my <= b.y + b.h
}

/// The point lies inside this button and the button starts the game.
pub open spec fn is_play_hit(b: ButtonV, mx: int, my: int) -> bool {
    b.action is Play && point_in_button(b, mx, my)
}

/// The point lies inside this button and the button quits.
pub open spec fn is_quit_hit(b: ButtonV, mx: int, my: int) -> bool {
    b.action is Quit && point_in_button(b, mx, my)
}

/// Some play button contains the point.
pub open spec fn play_hit(gui: Seq<ButtonV>, mx: int, my: int) -> bool {
    exists|i: int| 0 <= i < gui.len() && #[trigger] is_play_hit(gui[i], mx, my)
}

/// Some quit button contains the point.
pub open spec fn quit_hit(gui: Seq<ButtonV>, mx: int, my: int) -> bool {
    exists|i: int| 0 <= i < gui.len() && #[trigger] is_quit_hit(gui[i], mx, my)
}

/// One menu frame: a pointer release inside a play button moves the session
/// to the game state; anything else leaves it unchanged.
pub open spec fn menu_step_spec(s: SessionV, inp: InputState) -> SessionV {
    if inp.released && play_hit(s.gui, inp.mouse_x as int, inp.mouse_y as int) {
        SessionV { state: GameState::Game, ..s }
    } else {
        s
    }
}

/// One menu frame asks the process to exit when escape was pressed or a
/// quit button was released over.
pub open spec fn menu_exit_spec(s: SessionV, inp: InputState) -> bool {
    inp.escape || (inp.released && quit_hit(s.gui, inp.mouse_x as int, inp.mouse_y as int))
}

/// One game frame, in the order the frame runs it: the input mapper moves
/// both paddles; a collision with the player paddle, then with the enemy
/// paddle, rebounds the ball; crossing a vertical screen bound reflects the
/// vertical velocity; crossing a horizontal screen bound ends the game; and
/// finally the position integrates velocity over the elapsed time.
pub open spec fn game_step_spec(s: SessionV, inp: InputState, dt: int, r1: int, r2: int) -> SessionV {
    let player = PaddleV {
        y: move_paddle_spec(s.player.y, inp.player_up, inp.player_down, dt),
        ..s.player
    };
    let enemy = PaddleV {
        y: move_paddle_spec(s.enemy.y, inp.enemy_up, inp.enemy_down, dt),
        ..s.enemy
    };
    let ball1 = if paddle_hits_ball(player, s.ball) {
        bounce_spec(s.ball, player.y, r1)
    } else {
        s.ball
    };
    let ball2 = if paddle_hits_ball(enemy, ball1) {
        bounce_spec(ball1, enemy.y, r2)
    } else {
        ball1
    };
    let ball3 = reflect_spec(ball2);
    let state = if ball3.x < 0 || ball3.x + BALL_SIZE > SCREEN_WIDTH {
        GameState::GameOver
    } else {
        s.state
    };
    SessionV { state, player, enemy, ball: integrate_spec(ball3, dt), gui: s.gui }
}

/// The dispatcher: each state has its own update behavior. The game-over
/// state is idle.
pub open spec fn update_spec(s: SessionV, inp: InputState, dt: int, r1: int, r2: int) -> SessionV {
    match s.state {
        GameState::Menu => menu_step_spec(s, inp),
        GameState::Game => game_step_spec(s, inp, dt, r1, r2),
        GameState::GameOver => s,
    }
}

/// When a frame asks the process to exit: in the menu, escape or the quit
/// button; in the game and after it, escape.
pub open spec fn update_exit_spec(s: SessionV, inp: InputState) -> bool {
    match s.state {
        GameState::Menu => menu_exit_spec(s, inp),
        GameState::Game => inp.escape,
        GameState::GameOver => inp.escape,
    }
}

/// One frame of the menu: walks the buttons and applies the action of each
/// one the pointer was released over.
pub fn menu_update(s: &mut Session, inp: &InputState) -> (exit: bool)
    requires
        session_wf(old(s)@),
    ensures
        final(s)@ == menu_step_spec(old(s)@, *inp),
        exit == menu_exit_spec(old(s)@, *inp),
        session_wf(final(s)@),
{
    let mut play = false;
    let mut quit = false;
    if inp.released {
        let mut i: usize = 0;
        while i < s.gui.len()
            invariant
                session_wf(s@),
                *s == *old(s),
                0 <= i <= s.gui.len(),
                play == exists|j: int|
                    0 <= j < i && #[trigger] is_play_hit(
                        s@.gui[j],
                        inp.mouse_x as int,
                        inp.mouse_y as int,
                    ),
                quit == exists|j: int|
                    0 <= j < i && #[trigger] is_quit_hit(
                        s@.gui[j],
                        inp.mouse_x as int,
                        inp.mouse_y as int,
                    ),
            decreases s.gui.len() - i,
        {
            let b = &s.gui[i];
            proof {
                assert(b@ == s@.gui[i as int]);
                assert(button_ok(s@.gui[i as int]));
            }
            let inside = b.x_pos <= inp.mouse_x && inp.mouse_x <= b.x_pos + b.x_size && b.y_pos
                <= inp.mouse_y && inp.mouse_y <= b.y_pos + b.y_size;
            assert(inside == point_in_button(
                s@.gui[i as int],
                inp.mouse_x as int,
                inp.mouse_y as int,
            ));
            if inside {
                match b.result {
                    GuiButtonTypes::Play => {
                        play = true;
                    },
                    GuiButtonTypes::Quit => {
                        quit = true;
                    },
                }
            }
            proof {
                let mx = inp.mouse_x as int;
                let my = inp.mouse_y as int;
                let k = i as int;
                assert(play == (exists|j: int|
                    0 <= j < k + 1 && #[trigger] is_play_hit(s@.gui[j], mx, my))) by {
                    if play && is_play_hit(s@.gui[k], mx, my) {
                        assert(0 <= k < k + 1 && is_play_hit(s@.gui[k], mx, my));
                    }
                    if !play {
                        assert(!is_play_hit(s@.gui[k], mx, my));
                    }
                }
                assert(quit == (exists|j: int|
                    0 <= j < k + 1 && #[trigger] is_quit_hit(s@.gui[j], mx, my))) by {
                    if quit && is_quit_hit(s@.gui[k], mx, my) {
                        assert(0 <= k < k + 1 && is_quit_hit(s@.gui[k], mx, my));
                    }
                    if !quit {
                        assert(!is_quit_hit(s@.gui[k], mx, my));
                    }
                }
            }
            i = i + 1;
        }
    }
    if play {
        s.state = GameState::Game;
    }
    proof {
        assert(s@ =~= menu_step_spec(old(s)@, *inp));
    }
    inp.escape || quit
}

/// One frame of the running game: input mapper, both collision responses,
/// wall reflection, the game-over test on the horizontal bounds, and
/// position integration. Escape asks the process to exit; the frame still
/// runs.
pub fn game_update(s: &mut Session, inp: &InputState, dt: u64, r1: u64, r2: u64) -> (exit: bool)
    requires
        session_wf(old(s)@),
        coord_ok(old(s)@.ball.x),
        coord_ok(old(s)@.ball.y),
        dt <= DT_LIMIT,
        r1 < RAND_UNIT,
        r2 < RAND_UNIT,
    ensures
        final(s)@ == game_step_spec(old(s)@, *inp, dt as int, r1 as int, r2 as int),
        exit == inp.escape,
        session_wf(final(s)@),
{
    move_paddle(&mut s.player, inp.player_up, inp.player_down, dt);
    move_paddle(&mut s.enemy, inp.enemy_up, inp.enemy_down, dt);

    if crate::geometry::collides_ball_paddle(&s.player, &s.ball) {
        s.ball.x_vel = -s.ball.x_vel;
        let collision_dist: i64 = (s.ball.y_pos + BALL_HALF_SIZE) - (s.player.y_pos
            + PADDLE_HALF_HEIGHT);
        s.ball.y_vel = crate::ball::deflect(collision_dist, r1);
    }
    if crate::geometry::collides_ball_paddle(&s.enemy, &s.ball) {
        s.ball.x_vel = -s.ball.x_vel;
        let collision_dist: i64 = (s.ball.y_pos + BALL_HALF_SIZE) - (s.enemy.y_pos
            + PADDLE_HALF_HEIGHT);
        s.ball.y_vel = crate::ball::deflect(collision_dist, r2);
    }
    crate::ball::reflect_off_walls(&mut s.ball);
    if s.ball.x_pos < 0 || s.ball.x_pos + BALL_SIZE > SCREEN_WIDTH {
        s.state = GameState::GameOver;
    }
    crate::ball::integrate(&mut s.ball, dt);
    proof {
        assert(s@ =~= game_step_spec(old(s)@, *inp, dt as int, r1 as int, r2 as int));
    }
    inp.escape
}

/// One frame after the game has ended: only the exit command is accepted;
/// the session is idle.
pub fn game_over_update(inp: &InputState) -> (exit: bool)
    ensures
        exit == inp.escape,
{
    inp.escape
}

/// One frame of the session: dispatches on the active state and says
/// whether the process should exit.
pub fn update(s: &mut Session, inp: &InputState, dt: u64, r1: u64, r2: u64) -> (exit: bool)
    requires
        session_wf(old(s)@),
        coord_ok(old(s)@.ball.x),
        coord_ok(old(s)@.ball.y),
        dt <= DT_LIMIT,
        r1 < RAND_UNIT,
        r2 < RAND_UNIT,
    ensures
        final(s)@ == update_spec(old(s)@, *inp, dt as int, r1 as int, r2 as int),
        exit == update_exit_spec(old(s)@, *inp),
        session_wf(final(s)@),
{
    let st = s.state;
    match st {
        GameState::Menu => menu_update(s, inp),
        GameState::Game => game_update(s, inp, dt, r1, r2),
        GameState::GameOver => game_over_update(inp),
    }
}

/// One frame of the session, drawing the two rebound inputs from the
/// process random source: whatever the draws were, the outcome is one
/// deterministic update for some pair of draws.
pub fn update_frame(s: &mut Session, inp: &InputState, dt: u64) -> (exit: bool)
    requires
        session_wf(old(s)@),
        coord_ok(old(s)@.ball.x),
        coord_ok(old(s)@.ball.y),
        dt <= DT_LIMIT,
    ensures
        exists|r1: int, r2: int|
            0 <= r1 < RAND_UNIT && 0 <= r2 < RAND_UNIT && final(s)@ == #[trigger] update_spec(
                old(s)@,
                *inp,
                dt as int,
                r1,
                r2,
            ),
        exit == update_exit_spec(old(s)@, *inp),
        session_wf(final(s)@),
{
    let r1 = crate::rng::random_below(RAND_UNIT);
    let r2 = crate::rng::random_below(RAND_UNIT);
    update(s, inp, dt, r1, r2)
}

/// A fresh session: in the menu, paddles and ball centered, the ball moving
/// left, and the play and quit buttons stacked in the middle of the screen.
pub open spec fn initial_session() -> SessionV {
    SessionV {
        state: GameState::Menu,
        player: PaddleV {
            x: PADDLE_DIST_FROM_EDGE as int,
            y: PADDLE_START_Y as int,
            role: PaddleType::Player,
        },
        enemy: PaddleV {
            x: (SCREEN_WIDTH - PADDLE_DIST_FROM_EDGE - PADDLE_WIDTH) as int,
            y: PADDLE_START_Y as int,
            role: PaddleType::Enemy,
        },
        ball: BallV {
            x: BALL_START_X as int,
            y: BALL_START_Y as int,
            vx: BALL_START_VX as int,
            vy: BALL_START_VY as int,
        },
        gui: seq![
            ButtonV {
                x: BUTTON_X as int,
                y: PLAY_BUTTON_Y as int,
                w: BUTTON_WIDTH as int,
                h: BUTTON_HEIGHT as int,
                action: GuiButtonTypes::Play,
            },
            ButtonV {
                x: BUTTON_X as int,
                y: QUIT_BUTTON_Y as int,
                w: BUTTON_WIDTH as int,
                h: BUTTON_HEIGHT as int,
                action: GuiButtonTypes::Quit,
            },
        ],
    }
}

/// Builds a fresh session in the menu state.
pub fn new_session() -> (s: Session)
    ensures
        s@ == initial_session(),
        session_wf(s@),
        coord_ok(s@.ball.x),
        coord_ok(s@.ball.y),
{
    let mut gui: Vec<GuiButton> = Vec::new();
    gui.push(GuiButton {
        x_pos: BUTTON_X,
        y_pos: PLAY_BUTTON_Y,
        x_size: BUTTON_WIDTH,
        y_size: BUTTON_HEIGHT,
        text: "Play",
        result: GuiButtonTypes::Play,
    });
    gui.push(GuiButton {
        x_pos: BUTTON_X,
        y_pos: QUIT_BUTTON_Y,
        x_size: BUTTON_WIDTH,
        y_size: BUTTON_HEIGHT,
        text: "Quit",
        result: GuiButtonTypes::Quit,
    });
    let s = Session {
        state: GameState::Menu,
        player: Paddle {
            x_pos: PADDLE_DIST_FROM_EDGE,
            y_pos: PADDLE_START_Y,
            paddle_type: PaddleType::Player,
        },
        enemy: Paddle {
            x_pos: SCREEN_WIDTH - PADDLE_DIST_FROM_EDGE - PADDLE_WIDTH,
            y_pos: PADDLE_START_Y,
            paddle_type: PaddleType::Enemy,
        },
        ball: Ball {
            x_pos: BALL_START_X,
            y_pos: BALL_START_Y,
            x_vel: BALL_START_VX,
            y_vel: BALL_START_VY,
        },
        gui,
    };
    proof {
        assert(s@.gui =~= initial_session().gui);
        assert(s@ =~= initial_session());
    }
    s
}

/// From the menu, a pointer release inside a play button moves the session
/// to the game state, and a release outside every button leaves it
/// unchanged.
pub proof fn lemma_menu_transition(s: SessionV, inp: InputState)
    requires
        s.state is Menu,
        inp.released,
    ensures
        play_hit(s.gui, inp.mouse_x as int, inp.mouse_y as int) ==> menu_step_spec(
            s,
            inp,
        ).state is Game,
        (forall|i: int|
            0 <= i < s.gui.len() ==> !point_in_button(
                #[trigger] s.gui[i],
                inp.mouse_x as int,
                inp.mouse_y as int,
            )) ==> menu_step_spec(s, inp) == s,
{
    let mx = inp.mouse_x as int;
    let my = inp.mouse_y as int;
    if forall|i: int| 0 <= i < s.gui.len() ==> !point_in_button(#[trigger] s.gui[i], mx, my) {
        assert(!play_hit(s.gui, mx, my)) by {
            if play_hit(s.gui, mx, my) {
                let i = choose|i: int| 0 <= i < s.gui.len() && #[trigger] is_play_hit(
                    s.gui[i],
                    mx,
                    my,
                );
                assert(point_in_button(s.gui[i], mx, my));
            }
        }
    }
}

/// Once the session has left the menu it never returns to it: a game frame
/// either stays in the game or ends it, and the game-over state is idle.
pub proof fn lemma_no_way_back_to_menu(s: SessionV, inp: InputState, dt: int, r1: int, r2: int)
    requires
        !(s.state is Menu),
    ensures
        !(update_spec(s, inp, dt, r1, r2).state is Menu),
{
}

} // verus!
