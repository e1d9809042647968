use pong::{
    audio_cues, menu_action, AudioCues, Ball, Event, Game, GameState, GoalEvent, MenuButtonAction,
    MenuCommand, Paddle, PlayerInput, Point, Score, ServeDirection, ServeTimer, Side, Velocity,
    TIME_TO_SERVE, UNIT,
};

const IDLE: PlayerInput = PlayerInput { up: false, down: false, menu: false };

fn playing_game() -> Game {
    let mut game = Game::new();
    assert!(!game.press(MenuButtonAction::New));
    game
}

#[test]
fn new_game_waits_in_menu() {
    let game = Game::new();
    assert_eq!(game.phase, GameState::Menu);
    assert!(game.is_first_run);
    assert_eq!(game.score, Score { left: 0, right: 0 });
    assert_eq!(game.serve_direction, ServeDirection::Right);
}

#[test]
fn resume_before_first_play_is_ignored() {
    let mut game = Game::new();
    assert!(!game.press(MenuButtonAction::Resume));
    assert_eq!(game.phase, GameState::Menu);
    assert!(game.is_first_run);
    assert_eq!(menu_action(MenuButtonAction::Resume, true), None);
    assert_eq!(menu_action(MenuButtonAction::Resume, false), Some(MenuCommand::Enter(GameState::Playing)));
    assert_eq!(menu_action(MenuButtonAction::New, true), Some(MenuCommand::Enter(GameState::Reset)));
    assert_eq!(menu_action(MenuButtonAction::Quit, false), Some(MenuCommand::Quit));
}

#[test]
fn menu_round_trip_and_quit() {
    let mut game = playing_game();
    assert_eq!(game.phase, GameState::Playing);
    assert!(!game.is_first_run);
    game.tick(10_000, PlayerInput { up: true, down: false, menu: true });
    assert_eq!(game.phase, GameState::Menu);
    let frozen_timer = game.serve_timer;
    game.tick(10_000, IDLE);
    assert_eq!(game.serve_timer, frozen_timer);
    assert!(!game.press(MenuButtonAction::Resume));
    assert_eq!(game.phase, GameState::Playing);
    assert!(game.press(MenuButtonAction::Quit) == false);
    game.transition_to(GameState::Menu);
    assert!(game.press(MenuButtonAction::Quit));
}

#[test]
fn full_reset_restores_everything() {
    let mut game = playing_game();
    game.score = Score { left: 3, right: 5 };
    game.ball = Ball { position: Point { x: 40 * UNIT, y: -7 * UNIT }, velocity: Velocity { x: 600, y: 800 } };
    game.cpu.y = 100 * UNIT;
    game.player.y = -120 * UNIT;
    game.player.velocity = 1000;
    game.serve_direction = ServeDirection::Left;
    game.serve_timer.tick(TIME_TO_SERVE);
    game.events = vec![Event::Goal(GoalEvent(Side::Left))];
    game.transition_to(GameState::Menu);
    assert!(!game.press(MenuButtonAction::New));
    assert_eq!(game.phase, GameState::Playing);
    assert_eq!(game.score, Score { left: 0, right: 0 });
    assert_eq!(game.ball, Ball { position: Point { x: 0, y: 0 }, velocity: Velocity { x: 0, y: 0 } });
    assert_eq!(game.cpu, Paddle { side: Side::Left, y: 0, velocity: 0 });
    assert_eq!(game.player, Paddle { side: Side::Right, y: 0, velocity: 0 });
    assert_eq!(game.serve_direction, ServeDirection::Right);
    assert_eq!(game.serve_timer, ServeTimer::new());
    assert!(game.events.is_empty());
}

#[test]
fn served_ball_travels_speed_times_elapsed_time() {
    let mut game = playing_game();
    for _ in 0..7 {
        game.tick(125_000, IDLE);
        assert_eq!(game.ball.velocity, Velocity { x: 0, y: 0 });
        assert_eq!(game.ball.position, Point { x: 0, y: 0 });
    }
    game.tick(125_000, IDLE);
    assert_eq!(game.ball.velocity, Velocity { x: 1000, y: 0 });
    assert_eq!(game.serve_direction, ServeDirection::Left);
    assert_eq!(game.ball.position, Point { x: 50 * UNIT, y: 0 });
    for _ in 0..3 {
        game.tick(125_000, IDLE);
    }
    // 400 units per second over the half second since the serve.
    assert_eq!(game.ball.position, Point { x: 200 * UNIT, y: 0 });
    assert!(game.events.is_empty());
}

#[test]
fn left_goal_scores_for_right_and_rearms_serve() {
    let mut game = playing_game();
    game.ball = Ball { position: Point { x: -280 * UNIT, y: 0 }, velocity: Velocity { x: -1000, y: 0 } };
    game.serve_direction = ServeDirection::Right;
    game.serve_timer.tick(TIME_TO_SERVE);
    game.tick(31_250, IDLE);
    assert_eq!(game.events, vec![Event::Goal(GoalEvent(Side::Left))]);
    assert_eq!(game.ball.position, Point { x: -292_500_000_000, y: 0 });
    assert_eq!(game.score, Score { left: 0, right: 0 });
    assert_eq!(audio_cues(&game.events), AudioCues { collision: false, goal: true });
    game.tick(15_625, IDLE);
    assert_eq!(game.score, Score { left: 0, right: 1 });
    assert_eq!(game.ball, Ball { position: Point { x: 0, y: 0 }, velocity: Velocity { x: 0, y: 0 } });
    assert_eq!(game.serve_timer.elapsed, 15_625);
    assert!(!game.serve_timer.finished);
    assert!(game.events.is_empty());
    game.tick(TIME_TO_SERVE, IDLE);
    assert_eq!(game.ball.velocity, Velocity { x: 1000, y: 0 });
    assert_eq!(game.serve_direction, ServeDirection::Left);
}

#[test]
fn audio_cues_once_per_kind() {
    let events = vec![Event::Collision, Event::Collision];
    assert_eq!(audio_cues(&events), AudioCues { collision: true, goal: false });
    assert_eq!(audio_cues(&Vec::new()), AudioCues { collision: false, goal: false });
}

#[test]
fn player_paddle_follows_keys_during_play() {
    let mut game = playing_game();
    game.tick(100_000, PlayerInput { up: true, down: false, menu: false });
    assert_eq!(game.player.y, 50 * UNIT);
    game.tick(1_000_000, PlayerInput { up: true, down: false, menu: false });
    assert_eq!(game.player.y, 170 * UNIT);
}

#[test]
fn colliders_are_arena_then_paddles() {
    let mut game = playing_game();
    game.player.y = 40 * UNIT;
    let cs = game.colliders();
    assert_eq!(cs.len(), 6);
    assert_eq!(cs[4].rect.center, Point { x: 250 * UNIT, y: 40 * UNIT });
    assert_eq!(cs[5].rect.center, Point { x: -250 * UNIT, y: 0 });
    assert!(cs[4].goal.is_none() && cs[5].goal.is_none());
}

#[test]
fn full_counter_ticks_while_no_goal_is_pending() {
    let mut game = playing_game();
    game.score = Score { left: u32::MAX, right: u32::MAX };
    game.tick(10_000, IDLE);
    assert_eq!(game.score, Score { left: u32::MAX, right: u32::MAX });
}
