//! Simulation core of a two-paddle arcade game: collision classification,
//! bounce resolution, ball motion, serving, scoring and the game-phase machine.
//!
//! Lengths are integers in nanounits (a world unit is `UNIT` nanounits), time
//! is in microseconds and direction vectors are in thousandths, so a tick's
//! displacement is an exact integer product.

pub mod ball;
pub mod bounce;
pub mod collision;
pub mod config;
pub mod game;
pub mod geometry;
pub mod paddle;
pub mod schedule;
pub mod score;
pub mod wall;

pub use ball::{
    move_ball, reset_ball, reset_ball_goal, serve_ball, Ball, ServeDirection, ServeTimer,
    BALL_RADIUS, BALL_SPEED,
};
pub use bounce::{
    bounce_velocity, cosine_permille, deflect_vertical, paddle_bounce_angle, sine_permille,
    Velocity, MAX_BOUNCE_ANGLE, RIGHT_ANGLE,
};
pub use collision::{handle_collisions, Event};
pub use config::{DIR_SCALE, HEIGHT, SECOND, THICKNESS, TIME_TO_SERVE, UNIT, WIDTH};
pub use game::{audio_cues, AudioCues, Game, GameView, PlayerInput};
pub use geometry::{collide_with_side, Circle, Collision, Point, Rect};
pub use paddle::{
    cpu_matches_ball, handle_player_input, move_paddles, position, reset_paddles, Paddle,
    CPU_DIFFERENCE_TOLERANCE, PADDLE_BOTTOM_BOUND, PADDLE_HALF_HEIGHT, PADDLE_HALF_WIDTH,
    PADDLE_SPEED, PADDLE_TOP_BOUND,
};
pub use schedule::{menu_action, GameState, MenuButtonAction, MenuCommand};
pub use score::{reset_scores, update_scores, Score};
pub use wall::{spawn_walls, Collider, Goal, GoalEvent, Side, WallLocation};
