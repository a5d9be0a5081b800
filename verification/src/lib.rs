//! The rules of a terminal snake game: the board, the snake, where food may
//! appear, what one tick of the game does and how the board is drawn.
//!
//! Everything here works on plain values. Reading keys, playing sounds and
//! printing are left to the program that drives the game.

pub mod food;
pub mod game;
pub mod input;
pub mod level;
pub mod point;
pub mod render;
pub mod snake;
pub mod sound;

pub use food::{free_cells, generate_food, has_free_cell, place_food};
pub use game::{can_update, update, Collision, Effect, Outcome, GAME_OVER_PAUSE};
pub use input::{handle_input, is_bound, Key, KEY_WAIT};
pub use level::{load_level, Shape, COLS, ROWS};
pub use point::Point;
pub use render::{back_buffer, can_render, draw, render};
pub use snake::{Direction, Snake};
pub use sound::{asset_path, Sound};
