//! Core logic of a grid-based snake game: movement, growth, collision
//! detection, input handling, food placement and difficulty scaling.
//!
//! Rendering, input polling and timing are left to a host program; this
//! crate holds the verified game rules and the per-tick state machine.

pub mod game;
pub mod input;
pub mod food;
pub mod speed;
pub mod state;

pub use game::Direction;
pub use game::Point;
pub use game::Snake;
pub use game::get_step;
pub use food::gen_food;
pub use input::KeysDown;
pub use input::handle_input;
pub use speed::increase_speed;
pub use state::GameState;
