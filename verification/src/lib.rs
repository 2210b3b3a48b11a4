//! Simulation core of a grid snake game: value types, the occupancy index,
//! the bounded input buffer, the shadow-position pool and the game state
//! machine, each with a machine-checked contract.

pub mod direction;
pub mod game;
pub mod game_state;
pub mod grid;
pub mod input;
pub mod input_buffer;
pub mod laws;
pub mod model;
pub mod position;
mod random;
pub mod spatial_hash;
pub mod timing;
pub mod vec2_pool;

pub use direction::Direction;
pub use game::Game;
pub use game_state::GameState;
pub use input::FrameInput;
pub use input_buffer::InputBuffer;
pub use position::Position;
pub use spatial_hash::SpatialHash;
pub use vec2_pool::IVec2;
pub use vec2_pool::Vec2Pool;
