//! The body of a grid snake: a head-first line of cells that moves one
//! cell per tick, can grow back the cell it just left, and can tell when a
//! cell would run into it.

pub mod direction;
pub mod laws;
pub mod model;
pub mod snake;

pub use crate::direction::Direction;
pub use crate::model::SnakeView;
pub use crate::snake::Snake;
