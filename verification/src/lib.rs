//! A verified Pong simulation: ball physics, paddle movement, and
//! collision and scoring resolution over a fixed 800 x 600 field.
//!
//! Geometry is carried in integers counted in thousandths of a field
//! unit (see `field`), so every position update, bounce and clamp is
//! exact.  The presentation layer drives the simulation once per
//! display frame: it hands `MainState::update` an input snapshot, then
//! turns the draw requests of `MainState::draw` into actual draw calls.

pub mod ball;
pub mod field;
pub mod laws;
pub mod paddle;
pub mod render;
mod sample;
pub mod state;

pub use ball::Ball;
pub use field::{Direction, InputSnapshot, Side};
pub use paddle::Player;
pub use render::DrawCmd;
pub use state::MainState;
