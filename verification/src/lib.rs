//! A minimal interactive domino visualization: a fixed collection of tiles,
//! a pointer position kept current by movement events, and a render pass
//! that turns the state into a sequence of drawing commands.
//!
//! The drawing surface itself is an external collaborator: the library only
//! decides *what* to draw, as plain command values, and leaves performing
//! them to the caller.

pub mod game;
pub mod tile;
