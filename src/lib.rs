//! Interaction core of a small vector-drawing canvas: geometry, shapes,
//! the scene store, the gesture recognizer, the tools and the renderer.
//! Coordinates are whole canvas pixels.

pub mod geometry;
pub mod version;
pub mod ids;
pub mod colors;
pub mod drawing;
pub mod shape;
pub mod cache;
pub mod store;
pub mod tools;
pub mod events;
pub mod handler;
