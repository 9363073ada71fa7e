//! Planning for a pixel canvas: a tile level is drawn into a small offscreen
//! texture, and that texture is shown enlarged on a sprite that fills the
//! window.
//!
//! The crate decides what has to exist and when; the caller owns the engine
//! and carries the decisions out.

pub mod camera;
pub mod layout;
pub mod scene;
