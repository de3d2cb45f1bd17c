//! A small real-time 2D rendering layer: descriptors for GPU buffers, shaders
//! and textures, and a sprite batch that groups quads by texture so that a
//! frame needs few draw submissions.
//!
//! The crate never talks to a graphics device itself. Every operation takes
//! what the device reported (object handles, status words, diagnostic logs)
//! as plain values and answers with plain values that say what has to be
//! sent to the device. Scalars that the device reads as 32-bit floats
//! (positions, texture coordinates) are carried as their IEEE-754 bit
//! patterns in `u32`.

use vstd::prelude::*;

pub mod gfx;

verus! {

/// An application driven by the frame loop of the windowing layer.
pub trait RLibApp: Sized {
    fn new() -> Self;

    fn init(&mut self);

    fn render(&mut self);
}

/// Window settings handed to the windowing layer when an application starts.
pub struct RlibConfig {
    pub window_title: String,
    pub window_width: u32,
    pub window_height: u32,
}

impl Default for RlibConfig {
    /// An 800 by 600 window titled "Title".
    fn default() -> (config: RlibConfig)
        ensures
            config.window_title@ == "Title"@,
            config.window_width == 800,
            config.window_height == 600,
    {
        RlibConfig {
            window_title: "Title".to_owned(),
            window_width: 800,
            window_height: 600,
        }
    }
}

} // verus!
