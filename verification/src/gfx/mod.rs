pub mod batch_state;
pub mod buffer;
pub mod color;
pub mod error;
pub mod quad;
pub mod scalar;
pub mod shader;
pub mod sprite_batch;
pub mod texture;
pub mod texture_region;
