//! Displays a planar YUV444 video frame through the GPU: the memory-layout
//! contract of the `3 * width * height`-byte frame buffer, the three
//! single-channel plane textures and their upload protocol, the render
//! pipeline that binds the planes and a sampler into one drawable unit,
//! the polygon geometry the video is projected onto, and the frame loop's
//! recovery rules.

pub mod driver;
pub mod frame;
pub mod geometry;
pub mod pipeline;
pub mod texture;
