//! Verified core of a real-time renderer: the vertex-layout and draw-submission
//! protocol, and the camera records whose matrices are handed to the GPU.

pub mod camera;
pub mod model;
