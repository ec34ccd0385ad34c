//! The verified core of a small WebGL cube world: what a key press or a mouse
//! drag asks of the camera, the list of cubes in the world, how the cube mesh is
//! laid out for the GPU, the frame counter, and the decoding of a texture image.

pub mod input;
pub mod world;
pub mod texture;
pub mod render;
pub mod frame;
