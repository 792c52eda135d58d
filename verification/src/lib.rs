//! Verified core of a 2D particle simulation: circular bodies move under
//! gravity and friction, bounce off the window walls, and collide elastically
//! in pairs. All quantities are fixed-point integers (library units); the
//! windowing and rendering shell converts to and from pixels.

pub mod collision;
pub mod config;
pub mod integrator;
pub mod num;
pub mod particle;
pub mod rng;
pub mod system;
pub mod vec2;
