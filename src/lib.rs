//! Safe, verified building blocks over the SDL2 multimedia library: pixel
//! format decoding, event record decoding, the ownership tree of native
//! resources, audio spec negotiation, and the plain values of the video layer.

pub mod pixel;
pub mod event;
pub mod lifetime;
pub mod audio;
pub mod video;
