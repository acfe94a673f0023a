//! An ordered collection of timed image frames, the rules for playing them
//! back as an animation, and the parameters of the image filters that can be
//! applied to them.
//!
//! The library computes and decides; it reads no file, opens no window and
//! touches no pixel. A program around it does those things and hands it
//! plain values.

pub mod filter;
pub mod frame;
pub mod menu;
pub mod playback;
pub mod project;
pub mod table;
pub mod text;
