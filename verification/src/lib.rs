//! The decisions behind a one-quad display: which letter a key press selects,
//! when the on-screen keyboard is asked for, and what one frame draws.
//!
//! The window, the GPU and the event loop live with the caller. This library
//! holds the state that the key presses change and computes, as plain values,
//! what each frame shows.

pub mod assets;
pub mod bitmap;
pub mod frame;
pub mod key;
pub mod quad;
pub mod shader;
pub mod stage;
