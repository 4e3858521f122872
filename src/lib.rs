//! Input state, message decoding and graphics bookkeeping for a single
//! Direct3D-backed window.

pub mod backend;
pub mod diagnostics;
pub mod errors;
pub mod frame;
pub mod graphics;
pub mod input;
pub mod keyboard;
pub mod message;
pub mod mouse;
pub mod text;
