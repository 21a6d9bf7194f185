//! Text drawn at an arbitrary position and depth, laid out independently of
//! the host UI tree.
//!
//! The library holds the decisions of the two per-frame passes: when an
//! entity's layout must be recomputed and what becomes of the shaping
//! engine's answer (`scheduler`), and which glyph quads an entity emits with
//! which colour and anchor (`alignment`, `extract`). The host engine's calls
//! and all floating-point geometry stay with the caller.

pub mod alignment;
pub mod extract;
pub mod laws;
pub mod scheduler;
pub mod text;
