//! Level descriptors for a physics platformer: decoding from a KDL node tree,
//! instantiation into an explicit scene registry, the load/unload lifecycle,
//! the death-trigger rule, and the screen transitions around them.

pub mod scalar;
pub mod document;
pub mod descriptor;
pub mod decode;
pub mod scene;
pub mod lifecycle;
pub mod logic;
pub mod player;
pub mod util;
pub mod app_state;
