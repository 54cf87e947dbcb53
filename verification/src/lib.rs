//! Core logic for distributing authoritative game-clock state from a single
//! controlling process to loosely-coupled display consumers.
//!
//! The library covers the parts of the system that carry protocol or
//! state-machine meaning: the fixed-length wire codec, the connection state
//! machine with bounded reconnect backoff, the bounded hand-off queue between
//! the network side and the rendering loop, the merge of sparse partial
//! updates into the long-lived local display state, and the pure selection of
//! the display mode from the merged snapshot. Rendering, window management and
//! I/O plumbing are thin shells around these functions and live outside the
//! library.

pub mod channel;
pub mod codec;
pub mod connection;
pub mod mode;
pub mod snapshot;
pub mod state;
pub mod style;
