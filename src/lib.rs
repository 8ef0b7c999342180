//! Graphics state and window-host decisions for a clear-screen render loop.
//!
//! The library holds what the render host decides: which surface format and
//! presentation mode are negotiated, how the surface configuration follows the
//! window size, which GPU commands make up a frame, and how the host reacts to
//! window events and to frame-acquisition failures. Performing those decisions
//! against a real window and GPU is left to the caller.
pub mod host;
pub mod settings;
pub mod state;
pub mod surface;
