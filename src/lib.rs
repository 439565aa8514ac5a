//! The decisions of an instanced renderer of rounded boxes: how the surface is
//! configured and kept in step with the window, how vertex and instance data
//! are laid out, how the instance buffer follows the instance list, and which
//! commands make up a frame or which recovery a failed frame calls for. The
//! caller owns the GPU handles and carries the decisions out.
pub mod frame;
pub mod geometry;
pub mod instances;
pub mod layout;
pub mod pipeline;
pub mod state;
pub mod surface;
