//! Exercises on owned data, conversions and small collections, together with
//! the line parser of a Wavefront OBJ loader and the plain-value decisions of a
//! Vulkan renderer.
pub mod week;
pub mod text;
pub mod obj;
pub mod parser;
pub mod order;
pub mod saturating;
pub mod status;
pub mod ticket_store;
pub mod ticket_index;
pub mod vulkan;
pub mod scop;
