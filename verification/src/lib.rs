//! Runtime data model for visual post-processing filters attached to
//! renderable content: the tagged filter representation, the capability
//! contract for script-owned shader objects, and the lossless conversion
//! from an authored wire-format filter descriptor into the runtime form.
//!
//! Bitmap and shader payloads live in external registries and are referenced
//! only by opaque handles; this crate neither allocates nor interprets them.

pub mod color_matrix;
pub mod descriptors;
pub mod displacement;
pub mod filter;
pub mod shader;
pub mod types;
