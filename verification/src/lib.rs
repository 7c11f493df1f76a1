//! The presence daemon's logic: the wire protocol, the actor registry, the
//! splat formats, the GPU byte layouts, and every decision the capture,
//! overlay and Vulkan layers take. I/O lives outside this crate; values come
//! in plain and go out plain.

pub mod actors;
pub mod bytes;
pub mod named_map;
pub mod overlay;
pub mod pipeline;
pub mod protocol;
pub mod registry;
pub mod single;
pub mod socket;
pub mod text;
pub mod vulkan;
