//! The actors behind the socket: Control ingests artifacts into Scene Memory,
//! Presence owns the live presences.

pub mod control;
pub mod gpu_layout;
pub mod ingress;
pub mod presence;
pub mod scene_memory;
pub mod splat_io;

pub use control::ControlActor;
pub use presence::PresenceActor;
pub use scene_memory::SceneMemory;
