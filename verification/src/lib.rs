//! Policy logic of a BPF-LSM containment system for agent processes:
//! the shared kernel/user record types, policy compilation and matching,
//! the in-kernel enforcement decisions, process labels with generation
//! stamps, and the structured violation feedback.

pub mod common;
pub mod text;
pub mod bytes;
pub mod glob;
pub mod policy;
pub mod enforcement;
pub mod labels;
pub mod feedback;
pub mod events;
pub mod config;
pub mod preflight;
pub mod cli;
pub mod laws;
