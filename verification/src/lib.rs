//! A minimal real-time rendering harness: the host supplies a per-frame
//! shape description, and the harness drives a fixed-rate render loop that
//! hands each frame's flattened encoding to a single full-screen GPU pass.
//!
//! This crate holds the harness's decision core: the window/scheduler
//! configuration and its builder, the frame-scheduler timing arithmetic,
//! the default event policy that terminates the loop, the per-event dispatch
//! step of the run loop, and the length invariant of the shape-to-texture
//! encoding. The windowing system, the GPU pipeline and the shape model are
//! outside collaborators; the code that talks to them lives with the host.

pub mod config;
pub mod encoding;
pub mod events;
pub mod scheduler;
pub mod timing;

pub use config::AppConfig;
