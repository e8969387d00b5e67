//! Surface and frame lifecycle management for a single-window GPU application.
//!
//! The crate holds the decisions of the application shell as verified, pure
//! code: how a window size becomes a surface configuration, which pipeline is
//! built for a surface, and which commands each window event gives rise to.
//! A platform layer performs the commands against the real window system and
//! graphics backend.

pub mod backend;
pub mod command;
pub mod context;
pub mod controller;
pub mod geometry;
pub mod laws;
pub mod pipeline;
pub mod surface;
