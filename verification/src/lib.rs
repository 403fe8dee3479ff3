//! A verified core for a dual-GPU laptop mode-switching daemon.
//!
//! The library decides everything: which mode the on-disk artifacts denote,
//! the exact contents of the daemon-owned configuration files, and the
//! ordered sequence of privileged actions a mode transition must perform.
//! A thin unverified runner performs the file, kernel-module and service
//! operations that the engine asks for and feeds the outcomes back in.

pub mod config;
pub mod controller;
pub mod laws;
pub mod machine;
pub mod mode;
pub mod modules;
pub mod snapshot;
pub mod text;

pub use mode::GfxError;
pub use mode::GpuMode;
