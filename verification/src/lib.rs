//! Core of a fleet manager for network-attached embedded devices.
//!
//! The crate holds the decisions of the tool and proves them: what a
//! discovery window yields, how the registry of adopted devices changes, how
//! a firmware image names its version, and what a device's answer means for
//! the registry.  Sockets, files, prompts and rendering are left to the
//! program that links the crate.

pub mod candidate;
pub mod cli;
pub mod config;
pub mod device;
pub mod image;
pub mod member;
pub mod node;
pub mod text;
pub mod time;
pub mod ui;
pub mod update;
