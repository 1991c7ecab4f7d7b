//! Resolve, select and install one executable artifact from a release feed.

pub mod archive;
pub mod dl;
pub mod ghapi;
pub mod install;
pub mod opt;
pub mod platform;
pub mod sysinfo;
pub mod text;
pub mod ui;

pub use crate::platform::{is_compatible, take_triple};
