//! Verified core of a small desktop game launcher.
//!
//! The heart of the crate is a fetch-and-install pipeline: an archive is
//! streamed from a remote URL to disk while a progress value is kept up to
//! date, then unpacked into a destination directory.  The surrounding
//! application performs the actual network and filesystem work and drives
//! the verified state machines in this crate, which own every decision:
//! progress accounting, response classification, entry-path containment,
//! and error propagation.

pub mod feedback;
pub mod file_management;
pub mod pipeline;
pub mod product;
pub mod progress;
pub mod transfer;
pub mod unpack;
pub mod zipio;
