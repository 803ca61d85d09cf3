//! Verified core of a converter that turns a Rust smart-contract project into
//! an SBF program: path handling, project classification, the decisions that
//! drive the build and the toolchain set-up, and the shape of the results that
//! are reported back to the user interface.

pub mod text;
pub mod path;
pub mod digest;
pub mod preview;
pub mod toolchain;
pub mod converter;
