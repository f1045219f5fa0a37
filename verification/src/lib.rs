//! A launcher's logic for one containerized program: validation of its
//! configuration, the text of the container build script made from it, and
//! the order of the steps that build the image and start the container.
//!
//! The library reads and writes nothing. Its caller reads the configuration,
//! carries out the steps, and reports how each one ended.

pub mod config;
pub mod error;
pub mod launch;
pub mod location;
pub mod script;
