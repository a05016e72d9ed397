//! Extraction of technical metadata from media files through an external
//! analysis tool.
//!
//! The library decides; it never runs a process or touches a file. A service
//! turns a request into the command line to run, takes what the run gave, and
//! says what is to be shown or written and what the caller gets back. The
//! program around it runs the tool and performs the writes.

pub mod command_manager;
pub mod error;
pub mod model;
pub mod service;
