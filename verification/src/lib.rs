//! An incremental build engine for collections of C sources.
//!
//! The engine decides what has to be compiled and linked and how the
//! toolchain is called for it; running the toolchain and looking at the
//! file system is left to the caller, who is told what to do step by step.
//!
//! - [`gcc`]: the description of one toolchain invocation and its builder.
//! - [`deps`]: the dependency scanner.
//! - [`stale`]: the staleness oracle.
//! - [`sources`]: the sources and header directories of a target, and the
//!   plans that follow from them.
//! - [`target`]: the build of one target, as a state machine.
//! - [`trace`]: what holds of every run of that machine.
//! - [`project`]: the build of a whole project.
//! - [`config`], [`args`]: the project description and the command line.
//! - [`error`], [`path`], [`text`]: failures, paths and text.

pub mod args;
pub mod config;
pub mod deps;
pub mod error;
pub mod gcc;
pub mod path;
pub mod project;
pub mod sources;
pub mod stale;
pub mod target;
pub mod text;
pub mod trace;
