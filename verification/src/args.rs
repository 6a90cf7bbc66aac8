//! What the command line asks for.

use vstd::prelude::*;

verus! {

/// The command line as a whole.
#[derive(Debug)]
pub struct Args {
    /// Whether help was asked for.
    pub help: bool,
    /// Whether the version was asked for.
    pub version: bool,
    /// The command, if one was given.
    pub command: Option<Command>,
}

/// The command to carry out.
#[derive(Debug)]
pub enum Command {
    /// Build the project.
    Build(BuildArgs),
    /// Set up a new project.
    Init(InitArgs),
}

/// What a build is told.
#[derive(Debug)]
pub struct BuildArgs {
    /// Whether help was asked for.
    pub help: bool,
    /// The file that describes the project.
    pub config_file: String,
}

/// What the set-up of a project is told.
#[derive(Debug)]
pub struct InitArgs {
    /// The directory of the new project.
    pub dir: String,
}

impl Default for BuildArgs {
    fn default() -> (r: BuildArgs)
        ensures
            !r.help,
            r.config_file@.len() == 0,
    {
        BuildArgs { help: false, config_file: String::new() }
    }
}

impl Default for InitArgs {
    fn default() -> (r: InitArgs)
        ensures
            r.dir@.len() == 0,
    {
        InitArgs { dir: String::new() }
    }
}

} // verus!
