//! Command-line selections for the builder. Parsing the process
//! arguments happens outside this crate; the parsed selections and
//! what they mean live here.

use vstd::prelude::*;
use crate::builder::BuildProfile;
use crate::builder::Target;

verus! {

/// What the builder is asked to do.
#[derive(Debug, Clone, Copy, PartialEq, Eq, Structural)]
pub enum Command {
    Build,
    Run,
}

/// The parsed command-line selections.
#[derive(Debug, Clone, Copy, PartialEq, Eq, Structural)]
pub struct Args {
    pub target: Target,
    pub release: bool,
    pub command: Command,
}

impl Args {
    pub fn new(target: Target, release: bool, command: Command) -> (a: Args)
        ensures
            a == (Args { target, release, command }),
    {
        Args { target, release, command }
    }

    /// The selected target.
    pub fn target(&self) -> (t: Target)
        ensures
            t == self.target,
    {
        self.target
    }

    /// The build profile the release flag selects.
    pub fn profile(&self) -> (p: BuildProfile)
        ensures
            p == if self.release {
                BuildProfile::Release
            } else {
                BuildProfile::Debug
            },
    {
        if self.release {
            BuildProfile::Release
        } else {
            BuildProfile::Debug
        }
    }

    /// The selected command.
    pub fn command(&self) -> (c: &Command)
        ensures
            *c == self.command,
    {
        &self.command
    }
}

} // verus!
