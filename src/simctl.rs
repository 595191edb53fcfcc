//! The root of the interface: where `simctl` is installed, and how a call of
//! one of its subcommands is formed.
use vstd::prelude::*;

use crate::process::{Invocation, Stream};
use crate::text::{join_path, path_join};

verus! {

/// Developer directory of an Xcode installation at its usual place.
pub const DEFAULT_DEVELOPER_DIR: &'static str = "/Applications/Xcode.app/Contents/Developer";

/// Location of `simctl` below a developer directory.
pub const SIMCTL_PATH: &'static str = "usr/bin/simctl";

/// The `simctl` of one Xcode installation.
#[derive(Debug)]
pub struct Simctl {
    /// The installation's developer directory (`<Xcode>.app/Contents/Developer`).
    pub developer_dir: String,
}

impl Clone for Simctl {
    fn clone(&self) -> (r: Simctl)
        ensures
            r == *self,
    {
        Simctl { developer_dir: self.developer_dir.clone() }
    }
}

impl Simctl {
    /// Path of the `simctl` program of this installation.
    pub open spec fn program(self) -> Seq<char> {
        path_join(self.developer_dir@, SIMCTL_PATH@)
    }

    /// `inv` runs `simctl` with the arguments `args`, no added environment,
    /// nothing on its standard input, and both output streams captured.
    pub open spec fn runs(self, inv: Invocation, args: Seq<Seq<char>>) -> bool {
        &&& inv.program@ == self.program()
        &&& inv.arg_texts() == args
        &&& inv.envs@.len() == 0
        &&& inv.stdin is None
        &&& inv.stdout == Stream::Piped
        &&& inv.stderr == Stream::Piped
    }

    /// Returns the `simctl` of the installation whose developer directory is
    /// `developer_dir` (the value of `DEVELOPER_DIR`, where it is set), or of
    /// the installation at the usual place.
    pub fn new(developer_dir: Option<&str>) -> (r: Simctl)
        ensures
            r.developer_dir@ == match developer_dir {
                Some(dir) => dir@,
                None => DEFAULT_DEVELOPER_DIR@,
            },
    {
        match developer_dir {
            Some(dir) => Simctl::with_developer_dir(dir),
            None => Simctl::with_developer_dir(DEFAULT_DEVELOPER_DIR),
        }
    }

    /// Returns the `simctl` of the installation with the given developer
    /// directory. Use this where Xcode is not installed at the usual place, or
    /// to pick one of several installations (e.g. stable and beta).
    pub fn with_developer_dir(path: &str) -> (r: Simctl)
        ensures
            r.developer_dir@ == path@,
    {
        Simctl { developer_dir: path.to_owned() }
    }

    /// Returns the `simctl` of the Xcode application bundle at `path`.
    pub fn with_xcode(path: &str) -> (r: Simctl)
        ensures
            r.developer_dir@ == path_join(path@, "Contents/Developer"@),
    {
        let dir = join_path(path, "Contents/Developer");
        Simctl::with_developer_dir(dir.as_str())
    }

    /// Returns a call of `simctl` with the subcommand `name`, both output
    /// streams captured.
    pub fn command(&self, name: &str) -> (r: Invocation)
        ensures
            self.runs(r, seq![name@]),
    {
        let program = join_path(self.developer_dir.as_str(), SIMCTL_PATH);
        let mut inv = Invocation::new(program);
        inv.stdout = Stream::Piped;
        inv.stderr = Stream::Piped;
        inv.arg(name);
        proof {
            assert(inv.arg_texts() =~= seq![name@]);
        }
        inv
    }

    /// Path of the Simulator application of this installation.
    pub open spec fn simulator_app(self) -> Seq<char> {
        path_join(path_join(self.developer_dir@, "Applications"@), "Simulator.app"@)
    }

    /// Returns the call that opens the Simulator application of this
    /// installation, with its output discarded.
    pub fn open(&self) -> (r: Invocation)
        ensures
            r.program@ == "open"@,
            r.arg_texts() == seq![self.simulator_app()],
            r.envs@.len() == 0,
            r.stdin is None,
            r.stdout == Stream::Null,
            r.stderr == Stream::Null,
    {
        let apps = join_path(self.developer_dir.as_str(), "Applications");
        let app = join_path(apps.as_str(), "Simulator.app");
        let mut inv = Invocation::new("open".to_owned());
        inv.stdout = Stream::Null;
        inv.stderr = Stream::Null;
        inv.arg(app.as_str());
        proof {
            assert(inv.arg_texts() =~= seq![self.simulator_app()]);
        }
        inv
    }
}

} // verus!
