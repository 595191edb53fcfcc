//! The `simctl boot` and `simctl shutdown` subcommands.
use vstd::prelude::*;

use crate::device::Device;
use crate::launch::{child_env, child_env_name};
use crate::process::{Invocation, Stream};

verus! {

/// Each variable under the name by which it reaches processes on the
/// device, with its value.
pub open spec fn child_envs(envs: Seq<(&str, &str)>) -> Seq<(Seq<char>, Seq<char>)> {
    envs.map_values(|e: (&str, &str)| (child_env_name(e.0@), e.1@))
}

impl Device {
    /// Returns the call that boots this device. `simctl` fails where the
    /// device is booted already. This does not open the Simulator
    /// application: see [`crate::Simctl::open`].
    pub fn boot(&self) -> (r: Invocation)
        ensures
            self.simctl.runs(r, seq!["boot"@, self.info.udid@]),
    {
        self.subcommand("boot")
    }

    /// Returns the call that boots this device with the variables `envs`
    /// in the environment of its processes. Give their names without the
    /// prefix that `simctl` expects: it is added here.
    pub fn boot_with_env(&self, envs: Vec<(&str, &str)>) -> (r: Invocation)
        ensures
            r.program@ == self.simctl.program(),
            r.arg_texts() == seq!["boot"@, self.info.udid@],
            r.env_texts() == child_envs(envs@),
            r.stdin is None,
            r.stdout == Stream::Piped,
            r.stderr == Stream::Piped,
    {
        let mut inv = self.subcommand("boot");
        let mut i: usize = 0;
        while i < envs.len()
            invariant
                i <= envs@.len(),
                inv.program@ == self.simctl.program(),
                inv.arg_texts() == seq!["boot"@, self.info.udid@],
                inv.env_texts() == child_envs(envs@.take(i as int)),
                inv.stdin is None,
                inv.stdout == Stream::Piped,
                inv.stderr == Stream::Piped,
            decreases envs@.len() - i,
        {
            let (name, value) = envs[i];
            inv.env(child_env(name), value.to_owned());
            proof {
                assert(child_envs(envs@.take(i + 1)) =~= child_envs(envs@.take(i as int)).push(
                    (child_env_name(name@), value@),
                ));
            }
            i += 1;
        }
        proof {
            assert(envs@.take(envs@.len() as int) =~= envs@);
        }
        inv
    }

    /// Returns the call that shuts this device down. `simctl` fails where
    /// the device is not booted.
    pub fn shutdown(&self) -> (r: Invocation)
        ensures
            self.simctl.runs(r, seq!["shutdown"@, self.info.udid@]),
    {
        self.subcommand("shutdown")
    }
}

} // verus!
