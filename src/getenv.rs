//! The `simctl getenv` subcommand.
use vstd::prelude::*;

use crate::device::Device;
use crate::error::{failure_of, Error, Result};
use crate::process::{Invocation, Output};
use vstd::utf8::valid_utf8;

verus! {

impl Device {
    /// Returns the call that reads the variable `name` of the device's
    /// environment. Give the name without the prefix that `simctl` uses for
    /// variables passed at boot or launch.
    pub fn getenv(&self, name: &str) -> (r: Invocation)
        ensures
            self.simctl.runs(r, seq!["getenv"@, self.info.udid@, name@]),
    {
        let mut inv = self.subcommand("getenv");
        inv.arg(name);
        proof {
            assert(inv.arg_texts() =~= seq!["getenv"@, self.info.udid@, name@]);
        }
        inv
    }

    /// Reads the value of the variable from the output of a
    /// [`Device::getenv`] call. A variable that is not set has the empty
    /// value: `simctl` succeeds and writes nothing.
    pub fn read_env(output: Output) -> (r: Result<String>)
        ensures
            !output.status.is_success() ==> r == Err::<String, Error>(failure_of(output)),
            output.status.is_success() && !valid_utf8(output.stdout@) ==> r matches Err(
                Error::Utf8(_),
            ),
            output.status.is_success() && valid_utf8(output.stdout@) ==> (r matches Ok(v) && v@
                == output.trimmed_stdout()),
            output.status.is_success() && output.stdout@.len() == 0 ==> (r matches Ok(v) && v@.len()
                == 0),
    {
        output.into_trimmed_text()
    }
}

} // verus!
