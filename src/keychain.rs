//! Supporting types for the `simctl keychain` subcommand.
use vstd::prelude::*;

use crate::device::Device;
use crate::process::Invocation;

verus! {

/// Wrapper around the `simctl keychain` subcommand.
pub struct Keychain {
    pub device: Device,
}

impl Device {
    /// Returns a wrapper around the `simctl keychain` subcommand.
    pub fn keychain(&self) -> (r: Keychain)
        ensures
            r.device == *self,
    {
        Keychain { device: self.clone() }
    }
}

impl Keychain {
    /// Returns the call that resets the device's keychain.
    pub fn reset(&self) -> (r: Invocation)
        ensures
            self.device.simctl.runs(r, seq!["keychain"@, self.device.info.udid@, "reset"@]),
    {
        let mut inv = self.device.subcommand("keychain");
        inv.arg("reset");
        proof {
            assert(inv.arg_texts() =~= seq!["keychain"@, self.device.info.udid@, "reset"@]);
        }
        inv
    }
}

} // verus!
