//! The `simctl install`, `uninstall`, `openurl` and `terminate` subcommands.
use vstd::prelude::*;

use crate::device::Device;
use crate::process::Invocation;

verus! {

impl Device {
    /// Returns the call `<name> <udid> <value>`.
    fn call_with(&self, name: &str, value: &str) -> (r: Invocation)
        ensures
            self.simctl.runs(r, seq![name@, self.info.udid@, value@]),
    {
        let mut inv = self.subcommand(name);
        inv.arg(value);
        proof {
            assert(inv.arg_texts() =~= seq![name@, self.info.udid@, value@]);
        }
        inv
    }

    /// Returns the call that installs the .app folder at `path` on this
    /// device. An installed version of the application has its app container
    /// replaced; its other containers stay as they are.
    pub fn install(&self, path: &str) -> (r: Invocation)
        ensures
            self.simctl.runs(r, seq!["install"@, self.info.udid@, path@]),
    {
        self.call_with("install", path)
    }

    /// Returns the call that removes the application with the bundle
    /// identifier `bundle_id` from this device.
    pub fn uninstall(&self, bundle_id: &str) -> (r: Invocation)
        ensures
            self.simctl.runs(r, seq!["uninstall"@, self.info.udid@, bundle_id@]),
    {
        self.call_with("uninstall", bundle_id)
    }

    /// Returns the call that opens `url` on this device.
    pub fn open_url(&self, url: &str) -> (r: Invocation)
        ensures
            self.simctl.runs(r, seq!["openurl"@, self.info.udid@, url@]),
    {
        self.call_with("openurl", url)
    }

    /// Returns the call that terminates the running application with the
    /// bundle identifier `bundle_id` on this device.
    pub fn terminate(&self, bundle_id: &str) -> (r: Invocation)
        ensures
            self.simctl.runs(r, seq!["terminate"@, self.info.udid@, bundle_id@]),
    {
        self.call_with("terminate", bundle_id)
    }
}

} // verus!
