//! Supporting types for the `simctl get_app_container` subcommand.
use vstd::prelude::*;

use crate::device::Device;
use crate::error::{failure_of, Error, Result};
use crate::process::{Invocation, Output};
use vstd::utf8::valid_utf8;

verus! {

/// A container in which iOS keeps one kind of data of an application.
#[derive(Clone, Debug, PartialEq, Eq)]
pub enum Container {
    /// The .app bundle itself; the application cannot write to it.
    App,
    /// The directory that the application reads and writes.
    Data,
    /// The directory that the application shares with the other applications
    /// of the named group (of the same developer).
    Group(String),
}

impl Container {
    /// The token that `simctl` takes for this container.
    pub open spec fn token(self) -> Seq<char> {
        match self {
            Container::App => "app"@,
            Container::Data => "data"@,
            Container::Group(group) => group@,
        }
    }
}

impl Device {
    /// Returns the call that finds the container `container` of the
    /// application with the bundle identifier `bundle_id`.
    pub fn get_app_container(&self, bundle_id: &str, container: &Container) -> (r: Invocation)
        ensures
            self.simctl.runs(
                r,
                seq!["get_app_container"@, self.info.udid@, bundle_id@, container.token()],
            ),
    {
        let mut inv = self.subcommand("get_app_container");
        inv.arg(bundle_id);
        match container {
            Container::App => inv.arg("app"),
            Container::Data => inv.arg("data"),
            Container::Group(group) => inv.arg(group.as_str()),
        }
        proof {
            assert(inv.arg_texts() =~= seq![
                "get_app_container"@,
                self.info.udid@,
                bundle_id@,
                container.token(),
            ]);
        }
        inv
    }

    /// Reads the path of the container from the output of a
    /// [`Device::get_app_container`] call.
    pub fn read_app_container(output: Output) -> (r: Result<String>)
        ensures
            !output.status.is_success() ==> r == Err::<String, Error>(failure_of(output)),
            output.status.is_success() && !valid_utf8(output.stdout@) ==> r matches Err(
                Error::Utf8(_),
            ),
            output.status.is_success() && valid_utf8(output.stdout@) ==> (r matches Ok(p) && p@
                == output.trimmed_stdout()),
    {
        output.into_trimmed_text()
    }
}

} // verus!
