//! Supporting types for the `simctl ui` subcommand.
use vstd::prelude::*;

use crate::device::Device;
use crate::error::{failure_of, Error, Result};
use crate::process::{Invocation, Output};
use crate::text::same_text;
use vstd::utf8::valid_utf8;

verus! {

/// Appearance mode of the user interface.
#[derive(Clone, Debug, PartialEq, Eq)]
pub enum Appearance {
    /// The light appearance (the default before iOS 13.0).
    Light,
    /// The dark appearance introduced in iOS 13.0.
    Dark,
    /// Any other answer, such as the one of a device that has no
    /// appearance modes (watchOS, tvOS).
    Custom(String),
}

impl Appearance {
    /// The token that `simctl` uses for this appearance.
    pub open spec fn token(self) -> Seq<char> {
        match self {
            Appearance::Light => "light"@,
            Appearance::Dark => "dark"@,
            Appearance::Custom(name) => name@,
        }
    }

    /// `self` is the appearance that `simctl` means by `name`.
    pub open spec fn is_named(self, name: Seq<char>) -> bool {
        if name == "light"@ {
            self == Appearance::Light
        } else if name == "dark"@ {
            self == Appearance::Dark
        } else {
            self matches Appearance::Custom(c) && c@ == name
        }
    }

    /// Reads an appearance token of `simctl`: `light` and `dark` name the two
    /// modes, and any other text is kept as [`Appearance::Custom`].
    pub fn from_name(name: &str) -> (r: Appearance)
        ensures
            r.is_named(name@),
    {
        if same_text(name, "light") {
            Appearance::Light
        } else if same_text(name, "dark") {
            Appearance::Dark
        } else {
            Appearance::Custom(name.to_owned())
        }
    }

    /// Returns the token that `simctl` takes for this appearance.
    pub fn name(&self) -> (r: &str)
        ensures
            r@ == self.token(),
    {
        match self {
            Appearance::Light => "light",
            Appearance::Dark => "dark",
            Appearance::Custom(name) => name.as_str(),
        }
    }
}

/// Reading the token of an appearance gives that appearance back, for every
/// appearance except a custom one whose text is `light` or `dark`, which
/// reads as the mode of that name.
pub proof fn lemma_appearance_round_trip(a: Appearance, b: Appearance)
    requires
        a matches Appearance::Custom(c) ==> c@ != "light"@ && c@ != "dark"@,
        b.is_named(a.token()),
    ensures
        a == Appearance::Light ==> b == Appearance::Light,
        a == Appearance::Dark ==> b == Appearance::Dark,
        a matches Appearance::Custom(c) ==> (b matches Appearance::Custom(d) && d@ == c@),
{
    reveal_strlit("light");
    reveal_strlit("dark");
    assert("light"@.len() == 5 && "dark"@.len() == 4);
}

/// Wrapper around the `simctl ui` subcommand.
pub struct UI {
    pub device: Device,
}

impl Device {
    /// Returns a wrapper around the `simctl ui` subcommand.
    pub fn ui(&self) -> (r: UI)
        ensures
            r.device == *self,
    {
        UI { device: self.clone() }
    }
}

impl UI {
    /// Returns the call that asks for the current appearance.
    pub fn appearance(&self) -> (r: Invocation)
        ensures
            self.device.simctl.runs(r, seq!["ui"@, self.device.info.udid@, "appearance"@]),
    {
        let mut inv = self.device.subcommand("ui");
        inv.arg("appearance");
        proof {
            assert(inv.arg_texts() =~= seq!["ui"@, self.device.info.udid@, "appearance"@]);
        }
        inv
    }

    /// Reads the appearance from the output of a [`UI::appearance`] call;
    /// a device without appearance modes answers with a
    /// [`Appearance::Custom`].
    pub fn read_appearance(output: Output) -> (r: Result<Appearance>)
        ensures
            !output.status.is_success() ==> r == Err::<Appearance, Error>(failure_of(output)),
            output.status.is_success() && !valid_utf8(output.stdout@) ==> r matches Err(
                Error::Utf8(_),
            ),
            output.status.is_success() && valid_utf8(output.stdout@) ==> (r matches Ok(a)
                && a.is_named(output.trimmed_stdout())),
    {
        let text = output.into_trimmed_text()?;
        Ok(Appearance::from_name(text.as_str()))
    }

    /// Returns the call that sets the appearance.
    pub fn set_appearance(&self, appearance: Appearance) -> (r: Invocation)
        ensures
            self.device.simctl.runs(
                r,
                seq!["ui"@, self.device.info.udid@, "appearance"@, appearance.token()],
            ),
    {
        let mut inv = self.device.subcommand("ui");
        inv.arg("appearance");
        inv.arg(appearance.name());
        proof {
            assert(inv.arg_texts() =~= seq![
                "ui"@,
                self.device.info.udid@,
                "appearance"@,
                appearance.token(),
            ]);
        }
        inv
    }
}

} // verus!
