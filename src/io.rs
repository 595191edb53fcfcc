//! Supporting types for the `simctl io` subcommand.
use vstd::prelude::*;

use crate::device::Device;
use crate::error::{failure_of, Error, Result};
use crate::process::{Invocation, Output};
use crate::text::prefixed;

verus! {

/// Distinguishes the displays of devices that have several.
#[derive(Clone, Copy, Debug, PartialEq, Eq, Structural)]
pub enum Display {
    /// The display built into the hardware (iOS and watchOS).
    Internal,
    /// A connected display; the only one of tvOS.
    External,
}

impl Display {
    /// The token that `simctl` takes for this display.
    pub open spec fn token(self) -> Seq<char> {
        match self {
            Display::Internal => "internal"@,
            Display::External => "external"@,
        }
    }

    fn token_text(&self) -> (r: &'static str)
        ensures
            r@ == self.token(),
    {
        match self {
            Display::Internal => "internal",
            Display::External => "external",
        }
    }
}

/// Masking of a screenshot on devices with rounded corners or a notch.
#[derive(Clone, Copy, Debug, PartialEq, Eq, Structural)]
pub enum Mask {
    /// The frame buffer as it is, without a mask.
    Ignored,
    /// Outside the mask the image is transparent.
    Alpha,
    /// Outside the mask the image is black.
    Black,
}

impl Mask {
    /// The token that `simctl` takes for this mask.
    pub open spec fn token(self) -> Seq<char> {
        match self {
            Mask::Ignored => "ignored"@,
            Mask::Alpha => "alpha"@,
            Mask::Black => "black"@,
        }
    }

    fn token_text(&self) -> (r: &'static str)
        ensures
            r@ == self.token(),
    {
        match self {
            Mask::Ignored => "ignored",
            Mask::Alpha => "alpha",
            Mask::Black => "black",
        }
    }
}

/// Encoding of a screenshot.
#[derive(Clone, Copy, Debug, PartialEq, Eq, Structural)]
pub enum ImageType {
    /// PNG.
    Png,
    /// TIFF.
    Tiff,
    /// BMP.
    Bmp,
    /// GIF.
    Gif,
    /// JPEG.
    Jpeg,
}

impl ImageType {
    /// The token that `simctl` takes for this encoding.
    pub open spec fn token(self) -> Seq<char> {
        match self {
            ImageType::Png => "png"@,
            ImageType::Tiff => "tiff"@,
            ImageType::Bmp => "bmp"@,
            ImageType::Gif => "gif"@,
            ImageType::Jpeg => "jpeg"@,
        }
    }

    fn token_text(&self) -> (r: &'static str)
        ensures
            r@ == self.token(),
    {
        match self {
            ImageType::Png => "png",
            ImageType::Tiff => "tiff",
            ImageType::Bmp => "bmp",
            ImageType::Gif => "gif",
            ImageType::Jpeg => "jpeg",
        }
    }
}

/// Wrapper around the `simctl io` subcommand.
pub struct IO {
    pub device: Device,
}

impl Device {
    /// Returns a wrapper around the `simctl io` subcommand.
    pub fn io(&self) -> (r: IO)
        ensures
            r.device == *self,
    {
        IO { device: self.clone() }
    }
}

impl IO {
    /// Returns the call that takes a screenshot of `display`, masked with
    /// `mask`, and writes it encoded as `image_type` to the standard output.
    pub fn screenshot(&self, image_type: ImageType, display: Display, mask: Mask) -> (r: Invocation)
        ensures
            self.device.simctl.runs(
                r,
                seq![
                    "io"@,
                    self.device.info.udid@,
                    "screenshot"@,
                    "--type="@ + image_type.token(),
                    "--display="@ + display.token(),
                    "--mask="@ + mask.token(),
                    "-"@,
                ],
            ),
    {
        let mut inv = self.device.subcommand("io");
        inv.arg("screenshot");
        let t = prefixed("--type=", image_type.token_text());
        inv.arg(t.as_str());
        let d = prefixed("--display=", display.token_text());
        inv.arg(d.as_str());
        let m = prefixed("--mask=", mask.token_text());
        inv.arg(m.as_str());
        inv.arg("-");
        proof {
            assert(inv.arg_texts() =~= seq![
                "io"@,
                self.device.info.udid@,
                "screenshot"@,
                "--type="@ + image_type.token(),
                "--display="@ + display.token(),
                "--mask="@ + mask.token(),
                "-"@,
            ]);
        }
        inv
    }

    /// Reads the image from the output of a [`IO::screenshot`] call: the
    /// bytes written to the standard output, where the call succeeded.
    pub fn read_screenshot(output: Output) -> (r: Result<Vec<u8>>)
        ensures
            output.status.is_success() ==> r == Ok::<Vec<u8>, Error>(output.stdout),
            !output.status.is_success() ==> r == Err::<Vec<u8>, Error>(failure_of(output)),
    {
        let output = output.validate_with_output()?;
        Ok(output.stdout)
    }
}

} // verus!
