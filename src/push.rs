//! Supporting types for the `simctl push` subcommand.
use vstd::prelude::*;

use crate::device::Device;
use crate::process::{Invocation, Stream};

verus! {

/// Alert of a push notification, as it is presented to the user.
#[derive(Clone, Debug, Default)]
pub struct PushAlert {
    /// Title shown to the user.
    pub title: Option<String>,
    /// Subtitle shown to the user.
    pub subtitle: Option<String>,
    /// Body shown to the user.
    pub body: Option<String>,
    /// Path of an image in the application bundle that is shown while the
    /// application launches from the notification.
    pub launch_image: Option<String>,
    /// Key of a localised string used as the title.
    pub title_loc_key: Option<String>,
    /// Arguments for the `%@` placeholders of the localised title.
    pub title_loc_args: Option<Vec<String>>,
    /// Key of a localised string used as the subtitle.
    pub subtitle_loc_key: Option<String>,
    /// Arguments for the `%@` placeholders of the localised subtitle.
    pub subtitle_loc_args: Option<Vec<String>>,
    /// Key of a localised string used as the body.
    pub loc_key: Option<String>,
    /// Arguments for the `%@` placeholders of the localised body.
    pub loc_args: Option<Vec<String>>,
}

impl Device {
    /// Returns the call that sends the push notification `payload` (its
    /// JSON encoding) to the application with the bundle identifier
    /// `bundle_id` on this device. The payload is written to the standard
    /// input of `simctl`.
    pub fn push(&self, bundle_id: &str, payload: Vec<u8>) -> (r: Invocation)
        ensures
            r.program@ == self.simctl.program(),
            r.arg_texts() == seq!["push"@, self.info.udid@, bundle_id@, "-"@],
            r.envs@.len() == 0,
            r.stdin == Some(payload),
            r.stdout == Stream::Piped,
            r.stderr == Stream::Piped,
    {
        let mut inv = self.subcommand("push");
        inv.arg(bundle_id);
        inv.arg("-");
        inv.stdin = Some(payload);
        proof {
            assert(inv.arg_texts() =~= seq!["push"@, self.info.udid@, bundle_id@, "-"@]);
        }
        inv
    }
}

} // verus!
