//! Supporting types for the `simctl privacy` subcommand.
use vstd::prelude::*;

use crate::device::Device;
use crate::process::Invocation;

verus! {

/// A service that an application needs permission to use.
#[derive(Clone, Copy, Debug, PartialEq, Eq, Structural)]
pub enum PrivacyService {
    /// Every service.
    All,
    /// The user's calendar.
    Calendar,
    /// Limited access to the user's contacts.
    ContactsLimited,
    /// The user's contacts.
    Contacts,
    /// The user's location while the application is active.
    Location,
    /// The user's location, also while the application is in the background.
    LocationAlways,
    /// Adding photos to the user's photo library.
    PhotosAdd,
    /// Reading photos from the user's photo library.
    Photos,
    /// The user's media library (music and videos).
    MediaLibrary,
    /// The microphone (most likely the one of the Mac running the simulator).
    Microphone,
    /// The motion sensors.
    Motion,
    /// The user's reminders.
    Reminders,
    /// Siri.
    Siri,
}

impl PrivacyService {
    /// The token that `simctl` takes for this service.
    pub open spec fn token(self) -> Seq<char> {
        match self {
            PrivacyService::All => "all"@,
            PrivacyService::Calendar => "calendar"@,
            PrivacyService::ContactsLimited => "contacts-limited"@,
            PrivacyService::Contacts => "contacts"@,
            PrivacyService::Location => "location"@,
            PrivacyService::LocationAlways => "location-always"@,
            PrivacyService::PhotosAdd => "photos-add"@,
            PrivacyService::Photos => "photos"@,
            PrivacyService::MediaLibrary => "media-library"@,
            PrivacyService::Microphone => "microphone"@,
            PrivacyService::Motion => "motion"@,
            PrivacyService::Reminders => "reminders"@,
            PrivacyService::Siri => "siri"@,
        }
    }

    /// Returns the token that `simctl` takes for this service.
    pub fn to_string(&self) -> (r: String)
        ensures
            r@ == self.token(),
    {
        match self {
            PrivacyService::All => "all",
            PrivacyService::Calendar => "calendar",
            PrivacyService::ContactsLimited => "contacts-limited",
            PrivacyService::Contacts => "contacts",
            PrivacyService::Location => "location",
            PrivacyService::LocationAlways => "location-always",
            PrivacyService::PhotosAdd => "photos-add",
            PrivacyService::Photos => "photos",
            PrivacyService::MediaLibrary => "media-library",
            PrivacyService::Microphone => "microphone",
            PrivacyService::Motion => "motion",
            PrivacyService::Reminders => "reminders",
            PrivacyService::Siri => "siri",
        }.to_owned()
    }
}

/// Wrapper around the `simctl privacy` subcommand.
pub struct Privacy {
    pub device: Device,
}

impl Device {
    /// Returns a wrapper around the `simctl privacy` subcommand.
    pub fn privacy(&self) -> (r: Privacy)
        ensures
            r.device == *self,
    {
        Privacy { device: self.clone() }
    }
}

impl Privacy {
    /// Returns the call `privacy <udid> <action> <service> [<bundle_id>]`.
    fn call(&self, action: &str, service: PrivacyService, bundle_id: Option<&str>) -> (r: Invocation)
        ensures
            self.device.simctl.runs(
                r,
                seq!["privacy"@, self.device.info.udid@, action@, service.token()] + match bundle_id {
                    Some(b) => seq![b@],
                    None => Seq::empty(),
                },
            ),
    {
        let mut inv = self.device.subcommand("privacy");
        inv.arg(action);
        let name = service.to_string();
        inv.arg(name.as_str());
        if let Some(b) = bundle_id {
            inv.arg(b);
        }
        proof {
            assert(inv.arg_texts() =~= seq!["privacy"@, self.device.info.udid@, action@, service.token()]
                + match bundle_id {
                Some(b) => seq![b@],
                None => Seq::empty(),
            });
        }
        inv
    }

    /// Returns the call that grants the application with the bundle
    /// identifier `bundle_id` access to `service`.
    pub fn grant(&self, service: PrivacyService, bundle_id: &str) -> (r: Invocation)
        ensures
            self.device.simctl.runs(
                r,
                seq!["privacy"@, self.device.info.udid@, "grant"@, service.token(), bundle_id@],
            ),
    {
        let r = self.call("grant", service, Some(bundle_id));
        proof {
            assert(r.arg_texts() =~= seq![
                "privacy"@,
                self.device.info.udid@,
                "grant"@,
                service.token(),
                bundle_id@,
            ]);
        }
        r
    }

    /// Returns the call that revokes the access of the application with the
    /// bundle identifier `bundle_id` to `service`.
    pub fn revoke(&self, service: PrivacyService, bundle_id: &str) -> (r: Invocation)
        ensures
            self.device.simctl.runs(
                r,
                seq!["privacy"@, self.device.info.udid@, "revoke"@, service.token(), bundle_id@],
            ),
    {
        let r = self.call("revoke", service, Some(bundle_id));
        proof {
            assert(r.arg_texts() =~= seq![
                "privacy"@,
                self.device.info.udid@,
                "revoke"@,
                service.token(),
                bundle_id@,
            ]);
        }
        r
    }

    /// Returns the call that resets the access of the application with the
    /// bundle identifier `bundle_id` to `service`, so that the system asks
    /// again the next time it requests it.
    pub fn reset(&self, service: PrivacyService, bundle_id: &str) -> (r: Invocation)
        ensures
            self.device.simctl.runs(
                r,
                seq!["privacy"@, self.device.info.udid@, "reset"@, service.token(), bundle_id@],
            ),
    {
        let r = self.call("reset", service, Some(bundle_id));
        proof {
            assert(r.arg_texts() =~= seq![
                "privacy"@,
                self.device.info.udid@,
                "reset"@,
                service.token(),
                bundle_id@,
            ]);
        }
        r
    }

    /// Returns the call that resets the access of every application on the
    /// device to `service`.
    pub fn reset_all(&self, service: PrivacyService) -> (r: Invocation)
        ensures
            self.device.simctl.runs(
                r,
                seq!["privacy"@, self.device.info.udid@, "reset"@, service.token()],
            ),
    {
        let r = self.call("reset", service, None);
        proof {
            assert(r.arg_texts() =~= seq![
                "privacy"@,
                self.device.info.udid@,
                "reset"@,
                service.token(),
            ]);
        }
        r
    }
}

} // verus!
