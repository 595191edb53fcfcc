//! Supporting types for the `simctl list` subcommand.
use vstd::prelude::*;

use crate::device::Device;
use crate::process::Invocation;
use crate::simctl::Simctl;
use crate::text::same_text;

verus! {

/// Indicates the state of a device.
#[derive(Clone, Copy, Debug, PartialEq, Eq, Structural)]
pub enum DeviceState {
    /// Indicates that the device is booted.
    Booted,
    /// Indicates that the device is shut down.
    Shutdown,
    /// Indicates that the device is in a state that this library does not
    /// recognise.
    Unknown,
}

impl DeviceState {
    /// The token that `simctl` writes for a known state.
    pub open spec fn token(self) -> Seq<char> {
        match self {
            DeviceState::Booted => "Booted"@,
            DeviceState::Shutdown => "Shutdown"@,
            DeviceState::Unknown => Seq::empty(),
        }
    }

    /// The state that `simctl` means by the token `name`.
    pub open spec fn named(name: Seq<char>) -> DeviceState {
        if name == "Booted"@ {
            DeviceState::Booted
        } else if name == "Shutdown"@ {
            DeviceState::Shutdown
        } else {
            DeviceState::Unknown
        }
    }

    /// Reads a state token of `simctl`; a token that it does not know gives
    /// [`DeviceState::Unknown`].
    pub fn from_name(name: &str) -> (r: DeviceState)
        ensures
            r == DeviceState::named(name@),
    {
        if same_text(name, "Booted") {
            DeviceState::Booted
        } else if same_text(name, "Shutdown") {
            DeviceState::Shutdown
        } else {
            DeviceState::Unknown
        }
    }
}

/// Indicates the state of a pair of devices.
#[derive(Clone, Copy, Debug, PartialEq, Eq, Structural)]
pub enum DevicePairState {
    /// The pair is unavailable because one of its devices is.
    Unavailable,
    /// The pair is active but not connected.
    ActiveDisconnected,
    /// The pair is in a state that this library does not recognise.
    Unknown,
}

impl DevicePairState {
    /// The token that `simctl` writes for a known pair state.
    pub open spec fn token(self) -> Seq<char> {
        match self {
            DevicePairState::Unavailable => "(unavailable)"@,
            DevicePairState::ActiveDisconnected => "(active, disconnected)"@,
            DevicePairState::Unknown => Seq::empty(),
        }
    }

    /// The pair state that `simctl` means by the token `name`.
    pub open spec fn named(name: Seq<char>) -> DevicePairState {
        if name == "(unavailable)"@ {
            DevicePairState::Unavailable
        } else if name == "(active, disconnected)"@ {
            DevicePairState::ActiveDisconnected
        } else {
            DevicePairState::Unknown
        }
    }

    /// Reads a pair state token of `simctl`; a token that it does not know
    /// gives [`DevicePairState::Unknown`].
    pub fn from_name(name: &str) -> (r: DevicePairState)
        ensures
            r == DevicePairState::named(name@),
    {
        if same_text(name, "(unavailable)") {
            DevicePairState::Unavailable
        } else if same_text(name, "(active, disconnected)") {
            DevicePairState::ActiveDisconnected
        } else {
            DevicePairState::Unknown
        }
    }
}

/// Reading the token of a known device state gives that state back.
pub proof fn lemma_device_state_round_trip(s: DeviceState)
    requires
        s != DeviceState::Unknown,
    ensures
        DeviceState::named(s.token()) == s,
{
    reveal_strlit("Booted");
    reveal_strlit("Shutdown");
    assert("Booted"@.len() == 6 && "Shutdown"@.len() == 8);
    match s {
        DeviceState::Booted => {},
        DeviceState::Shutdown => {},
        DeviceState::Unknown => {},
    }
}

/// Reading the token of a known pair state gives that state back.
pub proof fn lemma_pair_state_round_trip(s: DevicePairState)
    requires
        s != DevicePairState::Unknown,
    ensures
        DevicePairState::named(s.token()) == s,
{
    reveal_strlit("(unavailable)");
    reveal_strlit("(active, disconnected)");
    assert("(unavailable)"@.len() == 13 && "(active, disconnected)"@.len() == 22);
    match s {
        DevicePairState::Unavailable => {},
        DevicePairState::ActiveDisconnected => {},
        DevicePairState::Unknown => {},
    }
}

/// Information about a device type.
#[derive(Clone, Debug, PartialEq, Eq)]
pub struct DeviceType {
    /// The oldest runtime version that this device type supports.
    pub min_runtime_version: usize,
    /// The newest runtime version that this device type supports.
    pub max_runtime_version: usize,
    /// Path to the bundle of this device type.
    pub bundle_path: String,
    /// Human-readable name of this device type.
    pub name: String,
    /// Unique identifier of this device type.
    pub identifier: String,
    /// Machine-readable name of the product family of this device type.
    pub product_family: String,
}

/// Information about a runtime.
#[derive(Clone, Debug, PartialEq, Eq)]
pub struct Runtime {
    /// Path to the bundle of this runtime.
    pub bundle_path: String,
    /// Build version of this runtime.
    pub build_version: String,
    /// Root directory of this runtime.
    pub runtime_root: String,
    /// Unique identifier of this runtime.
    pub identifier: String,
    /// Human-readable version of this runtime.
    pub version: String,
    /// Whether this runtime is available. A runtime registered by an older
    /// Xcode whose bundle is gone stays listed, but cannot boot a device.
    pub is_available: bool,
    /// Human-readable name of this runtime.
    pub name: String,
}

/// Information about a device.
#[derive(Debug, PartialEq, Eq)]
pub struct DeviceInfo {
    /// Identifier of the runtime that the device runs. The listing does not
    /// hold it per device: it groups devices by runtime, and a refresh copies
    /// the group's key here.
    pub runtime_identifier: String,
    /// Why the device is unavailable, where it is.
    pub availability_error: Option<String>,
    /// Path where application data is stored.
    pub data_path: String,
    /// Path where logs are written.
    pub log_path: String,
    /// Unique identifier of this device.
    pub udid: String,
    /// Whether this device is available.
    pub is_available: bool,
    /// Identifier of the device type; empty where that type has since been
    /// removed from Xcode.
    pub device_type_identifier: String,
    /// State of this device.
    pub state: DeviceState,
    /// Name of this device.
    pub name: String,
}

impl Clone for DeviceInfo {
    fn clone(&self) -> (r: DeviceInfo)
        ensures
            r == *self,
    {
        let availability_error = match &self.availability_error {
            Some(e) => Some(e.clone()),
            None => None,
        };
        DeviceInfo {
            runtime_identifier: self.runtime_identifier.clone(),
            availability_error,
            data_path: self.data_path.clone(),
            log_path: self.log_path.clone(),
            udid: self.udid.clone(),
            is_available: self.is_available,
            device_type_identifier: self.device_type_identifier.clone(),
            state: self.state,
            name: self.name.clone(),
        }
    }
}

impl DeviceInfo {
    /// This record with `runtime` as its runtime identifier.
    pub open spec fn with_runtime(self, runtime: String) -> DeviceInfo {
        DeviceInfo {
            runtime_identifier: runtime,
            availability_error: self.availability_error,
            data_path: self.data_path,
            log_path: self.log_path,
            udid: self.udid,
            is_available: self.is_available,
            device_type_identifier: self.device_type_identifier,
            state: self.state,
            name: self.name,
        }
    }
}

/// Short summary of a device that is part of a device pair.
#[derive(Debug, PartialEq, Eq)]
pub struct DeviceSummary {
    /// Name of this device.
    pub name: String,
    /// Unique identifier of this device.
    pub udid: String,
    /// State of this device.
    pub state: DeviceState,
}

impl Clone for DeviceSummary {
    fn clone(&self) -> (r: DeviceSummary)
        ensures
            r == *self,
    {
        DeviceSummary { name: self.name.clone(), udid: self.udid.clone(), state: self.state }
    }
}

/// Information about a device pair.
#[derive(Debug, PartialEq, Eq)]
pub struct DevicePair {
    /// Identifier of this pair. The listing holds pairs by identifier, and a
    /// refresh copies the key here.
    pub udid: String,
    /// Summary of the watch.
    pub watch: DeviceSummary,
    /// Summary of the phone.
    pub phone: DeviceSummary,
    /// State of this pair.
    pub state: DevicePairState,
}

impl Clone for DevicePair {
    fn clone(&self) -> (r: DevicePair)
        ensures
            r == *self,
    {
        DevicePair {
            udid: self.udid.clone(),
            watch: self.watch.clone(),
            phone: self.phone.clone(),
            state: self.state,
        }
    }
}

impl DevicePair {
    /// This pair with `udid` as its identifier.
    pub open spec fn with_udid(self, udid: String) -> DevicePair {
        DevicePair { udid, watch: self.watch, phone: self.phone, state: self.state }
    }
}

/// The document that `simctl list -j` writes, as it groups its records:
/// devices under the identifier of their runtime, pairs under their own
/// identifier. Group and entry order is kept. The document holds both as
/// maps, so a decoded listing has [`ListOutput::keys_unique`].
#[derive(Debug)]
pub struct ListOutput {
    pub device_types: Vec<DeviceType>,
    pub runtimes: Vec<Runtime>,
    pub devices: Vec<(String, Vec<DeviceInfo>)>,
    pub pairs: Vec<(String, DevicePair)>,
}

impl ListOutput {
    /// No two groups of devices have the same runtime key, and no two pairs
    /// the same key.
    pub open spec fn keys_unique(self) -> bool {
        &&& forall|i: int, j: int|
            0 <= i < j < self.devices@.len() ==> self.devices@[i].0@ != self.devices@[j].0@
        &&& forall|i: int, j: int|
            0 <= i < j < self.pairs@.len() ==> self.pairs@[i].0@ != self.pairs@[j].0@
    }
}

/// The devices that a refresh makes of one group of the listing: each record
/// of the group, with the group's key as its runtime identifier.
pub open spec fn group_devices(simctl: Simctl, group: (String, Vec<DeviceInfo>)) -> Seq<Device> {
    group.1@.map_values(|info: DeviceInfo| Device { simctl, info: info.with_runtime(group.0) })
}

/// The devices that a refresh makes of the groups of the listing, group after
/// group.
pub open spec fn listed_devices(simctl: Simctl, groups: Seq<(String, Vec<DeviceInfo>)>) -> Seq<Device>
    decreases groups.len(),
{
    if groups.len() == 0 {
        Seq::empty()
    } else {
        listed_devices(simctl, groups.drop_last()) + group_devices(simctl, groups.last())
    }
}

/// The pairs that a refresh makes of the listing: each with its key as its
/// identifier.
pub open spec fn listed_pairs(pairs: Seq<(String, DevicePair)>) -> Seq<DevicePair> {
    pairs.map_values(|p: (String, DevicePair)| p.1.with_udid(p.0))
}

/// Each device that a refresh makes of the listing `groups` is a record that
/// the listing held in some group, with that group's key as its runtime
/// identifier; and each record of each group is among them.
pub proof fn lemma_devices_carry_group_key(simctl: Simctl, groups: Seq<(String, Vec<DeviceInfo>)>)
    ensures
        forall|k: int|
            0 <= k < listed_devices(simctl, groups).len() ==> exists|g: int, j: int|
                0 <= g < groups.len() && 0 <= j < groups[g].1@.len() && #[trigger] listed_devices(
                    simctl,
                    groups,
                )[k] == (Device { simctl, info: groups[g].1@[j].with_runtime(groups[g].0) }),
        forall|g: int, j: int|
            0 <= g < groups.len() && 0 <= j < groups[g].1@.len() ==> #[trigger] listed_devices(
                simctl,
                groups,
            ).contains(Device { simctl, info: groups[g].1@[j].with_runtime(groups[g].0) }),
    decreases groups.len(),
{
    if groups.len() > 0 {
        let init = groups.drop_last();
        let last = groups.last();
        let before = listed_devices(simctl, init);
        let all = listed_devices(simctl, groups);
        lemma_devices_carry_group_key(simctl, init);
        assert(all == before + group_devices(simctl, last));
        assert forall|k: int| 0 <= k < all.len() implies exists|g: int, j: int|
            0 <= g < groups.len() && 0 <= j < groups[g].1@.len() && #[trigger] all[k] == (Device {
                simctl,
                info: groups[g].1@[j].with_runtime(groups[g].0),
            }) by {
            if k < before.len() {
                assert(before[k] == all[k]);
                let (g, j) = choose|g: int, j: int|
                    0 <= g < init.len() && 0 <= j < init[g].1@.len() && #[trigger] before[k] == (
                    Device { simctl, info: init[g].1@[j].with_runtime(init[g].0) });
                assert(init[g] == groups[g]);
            } else {
                let g = groups.len() - 1;
                let j = k - before.len();
                assert(all[k] == group_devices(simctl, last)[j]);
                assert(groups[g] == last);
            }
        }
        assert forall|g: int, j: int| 0 <= g < groups.len() && 0 <= j < groups[g].1@.len() implies #[trigger] all.contains(
            Device { simctl, info: groups[g].1@[j].with_runtime(groups[g].0) },
        ) by {
            let d = Device { simctl, info: groups[g].1@[j].with_runtime(groups[g].0) };
            if g < groups.len() - 1 {
                assert(init[g] == groups[g]);
                assert(before.contains(d));
                let k = choose|k: int| 0 <= k < before.len() && before[k] == d;
                assert(all[k] == d);
            } else {
                assert(groups[g] == last);
                assert(all[before.len() + j] == group_devices(simctl, last)[j]);
                assert(all[before.len() + j] == d);
            }
        }
    }
}

/// Each pair that a refresh makes of the listing carries its own key as its
/// identifier, and is otherwise the record that the listing held.
pub proof fn lemma_pairs_carry_key(pairs: Seq<(String, DevicePair)>)
    ensures
        listed_pairs(pairs).len() == pairs.len(),
        forall|k: int|
            0 <= k < pairs.len() ==> #[trigger] listed_pairs(pairs)[k] == pairs[k].1.with_udid(
                pairs[k].0,
            ) && listed_pairs(pairs)[k].udid == pairs[k].0,
{
}

/// In a listing with unique keys, the pairs that a refresh makes have
/// distinct identifiers.
pub proof fn lemma_pair_ids_unique(output: ListOutput)
    requires
        output.keys_unique(),
    ensures
        forall|i: int, j: int|
            0 <= i < j < listed_pairs(output.pairs@).len() ==> #[trigger] listed_pairs(output.pairs@)[i].udid@
                != #[trigger] listed_pairs(output.pairs@)[j].udid@,
{
    lemma_pairs_carry_key(output.pairs@);
}

/// A device record of the listing reaches the snapshot with the state that
/// the listing gave it: a listing taken after a device booted (or shut down)
/// shows it so.
pub proof fn lemma_listed_state(simctl: Simctl, groups: Seq<(String, Vec<DeviceInfo>)>, g: int, j: int)
    requires
        0 <= g < groups.len(),
        0 <= j < groups[g].1@.len(),
    ensures
        exists|k: int|
            0 <= k < listed_devices(simctl, groups).len() && #[trigger] listed_devices(simctl, groups)[k].info.udid
                == groups[g].1@[j].udid && listed_devices(simctl, groups)[k].info.state
                == groups[g].1@[j].state,
{
    lemma_devices_carry_group_key(simctl, groups);
    let d = Device { simctl, info: groups[g].1@[j].with_runtime(groups[g].0) };
    assert(listed_devices(simctl, groups).contains(d));
    let k = choose|k: int| 0 <= k < listed_devices(simctl, groups).len() && listed_devices(simctl, groups)[k] == d;
    assert(listed_devices(simctl, groups)[k].info.udid == groups[g].1@[j].udid);
}

/// Snapshot of everything that `simctl list` reported at one moment: device
/// types, runtimes, devices and device pairs. It is not kept up to date; call
/// [`List::refresh`] with a newer listing.
#[derive(Debug)]
pub struct List {
    pub simctl: Simctl,
    pub device_types: Vec<DeviceType>,
    pub runtimes: Vec<Runtime>,
    pub devices: Vec<Device>,
    pub pairs: Vec<DevicePair>,
}

/// Makes the devices of all groups of the listing.
fn flatten_devices(simctl: &Simctl, groups: &Vec<(String, Vec<DeviceInfo>)>) -> (r: Vec<Device>)
    ensures
        r@ == listed_devices(*simctl, groups@),
{
    let mut r: Vec<Device> = Vec::new();
    let mut i: usize = 0;
    while i < groups.len()
        invariant
            i <= groups@.len(),
            r@ == listed_devices(*simctl, groups@.take(i as int)),
        decreases groups@.len() - i,
    {
        let group = &groups[i];
        let mut j: usize = 0;
        while j < group.1.len()
            invariant
                i < groups@.len(),
                *group == groups@[i as int],
                j <= group.1@.len(),
                r@ == listed_devices(*simctl, groups@.take(i as int)) + group_devices(
                    *simctl,
                    *group,
                ).take(j as int),
            decreases group.1@.len() - j,
        {
            let mut info = group.1[j].clone();
            info.runtime_identifier = group.0.clone();
            let device = Device::new(simctl.clone(), info);
            proof {
                assert(device == group_devices(*simctl, *group)[j as int]);
                assert(group_devices(*simctl, *group).take(j + 1) =~= group_devices(
                    *simctl,
                    *group,
                ).take(j as int).push(device));
            }
            r.push(device);
            j += 1;
        }
        proof {
            assert(group_devices(*simctl, *group).take(j as int) =~= group_devices(*simctl, *group));
            assert(groups@.take(i + 1).drop_last() =~= groups@.take(i as int));
        }
        i += 1;
    }
    proof {
        assert(groups@.take(groups@.len() as int) =~= groups@);
    }
    r
}

/// Makes the pairs of the listing, each with its key as its identifier.
fn keyed_pairs(pairs: &Vec<(String, DevicePair)>) -> (r: Vec<DevicePair>)
    ensures
        r@ == listed_pairs(pairs@),
{
    let mut r: Vec<DevicePair> = Vec::new();
    let mut i: usize = 0;
    while i < pairs.len()
        invariant
            i <= pairs@.len(),
            r@ == listed_pairs(pairs@).take(i as int),
        decreases pairs@.len() - i,
    {
        let mut pair = pairs[i].1.clone();
        pair.udid = pairs[i].0.clone();
        proof {
            assert(listed_pairs(pairs@).take(i + 1) =~= listed_pairs(pairs@).take(i as int).push(
                pair,
            ));
        }
        r.push(pair);
        i += 1;
    }
    proof {
        assert(listed_pairs(pairs@).take(pairs@.len() as int) =~= listed_pairs(pairs@));
    }
    r
}

impl List {
    /// This snapshot holds what `output` reports: its device types and
    /// runtimes as they are, its devices flattened group after group with
    /// each group's key as their runtime identifier, and its pairs with
    /// their keys as identifiers.
    pub open spec fn reflects(self, output: ListOutput) -> bool {
        &&& self.device_types@ == output.device_types@
        &&& self.runtimes@ == output.runtimes@
        &&& self.devices@ == listed_devices(self.simctl, output.devices@)
        &&& self.pairs@ == listed_pairs(output.pairs@)
    }

    /// Replaces the whole snapshot with what a newer listing reports.
    pub fn refresh(&mut self, output: ListOutput)
        ensures
            final(self).simctl == old(self).simctl,
            final(self).reflects(output),
    {
        let devices = flatten_devices(&self.simctl, &output.devices);
        let pairs = keyed_pairs(&output.pairs);
        self.device_types = output.device_types;
        self.runtimes = output.runtimes;
        self.devices = devices;
        self.pairs = pairs;
    }

    /// Returns all device types that have been registered with `simctl`.
    pub fn device_types(&self) -> (r: &[DeviceType])
        ensures
            r@ == self.device_types@,
    {
        self.device_types.as_slice()
    }

    /// Returns all runtimes that have been registered with `simctl`.
    pub fn runtimes(&self) -> (r: &[Runtime])
        ensures
            r@ == self.runtimes@,
    {
        self.runtimes.as_slice()
    }

    /// Returns all devices that have been registered with `simctl`.
    pub fn devices(&self) -> (r: &[Device])
        ensures
            r@ == self.devices@,
    {
        self.devices.as_slice()
    }

    /// Returns all device pairs that have been registered with `simctl`.
    pub fn pairs(&self) -> (r: &[DevicePair])
        ensures
            r@ == self.pairs@,
    {
        self.pairs.as_slice()
    }
}

impl Simctl {
    /// Returns the call that makes `simctl` write its listing as JSON.
    pub fn list_command(&self) -> (r: Invocation)
        ensures
            self.runs(r, seq!["list"@, "-j"@]),
    {
        let mut inv = self.command("list");
        inv.arg("-j");
        proof {
            assert(inv.arg_texts() =~= seq!["list"@, "-j"@]);
        }
        inv
    }

    /// Returns the snapshot of everything that the listing `output` reports.
    pub fn list(&self, output: ListOutput) -> (r: List)
        ensures
            r.simctl == *self,
            r.reflects(output),
    {
        let mut list = List {
            simctl: self.clone(),
            device_types: Vec::new(),
            runtimes: Vec::new(),
            devices: Vec::new(),
            pairs: Vec::new(),
        };
        list.refresh(output);
        list
    }
}

} // verus!
