//! A single device known to `simctl`.
use vstd::prelude::*;

use crate::list::DeviceInfo;
use crate::process::Invocation;
use crate::simctl::Simctl;

verus! {

/// A device returned by `simctl`, together with the `simctl` that listed it.
#[derive(Debug)]
pub struct Device {
    pub simctl: Simctl,
    pub info: DeviceInfo,
}

impl Clone for Device {
    fn clone(&self) -> (r: Device)
        ensures
            r == *self,
    {
        Device { simctl: self.simctl.clone(), info: self.info.clone() }
    }
}

impl Device {
    /// The device described by `info`, reached through `simctl`.
    pub fn new(simctl: Simctl, info: DeviceInfo) -> (r: Device)
        ensures
            r.simctl == simctl,
            r.info == info,
    {
        Device { simctl, info }
    }

    /// Returns the `simctl` that was used to retrieve this device.
    pub fn simctl(&self) -> (r: &Simctl)
        ensures
            *r == self.simctl,
    {
        &self.simctl
    }

    /// Returns a call of the `simctl` subcommand `name` on this device.
    pub(crate) fn subcommand(&self, name: &str) -> (r: Invocation)
        ensures
            self.simctl.runs(r, seq![name@, self.info.udid@]),
    {
        let mut inv = self.simctl.command(name);
        inv.arg(self.info.udid.as_str());
        proof {
            assert(inv.arg_texts() =~= seq![name@, self.info.udid@]);
        }
        inv
    }

    /// Returns information about this device.
    pub fn info(&self) -> (r: &DeviceInfo)
        ensures
            *r == self.info,
    {
        &self.info
    }
}

/// The devices that the references point to.
pub open spec fn derefs(s: Seq<&Device>) -> Seq<Device> {
    Seq::new(s.len(), |i: int| *s[i])
}

/// Holds of the available devices.
pub open spec fn available_filter() -> spec_fn(Device) -> bool {
    |d: Device| d.info.is_available
}

/// Holds of the devices named `name`.
pub open spec fn name_filter(name: Seq<char>) -> spec_fn(Device) -> bool {
    |d: Device| d.info.name@ == name
}

/// Filters a sequence of devices by availability or name. Names are not
/// unique: devices of one type with different runtimes (e.g. iOS 11.0 and
/// iOS 12.0) share them.
pub trait DeviceQuery<'a>: Sized {
    /// The devices that the query runs over, in order.
    spec fn candidates(&self) -> Seq<Device>;

    /// Keeps the available devices.
    fn available(self) -> (r: Available<'a>)
        ensures
            r.remaining() == self.candidates().filter(available_filter()),
    ;

    /// Keeps the devices named `name`.
    fn by_name(self, name: &str) -> (r: ByName<'a>)
        ensures
            r.remaining() == self.candidates().filter(name_filter(name@)),
    ;
}

/// The devices of `devices` from position `from` on.
pub open spec fn rest(devices: Seq<&Device>, from: int) -> Seq<Device> {
    if from < devices.len() {
        derefs(devices).skip(from)
    } else {
        Seq::empty()
    }
}

/// The available devices of a query, handed out in order by `next`.
pub struct Available<'a> {
    pub devices: Vec<&'a Device>,
    pub pos: usize,
}

/// The devices of a query with a given name, handed out in order by `next`.
pub struct ByName<'a> {
    pub devices: Vec<&'a Device>,
    pub pos: usize,
}

/// Keeps the devices from position `from` on that `keep` holds of, where
/// `keep` holds of the available devices or of those named `name`.
fn keep_devices<'a>(devices: &Vec<&'a Device>, from: usize, name: Option<&str>) -> (r: Vec<&'a Device>)
    ensures
        derefs(r@) == rest(devices@, from as int).filter(
            match name {
                Some(n) => name_filter(n@),
                None => available_filter(),
            },
        ),
{
    let ghost keep = match name {
        Some(n) => name_filter(n@),
        None => available_filter(),
    };
    let mut r: Vec<&'a Device> = Vec::new();
    let mut i: usize = from;
    if i > devices.len() {
        i = devices.len();
    }
    let ghost start = i as int;
    proof {
        assert(rest(devices@, from as int) =~= derefs(devices@).subrange(start, devices@.len() as int));
        assert(derefs(devices@).subrange(start, start) =~= Seq::<Device>::empty());
    }
    while i < devices.len()
        invariant
            0 <= start <= i <= devices@.len(),
            derefs(r@) == derefs(devices@).subrange(start, i as int).filter(keep),
            keep == (match name {
                Some(n) => name_filter(n@),
                None => available_filter(),
            }),
        decreases devices@.len() - i,
    {
        let d = devices[i];
        let hit = match name {
            Some(n) => crate::text::same_text(d.info.name.as_str(), n),
            None => d.info.is_available,
        };
        proof {
            assert(derefs(devices@).len() == devices@.len());
            assert(derefs(devices@)[i as int] == *d);
            assert(derefs(devices@).subrange(start, i + 1).drop_last() =~= derefs(devices@).subrange(
                start,
                i as int,
            ));
            assert(hit == keep(*d));
        }
        let ghost before = r@;
        if hit {
            r.push(d);
            proof {
                assert(derefs(before).len() == before.len());
                assert(derefs(r@) =~= derefs(before).push(*d));
            }
        }
        proof {
            let upto = derefs(devices@).subrange(start, i + 1);
            reveal(Seq::filter);
            assert(upto.last() == *d);
            assert(upto.filter(keep) == (if keep(*d) {
                upto.drop_last().filter(keep).push(*d)
            } else {
                upto.drop_last().filter(keep)
            }));
        }
        i += 1;
    }
    r
}

impl<'a> Available<'a> {
    /// The devices that are still to come.
    pub open spec fn remaining(&self) -> Seq<Device> {
        rest(self.devices@, self.pos as int)
    }

    /// Hands out the next device, or `None` where none is left.
    pub fn next(&mut self) -> (r: Option<&'a Device>)
        ensures
            old(self).remaining().len() == 0 ==> r is None && final(self).remaining().len() == 0,
            old(self).remaining().len() > 0 ==> (r matches Some(d) && *d == old(self).remaining()[0]
                && final(self).remaining() == old(self).remaining().drop_first()),
    {
        if self.pos < self.devices.len() {
            let d = self.devices[self.pos];
            self.pos += 1;
            proof {
                assert(self.remaining() =~= old(self).remaining().drop_first());
            }
            Some(d)
        } else {
            None
        }
    }
}

impl<'a> ByName<'a> {
    /// The devices that are still to come.
    pub open spec fn remaining(&self) -> Seq<Device> {
        rest(self.devices@, self.pos as int)
    }

    /// Hands out the next device, or `None` where none is left.
    pub fn next(&mut self) -> (r: Option<&'a Device>)
        ensures
            old(self).remaining().len() == 0 ==> r is None && final(self).remaining().len() == 0,
            old(self).remaining().len() > 0 ==> (r matches Some(d) && *d == old(self).remaining()[0]
                && final(self).remaining() == old(self).remaining().drop_first()),
    {
        if self.pos < self.devices.len() {
            let d = self.devices[self.pos];
            self.pos += 1;
            proof {
                assert(self.remaining() =~= old(self).remaining().drop_first());
            }
            Some(d)
        } else {
            None
        }
    }
}

/// References to each device of `devices`, in order.
fn refs<'a>(devices: &'a [Device]) -> (r: Vec<&'a Device>)
    ensures
        derefs(r@) == devices@,
{
    let mut r: Vec<&'a Device> = Vec::new();
    let mut i: usize = 0;
    while i < devices.len()
        invariant
            i <= devices@.len(),
            derefs(r@) == devices@.take(i as int),
        decreases devices@.len() - i,
    {
        let d = &devices[i];
        assert(*d == devices@[i as int]);
        let ghost before = r@;
        r.push(d);
        proof {
            assert(derefs(before).len() == before.len());
            assert(derefs(r@).len() == i + 1);
            assert(derefs(r@)[i as int] == *d);
            assert(derefs(r@) =~= devices@.take(i + 1));
        }
        i += 1;
    }
    proof {
        assert(devices@.take(devices@.len() as int) =~= devices@);
    }
    r
}

impl<'a> DeviceQuery<'a> for &'a [Device] {
    open spec fn candidates(&self) -> Seq<Device> {
        self@
    }

    fn available(self) -> (r: Available<'a>) {
        let all = refs(self);
        proof {
            assert(rest(all@, 0) =~= self@);
        }
        Available { devices: keep_devices(&all, 0, None), pos: 0 }
    }

    fn by_name(self, name: &str) -> (r: ByName<'a>) {
        let all = refs(self);
        proof {
            assert(rest(all@, 0) =~= self@);
        }
        ByName { devices: keep_devices(&all, 0, Some(name)), pos: 0 }
    }
}

impl<'a> DeviceQuery<'a> for Available<'a> {
    open spec fn candidates(&self) -> Seq<Device> {
        self.remaining()
    }

    fn available(self) -> (r: Available<'a>) {
        let devices = keep_devices(&self.devices, self.pos, None);
        proof {
            assert(rest(devices@, 0) =~= derefs(devices@));
        }
        Available { devices, pos: 0 }
    }

    fn by_name(self, name: &str) -> (r: ByName<'a>) {
        let devices = keep_devices(&self.devices, self.pos, Some(name));
        proof {
            assert(rest(devices@, 0) =~= derefs(devices@));
        }
        ByName { devices, pos: 0 }
    }
}

impl<'a> DeviceQuery<'a> for ByName<'a> {
    open spec fn candidates(&self) -> Seq<Device> {
        self.remaining()
    }

    fn available(self) -> (r: Available<'a>) {
        let devices = keep_devices(&self.devices, self.pos, None);
        proof {
            assert(rest(devices@, 0) =~= derefs(devices@));
        }
        Available { devices, pos: 0 }
    }

    fn by_name(self, name: &str) -> (r: ByName<'a>) {
        let devices = keep_devices(&self.devices, self.pos, Some(name));
        proof {
            assert(rest(devices@, 0) =~= derefs(devices@));
        }
        ByName { devices, pos: 0 }
    }
}

} // verus!
