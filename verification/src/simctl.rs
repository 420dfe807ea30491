//! Booted iOS simulators, from the device listing of `xcrun simctl list
//! devices -j` once it has been read into plain values.

use vstd::prelude::*;

use crate::device::{device_views, Device, DeviceView};

verus! {

/// One simulator as `simctl` describes it.
#[derive(Debug, Clone)]
pub struct SimctlDevice {
    pub state: String,
    pub name: String,
    pub udid: String,
    pub is_available: Option<bool>,
}

/// The simulators of one runtime.
#[derive(Debug, Clone)]
pub struct SimRuntime {
    pub runtime: String,
    pub devices: Vec<SimctlDevice>,
}

/// The whole listing: the runtimes, in the order in which they were read.
#[derive(Debug, Clone)]
pub struct SimctlOutput {
    pub devices: Vec<SimRuntime>,
}

/// The mathematical content of a [`SimctlDevice`].
pub struct SimctlDeviceView {
    pub state: Seq<char>,
    pub name: Seq<char>,
    pub udid: Seq<char>,
    pub is_available: Option<bool>,
}

impl View for SimctlDevice {
    type V = SimctlDeviceView;

    open spec fn view(&self) -> SimctlDeviceView {
        SimctlDeviceView {
            state: self.state@,
            name: self.name@,
            udid: self.udid@,
            is_available: self.is_available,
        }
    }
}

/// The views of a runtime's simulators.
pub open spec fn sim_views(v: Seq<SimctlDevice>) -> Seq<SimctlDeviceView> {
    v.map_values(|d: SimctlDevice| d@)
}

/// A simulator is offered for recording when it is booted and not marked
/// unavailable (a missing availability counts as available).
pub open spec fn offered(d: SimctlDeviceView) -> bool {
    d.state == "Booted"@ && d.is_available != Some(false)
}

/// The device entry for an offered simulator.
pub open spec fn simulator_device(d: SimctlDeviceView) -> DeviceView {
    DeviceView { name: d.udid, state: "device"@, display_name: d.name, platform: "ios"@ }
}

/// The offered simulators among `ds`, in order.
pub open spec fn offered_devices(ds: Seq<SimctlDeviceView>) -> Seq<DeviceView>
    decreases ds.len(),
{
    if ds.len() == 0 {
        Seq::empty()
    } else {
        let prev = offered_devices(ds.drop_last());
        if offered(ds.last()) {
            prev.push(simulator_device(ds.last()))
        } else {
            prev
        }
    }
}

/// The offered simulators of runtimes `0 .. k`, runtime by runtime.
pub open spec fn offered_upto(rs: Seq<SimRuntime>, k: int) -> Seq<DeviceView>
    decreases k,
{
    if k <= 0 {
        Seq::empty()
    } else {
        offered_upto(rs, k - 1) + offered_devices(sim_views(rs[k - 1].devices@))
    }
}

/// The offered simulators of a listing.
pub open spec fn listing_devices(listing: SimctlOutput) -> Seq<DeviceView> {
    offered_upto(listing.devices@, listing.devices@.len() as int)
}

/// The device entries for the booted, available simulators of `ds`.
fn offered_devices_of(ds: &Vec<SimctlDevice>) -> (r: Vec<Device>)
    ensures
        device_views(r@) == offered_devices(sim_views(ds@)),
{
    let mut r: Vec<Device> = Vec::new();
    let booted = String::from_str("Booted");
    let mut i: usize = 0;
    assert(sim_views(ds@).take(0) =~= Seq::<SimctlDeviceView>::empty());
    while i < ds.len()
        invariant
            i <= ds@.len(),
            booted@ == "Booted"@,
            device_views(r@) == offered_devices(sim_views(ds@).take(i as int)),
        decreases ds@.len() - i,
    {
        let d = &ds[i];
        assert(sim_views(ds@).take(i + 1).drop_last() =~= sim_views(ds@).take(i as int));
        assert(sim_views(ds@).take(i + 1).last() == d@);
        let available = match d.is_available {
            Some(a) => a,
            None => true,
        };
        if d.state == booted && available {
            let ghost before = r@;
            r.push(
                Device {
                    name: d.udid.clone(),
                    state: String::from_str("device"),
                    display_name: d.name.clone(),
                    platform: String::from_str("ios"),
                },
            );
            assert(device_views(r@) =~= device_views(before).push(simulator_device(d@)));
        }
        i = i + 1;
    }
    assert(sim_views(ds@).take(ds@.len() as int) =~= sim_views(ds@));
    r
}

/// The booted, available simulators of a listing, runtime by runtime.
pub fn booted_simulators(listing: &SimctlOutput) -> (r: Vec<Device>)
    ensures
        device_views(r@) == listing_devices(*listing),
{
    let mut r: Vec<Device> = Vec::new();
    let mut k: usize = 0;
    while k < listing.devices.len()
        invariant
            k <= listing.devices@.len(),
            device_views(r@) == offered_upto(listing.devices@, k as int),
        decreases listing.devices@.len() - k,
    {
        let mut found = offered_devices_of(&listing.devices[k].devices);
        let ghost before = r@;
        let ghost added = found@;
        r.append(&mut found);
        assert(device_views(r@) =~= device_views(before) + device_views(added));
        k = k + 1;
    }
    r
}

/// The simulators offered for recording, given the listing when the tools
/// were found, ran and printed a readable listing, and `None` otherwise.
pub fn get_ios_simulators(listing: Option<SimctlOutput>) -> (r: Vec<Device>)
    ensures
        device_views(r@) == match listing {
            Some(l) => listing_devices(l),
            None => Seq::<DeviceView>::empty(),
        },
{
    match listing {
        Some(l) => booted_simulators(&l),
        None => {
            let r: Vec<Device> = Vec::new();
            assert(device_views(r@) =~= Seq::<DeviceView>::empty());
            r
        },
    }
}

} // verus!
