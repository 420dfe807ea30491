//! Devices that can be recorded, and the status listing the interface shows.

use vstd::prelude::*;

verus! {

/// A device that can be recorded: an ADB connection or a booted simulator.
#[derive(Debug, Clone)]
pub struct Device {
    /// The identifier passed to the tools (ADB serial or address, simulator UDID).
    pub name: String,
    pub state: String,
    pub display_name: String,
    /// `android` or `ios`.
    pub platform: String,
}

/// The mathematical content of a [`Device`].
pub struct DeviceView {
    pub name: Seq<char>,
    pub state: Seq<char>,
    pub display_name: Seq<char>,
    pub platform: Seq<char>,
}

impl View for Device {
    type V = DeviceView;

    open spec fn view(&self) -> DeviceView {
        DeviceView {
            name: self.name@,
            state: self.state@,
            display_name: self.display_name@,
            platform: self.platform@,
        }
    }
}

/// The views of a sequence of devices.
pub open spec fn device_views(v: Seq<Device>) -> Seq<DeviceView> {
    v.map_values(|d: Device| d@)
}

/// Whether a device named `name` is among `devs`.
pub open spec fn listed(devs: Seq<DeviceView>, name: Seq<char>) -> bool {
    exists|i: int| 0 <= i < devs.len() && devs[i].name == name
}

/// No two of `devs` share a name.
pub open spec fn names_distinct(devs: Seq<DeviceView>) -> bool {
    forall|i: int, j: int| 0 <= i < j < devs.len() ==> devs[i].name != devs[j].name
}

/// Whether ADB or the simulator tools are present, and the devices found.
#[derive(Debug, Clone)]
pub struct AdbStatus {
    pub installed: bool,
    pub devices: Vec<Device>,
}

} // verus!
