use video_clipper::simctl::{booted_simulators, get_ios_simulators, SimRuntime, SimctlDevice, SimctlOutput};

fn dev(name: &str, udid: &str, state: &str, avail: Option<bool>) -> SimctlDevice {
    SimctlDevice { state: state.to_string(), name: name.to_string(), udid: udid.to_string(), is_available: avail }
}

#[test]
fn test_list_simulators() {
    // Without the simulator tools (or a readable listing) there are none.
    let sims = get_ios_simulators(None);
    println!("TEST_SIMS: {:?}", sims);
    assert!(sims.is_empty());
}

#[test]
fn booted_available_simulators_are_offered() {
    let listing = SimctlOutput {
        devices: vec![
            SimRuntime {
                runtime: "com.apple.CoreSimulator.SimRuntime.iOS-17-0".to_string(),
                devices: vec![
                    dev("iPhone 15", "U1", "Booted", Some(true)),
                    dev("iPhone 14", "U2", "Shutdown", Some(true)),
                    dev("iPad", "U3", "Booted", Some(false)),
                ],
            },
            SimRuntime {
                runtime: "com.apple.CoreSimulator.SimRuntime.iOS-16-4".to_string(),
                devices: vec![dev("iPhone SE", "U4", "Booted", None)],
            },
        ],
    };
    let sims = booted_simulators(&listing);
    assert_eq!(sims.len(), 2);
    assert_eq!(sims[0].name, "U1");
    assert_eq!(sims[0].display_name, "iPhone 15");
    assert_eq!(sims[0].state, "device");
    assert_eq!(sims[0].platform, "ios");
    assert_eq!(sims[1].name, "U4");
    let again = get_ios_simulators(Some(listing));
    assert_eq!(again.len(), 2);
}

#[test]
fn state_must_match_exactly() {
    let listing = SimctlOutput {
        devices: vec![SimRuntime { runtime: "r".to_string(), devices: vec![dev("a", "U", "booted", None)] }],
    };
    assert!(booted_simulators(&listing).is_empty());
}
