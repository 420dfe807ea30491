use video_clipper::adb::{adb_status, android_devices_of, connected_devices_of, get_adb_status, with_paired_of};
use video_clipper::device::Device;

const DEVICES: &str = "List of devices attached\n\
192.168.1.5:5555       device product:redfin model:Pixel_5 device:redfin transport_id:3\n\
adb-1A2B3C4D-xyz._adb-tls-connect._tcp device product:redfin model:Pixel_5 device:redfin transport_id:4\n\
emulator-5554          device product:sdk model:sdk_gphone device:generic transport_id:1\n\
adb-99887766-abc._adb-tls-connect._tcp device product:x model:Galaxy device:y transport_id:5\n\
\n";

const MDNS: &str = "List of discovered mdns services\n\
adb-1A2B3C4D-xyz\t_adb-tls-connect._tcp\t192.168.1.5:37001\n\
adb-XYZ\t_adb-tls-pairing._tcp\t192.168.1.9:40000\n\
adb-55\t_adb-tls-connect._tcp\t192.168.1.7:41000\n";

fn sim(name: &str) -> Device {
    Device {
        name: name.to_string(),
        state: "device".to_string(),
        display_name: "iPhone 15".to_string(),
        platform: "ios".to_string(),
    }
}

fn names(devs: &[Device]) -> Vec<String> {
    devs.iter().map(|d| d.name.clone()).collect()
}

#[test]
fn connected_devices_skip_mdns_duplicate_of_manual_connection() {
    let devs = connected_devices_of(DEVICES);
    assert_eq!(
        names(&devs),
        vec![
            "192.168.1.5:5555",
            "emulator-5554",
            "adb-99887766-abc._adb-tls-connect._tcp"
        ]
    );
    assert_eq!(devs[0].display_name, "192.168.1.5:5555");
    assert_eq!(devs[0].state, "device");
    assert_eq!(devs[0].platform, "android");
    assert_eq!(devs[2].display_name, "99887766 (Wireless)");
}

#[test]
fn header_only_or_empty_output_lists_nothing() {
    assert!(connected_devices_of("").is_empty());
    assert!(connected_devices_of("List of devices attached\n").is_empty());
    assert!(connected_devices_of("List of devices attached\n\n").is_empty());
}

#[test]
fn lines_with_one_word_are_ignored() {
    let devs = connected_devices_of("List of devices attached\nlonely\nserial1 offline\n");
    assert_eq!(names(&devs), vec!["serial1"]);
    assert_eq!(devs[0].state, "offline");
}

#[test]
fn repeated_device_names_are_listed_once() {
    let out = "header\nabc device\nabc unauthorized\nxyz device\nabc device\n";
    let devs = connected_devices_of(out);
    assert_eq!(names(&devs), vec!["abc", "xyz"]);
    assert_eq!(devs[0].state, "device");
}

#[test]
fn crlf_line_endings_are_read() {
    let devs = connected_devices_of("List of devices attached\r\nR58M device usb:1 model:SM_G973F\r\n");
    assert_eq!(names(&devs), vec!["R58M"]);
    assert_eq!(devs[0].state, "device");
}

#[test]
fn mdns_device_without_manual_twin_keeps_short_name() {
    let out = "List\nadb-SERIAL42-Qx._adb-tls-connect._tcp device model:Pixel_7\n";
    let devs = connected_devices_of(out);
    assert_eq!(devs.len(), 1);
    assert_eq!(devs[0].display_name, "SERIAL42 (Wireless)");
}

#[test]
fn mdns_device_is_kept_when_manual_twin_is_not_ready() {
    // The manual connection is offline, so its model does not count.
    let out = "List\n10.0.0.2:5555 offline model:Pixel_7\nadb-S1-q._adb-tls-connect._tcp device model:Pixel_7\n";
    let devs = connected_devices_of(out);
    assert_eq!(names(&devs), vec!["10.0.0.2:5555", "adb-S1-q._adb-tls-connect._tcp"]);
}

#[test]
fn mdns_device_without_model_is_kept() {
    let out = "List\n10.0.0.2:5555 device model:Pixel_7\nadb-S1-q._adb-tls-connect._tcp device\n";
    let devs = connected_devices_of(out);
    assert_eq!(devs.len(), 2);
}

#[test]
fn later_model_attribute_wins() {
    // The mDNS line names Pixel_7 first, then an empty model: the last one wins,
    // so nothing ties it to the manual connection.
    let out = "List\n10.0.0.2:5555 device model:Pixel_7\nadb-S1-q._adb-tls-connect._tcp device model:Pixel_7 model:\n";
    let devs = connected_devices_of(out);
    assert_eq!(devs.len(), 2);
}

#[test]
fn paired_devices_are_added_once() {
    let devs = connected_devices_of(DEVICES);
    let all = with_paired_of(devs, MDNS);
    assert_eq!(
        names(&all),
        vec![
            "192.168.1.5:5555",
            "emulator-5554",
            "adb-99887766-abc._adb-tls-connect._tcp",
            "192.168.1.5:37001",
            "192.168.1.7:41000"
        ]
    );
    assert_eq!(all[3].state, "available (paired)");
    assert_eq!(all[3].display_name, "192.168.1.5:37001");
    assert_eq!(all[4].platform, "android");
}

#[test]
fn paired_device_already_listed_is_not_repeated() {
    let devs = connected_devices_of("List\n192.168.1.7:41000 device\n");
    let all = with_paired_of(devs, MDNS);
    assert_eq!(names(&all), vec!["192.168.1.7:41000", "192.168.1.5:37001"]);
}

#[test]
fn mdns_only_when_devices_listing_ran() {
    assert!(android_devices_of(None, Some(MDNS)).is_empty());
    assert_eq!(android_devices_of(Some(DEVICES), None).len(), 3);
    assert_eq!(android_devices_of(Some(DEVICES), Some(MDNS)).len(), 5);
}

#[test]
fn status_appends_simulators_and_reports_tools() {
    let st = adb_status(true, Some(DEVICES), Some(MDNS), vec![sim("UDID-1")], false);
    assert!(st.installed);
    assert_eq!(st.devices.len(), 6);
    assert_eq!(st.devices[5].name, "UDID-1");

    let st = adb_status(false, Some(DEVICES), Some(MDNS), vec![sim("UDID-1")], true);
    assert!(st.installed);
    assert_eq!(names(&st.devices), vec!["UDID-1"]);

    let st = adb_status(false, None, None, vec![], false);
    assert!(!st.installed);
    assert!(st.devices.is_empty());
}

#[test]
fn status_from_raw_output_bytes() {
    let st = get_adb_status(true, Some(DEVICES.as_bytes().to_vec()), Some(MDNS.as_bytes().to_vec()), vec![], false);
    assert!(st.installed);
    assert_eq!(st.devices.len(), 5);
    // Invalid UTF-8 is repaired, not fatal.
    let mut bytes = b"List\nabc device\n".to_vec();
    bytes.push(0xff);
    let st = get_adb_status(true, Some(bytes), None, vec![], false);
    assert_eq!(names(&st.devices), vec!["abc"]);
}

#[test]
fn listed_names_are_distinct() {
    let out = "h\na device\nb device\na offline\nb device\n";
    let all = with_paired_of(connected_devices_of(out), "x _adb-tls-connect a:1\ny _adb-tls-connect a:1\n");
    let mut seen = std::collections::HashSet::new();
    for d in &all {
        assert!(seen.insert(d.name.clone()));
    }
    assert_eq!(names(&all), vec!["a", "b", "a:1"]);
}
