use video_clipper::command::CommandOutcome;
use video_clipper::pairing::{
    adb_missing, advertised_addresses_of, auto_connect_reply, auto_connected, connect_reply, connect_response,
    disconnect_response, pair_outcome, pair_reply_succeeded, pair_succeeded, paired_response, pairing_host,
};

fn finished(out: &str, err: &str) -> CommandOutcome {
    CommandOutcome::Finished { success: true, stdout: out.as_bytes().to_vec(), stderr: err.as_bytes().to_vec() }
}

#[test]
fn pairing_success_is_read_from_the_reply() {
    assert!(pair_succeeded("Successfully paired to 192.168.1.5:37000 [guid=adb-X]"));
    assert!(pair_succeeded("SUCCESSFULLY done"));
    assert!(!pair_succeeded("Failed: Wrong password or connection was dropped."));
    assert!(pair_reply_succeeded("x", "successfully"));
    assert!(!pair_reply_succeeded("x", "nope"));
}

#[test]
fn pairing_outcomes() {
    assert!(pair_outcome(&finished("Successfully paired to x\n", "")).is_ok());
    let r = pair_outcome(&finished("", "error: protocol fault\n")).unwrap_err();
    assert_eq!(r.error.as_deref(), Some("error: protocol fault\n"));
    let r = pair_outcome(&CommandOutcome::NotStarted { error: "No such file".to_string() }).unwrap_err();
    assert_eq!(r.error.as_deref(), Some("No such file"));
    assert_eq!(adb_missing().error.as_deref(), Some("ADB not installed"));
}

#[test]
fn paired_answers() {
    let r = paired_response(true);
    assert_eq!(r.message, "Successfully paired and auto-connected!");
    assert_eq!(r.data.as_deref(), Some("connected"));
    assert_eq!(r.needs_manual_connect, Some(false));
    let r = paired_response(false);
    assert_eq!(r.message, "Paired successfully, but auto-connect failed. Please enter the main port.");
    assert_eq!(r.data.as_deref(), Some("paired"));
    assert_eq!(r.needs_manual_connect, Some(true));
}

#[test]
fn connecting() {
    let r = connect_response(&finished("connected to 192.168.1.5:5555\n", ""));
    assert!(r.success);
    assert_eq!(r.message, "connected to 192.168.1.5:5555\n");
    assert_eq!(r.data.as_deref(), Some("connected"));
    let r = connect_response(&finished("already connected to x\n", ""));
    assert!(r.success);
    let r = connect_response(&finished("", "failed to connect to 1.2.3.4:5555\n"));
    assert!(!r.success);
    assert_eq!(r.error.as_deref(), Some("failed to connect to 1.2.3.4:5555\n"));
    let r = connect_response(&CommandOutcome::NotStarted { error: "e".to_string() });
    assert_eq!(r.error.as_deref(), Some("e"));
    let r = connect_reply("Connected", "connected");
    assert!(r.success);
}

#[test]
fn disconnecting_always_succeeds_once_run() {
    let r = disconnect_response(&finished("error: no such device\n", ""));
    assert!(r.success);
    assert_eq!(r.message, "Disconnected");
    assert!(r.data.is_none());
    let r = disconnect_response(&CommandOutcome::NotStarted { error: "gone".to_string() });
    assert_eq!(r.error.as_deref(), Some("gone"));
}

#[test]
fn auto_connect_addresses() {
    assert_eq!(pairing_host("192.168.1.5:37000"), "192.168.1.5");
    assert_eq!(pairing_host("host"), "host");
    let mdns = "List of discovered mdns services\n\
adb-X\t_adb-tls-connect._tcp\t192.168.1.5:41000\n\
adb-X\t_adb-tls-pairing._tcp\t192.168.1.5:37000\n\
adb-Y\t_adb-tls-connect._tcp\t192.168.1.9:40000\n";
    assert_eq!(advertised_addresses_of(mdns, "192.168.1.5"), vec!["192.168.1.5:41000"]);
    assert!(advertised_addresses_of(mdns, "10.0.0.1").is_empty());
    assert!(auto_connected(b"connected to 192.168.1.5:41000\n"));
    assert!(auto_connected(b"ALREADY CONNECTED"));
    assert!(!auto_connected(b"failed to connect"));
    assert!(auto_connect_reply("connected"));
}
